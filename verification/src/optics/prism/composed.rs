//! The composition of two prisms.

use crate::base::{
    build_through, composes_builds, composes_reads, composes_writes,
    handled_getter_errors_are_modelled, handles_getter_errors, mapping, models_getter_errors,
    read_through, same, write_through, HasGetter, HasReverseGet, HasSetter, HasTotalReverseGet,
};
use crate::optics::prism::wrapper::PrismImpl;
use crate::optics::prism::Prism;
use core::convert::Infallible;
use core::marker::PhantomData;
use vstd::prelude::*;

verus! {

/// Two prisms in a row, with the two functions that turn the read error of either stage
/// into the one error type of the whole, and what each of them computes.
#[verifier::reject_recursive_types(S)]
#[verifier::reject_recursive_types(I)]
#[verifier::reject_recursive_types(A)]
#[verifier::reject_recursive_types(GE)]
struct ComposedPrism<PR1, PR2, F1, F2, GE, S, I, A> where
    PR1: Prism<S, I>,
    PR2: Prism<I, A>,
    F1: Fn(PR1::GetterError) -> GE,
    F2: Fn(PR2::GetterError) -> GE,
 {
    optic1: PR1,
    optic2: PR2,
    getter_error_fn_1: F1,
    getter_error_fn_2: F2,
    getter_error_model_1: Ghost<spec_fn(PR1::GetterError) -> GE>,
    getter_error_model_2: Ghost<spec_fn(PR2::GetterError) -> GE>,
    _phantom: PhantomData<(S, I, A, GE)>,
}

impl<PR1, PR2, F1, F2, GE, S, I, A> ComposedPrism<PR1, PR2, F1, F2, GE, S, I, A> where
    PR1: Prism<S, I>,
    PR2: Prism<I, A>,
    F1: Fn(PR1::GetterError) -> GE,
    F2: Fn(PR2::GetterError) -> GE,
 {
    /// Each mapper does on the errors of its stage what its model says.
    #[verifier::type_invariant]
    spec fn mappers_follow_models(&self) -> bool {
        &&& models_getter_errors(self.optic1, self.getter_error_fn_1, self.getter_error_model_1@)
        &&& models_getter_errors(self.optic2, self.getter_error_fn_2, self.getter_error_model_2@)
    }

    fn new(
        optic1: PR1,
        optic2: PR2,
        getter_error_fn_1: F1,
        getter_error_fn_2: F2,
        getter_error_model_1: Ghost<spec_fn(PR1::GetterError) -> GE>,
        getter_error_model_2: Ghost<spec_fn(PR2::GetterError) -> GE>,
    ) -> (r: Self)
        requires
            models_getter_errors(optic1, getter_error_fn_1, getter_error_model_1@),
            models_getter_errors(optic2, getter_error_fn_2, getter_error_model_2@),
        ensures
            r.optic1 == optic1,
            r.optic2 == optic2,
            r.getter_error_model_1 == getter_error_model_1,
            r.getter_error_model_2 == getter_error_model_2,
    {
        ComposedPrism {
            optic1,
            optic2,
            getter_error_fn_1,
            getter_error_fn_2,
            getter_error_model_1,
            getter_error_model_2,
            _phantom: PhantomData,
        }
    }
}

impl<PR1, PR2, F1, F2, GE, S, I, A> HasGetter<S, A> for ComposedPrism<
    PR1,
    PR2,
    F1,
    F2,
    GE,
    S,
    I,
    A,
> where
    PR1: Prism<S, I>,
    PR2: Prism<I, A>,
    F1: Fn(PR1::GetterError) -> GE,
    F2: Fn(PR2::GetterError) -> GE,
 {
    type GetterError = GE;

    closed spec fn try_get_spec(&self, source: S) -> Result<A, GE> {
        read_through(
            self.optic1,
            self.optic2,
            self.getter_error_model_1@,
            self.getter_error_model_2@,
            source,
        )
    }

    fn try_get(&self, source: &S) -> (r: Result<A, GE>) {
        proof {
            use_type_invariant(self);
        }
        match self.optic1.try_get(source) {
            Err(e) => Err((self.getter_error_fn_1)(e)),
            Ok(i) => match self.optic2.try_get(&i) {
                Err(e) => Err((self.getter_error_fn_2)(e)),
                Ok(a) => Ok(a),
            },
        }
    }
}

impl<PR1, PR2, F1, F2, GE, S, I, A> HasSetter<S, A> for ComposedPrism<
    PR1,
    PR2,
    F1,
    F2,
    GE,
    S,
    I,
    A,
> where
    PR1: Prism<S, I>,
    PR2: Prism<I, A>,
    F1: Fn(PR1::GetterError) -> GE,
    F2: Fn(PR2::GetterError) -> GE,
 {
    closed spec fn set_spec(&self, source: S, value: A) -> S {
        write_through(self.optic1, self.optic2, source, value)
    }

    fn set(&self, source: &mut S, value: A) {
        if let Ok(mut i) = self.optic1.try_get(source) {
            self.optic2.set(&mut i, value);
            self.optic1.set(source, i);
        }
    }
}

impl<PR1, PR2, F1, F2, GE, S, I, A> HasReverseGet<S, A> for ComposedPrism<
    PR1,
    PR2,
    F1,
    F2,
    GE,
    S,
    I,
    A,
> where
    PR1: Prism<S, I>,
    PR2: Prism<I, A>,
    F1: Fn(PR1::GetterError) -> GE,
    F2: Fn(PR2::GetterError) -> GE,
 {
    type ReverseError = Infallible;

    closed spec fn try_reverse_get_spec(&self, value: A) -> Result<S, Infallible> {
        build_through(self.optic1, self.optic2, same(), same(), value)
    }

    fn try_reverse_get(&self, value: &A) -> (r: Result<S, Infallible>) {
        let i = self.optic2.reverse_get(value);
        self.optic1.try_reverse_get(&i)
    }
}

impl<PR1, PR2, F1, F2, GE, S, I, A> HasTotalReverseGet<S, A> for ComposedPrism<
    PR1,
    PR2,
    F1,
    F2,
    GE,
    S,
    I,
    A,
> where
    PR1: Prism<S, I>,
    PR2: Prism<I, A>,
    F1: Fn(PR1::GetterError) -> GE,
    F2: Fn(PR2::GetterError) -> GE,
 {
    proof fn reverse_get_is_total(&self, value: A) {
        self.optic2.reverse_get_is_total(value);
        self.optic1.reverse_get_is_total(self.optic2.try_reverse_get_spec(value)->Ok_0);
    }

    fn reverse_get(&self, value: &A) -> (s: S) {
        let i = self.optic2.reverse_get(value);
        self.optic1.reverse_get(&i)
    }
}

/// Composes two prisms whose error mappers are known by their models `m1` and `m2`.
pub(crate) fn compose<S, A, I, GE, PR1, PR2, F1, F2>(
    p1: PR1,
    p2: PR2,
    getter_error_fn_1: F1,
    getter_error_fn_2: F2,
    m1: Ghost<spec_fn(PR1::GetterError) -> GE>,
    m2: Ghost<spec_fn(PR2::GetterError) -> GE>,
) -> (r: PrismImpl<S, A, impl Prism<S, A, GetterError = GE>>) where
    PR1: Prism<S, I>,
    PR2: Prism<I, A>,
    F1: Fn(PR1::GetterError) -> GE,
    F2: Fn(PR2::GetterError) -> GE,

    requires
        models_getter_errors(p1, getter_error_fn_1, m1@),
        models_getter_errors(p2, getter_error_fn_2, m2@),
    ensures
        composes_reads(r.0, p1, p2, m1@, m2@),
        composes_writes(r.0, p1, p2),
        composes_builds(r.0, p1, p2, same(), same()),
{
    PrismImpl::new(ComposedPrism::new(p1, p2, getter_error_fn_1, getter_error_fn_2, m1, m2))
}

/// Composes two prisms. The result reads through `p1` and then through `p2`, and reports a
/// failure of either stage as its mapper turns it into `GE`. It builds through `p2` and
/// then through `p1`, which cannot fail. To write, it reads the part that `p1` focuses on,
/// writes the value into it through `p2` and puts the part back through `p1`; where `p1`
/// reads nothing, the whole is left as it is.
///
/// Each mapper must be total and pure on the errors of its stage.
#[must_use]
pub fn new<S, A, I, GE, PR1, PR2, F1, F2>(
    p1: PR1,
    p2: PR2,
    getter_error_fn_1: F1,
    getter_error_fn_2: F2,
) -> (r: PrismImpl<S, A, impl Prism<S, A, GetterError = GE>>) where
    PR1: Prism<S, I>,
    PR2: Prism<I, A>,
    F1: Fn(PR1::GetterError) -> GE,
    F2: Fn(PR2::GetterError) -> GE,

    requires
        handles_getter_errors(p1, getter_error_fn_1),
        handles_getter_errors(p2, getter_error_fn_2),
    ensures
        composes_reads(r.0, p1, p2, mapping(getter_error_fn_1), mapping(getter_error_fn_2)),
        composes_writes(r.0, p1, p2),
        composes_builds(r.0, p1, p2, same(), same()),
{
    proof {
        handled_getter_errors_are_modelled(p1, getter_error_fn_1);
        handled_getter_errors_are_modelled(p2, getter_error_fn_2);
    }
    compose(
        p1,
        p2,
        getter_error_fn_1,
        getter_error_fn_2,
        Ghost(mapping(getter_error_fn_1)),
        Ghost(mapping(getter_error_fn_2)),
    )
}

} // verus!
