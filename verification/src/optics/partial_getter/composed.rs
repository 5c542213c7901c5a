//! The composition of two partial getters.

use crate::base::{
    composes_reads, handled_getter_errors_are_modelled, handles_getter_errors, mapping,
    models_getter_errors, read_through, HasGetter,
};
use crate::optics::partial_getter::wrapper::PartialGetterImpl;
use crate::optics::partial_getter::PartialGetter;
use core::marker::PhantomData;
use vstd::prelude::*;

verus! {

/// Two fallible reads in a row, with the two functions that turn the error of either stage
/// into the one error type of the whole, and what each of them computes.
#[verifier::reject_recursive_types(S)]
#[verifier::reject_recursive_types(I)]
#[verifier::reject_recursive_types(A)]
#[verifier::reject_recursive_types(GE)]
struct ComposedPartialGetter<PG1, PG2, F1, F2, GE, S, I, A> where
    PG1: PartialGetter<S, I>,
    PG2: PartialGetter<I, A>,
    F1: Fn(PG1::GetterError) -> GE,
    F2: Fn(PG2::GetterError) -> GE,
 {
    optic1: PG1,
    optic2: PG2,
    getter_error_fn_1: F1,
    getter_error_fn_2: F2,
    getter_error_model_1: Ghost<spec_fn(PG1::GetterError) -> GE>,
    getter_error_model_2: Ghost<spec_fn(PG2::GetterError) -> GE>,
    _phantom: PhantomData<(S, I, A, GE)>,
}

impl<PG1, PG2, F1, F2, GE, S, I, A> ComposedPartialGetter<PG1, PG2, F1, F2, GE, S, I, A> where
    PG1: PartialGetter<S, I>,
    PG2: PartialGetter<I, A>,
    F1: Fn(PG1::GetterError) -> GE,
    F2: Fn(PG2::GetterError) -> GE,
 {
    /// Each mapper does on the errors of its stage what its model says.
    #[verifier::type_invariant]
    spec fn mappers_follow_models(&self) -> bool {
        &&& models_getter_errors(self.optic1, self.getter_error_fn_1, self.getter_error_model_1@)
        &&& models_getter_errors(self.optic2, self.getter_error_fn_2, self.getter_error_model_2@)
    }

    fn new(
        optic1: PG1,
        optic2: PG2,
        getter_error_fn_1: F1,
        getter_error_fn_2: F2,
        getter_error_model_1: Ghost<spec_fn(PG1::GetterError) -> GE>,
        getter_error_model_2: Ghost<spec_fn(PG2::GetterError) -> GE>,
    ) -> (r: Self)
        requires
            models_getter_errors(optic1, getter_error_fn_1, getter_error_model_1@),
            models_getter_errors(optic2, getter_error_fn_2, getter_error_model_2@),
        ensures
            r.optic1 == optic1,
            r.optic2 == optic2,
            r.getter_error_model_1 == getter_error_model_1,
            r.getter_error_model_2 == getter_error_model_2,
    {
        ComposedPartialGetter {
            optic1,
            optic2,
            getter_error_fn_1,
            getter_error_fn_2,
            getter_error_model_1,
            getter_error_model_2,
            _phantom: PhantomData,
        }
    }
}

impl<PG1, PG2, F1, F2, GE, S, I, A> HasGetter<S, A> for ComposedPartialGetter<
    PG1,
    PG2,
    F1,
    F2,
    GE,
    S,
    I,
    A,
> where
    PG1: PartialGetter<S, I>,
    PG2: PartialGetter<I, A>,
    F1: Fn(PG1::GetterError) -> GE,
    F2: Fn(PG2::GetterError) -> GE,
 {
    type GetterError = GE;

    closed spec fn try_get_spec(&self, source: S) -> Result<A, GE> {
        read_through(
            self.optic1,
            self.optic2,
            self.getter_error_model_1@,
            self.getter_error_model_2@,
            source,
        )
    }

    fn try_get(&self, source: &S) -> (r: Result<A, GE>) {
        proof {
            use_type_invariant(self);
        }
        match self.optic1.try_get(source) {
            Err(e) => Err((self.getter_error_fn_1)(e)),
            Ok(i) => match self.optic2.try_get(&i) {
                Err(e) => Err((self.getter_error_fn_2)(e)),
                Ok(a) => Ok(a),
            },
        }
    }
}

/// Composes two fallible reads whose error mappers are known by their models `m1` and `m2`.
pub(crate) fn compose<S, A, I, GE, PG1, PG2, F1, F2>(
    pg1: PG1,
    pg2: PG2,
    getter_error_fn_1: F1,
    getter_error_fn_2: F2,
    m1: Ghost<spec_fn(PG1::GetterError) -> GE>,
    m2: Ghost<spec_fn(PG2::GetterError) -> GE>,
) -> (r: PartialGetterImpl<S, A, impl PartialGetter<S, A, GetterError = GE>>) where
    PG1: PartialGetter<S, I>,
    PG2: PartialGetter<I, A>,
    F1: Fn(PG1::GetterError) -> GE,
    F2: Fn(PG2::GetterError) -> GE,

    requires
        models_getter_errors(pg1, getter_error_fn_1, m1@),
        models_getter_errors(pg2, getter_error_fn_2, m2@),
    ensures
        composes_reads(r.0, pg1, pg2, m1@, m2@),
{
    PartialGetterImpl::new(
        ComposedPartialGetter::new(pg1, pg2, getter_error_fn_1, getter_error_fn_2, m1, m2),
    )
}

/// Composes two fallible reads. The result reads through `pg1` and then through `pg2`, and
/// reports a failure of either stage as its mapper turns it into `GE`.
///
/// Each mapper must be total and pure on the errors of its stage.
#[must_use]
pub fn new<S, A, I, GE, PG1, PG2, F1, F2>(
    pg1: PG1,
    pg2: PG2,
    getter_error_fn_1: F1,
    getter_error_fn_2: F2,
) -> (r: PartialGetterImpl<S, A, impl PartialGetter<S, A, GetterError = GE>>) where
    PG1: PartialGetter<S, I>,
    PG2: PartialGetter<I, A>,
    F1: Fn(PG1::GetterError) -> GE,
    F2: Fn(PG2::GetterError) -> GE,

    requires
        handles_getter_errors(pg1, getter_error_fn_1),
        handles_getter_errors(pg2, getter_error_fn_2),
    ensures
        composes_reads(r.0, pg1, pg2, mapping(getter_error_fn_1), mapping(getter_error_fn_2)),
{
    proof {
        handled_getter_errors_are_modelled(pg1, getter_error_fn_1);
        handled_getter_errors_are_modelled(pg2, getter_error_fn_2);
    }
    compose(
        pg1,
        pg2,
        getter_error_fn_1,
        getter_error_fn_2,
        Ghost(mapping(getter_error_fn_1)),
        Ghost(mapping(getter_error_fn_2)),
    )
}

} // verus!
