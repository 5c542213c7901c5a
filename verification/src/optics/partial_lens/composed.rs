//! The composition of two partial lenses.

use crate::base::{
    composes_reads, composes_writes, handled_getter_errors_are_modelled, handles_getter_errors,
    mapping, models_getter_errors, read_through, write_through, HasGetter, HasSetter,
};
use crate::optics::partial_lens::wrapper::PartialLensImpl;
use crate::optics::partial_lens::PartialLens;
use core::marker::PhantomData;
use vstd::prelude::*;

verus! {

/// Two partial lenses in a row, with the two functions that turn the read error of either
/// stage into the one error type of the whole, and what each of them computes.
#[verifier::reject_recursive_types(S)]
#[verifier::reject_recursive_types(I)]
#[verifier::reject_recursive_types(A)]
#[verifier::reject_recursive_types(GE)]
struct ComposedPartialLens<PL1, PL2, F1, F2, GE, S, I, A> where
    PL1: PartialLens<S, I>,
    PL2: PartialLens<I, A>,
    F1: Fn(PL1::GetterError) -> GE,
    F2: Fn(PL2::GetterError) -> GE,
 {
    optic1: PL1,
    optic2: PL2,
    getter_error_fn_1: F1,
    getter_error_fn_2: F2,
    getter_error_model_1: Ghost<spec_fn(PL1::GetterError) -> GE>,
    getter_error_model_2: Ghost<spec_fn(PL2::GetterError) -> GE>,
    _phantom: PhantomData<(S, I, A, GE)>,
}

impl<PL1, PL2, F1, F2, GE, S, I, A> ComposedPartialLens<PL1, PL2, F1, F2, GE, S, I, A> where
    PL1: PartialLens<S, I>,
    PL2: PartialLens<I, A>,
    F1: Fn(PL1::GetterError) -> GE,
    F2: Fn(PL2::GetterError) -> GE,
 {
    /// Each mapper does on the errors of its stage what its model says.
    #[verifier::type_invariant]
    spec fn mappers_follow_models(&self) -> bool {
        &&& models_getter_errors(self.optic1, self.getter_error_fn_1, self.getter_error_model_1@)
        &&& models_getter_errors(self.optic2, self.getter_error_fn_2, self.getter_error_model_2@)
    }

    fn new(
        optic1: PL1,
        optic2: PL2,
        getter_error_fn_1: F1,
        getter_error_fn_2: F2,
        getter_error_model_1: Ghost<spec_fn(PL1::GetterError) -> GE>,
        getter_error_model_2: Ghost<spec_fn(PL2::GetterError) -> GE>,
    ) -> (r: Self)
        requires
            models_getter_errors(optic1, getter_error_fn_1, getter_error_model_1@),
            models_getter_errors(optic2, getter_error_fn_2, getter_error_model_2@),
        ensures
            r.optic1 == optic1,
            r.optic2 == optic2,
            r.getter_error_model_1 == getter_error_model_1,
            r.getter_error_model_2 == getter_error_model_2,
    {
        ComposedPartialLens {
            optic1,
            optic2,
            getter_error_fn_1,
            getter_error_fn_2,
            getter_error_model_1,
            getter_error_model_2,
            _phantom: PhantomData,
        }
    }
}

impl<PL1, PL2, F1, F2, GE, S, I, A> HasGetter<S, A> for ComposedPartialLens<
    PL1,
    PL2,
    F1,
    F2,
    GE,
    S,
    I,
    A,
> where
    PL1: PartialLens<S, I>,
    PL2: PartialLens<I, A>,
    F1: Fn(PL1::GetterError) -> GE,
    F2: Fn(PL2::GetterError) -> GE,
 {
    type GetterError = GE;

    closed spec fn try_get_spec(&self, source: S) -> Result<A, GE> {
        read_through(
            self.optic1,
            self.optic2,
            self.getter_error_model_1@,
            self.getter_error_model_2@,
            source,
        )
    }

    fn try_get(&self, source: &S) -> (r: Result<A, GE>) {
        proof {
            use_type_invariant(self);
        }
        match self.optic1.try_get(source) {
            Err(e) => Err((self.getter_error_fn_1)(e)),
            Ok(i) => match self.optic2.try_get(&i) {
                Err(e) => Err((self.getter_error_fn_2)(e)),
                Ok(a) => Ok(a),
            },
        }
    }
}

impl<PL1, PL2, F1, F2, GE, S, I, A> HasSetter<S, A> for ComposedPartialLens<
    PL1,
    PL2,
    F1,
    F2,
    GE,
    S,
    I,
    A,
> where
    PL1: PartialLens<S, I>,
    PL2: PartialLens<I, A>,
    F1: Fn(PL1::GetterError) -> GE,
    F2: Fn(PL2::GetterError) -> GE,
 {
    closed spec fn set_spec(&self, source: S, value: A) -> S {
        write_through(self.optic1, self.optic2, source, value)
    }

    fn set(&self, source: &mut S, value: A) {
        if let Ok(mut i) = self.optic1.try_get(source) {
            self.optic2.set(&mut i, value);
            self.optic1.set(source, i);
        }
    }
}

/// Composes two partial lenses whose error mappers are known by their models `m1` and `m2`.
pub(crate) fn compose<S, A, I, GE, PL1, PL2, F1, F2>(
    pl1: PL1,
    pl2: PL2,
    getter_error_fn_1: F1,
    getter_error_fn_2: F2,
    m1: Ghost<spec_fn(PL1::GetterError) -> GE>,
    m2: Ghost<spec_fn(PL2::GetterError) -> GE>,
) -> (r: PartialLensImpl<S, A, impl PartialLens<S, A, GetterError = GE>>) where
    PL1: PartialLens<S, I>,
    PL2: PartialLens<I, A>,
    F1: Fn(PL1::GetterError) -> GE,
    F2: Fn(PL2::GetterError) -> GE,

    requires
        models_getter_errors(pl1, getter_error_fn_1, m1@),
        models_getter_errors(pl2, getter_error_fn_2, m2@),
    ensures
        composes_reads(r.0, pl1, pl2, m1@, m2@),
        composes_writes(r.0, pl1, pl2),
{
    PartialLensImpl::new(ComposedPartialLens::new(pl1, pl2, getter_error_fn_1, getter_error_fn_2, m1, m2))
}

/// Composes two partial lenses. The result reads through `pl1` and then through `pl2`, and
/// reports a failure of either stage as its mapper turns it into `GE`. To write, it reads
/// the part that `pl1` focuses on, writes the value into it through `pl2` and puts the part
/// back through `pl1`; where `pl1` reads nothing, the whole is left as it is.
///
/// Each mapper must be total and pure on the errors of its stage.
#[must_use]
pub fn new<S, A, I, GE, PL1, PL2, F1, F2>(
    pl1: PL1,
    pl2: PL2,
    getter_error_fn_1: F1,
    getter_error_fn_2: F2,
) -> (r: PartialLensImpl<S, A, impl PartialLens<S, A, GetterError = GE>>) where
    PL1: PartialLens<S, I>,
    PL2: PartialLens<I, A>,
    F1: Fn(PL1::GetterError) -> GE,
    F2: Fn(PL2::GetterError) -> GE,

    requires
        handles_getter_errors(pl1, getter_error_fn_1),
        handles_getter_errors(pl2, getter_error_fn_2),
    ensures
        composes_reads(r.0, pl1, pl2, mapping(getter_error_fn_1), mapping(getter_error_fn_2)),
        composes_writes(r.0, pl1, pl2),
{
    proof {
        handled_getter_errors_are_modelled(pl1, getter_error_fn_1);
        handled_getter_errors_are_modelled(pl2, getter_error_fn_2);
    }
    compose(
        pl1,
        pl2,
        getter_error_fn_1,
        getter_error_fn_2,
        Ghost(mapping(getter_error_fn_1)),
        Ghost(mapping(getter_error_fn_2)),
    )
}

} // verus!
