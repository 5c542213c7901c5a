//! The composition of two fallible isomorphisms.

use crate::base::{
    build_through, composes_builds, composes_reads, composes_writes,
    handled_getter_errors_are_modelled, handled_reverse_errors_are_modelled,
    handles_getter_errors, handles_reverse_errors, mapping, models_getter_errors,
    models_reverse_errors, read_through, write_through, HasGetter, HasReverseGet, HasSetter,
};
use crate::optics::fallible_iso::wrapper::FallibleIsoImpl;
use crate::optics::fallible_iso::FallibleIso;
use core::marker::PhantomData;
use vstd::prelude::*;

verus! {

/// Two fallible isomorphisms in a row, with the four functions that turn the errors of
/// either stage, in either direction, into the two error types of the whole, and what each
/// of them computes.
#[verifier::reject_recursive_types(S)]
#[verifier::reject_recursive_types(I)]
#[verifier::reject_recursive_types(A)]
#[verifier::reject_recursive_types(GE)]
#[verifier::reject_recursive_types(RE)]
struct ComposedFallibleIso<FI1, FI2, G1, G2, R1, R2, GE, RE, S, I, A> where
    FI1: FallibleIso<S, I>,
    FI2: FallibleIso<I, A>,
    G1: Fn(FI1::GetterError) -> GE,
    G2: Fn(FI2::GetterError) -> GE,
    R1: Fn(FI1::ReverseError) -> RE,
    R2: Fn(FI2::ReverseError) -> RE,
 {
    optic1: FI1,
    optic2: FI2,
    getter_error_fn_1: G1,
    getter_error_fn_2: G2,
    reverse_error_fn_1: R1,
    reverse_error_fn_2: R2,
    getter_error_model_1: Ghost<spec_fn(FI1::GetterError) -> GE>,
    getter_error_model_2: Ghost<spec_fn(FI2::GetterError) -> GE>,
    reverse_error_model_1: Ghost<spec_fn(FI1::ReverseError) -> RE>,
    reverse_error_model_2: Ghost<spec_fn(FI2::ReverseError) -> RE>,
    _phantom: PhantomData<(S, I, A, GE, RE)>,
}

impl<FI1, FI2, G1, G2, R1, R2, GE, RE, S, I, A> ComposedFallibleIso<
    FI1,
    FI2,
    G1,
    G2,
    R1,
    R2,
    GE,
    RE,
    S,
    I,
    A,
> where
    FI1: FallibleIso<S, I>,
    FI2: FallibleIso<I, A>,
    G1: Fn(FI1::GetterError) -> GE,
    G2: Fn(FI2::GetterError) -> GE,
    R1: Fn(FI1::ReverseError) -> RE,
    R2: Fn(FI2::ReverseError) -> RE,
 {
    /// Each mapper does on the errors of its stage what its model says.
    #[verifier::type_invariant]
    spec fn mappers_follow_models(&self) -> bool {
        &&& models_getter_errors(self.optic1, self.getter_error_fn_1, self.getter_error_model_1@)
        &&& models_getter_errors(self.optic2, self.getter_error_fn_2, self.getter_error_model_2@)
        &&& models_reverse_errors(
            self.optic1,
            self.reverse_error_fn_1,
            self.reverse_error_model_1@,
        )
        &&& models_reverse_errors(
            self.optic2,
            self.reverse_error_fn_2,
            self.reverse_error_model_2@,
        )
    }

    fn new(
        optic1: FI1,
        optic2: FI2,
        getter_error_fn_1: G1,
        getter_error_fn_2: G2,
        reverse_error_fn_1: R1,
        reverse_error_fn_2: R2,
        getter_error_model_1: Ghost<spec_fn(FI1::GetterError) -> GE>,
        getter_error_model_2: Ghost<spec_fn(FI2::GetterError) -> GE>,
        reverse_error_model_1: Ghost<spec_fn(FI1::ReverseError) -> RE>,
        reverse_error_model_2: Ghost<spec_fn(FI2::ReverseError) -> RE>,
    ) -> (r: Self)
        requires
            models_getter_errors(optic1, getter_error_fn_1, getter_error_model_1@),
            models_getter_errors(optic2, getter_error_fn_2, getter_error_model_2@),
            models_reverse_errors(optic1, reverse_error_fn_1, reverse_error_model_1@),
            models_reverse_errors(optic2, reverse_error_fn_2, reverse_error_model_2@),
        ensures
            r.optic1 == optic1,
            r.optic2 == optic2,
            r.getter_error_model_1 == getter_error_model_1,
            r.getter_error_model_2 == getter_error_model_2,
            r.reverse_error_model_1 == reverse_error_model_1,
            r.reverse_error_model_2 == reverse_error_model_2,
    {
        ComposedFallibleIso {
            optic1,
            optic2,
            getter_error_fn_1,
            getter_error_fn_2,
            reverse_error_fn_1,
            reverse_error_fn_2,
            getter_error_model_1,
            getter_error_model_2,
            reverse_error_model_1,
            reverse_error_model_2,
            _phantom: PhantomData,
        }
    }
}

impl<FI1, FI2, G1, G2, R1, R2, GE, RE, S, I, A> HasGetter<S, A> for ComposedFallibleIso<
    FI1,
    FI2,
    G1,
    G2,
    R1,
    R2,
    GE,
    RE,
    S,
    I,
    A,
> where
    FI1: FallibleIso<S, I>,
    FI2: FallibleIso<I, A>,
    G1: Fn(FI1::GetterError) -> GE,
    G2: Fn(FI2::GetterError) -> GE,
    R1: Fn(FI1::ReverseError) -> RE,
    R2: Fn(FI2::ReverseError) -> RE,
 {
    type GetterError = GE;

    closed spec fn try_get_spec(&self, source: S) -> Result<A, GE> {
        read_through(
            self.optic1,
            self.optic2,
            self.getter_error_model_1@,
            self.getter_error_model_2@,
            source,
        )
    }

    fn try_get(&self, source: &S) -> (r: Result<A, GE>) {
        proof {
            use_type_invariant(self);
        }
        match self.optic1.try_get(source) {
            Err(e) => Err((self.getter_error_fn_1)(e)),
            Ok(i) => match self.optic2.try_get(&i) {
                Err(e) => Err((self.getter_error_fn_2)(e)),
                Ok(a) => Ok(a),
            },
        }
    }
}

impl<FI1, FI2, G1, G2, R1, R2, GE, RE, S, I, A> HasReverseGet<S, A> for ComposedFallibleIso<
    FI1,
    FI2,
    G1,
    G2,
    R1,
    R2,
    GE,
    RE,
    S,
    I,
    A,
> where
    FI1: FallibleIso<S, I>,
    FI2: FallibleIso<I, A>,
    G1: Fn(FI1::GetterError) -> GE,
    G2: Fn(FI2::GetterError) -> GE,
    R1: Fn(FI1::ReverseError) -> RE,
    R2: Fn(FI2::ReverseError) -> RE,
 {
    type ReverseError = RE;

    closed spec fn try_reverse_get_spec(&self, value: A) -> Result<S, RE> {
        build_through(
            self.optic1,
            self.optic2,
            self.reverse_error_model_1@,
            self.reverse_error_model_2@,
            value,
        )
    }

    fn try_reverse_get(&self, value: &A) -> (r: Result<S, RE>) {
        proof {
            use_type_invariant(self);
        }
        match self.optic2.try_reverse_get(value) {
            Err(e) => Err((self.reverse_error_fn_2)(e)),
            Ok(i) => match self.optic1.try_reverse_get(&i) {
                Err(e) => Err((self.reverse_error_fn_1)(e)),
                Ok(s) => Ok(s),
            },
        }
    }
}

impl<FI1, FI2, G1, G2, R1, R2, GE, RE, S, I, A> HasSetter<S, A> for ComposedFallibleIso<
    FI1,
    FI2,
    G1,
    G2,
    R1,
    R2,
    GE,
    RE,
    S,
    I,
    A,
> where
    FI1: FallibleIso<S, I>,
    FI2: FallibleIso<I, A>,
    G1: Fn(FI1::GetterError) -> GE,
    G2: Fn(FI2::GetterError) -> GE,
    R1: Fn(FI1::ReverseError) -> RE,
    R2: Fn(FI2::ReverseError) -> RE,
 {
    closed spec fn set_spec(&self, source: S, value: A) -> S {
        write_through(self.optic1, self.optic2, source, value)
    }

    fn set(&self, source: &mut S, value: A) {
        if let Ok(mut i) = self.optic1.try_get(source) {
            self.optic2.set(&mut i, value);
            self.optic1.set(source, i);
        }
    }
}

/// Composes two fallible isomorphisms whose error mappers are known by their models.
pub(crate) fn compose<S, A, I, GE, RE, FI1, FI2, G1, G2, R1, R2>(
    f1: FI1,
    f2: FI2,
    getter_error_fn_1: G1,
    getter_error_fn_2: G2,
    reverse_error_fn_1: R1,
    reverse_error_fn_2: R2,
    gm1: Ghost<spec_fn(FI1::GetterError) -> GE>,
    gm2: Ghost<spec_fn(FI2::GetterError) -> GE>,
    rm1: Ghost<spec_fn(FI1::ReverseError) -> RE>,
    rm2: Ghost<spec_fn(FI2::ReverseError) -> RE>,
) -> (r: FallibleIsoImpl<S, A, impl FallibleIso<S, A, GetterError = GE, ReverseError = RE>>) where
    FI1: FallibleIso<S, I>,
    FI2: FallibleIso<I, A>,
    G1: Fn(FI1::GetterError) -> GE,
    G2: Fn(FI2::GetterError) -> GE,
    R1: Fn(FI1::ReverseError) -> RE,
    R2: Fn(FI2::ReverseError) -> RE,

    requires
        models_getter_errors(f1, getter_error_fn_1, gm1@),
        models_getter_errors(f2, getter_error_fn_2, gm2@),
        models_reverse_errors(f1, reverse_error_fn_1, rm1@),
        models_reverse_errors(f2, reverse_error_fn_2, rm2@),
    ensures
        composes_reads(r.0, f1, f2, gm1@, gm2@),
        composes_writes(r.0, f1, f2),
        composes_builds(r.0, f1, f2, rm1@, rm2@),
{
    FallibleIsoImpl::new(
        ComposedFallibleIso::new(
            f1,
            f2,
            getter_error_fn_1,
            getter_error_fn_2,
            reverse_error_fn_1,
            reverse_error_fn_2,
            gm1,
            gm2,
            rm1,
            rm2,
        ),
    )
}

/// Composes two fallible isomorphisms.
///
/// The result reads through `f1` and then through `f2`. It builds in the reverse order,
/// from the focus outward: through `f2` and then through `f1`. A failure of either stage is
/// reported as its mapper for that direction turns it into `GE` or `RE`. To write, it reads
/// the part that `f1` focuses on, writes the value into it through `f2` and puts the part
/// back through `f1`; where `f1` reads nothing, the whole is left as it is.
///
/// Each mapper must be total and pure on the errors of its stage.
#[must_use]
pub fn new<S, A, I, GE, RE, FI1, FI2, G1, G2, R1, R2>(
    f1: FI1,
    f2: FI2,
    getter_error_fn_1: G1,
    getter_error_fn_2: G2,
    reverse_error_fn_1: R1,
    reverse_error_fn_2: R2,
) -> (r: FallibleIsoImpl<S, A, impl FallibleIso<S, A, GetterError = GE, ReverseError = RE>>) where
    FI1: FallibleIso<S, I>,
    FI2: FallibleIso<I, A>,
    G1: Fn(FI1::GetterError) -> GE,
    G2: Fn(FI2::GetterError) -> GE,
    R1: Fn(FI1::ReverseError) -> RE,
    R2: Fn(FI2::ReverseError) -> RE,

    requires
        handles_getter_errors(f1, getter_error_fn_1),
        handles_getter_errors(f2, getter_error_fn_2),
        handles_reverse_errors(f1, reverse_error_fn_1),
        handles_reverse_errors(f2, reverse_error_fn_2),
    ensures
        composes_reads(r.0, f1, f2, mapping(getter_error_fn_1), mapping(getter_error_fn_2)),
        composes_writes(r.0, f1, f2),
        composes_builds(r.0, f1, f2, mapping(reverse_error_fn_1), mapping(reverse_error_fn_2)),
{
    proof {
        handled_getter_errors_are_modelled(f1, getter_error_fn_1);
        handled_getter_errors_are_modelled(f2, getter_error_fn_2);
        handled_reverse_errors_are_modelled(f1, reverse_error_fn_1);
        handled_reverse_errors_are_modelled(f2, reverse_error_fn_2);
    }
    compose(
        f1,
        f2,
        getter_error_fn_1,
        getter_error_fn_2,
        reverse_error_fn_1,
        reverse_error_fn_2,
        Ghost(mapping(getter_error_fn_1)),
        Ghost(mapping(getter_error_fn_2)),
        Ghost(mapping(reverse_error_fn_1)),
        Ghost(mapping(reverse_error_fn_2)),
    )
}

} // verus!
