//! The wrapper of partial getters, and what it composes with.

use crate::base::{
    composes_reads, handled_getter_errors_are_modelled, handles_getter_errors, identity,
    identity_maps_getter_errors, infallible, infallible_maps_getter_errors, mapping, never,
    same, HasGetter,
};
use crate::kind::Kind;
use crate::optics::fallible_iso::FallibleIso;
use crate::optics::fallible_iso::wrapper::FallibleIsoImpl;
use crate::optics::getter::Getter;
use crate::optics::getter::wrapper::GetterImpl;
use crate::optics::iso::Iso;
use crate::optics::iso::wrapper::IsoImpl;
use crate::optics::lens::Lens;
use crate::optics::lens::wrapper::LensImpl;
use crate::optics::partial_getter::PartialGetter;
use crate::optics::partial_getter::composed::compose as composed_partial_getter;
use crate::optics::partial_lens::PartialLens;
use crate::optics::partial_lens::wrapper::PartialLensImpl;
use crate::optics::prism::Prism;
use crate::optics::prism::wrapper::PrismImpl;
use core::marker::PhantomData;
use vstd::prelude::*;
use vstd::std_specs::convert::FromSpecImpl;

verus! {

/// The public face of a partial getter: it shows the fallible read of the optic inside and
/// hides the rest.
pub struct PartialGetterImpl<S, A, PG: PartialGetter<S, A>>(pub PG, pub PhantomData<(S, A)>);

impl<S, A, PG: PartialGetter<S, A>> PartialGetterImpl<S, A, PG> {
    /// Wraps an optic that can do what a partial getter does.
    pub fn new(partial_getter: PG) -> (r: Self)
        ensures
            r.0 == partial_getter,
    {
        PartialGetterImpl(partial_getter, PhantomData)
    }

    /// The kind of optic that this wrapper shows.
    pub open spec fn kind_spec(&self) -> Kind {
        Kind::PartialGetter
    }

    /// The kind of optic that this wrapper shows.
    #[verifier::when_used_as_spec(kind_spec)]
    pub fn kind(&self) -> (k: Kind)
        ensures
            k == Kind::PartialGetter,
    {
        Kind::PartialGetter
    }
}

impl<S, A, PG: PartialGetter<S, A>> From<PG> for PartialGetterImpl<S, A, PG> {
    fn from(value: PG) -> (r: Self) {
        Self::new(value)
    }
}

impl<S, A, PG: PartialGetter<S, A>> FromSpecImpl<PG> for PartialGetterImpl<S, A, PG> {
    open spec fn obeys_from_spec() -> bool {
        true
    }

    open spec fn from_spec(value: PG) -> Self {
        PartialGetterImpl(value, PhantomData)
    }
}

impl<S, A, PG: PartialGetter<S, A>> HasGetter<S, A> for PartialGetterImpl<S, A, PG> {
    type GetterError = PG::GetterError;

    open spec fn try_get_spec(&self, source: S) -> Result<A, Self::GetterError> {
        self.0.try_get_spec(source)
    }

    fn try_get(&self, source: &S) -> (r: Result<A, Self::GetterError>) {
        self.0.try_get(source)
    }
}

impl<S, I, PG1: PartialGetter<S, I>> PartialGetterImpl<S, I, PG1> {
    /// This partial getter followed by a getter. What both can do is read, so the result is a
    /// partial getter. It fails to read where `self` does, with the error of `self`.
    pub fn compose_with_getter<A, G2: Getter<I, A>>(
        self,
        other: GetterImpl<I, A, G2>,
    ) -> (r: PartialGetterImpl<S, A, impl PartialGetter<S, A, GetterError = PG1::GetterError>>)
        ensures
            composes_reads(r.0, self.0, other.0, same(), never()),
            r.kind() == self.kind().compose(other.kind()),
    {
        proof {
            identity_maps_getter_errors(self.0);
            infallible_maps_getter_errors::<I, A, PG1::GetterError, G2>(other.0);
        }
        composed_partial_getter(
            self.0,
            other.0,
            identity::<PG1::GetterError>,
            infallible::<PG1::GetterError>,
            Ghost(same()),
            Ghost(never()),
        )
    }

    /// This partial getter followed by a partial getter. What both can do is read, so the
    /// result is a partial getter. It reports a failed read of either stage as the mapper of
    /// that stage turns it into `GE`.
    ///
    /// Each mapper must be total and pure on the errors of its stage.
    pub fn compose_with_partial_getter<A, GE, PG2: PartialGetter<I, A>, F1, F2>(
        self,
        other: PartialGetterImpl<I, A, PG2>,
        getter_error_fn_1: F1,
        getter_error_fn_2: F2,
    ) -> (r: PartialGetterImpl<S, A, impl PartialGetter<S, A, GetterError = GE>>) where
        F1: Fn(PG1::GetterError) -> GE,
        F2: Fn(PG2::GetterError) -> GE,

        requires
            handles_getter_errors(self.0, getter_error_fn_1),
            handles_getter_errors(other.0, getter_error_fn_2),
        ensures
            composes_reads(
                r.0,
                self.0,
                other.0,
                mapping(getter_error_fn_1),
                mapping(getter_error_fn_2),
            ),
            r.kind() == self.kind().compose(other.kind()),
    {
        proof {
            handled_getter_errors_are_modelled(self.0, getter_error_fn_1);
            handled_getter_errors_are_modelled(other.0, getter_error_fn_2);
        }
        composed_partial_getter(
            self.0,
            other.0,
            getter_error_fn_1,
            getter_error_fn_2,
            Ghost(mapping(getter_error_fn_1)),
            Ghost(mapping(getter_error_fn_2)),
        )
    }

    /// This partial getter followed by a lens. What both can do is read, so the result is a
    /// partial getter. It fails to read where `self` does, with the error of `self`.
    pub fn compose_with_lens<A, L2: Lens<I, A>>(
        self,
        other: LensImpl<I, A, L2>,
    ) -> (r: PartialGetterImpl<S, A, impl PartialGetter<S, A, GetterError = PG1::GetterError>>)
        ensures
            composes_reads(r.0, self.0, other.0, same(), never()),
            r.kind() == self.kind().compose(other.kind()),
    {
        proof {
            identity_maps_getter_errors(self.0);
            infallible_maps_getter_errors::<I, A, PG1::GetterError, L2>(other.0);
        }
        composed_partial_getter(
            self.0,
            other.0,
            identity::<PG1::GetterError>,
            infallible::<PG1::GetterError>,
            Ghost(same()),
            Ghost(never()),
        )
    }

    /// This partial getter followed by a partial lens. What both can do is read, so the result
    /// is a partial getter. It reports a failed read of either stage as the mapper of that
    /// stage turns it into `GE`.
    ///
    /// Each mapper must be total and pure on the errors of its stage.
    pub fn compose_with_partial_lens<A, GE, PL2: PartialLens<I, A>, F1, F2>(
        self,
        other: PartialLensImpl<I, A, PL2>,
        getter_error_fn_1: F1,
        getter_error_fn_2: F2,
    ) -> (r: PartialGetterImpl<S, A, impl PartialGetter<S, A, GetterError = GE>>) where
        F1: Fn(PG1::GetterError) -> GE,
        F2: Fn(PL2::GetterError) -> GE,

        requires
            handles_getter_errors(self.0, getter_error_fn_1),
            handles_getter_errors(other.0, getter_error_fn_2),
        ensures
            composes_reads(
                r.0,
                self.0,
                other.0,
                mapping(getter_error_fn_1),
                mapping(getter_error_fn_2),
            ),
            r.kind() == self.kind().compose(other.kind()),
    {
        proof {
            handled_getter_errors_are_modelled(self.0, getter_error_fn_1);
            handled_getter_errors_are_modelled(other.0, getter_error_fn_2);
        }
        composed_partial_getter(
            self.0,
            other.0,
            getter_error_fn_1,
            getter_error_fn_2,
            Ghost(mapping(getter_error_fn_1)),
            Ghost(mapping(getter_error_fn_2)),
        )
    }

    /// This partial getter followed by a prism. What both can do is read, so the result is a
    /// partial getter. It reports a failed read of either stage as the mapper of that stage
    /// turns it into `GE`.
    ///
    /// Each mapper must be total and pure on the errors of its stage.
    pub fn compose_with_prism<A, GE, PR2: Prism<I, A>, F1, F2>(
        self,
        other: PrismImpl<I, A, PR2>,
        getter_error_fn_1: F1,
        getter_error_fn_2: F2,
    ) -> (r: PartialGetterImpl<S, A, impl PartialGetter<S, A, GetterError = GE>>) where
        F1: Fn(PG1::GetterError) -> GE,
        F2: Fn(PR2::GetterError) -> GE,

        requires
            handles_getter_errors(self.0, getter_error_fn_1),
            handles_getter_errors(other.0, getter_error_fn_2),
        ensures
            composes_reads(
                r.0,
                self.0,
                other.0,
                mapping(getter_error_fn_1),
                mapping(getter_error_fn_2),
            ),
            r.kind() == self.kind().compose(other.kind()),
    {
        proof {
            handled_getter_errors_are_modelled(self.0, getter_error_fn_1);
            handled_getter_errors_are_modelled(other.0, getter_error_fn_2);
        }
        composed_partial_getter(
            self.0,
            other.0,
            getter_error_fn_1,
            getter_error_fn_2,
            Ghost(mapping(getter_error_fn_1)),
            Ghost(mapping(getter_error_fn_2)),
        )
    }

    /// This partial getter followed by an isomorphism. What both can do is read, so the result
    /// is a partial getter. It fails to read where `self` does, with the error of `self`.
    pub fn compose_with_iso<A, ISO2: Iso<I, A>>(
        self,
        other: IsoImpl<I, A, ISO2>,
    ) -> (r: PartialGetterImpl<S, A, impl PartialGetter<S, A, GetterError = PG1::GetterError>>)
        ensures
            composes_reads(r.0, self.0, other.0, same(), never()),
            r.kind() == self.kind().compose(other.kind()),
    {
        proof {
            identity_maps_getter_errors(self.0);
            infallible_maps_getter_errors::<I, A, PG1::GetterError, ISO2>(other.0);
        }
        composed_partial_getter(
            self.0,
            other.0,
            identity::<PG1::GetterError>,
            infallible::<PG1::GetterError>,
            Ghost(same()),
            Ghost(never()),
        )
    }

    /// This partial getter followed by a fallible isomorphism. What both can do is read, so the
    /// result is a partial getter. It reports a failed read of either stage as the mapper of
    /// that stage turns it into `GE`.
    ///
    /// Each mapper must be total and pure on the errors of its stage.
    pub fn compose_with_fallible_iso<A, GE, FI2: FallibleIso<I, A>, F1, F2>(
        self,
        other: FallibleIsoImpl<I, A, FI2>,
        getter_error_fn_1: F1,
        getter_error_fn_2: F2,
    ) -> (r: PartialGetterImpl<S, A, impl PartialGetter<S, A, GetterError = GE>>) where
        F1: Fn(PG1::GetterError) -> GE,
        F2: Fn(FI2::GetterError) -> GE,

        requires
            handles_getter_errors(self.0, getter_error_fn_1),
            handles_getter_errors(other.0, getter_error_fn_2),
        ensures
            composes_reads(
                r.0,
                self.0,
                other.0,
                mapping(getter_error_fn_1),
                mapping(getter_error_fn_2),
            ),
            r.kind() == self.kind().compose(other.kind()),
    {
        proof {
            handled_getter_errors_are_modelled(self.0, getter_error_fn_1);
            handled_getter_errors_are_modelled(other.0, getter_error_fn_2);
        }
        composed_partial_getter(
            self.0,
            other.0,
            getter_error_fn_1,
            getter_error_fn_2,
            Ghost(mapping(getter_error_fn_1)),
            Ghost(mapping(getter_error_fn_2)),
        )
    }
}

} // verus!
