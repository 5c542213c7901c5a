//! The wrapper of fallible isomorphisms, and what it composes with.

use crate::base::{
    composes_builds, composes_reads, composes_writes, handled_getter_errors_are_modelled,
    handled_reverse_errors_are_modelled, handles_getter_errors, handles_reverse_errors,
    identity, identity_maps_getter_errors, identity_maps_reverse_errors, infallible,
    infallible_maps_getter_errors, infallible_maps_reverse_errors, mapping, never, same,
    HasGetter, HasReverseGet, HasSetter,
};
use crate::kind::Kind;
use crate::optics::fallible_iso::FallibleIso;
use crate::optics::fallible_iso::composed::compose as composed_fallible_iso;
use crate::optics::getter::Getter;
use crate::optics::getter::wrapper::GetterImpl;
use crate::optics::iso::Iso;
use crate::optics::iso::wrapper::IsoImpl;
use crate::optics::lens::Lens;
use crate::optics::lens::wrapper::LensImpl;
use crate::optics::partial_getter::PartialGetter;
use crate::optics::partial_getter::composed::compose as composed_partial_getter;
use crate::optics::partial_getter::wrapper::PartialGetterImpl;
use crate::optics::partial_lens::PartialLens;
use crate::optics::partial_lens::composed::compose as composed_partial_lens;
use crate::optics::partial_lens::wrapper::PartialLensImpl;
use crate::optics::prism::Prism;
use crate::optics::prism::wrapper::PrismImpl;
use core::marker::PhantomData;
use vstd::prelude::*;
use vstd::std_specs::convert::FromSpecImpl;

verus! {

/// The public face of a fallible isomorphism: it shows the fallible read, the write and the
/// fallible construction of the optic inside.
pub struct FallibleIsoImpl<S, A, FI: FallibleIso<S, A>>(pub FI, pub PhantomData<(S, A)>);

impl<S, A, FI: FallibleIso<S, A>> FallibleIsoImpl<S, A, FI> {
    /// Wraps an optic that can do what a fallible isomorphism does.
    pub fn new(fallible_iso: FI) -> (r: Self)
        ensures
            r.0 == fallible_iso,
    {
        FallibleIsoImpl(fallible_iso, PhantomData)
    }

    /// The kind of optic that this wrapper shows.
    pub open spec fn kind_spec(&self) -> Kind {
        Kind::FallibleIso
    }

    /// The kind of optic that this wrapper shows.
    #[verifier::when_used_as_spec(kind_spec)]
    pub fn kind(&self) -> (k: Kind)
        ensures
            k == Kind::FallibleIso,
    {
        Kind::FallibleIso
    }
}

impl<S, A, FI: FallibleIso<S, A>> From<FI> for FallibleIsoImpl<S, A, FI> {
    fn from(value: FI) -> (r: Self) {
        Self::new(value)
    }
}

impl<S, A, FI: FallibleIso<S, A>> FromSpecImpl<FI> for FallibleIsoImpl<S, A, FI> {
    open spec fn obeys_from_spec() -> bool {
        true
    }

    open spec fn from_spec(value: FI) -> Self {
        FallibleIsoImpl(value, PhantomData)
    }
}

impl<S, A, FI: FallibleIso<S, A>> HasGetter<S, A> for FallibleIsoImpl<S, A, FI> {
    type GetterError = FI::GetterError;

    open spec fn try_get_spec(&self, source: S) -> Result<A, Self::GetterError> {
        self.0.try_get_spec(source)
    }

    fn try_get(&self, source: &S) -> (r: Result<A, Self::GetterError>) {
        self.0.try_get(source)
    }
}

impl<S, A, FI: FallibleIso<S, A>> HasSetter<S, A> for FallibleIsoImpl<S, A, FI> {
    open spec fn set_spec(&self, source: S, value: A) -> S {
        self.0.set_spec(source, value)
    }

    fn set(&self, source: &mut S, value: A) {
        self.0.set(source, value)
    }
}

impl<S, A, FI: FallibleIso<S, A>> HasReverseGet<S, A> for FallibleIsoImpl<S, A, FI> {
    type ReverseError = FI::ReverseError;

    open spec fn try_reverse_get_spec(&self, value: A) -> Result<S, Self::ReverseError> {
        self.0.try_reverse_get_spec(value)
    }

    fn try_reverse_get(&self, value: &A) -> (r: Result<S, Self::ReverseError>) {
        self.0.try_reverse_get(value)
    }
}

impl<S, I, FI1: FallibleIso<S, I>> FallibleIsoImpl<S, I, FI1> {
    /// This fallible isomorphism followed by a getter. What both can do is read, so the result
    /// is a partial getter. It fails to read where `self` does, with the error of `self`.
    pub fn compose_with_getter<A, G2: Getter<I, A>>(
        self,
        other: GetterImpl<I, A, G2>,
    ) -> (r: PartialGetterImpl<S, A, impl PartialGetter<S, A, GetterError = FI1::GetterError>>)
        ensures
            composes_reads(r.0, self.0, other.0, same(), never()),
            r.kind() == self.kind().compose(other.kind()),
    {
        proof {
            identity_maps_getter_errors(self.0);
            infallible_maps_getter_errors::<I, A, FI1::GetterError, G2>(other.0);
        }
        composed_partial_getter(
            self.0,
            other.0,
            identity::<FI1::GetterError>,
            infallible::<FI1::GetterError>,
            Ghost(same()),
            Ghost(never()),
        )
    }

    /// This fallible isomorphism followed by a partial getter. What both can do is read, so the
    /// result is a partial getter. It reports a failed read of either stage as the mapper of
    /// that stage turns it into `GE`.
    ///
    /// Each mapper must be total and pure on the errors of its stage.
    pub fn compose_with_partial_getter<A, GE, PG2: PartialGetter<I, A>, F1, F2>(
        self,
        other: PartialGetterImpl<I, A, PG2>,
        getter_error_fn_1: F1,
        getter_error_fn_2: F2,
    ) -> (r: PartialGetterImpl<S, A, impl PartialGetter<S, A, GetterError = GE>>) where
        F1: Fn(FI1::GetterError) -> GE,
        F2: Fn(PG2::GetterError) -> GE,

        requires
            handles_getter_errors(self.0, getter_error_fn_1),
            handles_getter_errors(other.0, getter_error_fn_2),
        ensures
            composes_reads(
                r.0,
                self.0,
                other.0,
                mapping(getter_error_fn_1),
                mapping(getter_error_fn_2),
            ),
            r.kind() == self.kind().compose(other.kind()),
    {
        proof {
            handled_getter_errors_are_modelled(self.0, getter_error_fn_1);
            handled_getter_errors_are_modelled(other.0, getter_error_fn_2);
        }
        composed_partial_getter(
            self.0,
            other.0,
            getter_error_fn_1,
            getter_error_fn_2,
            Ghost(mapping(getter_error_fn_1)),
            Ghost(mapping(getter_error_fn_2)),
        )
    }

    /// This fallible isomorphism followed by a lens. What both can do is read and write, so the
    /// result is a partial lens. It fails to read where `self` does, with the error of `self`.
    pub fn compose_with_lens<A, L2: Lens<I, A>>(
        self,
        other: LensImpl<I, A, L2>,
    ) -> (r: PartialLensImpl<S, A, impl PartialLens<S, A, GetterError = FI1::GetterError>>)
        ensures
            composes_reads(r.0, self.0, other.0, same(), never()),
            composes_writes(r.0, self.0, other.0),
            r.kind() == self.kind().compose(other.kind()),
    {
        proof {
            identity_maps_getter_errors(self.0);
            infallible_maps_getter_errors::<I, A, FI1::GetterError, L2>(other.0);
        }
        composed_partial_lens(
            self.0,
            other.0,
            identity::<FI1::GetterError>,
            infallible::<FI1::GetterError>,
            Ghost(same()),
            Ghost(never()),
        )
    }

    /// This fallible isomorphism followed by a partial lens. What both can do is read and
    /// write, so the result is a partial lens. It reports a failed read of either stage as the
    /// mapper of that stage turns it into `GE`.
    ///
    /// Each mapper must be total and pure on the errors of its stage.
    pub fn compose_with_partial_lens<A, GE, PL2: PartialLens<I, A>, F1, F2>(
        self,
        other: PartialLensImpl<I, A, PL2>,
        getter_error_fn_1: F1,
        getter_error_fn_2: F2,
    ) -> (r: PartialLensImpl<S, A, impl PartialLens<S, A, GetterError = GE>>) where
        F1: Fn(FI1::GetterError) -> GE,
        F2: Fn(PL2::GetterError) -> GE,

        requires
            handles_getter_errors(self.0, getter_error_fn_1),
            handles_getter_errors(other.0, getter_error_fn_2),
        ensures
            composes_reads(
                r.0,
                self.0,
                other.0,
                mapping(getter_error_fn_1),
                mapping(getter_error_fn_2),
            ),
            composes_writes(r.0, self.0, other.0),
            r.kind() == self.kind().compose(other.kind()),
    {
        proof {
            handled_getter_errors_are_modelled(self.0, getter_error_fn_1);
            handled_getter_errors_are_modelled(other.0, getter_error_fn_2);
        }
        composed_partial_lens(
            self.0,
            other.0,
            getter_error_fn_1,
            getter_error_fn_2,
            Ghost(mapping(getter_error_fn_1)),
            Ghost(mapping(getter_error_fn_2)),
        )
    }

    /// This fallible isomorphism followed by a prism. What both can do is read, write and
    /// build, so the result is a fallible isomorphism. It reports a failed read of either stage
    /// as the mapper of that stage turns it into `GE`. It fails to build where `self` does,
    /// with the error of `self`.
    ///
    /// Each mapper must be total and pure on the errors of its stage.
    pub fn compose_with_prism<A, GE, PR2: Prism<I, A>, F1, F2>(
        self,
        other: PrismImpl<I, A, PR2>,
        getter_error_fn_1: F1,
        getter_error_fn_2: F2,
    ) -> (r: FallibleIsoImpl<S, A, impl FallibleIso<S, A, GetterError = GE, ReverseError = FI1::ReverseError>>) where
        F1: Fn(FI1::GetterError) -> GE,
        F2: Fn(PR2::GetterError) -> GE,

        requires
            handles_getter_errors(self.0, getter_error_fn_1),
            handles_getter_errors(other.0, getter_error_fn_2),
        ensures
            composes_reads(
                r.0,
                self.0,
                other.0,
                mapping(getter_error_fn_1),
                mapping(getter_error_fn_2),
            ),
            composes_writes(r.0, self.0, other.0),
            composes_builds(r.0, self.0, other.0, same(), never()),
            r.kind() == self.kind().compose(other.kind()),
    {
        proof {
            handled_getter_errors_are_modelled(self.0, getter_error_fn_1);
            handled_getter_errors_are_modelled(other.0, getter_error_fn_2);
            identity_maps_reverse_errors(self.0);
            infallible_maps_reverse_errors::<I, A, FI1::ReverseError, PR2>(other.0);
        }
        composed_fallible_iso(
            self.0,
            other.0,
            getter_error_fn_1,
            getter_error_fn_2,
            identity::<FI1::ReverseError>,
            infallible::<FI1::ReverseError>,
            Ghost(mapping(getter_error_fn_1)),
            Ghost(mapping(getter_error_fn_2)),
            Ghost(same()),
            Ghost(never()),
        )
    }

    /// This fallible isomorphism followed by an isomorphism. What both can do is read, write
    /// and build, so the result is a fallible isomorphism. It fails to read where `self` does,
    /// with the error of `self`. It fails to build where `self` does, with the error of `self`.
    pub fn compose_with_iso<A, ISO2: Iso<I, A>>(
        self,
        other: IsoImpl<I, A, ISO2>,
    ) -> (r: FallibleIsoImpl<S, A, impl FallibleIso<S, A, GetterError = FI1::GetterError, ReverseError = FI1::ReverseError>>)
        ensures
            composes_reads(r.0, self.0, other.0, same(), never()),
            composes_writes(r.0, self.0, other.0),
            composes_builds(r.0, self.0, other.0, same(), never()),
            r.kind() == self.kind().compose(other.kind()),
    {
        proof {
            identity_maps_getter_errors(self.0);
            infallible_maps_getter_errors::<I, A, FI1::GetterError, ISO2>(other.0);
            identity_maps_reverse_errors(self.0);
            infallible_maps_reverse_errors::<I, A, FI1::ReverseError, ISO2>(other.0);
        }
        composed_fallible_iso(
            self.0,
            other.0,
            identity::<FI1::GetterError>,
            infallible::<FI1::GetterError>,
            identity::<FI1::ReverseError>,
            infallible::<FI1::ReverseError>,
            Ghost(same()),
            Ghost(never()),
            Ghost(same()),
            Ghost(never()),
        )
    }

    /// This fallible isomorphism followed by a fallible isomorphism. What both can do is read,
    /// write and build, so the result is a fallible isomorphism. It reports a failed read of
    /// either stage as the mapper of that stage turns it into `GE`. It reports a failed
    /// construction of either stage as the mapper of that stage turns it into `RE`.
    ///
    /// Each mapper must be total and pure on the errors of its stage.
    pub fn compose_with_fallible_iso<A, GE, RE, FI2: FallibleIso<I, A>, F1, F2, R1, R2>(
        self,
        other: FallibleIsoImpl<I, A, FI2>,
        getter_error_fn_1: F1,
        getter_error_fn_2: F2,
        reverse_error_fn_1: R1,
        reverse_error_fn_2: R2,
    ) -> (r: FallibleIsoImpl<S, A, impl FallibleIso<S, A, GetterError = GE, ReverseError = RE>>) where
        F1: Fn(FI1::GetterError) -> GE,
        F2: Fn(FI2::GetterError) -> GE,
        R1: Fn(FI1::ReverseError) -> RE,
        R2: Fn(FI2::ReverseError) -> RE,

        requires
            handles_getter_errors(self.0, getter_error_fn_1),
            handles_getter_errors(other.0, getter_error_fn_2),
            handles_reverse_errors(self.0, reverse_error_fn_1),
            handles_reverse_errors(other.0, reverse_error_fn_2),
        ensures
            composes_reads(
                r.0,
                self.0,
                other.0,
                mapping(getter_error_fn_1),
                mapping(getter_error_fn_2),
            ),
            composes_writes(r.0, self.0, other.0),
            composes_builds(
                r.0,
                self.0,
                other.0,
                mapping(reverse_error_fn_1),
                mapping(reverse_error_fn_2),
            ),
            r.kind() == self.kind().compose(other.kind()),
    {
        proof {
            handled_getter_errors_are_modelled(self.0, getter_error_fn_1);
            handled_getter_errors_are_modelled(other.0, getter_error_fn_2);
            handled_reverse_errors_are_modelled(self.0, reverse_error_fn_1);
            handled_reverse_errors_are_modelled(other.0, reverse_error_fn_2);
        }
        composed_fallible_iso(
            self.0,
            other.0,
            getter_error_fn_1,
            getter_error_fn_2,
            reverse_error_fn_1,
            reverse_error_fn_2,
            Ghost(mapping(getter_error_fn_1)),
            Ghost(mapping(getter_error_fn_2)),
            Ghost(mapping(reverse_error_fn_1)),
            Ghost(mapping(reverse_error_fn_2)),
        )
    }
}

} // verus!
