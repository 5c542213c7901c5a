//! The wrapper of getters, and what it composes with.

use crate::base::{
    composes_reads, get_spec, identity, identity_maps_getter_errors, infallible,
    infallible_maps_getter_errors, never, same, HasGetter, HasTotalGetter,
};
use crate::kind::Kind;
use crate::optics::fallible_iso::FallibleIso;
use crate::optics::fallible_iso::wrapper::FallibleIsoImpl;
use crate::optics::getter::Getter;
use crate::optics::getter::composed::new as composed_getter;
use crate::optics::iso::Iso;
use crate::optics::iso::wrapper::IsoImpl;
use crate::optics::lens::Lens;
use crate::optics::lens::wrapper::LensImpl;
use crate::optics::partial_getter::PartialGetter;
use crate::optics::partial_getter::composed::compose as composed_partial_getter;
use crate::optics::partial_getter::wrapper::PartialGetterImpl;
use crate::optics::partial_lens::PartialLens;
use crate::optics::partial_lens::wrapper::PartialLensImpl;
use crate::optics::prism::Prism;
use crate::optics::prism::wrapper::PrismImpl;
use core::convert::Infallible;
use core::marker::PhantomData;
use vstd::prelude::*;
use vstd::std_specs::convert::FromSpecImpl;

verus! {

/// The public face of a getter: it shows the total read of the optic inside and hides the
/// rest.
pub struct GetterImpl<S, A, G: Getter<S, A>>(pub G, pub PhantomData<(S, A)>);

impl<S, A, G: Getter<S, A>> GetterImpl<S, A, G> {
    /// Wraps an optic that can do what a getter does.
    pub fn new(getter: G) -> (r: Self)
        ensures
            r.0 == getter,
    {
        GetterImpl(getter, PhantomData)
    }

    /// The kind of optic that this wrapper shows.
    pub open spec fn kind_spec(&self) -> Kind {
        Kind::Getter
    }

    /// The kind of optic that this wrapper shows.
    #[verifier::when_used_as_spec(kind_spec)]
    pub fn kind(&self) -> (k: Kind)
        ensures
            k == Kind::Getter,
    {
        Kind::Getter
    }
}

impl<S, A, G: Getter<S, A>> From<G> for GetterImpl<S, A, G> {
    fn from(value: G) -> (r: Self) {
        Self::new(value)
    }
}

impl<S, A, G: Getter<S, A>> FromSpecImpl<G> for GetterImpl<S, A, G> {
    open spec fn obeys_from_spec() -> bool {
        true
    }

    open spec fn from_spec(value: G) -> Self {
        GetterImpl(value, PhantomData)
    }
}

impl<S, A, G: Getter<S, A>> HasGetter<S, A> for GetterImpl<S, A, G> {
    type GetterError = Infallible;

    open spec fn try_get_spec(&self, source: S) -> Result<A, Infallible> {
        self.0.try_get_spec(source)
    }

    fn try_get(&self, source: &S) -> (r: Result<A, Infallible>) {
        Ok(self.0.get(source))
    }
}

impl<S, A, G: Getter<S, A>> HasTotalGetter<S, A> for GetterImpl<S, A, G> {
    proof fn get_is_total(&self, source: S) {
        self.0.get_is_total(source);
    }

    fn get(&self, source: &S) -> (a: A) {
        self.0.get(source)
    }
}

impl<S, I, G1: Getter<S, I>> GetterImpl<S, I, G1> {
    /// This getter followed by a getter. What both can do is read without fail, so the result
    /// is a getter.
    pub fn compose_with_getter<A, G2: Getter<I, A>>(
        self,
        other: GetterImpl<I, A, G2>,
    ) -> (r: GetterImpl<S, A, impl Getter<S, A>>)
        ensures
            composes_reads(r.0, self.0, other.0, same(), same()),
            r.kind() == self.kind().compose(other.kind()),
            forall|s: S| #[trigger]
                r.0.try_get_spec(s) == other.0.try_get_spec(get_spec(self.0, s)),
    {
        proof {
            assert forall|s: S| (#[trigger] self.0.try_get_spec(s)) is Ok by {
                self.0.get_is_total(s);
            }
        }
        composed_getter(self.0, other.0)
    }

    /// This getter followed by a prism. What both can do is read, so the result is a partial
    /// getter. It fails to read where `other` does, with the error of `other`.
    pub fn compose_with_prism<A, PR2: Prism<I, A>>(
        self,
        other: PrismImpl<I, A, PR2>,
    ) -> (r: PartialGetterImpl<S, A, impl PartialGetter<S, A, GetterError = PR2::GetterError>>)
        ensures
            composes_reads(r.0, self.0, other.0, never(), same()),
            r.kind() == self.kind().compose(other.kind()),
            forall|s: S| #[trigger]
                r.0.try_get_spec(s) == other.0.try_get_spec(get_spec(self.0, s)),
    {
        proof {
            infallible_maps_getter_errors::<S, I, PR2::GetterError, G1>(self.0);
            identity_maps_getter_errors(other.0);
            assert forall|s: S| (#[trigger] self.0.try_get_spec(s)) is Ok by {
                self.0.get_is_total(s);
            }
        }
        composed_partial_getter(
            self.0,
            other.0,
            infallible::<PR2::GetterError>,
            identity::<PR2::GetterError>,
            Ghost(never()),
            Ghost(same()),
        )
    }

    /// This getter followed by a lens. What both can do is read without fail, so the result is
    /// a getter.
    pub fn compose_with_lens<A, L2: Lens<I, A>>(
        self,
        other: LensImpl<I, A, L2>,
    ) -> (r: GetterImpl<S, A, impl Getter<S, A>>)
        ensures
            composes_reads(r.0, self.0, other.0, same(), same()),
            r.kind() == self.kind().compose(other.kind()),
            forall|s: S| #[trigger]
                r.0.try_get_spec(s) == other.0.try_get_spec(get_spec(self.0, s)),
    {
        proof {
            assert forall|s: S| (#[trigger] self.0.try_get_spec(s)) is Ok by {
                self.0.get_is_total(s);
            }
        }
        composed_getter(self.0, other.0)
    }

    /// This getter followed by a fallible isomorphism. What both can do is read, so the result
    /// is a partial getter. It fails to read where `other` does, with the error of `other`.
    pub fn compose_with_fallible_iso<A, FI2: FallibleIso<I, A>>(
        self,
        other: FallibleIsoImpl<I, A, FI2>,
    ) -> (r: PartialGetterImpl<S, A, impl PartialGetter<S, A, GetterError = FI2::GetterError>>)
        ensures
            composes_reads(r.0, self.0, other.0, never(), same()),
            r.kind() == self.kind().compose(other.kind()),
            forall|s: S| #[trigger]
                r.0.try_get_spec(s) == other.0.try_get_spec(get_spec(self.0, s)),
    {
        proof {
            infallible_maps_getter_errors::<S, I, FI2::GetterError, G1>(self.0);
            identity_maps_getter_errors(other.0);
            assert forall|s: S| (#[trigger] self.0.try_get_spec(s)) is Ok by {
                self.0.get_is_total(s);
            }
        }
        composed_partial_getter(
            self.0,
            other.0,
            infallible::<FI2::GetterError>,
            identity::<FI2::GetterError>,
            Ghost(never()),
            Ghost(same()),
        )
    }

    /// This getter followed by an isomorphism. What both can do is read without fail, so the
    /// result is a getter.
    pub fn compose_with_iso<A, ISO2: Iso<I, A>>(
        self,
        other: IsoImpl<I, A, ISO2>,
    ) -> (r: GetterImpl<S, A, impl Getter<S, A>>)
        ensures
            composes_reads(r.0, self.0, other.0, same(), same()),
            r.kind() == self.kind().compose(other.kind()),
            forall|s: S| #[trigger]
                r.0.try_get_spec(s) == other.0.try_get_spec(get_spec(self.0, s)),
    {
        proof {
            assert forall|s: S| (#[trigger] self.0.try_get_spec(s)) is Ok by {
                self.0.get_is_total(s);
            }
        }
        composed_getter(self.0, other.0)
    }

    /// This getter followed by a partial getter. What both can do is read, so the result is a
    /// partial getter. It fails to read where `other` does, with the error of `other`.
    pub fn compose_with_partial_getter<A, PG2: PartialGetter<I, A>>(
        self,
        other: PartialGetterImpl<I, A, PG2>,
    ) -> (r: PartialGetterImpl<S, A, impl PartialGetter<S, A, GetterError = PG2::GetterError>>)
        ensures
            composes_reads(r.0, self.0, other.0, never(), same()),
            r.kind() == self.kind().compose(other.kind()),
            forall|s: S| #[trigger]
                r.0.try_get_spec(s) == other.0.try_get_spec(get_spec(self.0, s)),
    {
        proof {
            infallible_maps_getter_errors::<S, I, PG2::GetterError, G1>(self.0);
            identity_maps_getter_errors(other.0);
            assert forall|s: S| (#[trigger] self.0.try_get_spec(s)) is Ok by {
                self.0.get_is_total(s);
            }
        }
        composed_partial_getter(
            self.0,
            other.0,
            infallible::<PG2::GetterError>,
            identity::<PG2::GetterError>,
            Ghost(never()),
            Ghost(same()),
        )
    }

    /// This getter followed by a partial lens. What both can do is read, so the result is a
    /// partial getter. It fails to read where `other` does, with the error of `other`.
    pub fn compose_with_partial_lens<A, PL2: PartialLens<I, A>>(
        self,
        other: PartialLensImpl<I, A, PL2>,
    ) -> (r: PartialGetterImpl<S, A, impl PartialGetter<S, A, GetterError = PL2::GetterError>>)
        ensures
            composes_reads(r.0, self.0, other.0, never(), same()),
            r.kind() == self.kind().compose(other.kind()),
            forall|s: S| #[trigger]
                r.0.try_get_spec(s) == other.0.try_get_spec(get_spec(self.0, s)),
    {
        proof {
            infallible_maps_getter_errors::<S, I, PL2::GetterError, G1>(self.0);
            identity_maps_getter_errors(other.0);
            assert forall|s: S| (#[trigger] self.0.try_get_spec(s)) is Ok by {
                self.0.get_is_total(s);
            }
        }
        composed_partial_getter(
            self.0,
            other.0,
            infallible::<PL2::GetterError>,
            identity::<PL2::GetterError>,
            Ghost(never()),
            Ghost(same()),
        )
    }
}

} // verus!
