//! The wrapper of isomorphisms, and what it composes with.

use crate::base::{
    composes_builds, composes_reads, composes_writes, identity, identity_maps_getter_errors,
    identity_maps_reverse_errors, infallible, infallible_maps_getter_errors,
    infallible_maps_reverse_errors, never, same, HasGetter, HasReverseGet, HasSetter,
    HasTotalGetter, HasTotalReverseGet,
};
use crate::kind::Kind;
use crate::optics::fallible_iso::FallibleIso;
use crate::optics::fallible_iso::composed::compose as composed_fallible_iso;
use crate::optics::fallible_iso::wrapper::FallibleIsoImpl;
use crate::optics::getter::Getter;
use crate::optics::getter::composed::new as composed_getter;
use crate::optics::getter::wrapper::GetterImpl;
use crate::optics::iso::Iso;
use crate::optics::iso::composed::new as composed_iso;
use crate::optics::lens::Lens;
use crate::optics::lens::composed::new as composed_lens;
use crate::optics::lens::wrapper::LensImpl;
use crate::optics::partial_getter::PartialGetter;
use crate::optics::partial_getter::composed::compose as composed_partial_getter;
use crate::optics::partial_getter::wrapper::PartialGetterImpl;
use crate::optics::partial_lens::PartialLens;
use crate::optics::partial_lens::composed::compose as composed_partial_lens;
use crate::optics::partial_lens::wrapper::PartialLensImpl;
use crate::optics::prism::Prism;
use crate::optics::prism::composed::compose as composed_prism;
use crate::optics::prism::wrapper::PrismImpl;
use core::convert::Infallible;
use core::marker::PhantomData;
use vstd::prelude::*;
use vstd::std_specs::convert::FromSpecImpl;

verus! {

/// The public face of an isomorphism: it shows the total read, the write and the total
/// construction of the optic inside.
pub struct IsoImpl<S, A, ISO: Iso<S, A>>(pub ISO, pub PhantomData<(S, A)>);

impl<S, A, ISO: Iso<S, A>> IsoImpl<S, A, ISO> {
    /// Wraps an optic that can do what an isomorphism does.
    pub fn new(iso: ISO) -> (r: Self)
        ensures
            r.0 == iso,
    {
        IsoImpl(iso, PhantomData)
    }

    /// The kind of optic that this wrapper shows.
    pub open spec fn kind_spec(&self) -> Kind {
        Kind::Iso
    }

    /// The kind of optic that this wrapper shows.
    #[verifier::when_used_as_spec(kind_spec)]
    pub fn kind(&self) -> (k: Kind)
        ensures
            k == Kind::Iso,
    {
        Kind::Iso
    }
}

impl<S, A, ISO: Iso<S, A>> From<ISO> for IsoImpl<S, A, ISO> {
    fn from(value: ISO) -> (r: Self) {
        Self::new(value)
    }
}

impl<S, A, ISO: Iso<S, A>> FromSpecImpl<ISO> for IsoImpl<S, A, ISO> {
    open spec fn obeys_from_spec() -> bool {
        true
    }

    open spec fn from_spec(value: ISO) -> Self {
        IsoImpl(value, PhantomData)
    }
}

impl<S, A, ISO: Iso<S, A>> HasGetter<S, A> for IsoImpl<S, A, ISO> {
    type GetterError = Infallible;

    open spec fn try_get_spec(&self, source: S) -> Result<A, Infallible> {
        self.0.try_get_spec(source)
    }

    fn try_get(&self, source: &S) -> (r: Result<A, Infallible>) {
        Ok(self.0.get(source))
    }
}

impl<S, A, ISO: Iso<S, A>> HasTotalGetter<S, A> for IsoImpl<S, A, ISO> {
    proof fn get_is_total(&self, source: S) {
        self.0.get_is_total(source);
    }

    fn get(&self, source: &S) -> (a: A) {
        self.0.get(source)
    }
}

impl<S, A, ISO: Iso<S, A>> HasSetter<S, A> for IsoImpl<S, A, ISO> {
    open spec fn set_spec(&self, source: S, value: A) -> S {
        self.0.set_spec(source, value)
    }

    fn set(&self, source: &mut S, value: A) {
        self.0.set(source, value)
    }
}

impl<S, A, ISO: Iso<S, A>> HasReverseGet<S, A> for IsoImpl<S, A, ISO> {
    type ReverseError = Infallible;

    open spec fn try_reverse_get_spec(&self, value: A) -> Result<S, Infallible> {
        self.0.try_reverse_get_spec(value)
    }

    fn try_reverse_get(&self, value: &A) -> (r: Result<S, Infallible>) {
        Ok(self.0.reverse_get(value))
    }
}

impl<S, A, ISO: Iso<S, A>> HasTotalReverseGet<S, A> for IsoImpl<S, A, ISO> {
    proof fn reverse_get_is_total(&self, value: A) {
        self.0.reverse_get_is_total(value);
    }

    fn reverse_get(&self, value: &A) -> (s: S) {
        self.0.reverse_get(value)
    }
}

impl<S, I, ISO1: Iso<S, I>> IsoImpl<S, I, ISO1> {
    /// This isomorphism followed by a getter. What both can do is read without fail, so the
    /// result is a getter.
    pub fn compose_with_getter<A, G2: Getter<I, A>>(
        self,
        other: GetterImpl<I, A, G2>,
    ) -> (r: GetterImpl<S, A, impl Getter<S, A>>)
        ensures
            composes_reads(r.0, self.0, other.0, same(), same()),
            r.kind() == self.kind().compose(other.kind()),
    {
        composed_getter(self.0, other.0)
    }

    /// This isomorphism followed by a partial getter. What both can do is read, so the result
    /// is a partial getter. It fails to read where `other` does, with the error of `other`.
    pub fn compose_with_partial_getter<A, PG2: PartialGetter<I, A>>(
        self,
        other: PartialGetterImpl<I, A, PG2>,
    ) -> (r: PartialGetterImpl<S, A, impl PartialGetter<S, A, GetterError = PG2::GetterError>>)
        ensures
            composes_reads(r.0, self.0, other.0, never(), same()),
            r.kind() == self.kind().compose(other.kind()),
    {
        proof {
            infallible_maps_getter_errors::<S, I, PG2::GetterError, ISO1>(self.0);
            identity_maps_getter_errors(other.0);
        }
        composed_partial_getter(
            self.0,
            other.0,
            infallible::<PG2::GetterError>,
            identity::<PG2::GetterError>,
            Ghost(never()),
            Ghost(same()),
        )
    }

    /// This isomorphism followed by a lens. What both can do is read without fail and write, so
    /// the result is a lens.
    pub fn compose_with_lens<A, L2: Lens<I, A>>(
        self,
        other: LensImpl<I, A, L2>,
    ) -> (r: LensImpl<S, A, impl Lens<S, A>>)
        ensures
            composes_reads(r.0, self.0, other.0, same(), same()),
            composes_writes(r.0, self.0, other.0),
            r.kind() == self.kind().compose(other.kind()),
    {
        composed_lens(self.0, other.0)
    }

    /// This isomorphism followed by a partial lens. What both can do is read and write, so the
    /// result is a partial lens. It fails to read where `other` does, with the error of
    /// `other`.
    pub fn compose_with_partial_lens<A, PL2: PartialLens<I, A>>(
        self,
        other: PartialLensImpl<I, A, PL2>,
    ) -> (r: PartialLensImpl<S, A, impl PartialLens<S, A, GetterError = PL2::GetterError>>)
        ensures
            composes_reads(r.0, self.0, other.0, never(), same()),
            composes_writes(r.0, self.0, other.0),
            r.kind() == self.kind().compose(other.kind()),
    {
        proof {
            infallible_maps_getter_errors::<S, I, PL2::GetterError, ISO1>(self.0);
            identity_maps_getter_errors(other.0);
        }
        composed_partial_lens(
            self.0,
            other.0,
            infallible::<PL2::GetterError>,
            identity::<PL2::GetterError>,
            Ghost(never()),
            Ghost(same()),
        )
    }

    /// This isomorphism followed by a prism. What both can do is read, write and build without
    /// fail, so the result is a prism. It fails to read where `other` does, with the error of
    /// `other`.
    pub fn compose_with_prism<A, PR2: Prism<I, A>>(
        self,
        other: PrismImpl<I, A, PR2>,
    ) -> (r: PrismImpl<S, A, impl Prism<S, A, GetterError = PR2::GetterError>>)
        ensures
            composes_reads(r.0, self.0, other.0, never(), same()),
            composes_writes(r.0, self.0, other.0),
            composes_builds(r.0, self.0, other.0, same(), same()),
            r.kind() == self.kind().compose(other.kind()),
    {
        proof {
            infallible_maps_getter_errors::<S, I, PR2::GetterError, ISO1>(self.0);
            identity_maps_getter_errors(other.0);
        }
        composed_prism(
            self.0,
            other.0,
            infallible::<PR2::GetterError>,
            identity::<PR2::GetterError>,
            Ghost(never()),
            Ghost(same()),
        )
    }

    /// This isomorphism followed by an isomorphism. What both can do is read and build without
    /// fail, and write, so the result is an isomorphism.
    pub fn compose_with_iso<A, ISO2: Iso<I, A>>(
        self,
        other: IsoImpl<I, A, ISO2>,
    ) -> (r: IsoImpl<S, A, impl Iso<S, A>>)
        ensures
            composes_reads(r.0, self.0, other.0, same(), same()),
            composes_writes(r.0, self.0, other.0),
            composes_builds(r.0, self.0, other.0, same(), same()),
            r.kind() == self.kind().compose(other.kind()),
    {
        composed_iso(self.0, other.0)
    }

    /// This isomorphism followed by a fallible isomorphism. What both can do is read, write and
    /// build, so the result is a fallible isomorphism. It fails to read where `other` does,
    /// with the error of `other`. It fails to build where `other` does, with the error of
    /// `other`.
    pub fn compose_with_fallible_iso<A, FI2: FallibleIso<I, A>>(
        self,
        other: FallibleIsoImpl<I, A, FI2>,
    ) -> (r: FallibleIsoImpl<S, A, impl FallibleIso<S, A, GetterError = FI2::GetterError, ReverseError = FI2::ReverseError>>)
        ensures
            composes_reads(r.0, self.0, other.0, never(), same()),
            composes_writes(r.0, self.0, other.0),
            composes_builds(r.0, self.0, other.0, never(), same()),
            r.kind() == self.kind().compose(other.kind()),
    {
        proof {
            infallible_maps_getter_errors::<S, I, FI2::GetterError, ISO1>(self.0);
            identity_maps_getter_errors(other.0);
            infallible_maps_reverse_errors::<S, I, FI2::ReverseError, ISO1>(self.0);
            identity_maps_reverse_errors(other.0);
        }
        composed_fallible_iso(
            self.0,
            other.0,
            infallible::<FI2::GetterError>,
            identity::<FI2::GetterError>,
            infallible::<FI2::ReverseError>,
            identity::<FI2::ReverseError>,
            Ghost(never()),
            Ghost(same()),
            Ghost(never()),
            Ghost(same()),
        )
    }
}

} // verus!
