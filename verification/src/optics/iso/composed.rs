//! The composition of two isomorphisms.

use crate::base::{
    build_through, composes_builds, composes_reads, composes_writes, read_through, same,
    write_through, HasGetter, HasReverseGet, HasSetter, HasTotalGetter, HasTotalReverseGet,
};
use crate::optics::iso::wrapper::IsoImpl;
use crate::optics::iso::Iso;
use core::convert::Infallible;
use core::marker::PhantomData;
use vstd::prelude::*;

verus! {

/// Two isomorphisms in a row.
struct ComposedIso<ISO1: Iso<S, I>, ISO2: Iso<I, A>, S, I, A> {
    optic1: ISO1,
    optic2: ISO2,
    _phantom: PhantomData<(S, I, A)>,
}

impl<ISO1, ISO2, S, I, A> ComposedIso<ISO1, ISO2, S, I, A> where
    ISO1: Iso<S, I>,
    ISO2: Iso<I, A>,
 {
    fn new(optic1: ISO1, optic2: ISO2) -> (r: Self)
        ensures
            r.optic1 == optic1,
            r.optic2 == optic2,
    {
        ComposedIso { optic1, optic2, _phantom: PhantomData }
    }
}

impl<ISO1, ISO2, S, I, A> HasGetter<S, A> for ComposedIso<ISO1, ISO2, S, I, A> where
    ISO1: Iso<S, I>,
    ISO2: Iso<I, A>,
 {
    type GetterError = Infallible;

    closed spec fn try_get_spec(&self, source: S) -> Result<A, Infallible> {
        read_through(self.optic1, self.optic2, same(), same(), source)
    }

    fn try_get(&self, source: &S) -> (r: Result<A, Infallible>) {
        let i = self.optic1.get(source);
        self.optic2.try_get(&i)
    }
}

impl<ISO1, ISO2, S, I, A> HasTotalGetter<S, A> for ComposedIso<ISO1, ISO2, S, I, A> where
    ISO1: Iso<S, I>,
    ISO2: Iso<I, A>,
 {
    proof fn get_is_total(&self, source: S) {
        self.optic1.get_is_total(source);
        self.optic2.get_is_total(self.optic1.try_get_spec(source)->Ok_0);
    }

    fn get(&self, source: &S) -> (a: A) {
        let i = self.optic1.get(source);
        self.optic2.get(&i)
    }
}

impl<ISO1, ISO2, S, I, A> HasSetter<S, A> for ComposedIso<ISO1, ISO2, S, I, A> where
    ISO1: Iso<S, I>,
    ISO2: Iso<I, A>,
 {
    closed spec fn set_spec(&self, source: S, value: A) -> S {
        write_through(self.optic1, self.optic2, source, value)
    }

    fn set(&self, source: &mut S, value: A) {
        let mut i = self.optic1.get(source);
        self.optic2.set(&mut i, value);
        self.optic1.set(source, i);
    }
}

impl<ISO1, ISO2, S, I, A> HasReverseGet<S, A> for ComposedIso<ISO1, ISO2, S, I, A> where
    ISO1: Iso<S, I>,
    ISO2: Iso<I, A>,
 {
    type ReverseError = Infallible;

    closed spec fn try_reverse_get_spec(&self, value: A) -> Result<S, Infallible> {
        build_through(self.optic1, self.optic2, same(), same(), value)
    }

    fn try_reverse_get(&self, value: &A) -> (r: Result<S, Infallible>) {
        let i = self.optic2.reverse_get(value);
        self.optic1.try_reverse_get(&i)
    }
}

impl<ISO1, ISO2, S, I, A> HasTotalReverseGet<S, A> for ComposedIso<ISO1, ISO2, S, I, A> where
    ISO1: Iso<S, I>,
    ISO2: Iso<I, A>,
 {
    proof fn reverse_get_is_total(&self, value: A) {
        self.optic2.reverse_get_is_total(value);
        self.optic1.reverse_get_is_total(self.optic2.try_reverse_get_spec(value)->Ok_0);
    }

    fn reverse_get(&self, value: &A) -> (s: S) {
        let i = self.optic2.reverse_get(value);
        self.optic1.reverse_get(&i)
    }
}

/// Composes two isomorphisms. The result reads through `i1` and then through `i2`, builds
/// through `i2` and then through `i1`, and writes as two lenses in a row do.
#[must_use]
pub fn new<S, A, I, ISO1: Iso<S, I>, ISO2: Iso<I, A>>(i1: ISO1, i2: ISO2) -> (r: IsoImpl<
    S,
    A,
    impl Iso<S, A>,
>)
    ensures
        composes_reads(r.0, i1, i2, same(), same()),
        composes_writes(r.0, i1, i2),
        composes_builds(r.0, i1, i2, same(), same()),
{
    IsoImpl::new(ComposedIso::new(i1, i2))
}

} // verus!
