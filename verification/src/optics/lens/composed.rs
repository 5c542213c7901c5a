//! The composition of two lenses.

use crate::base::{
    composes_reads, composes_writes, read_through, same, write_through, HasGetter, HasSetter,
    HasTotalGetter,
};
use crate::optics::lens::wrapper::LensImpl;
use crate::optics::lens::Lens;
use core::convert::Infallible;
use core::marker::PhantomData;
use vstd::prelude::*;

verus! {

/// Two lenses in a row: the first focuses on a part of the whole, the second on a part of
/// that part.
struct ComposedLens<L1: Lens<S, I>, L2: Lens<I, A>, S, I, A> {
    optic1: L1,
    optic2: L2,
    _phantom: PhantomData<(S, I, A)>,
}

impl<L1, L2, S, I, A> ComposedLens<L1, L2, S, I, A> where L1: Lens<S, I>, L2: Lens<I, A> {
    fn new(optic1: L1, optic2: L2) -> (r: Self)
        ensures
            r.optic1 == optic1,
            r.optic2 == optic2,
    {
        ComposedLens { optic1, optic2, _phantom: PhantomData }
    }
}

impl<S, I, A, L1, L2> HasGetter<S, A> for ComposedLens<L1, L2, S, I, A> where
    L1: Lens<S, I>,
    L2: Lens<I, A>,
 {
    type GetterError = Infallible;

    closed spec fn try_get_spec(&self, source: S) -> Result<A, Infallible> {
        read_through(self.optic1, self.optic2, same(), same(), source)
    }

    fn try_get(&self, source: &S) -> (r: Result<A, Infallible>) {
        match self.optic1.try_get(source) {
            Err(e) => Err(e),
            Ok(i) => self.optic2.try_get(&i),
        }
    }
}

impl<S, I, A, L1, L2> HasTotalGetter<S, A> for ComposedLens<L1, L2, S, I, A> where
    L1: Lens<S, I>,
    L2: Lens<I, A>,
 {
    proof fn get_is_total(&self, source: S) {
        self.optic1.get_is_total(source);
        self.optic2.get_is_total(self.optic1.try_get_spec(source)->Ok_0);
    }

    fn get(&self, source: &S) -> (a: A) {
        let i = self.optic1.get(source);
        self.optic2.get(&i)
    }
}

impl<S, I, A, L1, L2> HasSetter<S, A> for ComposedLens<L1, L2, S, I, A> where
    L1: Lens<S, I>,
    L2: Lens<I, A>,
 {
    closed spec fn set_spec(&self, source: S, value: A) -> S {
        write_through(self.optic1, self.optic2, source, value)
    }

    fn set(&self, source: &mut S, value: A) {
        let mut i = self.optic1.get(source);
        self.optic2.set(&mut i, value);
        self.optic1.set(source, i);
    }
}

/// Composes two lenses. The result reads through `l1` and then through `l2`; to write, it
/// reads the part that `l1` focuses on, writes the value into it through `l2`, and puts the
/// part back through `l1`.
#[must_use]
pub fn new<S, A, I, L1: Lens<S, I>, L2: Lens<I, A>>(l1: L1, l2: L2) -> (r: LensImpl<
    S,
    A,
    impl Lens<S, A>,
>)
    ensures
        composes_reads(r.0, l1, l2, same(), same()),
        composes_writes(r.0, l1, l2),
{
    LensImpl::new(ComposedLens::new(l1, l2))
}

} // verus!
