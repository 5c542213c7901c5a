//! The composition of two getters.

use crate::base::{composes_reads, read_through, same, HasGetter, HasTotalGetter};
use crate::optics::getter::wrapper::GetterImpl;
use crate::optics::getter::Getter;
use core::convert::Infallible;
use core::marker::PhantomData;
use vstd::prelude::*;

verus! {

/// Two getters in a row.
struct ComposedGetter<G1: Getter<S, I>, G2: Getter<I, A>, S, I, A> {
    optic1: G1,
    optic2: G2,
    _phantom: PhantomData<(S, I, A)>,
}

impl<G1, G2, S, I, A> ComposedGetter<G1, G2, S, I, A> where G1: Getter<S, I>, G2: Getter<I, A> {
    fn new(optic1: G1, optic2: G2) -> (r: Self)
        ensures
            r.optic1 == optic1,
            r.optic2 == optic2,
    {
        ComposedGetter { optic1, optic2, _phantom: PhantomData }
    }
}

impl<G1, G2, S, I, A> HasGetter<S, A> for ComposedGetter<G1, G2, S, I, A> where
    G1: Getter<S, I>,
    G2: Getter<I, A>,
 {
    type GetterError = Infallible;

    closed spec fn try_get_spec(&self, source: S) -> Result<A, Infallible> {
        read_through(self.optic1, self.optic2, same(), same(), source)
    }

    fn try_get(&self, source: &S) -> (r: Result<A, Infallible>) {
        let i = self.optic1.get(source);
        self.optic2.try_get(&i)
    }
}

impl<G1, G2, S, I, A> HasTotalGetter<S, A> for ComposedGetter<G1, G2, S, I, A> where
    G1: Getter<S, I>,
    G2: Getter<I, A>,
 {
    proof fn get_is_total(&self, source: S) {
        self.optic1.get_is_total(source);
        self.optic2.get_is_total(self.optic1.try_get_spec(source)->Ok_0);
    }

    fn get(&self, source: &S) -> (a: A) {
        let i = self.optic1.get(source);
        self.optic2.get(&i)
    }
}

/// Composes two getters: the result reads through `g1` and then through `g2`.
#[must_use]
pub fn new<S, A, I, G1: Getter<S, I>, G2: Getter<I, A>>(g1: G1, g2: G2) -> (r: GetterImpl<
    S,
    A,
    impl Getter<S, A>,
>)
    ensures
        composes_reads(r.0, g1, g2, same(), same()),
{
    GetterImpl::new(ComposedGetter::new(g1, g2))
}

} // verus!
