//! Isomorphisms: total optics in both directions.

use crate::base::{HasSetter, HasTotalGetter, HasTotalReverseGet};
use vstd::prelude::*;

pub mod composed;
pub mod wrapper;

verus! {

/// A total read, a write and a total reverse construction.
pub trait Iso<S, A>: HasTotalGetter<S, A> + HasSetter<S, A> + HasTotalReverseGet<S, A> {

}

impl<S, A, T: HasTotalGetter<S, A> + HasSetter<S, A> + HasTotalReverseGet<S, A>> Iso<S, A> for T {

}

} // verus!
