//! Getters: total, read-only optics.

use crate::base::HasTotalGetter;
use vstd::prelude::*;

pub mod composed;
pub mod wrapper;

verus! {

/// A total read and nothing else.
pub trait Getter<S, A>: HasTotalGetter<S, A> {

}

impl<S, A, T: HasTotalGetter<S, A>> Getter<S, A> for T {

}

} // verus!
