//! Partial getters: fallible, read-only optics.

use crate::base::HasGetter;
use vstd::prelude::*;

pub mod composed;
pub mod wrapper;

verus! {

/// A fallible read and nothing else.
pub trait PartialGetter<S, A>: HasGetter<S, A> {

}

impl<S, A, T: HasGetter<S, A>> PartialGetter<S, A> for T {

}

} // verus!
