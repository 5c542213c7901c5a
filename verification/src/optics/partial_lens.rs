//! Partial lenses: optics that read and write a part that may be absent.

use crate::base::{HasGetter, HasSetter};
use vstd::prelude::*;

pub mod composed;
pub mod wrapper;

verus! {

/// A fallible read and a write.
pub trait PartialLens<S, A>: HasGetter<S, A> + HasSetter<S, A> {

}

impl<S, A, T: HasGetter<S, A> + HasSetter<S, A>> PartialLens<S, A> for T {

}

} // verus!
