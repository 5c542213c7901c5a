//! Lenses: total optics that read and write a part that is always there.

use crate::base::{HasSetter, HasTotalGetter};
use vstd::prelude::*;

pub mod composed;
pub mod wrapper;

verus! {

/// A total read and a write.
pub trait Lens<S, A>: HasTotalGetter<S, A> + HasSetter<S, A> {

}

impl<S, A, T: HasTotalGetter<S, A> + HasSetter<S, A>> Lens<S, A> for T {

}

} // verus!
