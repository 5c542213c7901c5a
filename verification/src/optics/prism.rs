//! Prisms: optics over a part that may be absent, and from which the whole can always be
//! built.

use crate::base::{HasGetter, HasSetter, HasTotalReverseGet};
use vstd::prelude::*;

pub mod composed;
pub mod wrapper;

verus! {

/// A fallible read, a write and a total reverse construction.
pub trait Prism<S, A>: HasGetter<S, A> + HasSetter<S, A> + HasTotalReverseGet<S, A> {

}

impl<S, A, T: HasGetter<S, A> + HasSetter<S, A> + HasTotalReverseGet<S, A>> Prism<S, A> for T {

}

} // verus!
