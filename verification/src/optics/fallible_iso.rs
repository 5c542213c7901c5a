//! Fallible isomorphisms: optics that may fail in both directions.

use crate::base::{HasGetter, HasReverseGet, HasSetter};
use vstd::prelude::*;

pub mod composed;
pub mod wrapper;

verus! {

/// A fallible read, a write and a fallible reverse construction.
pub trait FallibleIso<S, A>: HasGetter<S, A> + HasSetter<S, A> + HasReverseGet<S, A> {

}

impl<S, A, T: HasGetter<S, A> + HasSetter<S, A> + HasReverseGet<S, A>> FallibleIso<S, A> for T {

}

} // verus!
