//! The kinds of optic, one module each: what the kind can do, its public wrapper, and how
//! two optics compose into one of that kind.

pub mod fallible_iso;
pub mod getter;
pub mod iso;
pub mod lens;
pub mod partial_getter;
pub mod partial_lens;
pub mod prism;
