//! Composable data accessors: getters, lenses, prisms and isomorphisms that focus on a part
//! `A` of a whole `S`, and the rules by which two of them combine into one.
//!
//! An optic is a plain value. What it can do is given by the capabilities in [`base`]; the
//! kinds in [`optics`] are the bundles of capabilities that have a name. Composing two
//! optics keeps what both can do, as [`kind`] works out, and [`laws`] states what the
//! composition preserves.

pub mod base;
pub mod kind;
pub mod laws;
pub mod optics;

pub use base::{
    identity, HasGetter, HasReverseGet, HasSetter, HasTotalGetter, HasTotalReverseGet,
};
pub use kind::Kind;
pub use optics::fallible_iso::composed::new as composed_fallible_iso;
pub use optics::fallible_iso::wrapper::FallibleIsoImpl;
pub use optics::fallible_iso::FallibleIso;
pub use optics::getter::composed::new as composed_getter;
pub use optics::getter::wrapper::GetterImpl;
pub use optics::getter::Getter;
pub use optics::iso::composed::new as composed_iso;
pub use optics::iso::wrapper::IsoImpl;
pub use optics::iso::Iso;
pub use optics::lens::composed::new as composed_lens;
pub use optics::lens::wrapper::LensImpl;
pub use optics::lens::Lens;
pub use optics::partial_getter::composed::new as composed_partial_getter;
pub use optics::partial_getter::wrapper::PartialGetterImpl;
pub use optics::partial_getter::PartialGetter;
pub use optics::partial_lens::composed::new as composed_partial_lens;
pub use optics::partial_lens::wrapper::PartialLensImpl;
pub use optics::partial_lens::PartialLens;
pub use optics::prism::composed::new as composed_prism;
pub use optics::prism::wrapper::PrismImpl;
pub use optics::prism::Prism;
