//! The canonical text of decoded entities: spec functions that say what the
//! text is, and the executable renderers that are proved to produce it.

pub mod basic;
pub mod junction;
pub mod asset;
pub mod response;
pub mod instruction;
pub mod envelope;
