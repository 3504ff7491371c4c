//! Decoder and renderer for bridged cross-chain message envelopes.
//!
//! An envelope is a SCALE-encoded pair of a version-tagged destination and a
//! version-tagged program of instructions. The decoders in this crate are
//! functions from a byte buffer and a position to a value and the position
//! after it; each is proved equal to a mathematical parser over `Seq<u8>`.
//! The renderers turn decoded values into canonical text and are proved equal
//! to text-valued spec functions.

pub mod error;
pub mod model;
pub mod codec;
pub mod text;
pub mod laws;
