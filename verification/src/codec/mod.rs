//! The grammar as parsers over `Seq<u8>`, and the executable decoders that
//! are proved equal to them.

pub mod wire;
pub mod junction;
pub mod asset;
pub mod response;
pub mod progress;
pub mod cut;
pub mod instruction;
pub mod program_cut;
pub mod legacy;
pub mod legacy_program;
pub mod envelope;
