//! The decoded entities and their mathematical views.

pub mod junction;
pub mod asset;
pub mod response;
pub mod instruction;
pub mod envelope;
