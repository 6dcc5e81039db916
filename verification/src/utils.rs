//! Small helpers for decoding request fields and for writing templates.

pub mod askama;
pub mod serde;
