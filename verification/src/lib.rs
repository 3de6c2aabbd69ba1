//! Traces of cross-consensus messages: a hex string is decoded into a
//! versioned instruction sequence and rendered as the comma-separated names
//! of its instructions.

pub mod decoder;
pub mod hex_text;
pub mod instruction;
pub mod laws;
pub mod message;
pub mod pipeline;
pub mod text;
pub mod xcm_v2;
pub mod xcm_v3;

pub use crate::pipeline::{trace_bytes, trace_hex, TraceError};
