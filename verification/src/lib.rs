//! Verified core of a derive-style code generator for tagged-union error
//! types.
//!
//! Given the structural description of an error enum (its name and its
//! variants, each with a shape and an optional `status` marker), the
//! generator resolves each variant's response classification and emits
//! three behaviors as Rust source text:
//!
//! - a classifier mapping each variant to its status-code expression,
//! - a response builder that hides the message of server-fault errors
//!   behind a fixed literal while logging the detail, and
//! - a debug rendering that walks the error's causal chain.
//!
//! The modules also carry a verified model of what the emitted code does at
//! runtime, so the information-hiding and rendering policies are stated and
//! proved here rather than only re-emitted as text.

pub mod emit;
pub mod render;
pub mod resolve;
pub mod response;
pub mod variant;
