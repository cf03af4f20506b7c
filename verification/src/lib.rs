//! Verified core of a text-tokenization service that a host process reaches
//! over a C-style boundary.
//!
//! The pieces worth proving live here:
//! - [`resolve`]: the model-resolution protocol (local file, then hub lookup,
//!   then local cache scan), as a state machine whose transitions are fully
//!   specified; the unverified shell performs the I/O each step asks for.
//! - [`encode`]: the deterministic JSON payload encoder for tokenization
//!   results.
//! - [`boundary`]: validation of the foreign inputs and the pipeline from a
//!   loaded model to the final payload.
//! - [`engine`]: the trusted bindings to the external tokenization engine.

pub mod boundary;
pub mod encode;
pub mod engine;
pub mod resolve;
pub mod text;
