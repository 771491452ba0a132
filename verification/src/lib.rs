//! Stateless deadline validation.
//!
//! A transaction carries a 9-byte instruction: one discriminator octet
//! followed by a signed 64-bit deadline in little-endian order. Given such a
//! buffer and a trusted current-time reading supplied by the caller, the
//! library decides whether the instruction is still within its deadline.
//! A deadline of `0` is the explicit "never expires" sentinel.
//!
//! The caller (a host execution harness) owns sourcing the clock value and
//! mapping the failure values onto its own error reporting; this crate holds
//! only the wire-format codec and the evaluation rule, both verified.

pub mod error;
pub mod instruction;
pub mod processor;
