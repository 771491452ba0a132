//! Program-level error values.

use vstd::prelude::*;

verus! {

/// Errors that the deadline validator reports to its caller.
///
/// The two variants keep the two failure families apart: a structural defect
/// in the instruction bytes (`InvalidInstructionData`) versus a well-formed
/// instruction whose temporal condition failed (`DeadlineExpired`).
#[derive(Clone, Copy, Debug, PartialEq, Eq, Structural)]
pub enum DeadlineError {
    /// The deadline has expired (current time is past the deadline).
    DeadlineExpired,
    /// The instruction data is invalid or malformed.
    InvalidInstructionData,
}

impl DeadlineError {
    /// The numeric code under which a host harness reports this error.
    pub fn error_code(&self) -> (code: u32)
        ensures
            code == (match *self {
                DeadlineError::DeadlineExpired => 0u32,
                DeadlineError::InvalidInstructionData => 1u32,
            }),
    {
        match *self {
            DeadlineError::DeadlineExpired => 0,
            DeadlineError::InvalidInstructionData => 1,
        }
    }
}

} // verus!
