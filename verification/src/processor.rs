//! Deadline evaluation.
//!
//! The evaluator is a pure rule over two signed 64-bit values: the decoded
//! deadline and a trusted current-time reading supplied by the caller. It
//! never reads a clock itself, so every call is deterministic and
//! independently evaluated.

use crate::error::DeadlineError;
use crate::instruction::DeadlineInstruction;
use crate::instruction::spec_unpack;
use vstd::prelude::*;

verus! {

/// The outcome of one deadline evaluation.
#[derive(Clone, Copy, Debug, PartialEq, Eq, Structural)]
pub enum Verdict {
    /// The instruction may proceed.
    Valid,
    /// The deadline has passed.
    Expired,
}

/// The deadline rule: `0` is the "never expires" sentinel and always passes;
/// otherwise the check is inclusive, failing exactly when `now` is strictly
/// past the deadline.
pub open spec fn spec_evaluate(deadline: i64, now: i64) -> Verdict {
    if deadline == 0 {
        Verdict::Valid
    } else if now > deadline {
        Verdict::Expired
    } else {
        Verdict::Valid
    }
}

/// The verdict the processor maps to a result: a structural defect in the
/// bytes is reported as `InvalidInstructionData`, a failed temporal check as
/// `DeadlineExpired`.
pub open spec fn spec_process(input: Seq<u8>, now: i64) -> Result<(), DeadlineError> {
    match spec_unpack(input) {
        Ok(DeadlineInstruction::ValidateDeadline { deadline }) => {
            if spec_evaluate(deadline, now) == Verdict::Valid {
                Ok(())
            } else {
                Err(DeadlineError::DeadlineExpired)
            }
        },
        Err(_) => Err(DeadlineError::InvalidInstructionData),
    }
}

/// Decides whether a deadline is still open at the given current time.
pub fn evaluate(deadline: i64, now: i64) -> (verdict: Verdict)
    ensures
        verdict == spec_evaluate(deadline, now),
{
    if deadline == 0 {
        // Special case: 0 means never expires.
        Verdict::Valid
    } else if now > deadline {
        Verdict::Expired
    } else {
        Verdict::Valid
    }
}

/// Validates that the current time is at or before the deadline, reporting
/// an expired deadline as the error the caller surfaces.
pub fn process_validate_deadline(deadline: i64, now: i64) -> (result: Result<(), DeadlineError>)
    ensures
        result == Ok::<(), DeadlineError>(()) <==> spec_evaluate(deadline, now) == Verdict::Valid,
        result == Err::<(), DeadlineError>(DeadlineError::DeadlineExpired) <==> spec_evaluate(
            deadline,
            now,
        ) == Verdict::Expired,
{
    match evaluate(deadline, now) {
        Verdict::Valid => Ok(()),
        Verdict::Expired => Err(DeadlineError::DeadlineExpired),
    }
}

/// Processes one instruction buffer against the given current time: decodes
/// the bytes, then evaluates the deadline they carry.
pub fn process_instruction(instruction_data: &[u8], now: i64) -> (result: Result<
    (),
    DeadlineError,
>)
    ensures
        result == spec_process(instruction_data@, now),
{
    let instruction = match DeadlineInstruction::unpack(instruction_data) {
        Ok(instruction) => instruction,
        Err(_) => {
            return Err(DeadlineError::InvalidInstructionData);
        },
    };
    match instruction {
        DeadlineInstruction::ValidateDeadline { deadline } => process_validate_deadline(
            deadline,
            now,
        ),
    }
}

/// Law: a deadline of `0` never expires, whatever the current time reads —
/// negative, zero, or maximal.
pub proof fn lemma_sentinel_never_expires(now: i64)
    ensures
        spec_evaluate(0, now) == Verdict::Valid,
{
}

/// Law: the boundary is inclusive — a nonzero deadline exactly equal to the
/// current time still passes.
pub proof fn lemma_inclusive_boundary(deadline: i64)
    requires
        deadline != 0,
    ensures
        spec_evaluate(deadline, deadline) == Verdict::Valid,
{
}

/// Law: expiry is strict — one second past a nonzero deadline already fails.
pub proof fn lemma_strict_expiry(deadline: i64)
    requires
        deadline != 0,
        deadline < i64::MAX,
    ensures
        spec_evaluate(deadline, (deadline + 1) as i64) == Verdict::Expired,
{
}

/// Law: a negative deadline is always expired once the current time is
/// nonnegative, which holds of every valid clock reading.
pub proof fn lemma_negative_deadline_expired(deadline: i64, now: i64)
    requires
        deadline < 0,
        now >= 0,
    ensures
        spec_evaluate(deadline, now) == Verdict::Expired,
{
}

/// Law: the maximal deadline can never be outrun — no representable current
/// time lies strictly past it.
pub proof fn lemma_max_deadline_always_valid(now: i64)
    ensures
        spec_evaluate(i64::MAX, now) == Verdict::Valid,
{
}

} // verus!
