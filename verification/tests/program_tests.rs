//! End-to-end tests: a packed instruction buffer processed against a fixed
//! clock reading, the way a host harness drives the library per transaction.

use deadline_validator::error::DeadlineError;
use deadline_validator::instruction::DeadlineInstruction;
use deadline_validator::processor::process_instruction;

/// Helper to build the wire bytes of a `ValidateDeadline` instruction.
fn validate_deadline_data(deadline: i64) -> Vec<u8> {
    DeadlineInstruction::ValidateDeadline { deadline }.pack()
}

#[test]
fn test_future_deadline_succeeds() {
    // Clock at a known timestamp
    let now = 1700000000; // Nov 14, 2023

    // Deadline in the future should succeed
    let future_deadline = 1800000000; // Apr 23, 2027
    let data = validate_deadline_data(future_deadline);

    assert_eq!(process_instruction(&data, now), Ok(()));
}

#[test]
fn test_expired_deadline_fails() {
    // Clock at a known timestamp
    let now = 1700000000; // Nov 14, 2023

    // Deadline in the past should fail
    let past_deadline = 1600000000; // Sep 13, 2020
    let data = validate_deadline_data(past_deadline);

    assert_eq!(process_instruction(&data, now), Err(DeadlineError::DeadlineExpired));
}

#[test]
fn test_deadline_zero_never_expires() {
    // Clock at any timestamp
    let now = 1700000000;

    // Deadline = 0 should never expire
    let data = validate_deadline_data(0);

    assert_eq!(process_instruction(&data, now), Ok(()));
}

#[test]
fn test_negative_deadline_always_expired() {
    // Clock at current time (always positive)
    let now = 1700000000;

    // Negative deadline should always be expired
    let negative_deadline = -1000;
    let data = validate_deadline_data(negative_deadline);

    assert_eq!(process_instruction(&data, now), Err(DeadlineError::DeadlineExpired));
}

#[test]
fn test_deadline_boundary_exact_match() {
    let timestamp = 1700000000;

    // Deadline exactly matching current time should succeed (inclusive behavior)
    let data = validate_deadline_data(timestamp);

    assert_eq!(process_instruction(&data, timestamp), Ok(()));
}

#[test]
fn test_deadline_boundary_one_second_past() {
    let timestamp = 1700000000;

    // Deadline one second in the past should fail
    let data = validate_deadline_data(timestamp - 1);

    assert_eq!(process_instruction(&data, timestamp), Err(DeadlineError::DeadlineExpired));
}

#[test]
fn test_deadline_boundary_one_second_future() {
    let timestamp = 1700000000;

    // Deadline one second in the future should succeed
    let data = validate_deadline_data(timestamp + 1);

    assert_eq!(process_instruction(&data, timestamp), Ok(()));
}

#[test]
fn test_time_progression_deadline_expiration() {
    let initial_timestamp = 1700000000;
    let deadline = initial_timestamp + 100; // 100 seconds in the future

    // First transaction should succeed
    let data = validate_deadline_data(deadline);
    assert_eq!(process_instruction(&data, initial_timestamp), Ok(()));

    // Second transaction with same deadline should fail after time progresses
    let later = initial_timestamp + 200; // 200 seconds later
    assert_eq!(process_instruction(&data, later), Err(DeadlineError::DeadlineExpired));
}

#[test]
fn test_extreme_future_deadline() {
    let now = 1700000000;

    // Maximum i64 value (far future)
    let far_future_deadline = i64::MAX;
    let data = validate_deadline_data(far_future_deadline);

    assert_eq!(process_instruction(&data, now), Ok(()));
}

#[test]
fn test_extreme_past_deadline() {
    let now = 1700000000;

    // Minimum i64 value (far past)
    let far_past_deadline = i64::MIN;
    let data = validate_deadline_data(far_past_deadline);

    assert_eq!(process_instruction(&data, now), Err(DeadlineError::DeadlineExpired));
}

#[test]
fn test_multiple_transactions_same_deadline() {
    let timestamp = 1700000000;
    let deadline = timestamp + 1000;

    // Repeated evaluation of the same deadline at the same clock reading
    // always yields the same verdict
    for _ in 0..5 {
        let data = validate_deadline_data(deadline);
        assert_eq!(process_instruction(&data, timestamp), Ok(()));
    }
}

#[test]
fn test_unix_epoch_deadline() {
    let now = 1700000000;

    // Unix epoch (0) has special meaning, but 1 should be expired
    let epoch_plus_one = 1;
    let data = validate_deadline_data(epoch_plus_one);

    assert_eq!(process_instruction(&data, now), Err(DeadlineError::DeadlineExpired));
}

#[test]
fn test_recent_past_deadline() {
    let now = 1700000000;

    // Year 2001, definitely in the past
    let year_2001 = 1000000000;
    let data = validate_deadline_data(year_2001);

    assert_eq!(process_instruction(&data, now), Err(DeadlineError::DeadlineExpired));
}

#[test]
fn test_malformed_instruction_rejected() {
    let now = 1700000000;

    // Every structural defect surfaces as InvalidInstructionData, distinct
    // from the expiry error
    for data in [&[][..], &[0u8][..], &[0u8, 1, 2, 3][..], &[1u8, 0, 0, 0, 0, 0, 0, 0, 0][..]] {
        assert_eq!(process_instruction(data, now), Err(DeadlineError::InvalidInstructionData));
    }
}
