use counter_program::instruction::ContractInstructions;
use counter_program::transition::{apply, TransitionError};

#[test]
fn increment_adds_one() {
    assert_eq!(apply(ContractInstructions::Increment, 0), Ok(1));
    assert_eq!(apply(ContractInstructions::Increment, 256), Ok(257));
}

#[test]
fn increment_at_maximum_overflows() {
    assert_eq!(apply(ContractInstructions::Increment, u32::MAX), Err(TransitionError::Overflow));
    assert_eq!(apply(ContractInstructions::Increment, u32::MAX - 1), Ok(u32::MAX));
}

#[test]
fn decrement_subtracts_one() {
    assert_eq!(apply(ContractInstructions::Decrement, 257), Ok(256));
    assert_eq!(apply(ContractInstructions::Decrement, 1), Ok(0));
}

#[test]
fn decrement_at_zero_underflows() {
    assert_eq!(apply(ContractInstructions::Decrement, 0), Err(TransitionError::Underflow));
}

#[test]
fn set_to_ignores_current_value() {
    for current in [0u32, 7, 256, u32::MAX] {
        assert_eq!(apply(ContractInstructions::SetTo(256), current), Ok(256));
    }
}
