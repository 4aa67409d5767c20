//! How a decoded instruction changes the counter.

use vstd::prelude::*;
use crate::instruction::ContractInstructions;

verus! {

/// Why an instruction cannot be applied to the current counter.
#[derive(Clone, Copy, Debug, PartialEq, Eq, Structural)]
pub enum TransitionError {
    /// `Increment` on the largest value.
    Overflow,
    /// `Decrement` on zero.
    Underflow,
}

/// The counter after `instruction`, or why there is none.
pub open spec fn spec_apply(instruction: ContractInstructions, current: u32) -> Result<u32, TransitionError> {
    match instruction {
        ContractInstructions::Increment => if current == u32::MAX {
            Err(TransitionError::Overflow)
        } else {
            Ok((current + 1) as u32)
        },
        ContractInstructions::Decrement => if current == 0 {
            Err(TransitionError::Underflow)
        } else {
            Ok((current - 1) as u32)
        },
        ContractInstructions::SetTo(value) => Ok(value),
    }
}

/// Applies `instruction` to `current`: one more, one less, or the given
/// value, with overflow and underflow reported instead of wrapping.
pub fn apply(instruction: ContractInstructions, current: u32) -> (r: Result<u32, TransitionError>)
    ensures
        r == spec_apply(instruction, current),
        instruction == ContractInstructions::Increment ==> (r is Ok <==> current < u32::MAX),
        instruction == ContractInstructions::Decrement ==> (r is Ok <==> current > 0),
        instruction matches ContractInstructions::SetTo(v) ==> r == Ok::<u32, TransitionError>(v),
{
    match instruction {
        ContractInstructions::Increment => {
            if current == u32::MAX {
                Err(TransitionError::Overflow)
            } else {
                Ok(current + 1)
            }
        },
        ContractInstructions::Decrement => {
            if current == 0 {
                Err(TransitionError::Underflow)
            } else {
                Ok(current - 1)
            }
        },
        ContractInstructions::SetTo(value) => Ok(value),
    }
}

} // verus!
