//! The instruction format: an opcode byte followed, for `SetTo`, by a
//! little-endian 32-bit operand.

use vstd::prelude::*;

verus! {

/// A decoded command for the counter.
#[derive(Clone, Copy, Debug, PartialEq, Eq, Structural)]
pub enum ContractInstructions {
    Increment,
    Decrement,
    SetTo(u32),
}

/// Why a byte sequence is not an instruction.
#[derive(Clone, Copy, Debug, PartialEq, Eq, Structural)]
pub enum DecodeError {
    /// Empty input, an unknown opcode, or a `SetTo` operand that is not four bytes.
    MalformedInstruction,
}

/// The value of four bytes read as a little-endian unsigned integer.
pub open spec fn le_value(b: Seq<u8>) -> int
    recommends
        b.len() == 4,
{
    b[0] as int + 256 * (b[1] as int) + 65536 * (b[2] as int) + 16777216 * (b[3] as int)
}

/// The four little-endian bytes of `v`, least significant first.
pub open spec fn le_bytes(v: u32) -> Seq<u8> {
    seq![
        (v % 256) as u8,
        ((v / 256) % 256) as u8,
        ((v / 65536) % 256) as u8,
        (v / 16777216) as u8,
    ]
}

/// What a byte sequence decodes to. Bytes after the opcode of `Increment`
/// or `Decrement` are ignored; `SetTo` takes exactly four operand bytes.
pub open spec fn spec_unpack(input: Seq<u8>) -> Result<ContractInstructions, DecodeError> {
    if input.len() == 0 {
        Err(DecodeError::MalformedInstruction)
    } else if input[0] == 0 {
        Ok(ContractInstructions::Increment)
    } else if input[0] == 1 {
        Ok(ContractInstructions::Decrement)
    } else if input[0] == 2 && input.len() == 5 {
        Ok(ContractInstructions::SetTo(le_value(input.subrange(1, 5)) as u32))
    } else {
        Err(DecodeError::MalformedInstruction)
    }
}

/// Reading back the little-endian bytes of `v` gives `v`.
pub proof fn lemma_le_bytes_round_trip(v: u32)
    ensures
        le_bytes(v).len() == 4,
        le_value(le_bytes(v)) == v as int,
{
    let b = le_bytes(v);
    assert(b[0] as int == v % 256);
    assert(b[1] as int == (v / 256) % 256);
    assert(b[2] as int == (v / 65536) % 256);
    assert(b[3] as int == v / 16777216);
    assert(v as int == v % 256 + 256 * ((v / 256) % 256) + 65536 * ((v / 65536) % 256) + 16777216
        * (v / 16777216)) by (nonlinear_arith);
}

/// Decoding the opcode of `SetTo` followed by the little-endian bytes of any
/// `v` gives `SetTo(v)`.
pub proof fn lemma_unpack_set(v: u32)
    ensures
        spec_unpack(seq![2u8].add(le_bytes(v))) == Ok::<ContractInstructions, DecodeError>(
            ContractInstructions::SetTo(v),
        ),
{
    let input = seq![2u8].add(le_bytes(v));
    lemma_le_bytes_round_trip(v);
    assert(input.subrange(1, 5) =~= le_bytes(v));
}

impl ContractInstructions {
    /// Decodes an instruction: opcode 0 is `Increment`, 1 is `Decrement`,
    /// 2 followed by exactly four bytes is `SetTo` of their little-endian value;
    /// anything else is malformed.
    pub fn unpack(input: &[u8]) -> (r: Result<Self, DecodeError>)
        ensures
            r == spec_unpack(input@),
    {
        if input.len() == 0 {
            return Err(DecodeError::MalformedInstruction);
        }
        let tag = input[0];
        if tag == 0 {
            Ok(ContractInstructions::Increment)
        } else if tag == 1 {
            Ok(ContractInstructions::Decrement)
        } else if tag == 2 {
            if input.len() != 5 {
                return Err(DecodeError::MalformedInstruction);
            }
            let val = u32_from_le(input[1], input[2], input[3], input[4]);
            proof {
                assert(input@.subrange(1, 5) =~= seq![input@[1], input@[2], input@[3], input@[4]]);
            }
            Ok(ContractInstructions::SetTo(val))
        } else {
            Err(DecodeError::MalformedInstruction)
        }
    }
}

/// The unsigned integer whose little-endian bytes are `b0`, `b1`, `b2`, `b3`.
fn u32_from_le(b0: u8, b1: u8, b2: u8, b3: u8) -> (r: u32)
    ensures
        r as int == le_value(seq![b0, b1, b2, b3]),
{
    b0 as u32 + 256 * (b1 as u32) + 65536 * (b2 as u32) + 16777216 * (b3 as u32)
}

} // verus!
