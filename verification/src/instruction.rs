//! The instruction decoder: parses the opcode and the fixed-width operands
//! from the raw instruction byte stream.
//!
//! Byte 0 is the opcode; bytes 1..17 are two little-endian 64-bit operand
//! bit patterns, present exactly for the opcodes that take operands.

use vstd::prelude::*;

use crate::codec::read_le_u64;
use crate::codec::u64_of_le_bytes;
use crate::error::CalcError;

verus! {

/// The opcode byte that selects addition.
pub const OPCODE_ADD: u8 = 0;

/// The opcode byte that selects subtraction.
pub const OPCODE_SUBTRACT: u8 = 1;

/// A decoded instruction: an operation together with the bit patterns of its
/// two double-precision operands.
#[derive(Clone, Copy, Debug, PartialEq, Eq, Structural)]
pub enum Instruction {
    /// Overwrite the record with the sum of the two operands.
    Add { num1_bits: u64, num2_bits: u64 },
    /// Overwrite the record with the difference of the two operands.
    Subtract { num1_bits: u64, num2_bits: u64 },
}

/// What `parse` returns on a payload with contents `payload`.
pub open spec fn parse_spec(payload: Seq<u8>) -> Result<Instruction, CalcError> {
    if payload.len() == 0 {
        Err(CalcError::EmptyInstruction)
    } else if payload[0] == OPCODE_ADD || payload[0] == OPCODE_SUBTRACT {
        if payload.len() < 17 {
            Err(CalcError::TruncatedOperands)
        } else {
            let num1_bits = u64_of_le_bytes(payload.subrange(1, 9));
            let num2_bits = u64_of_le_bytes(payload.subrange(9, 17));
            if payload[0] == OPCODE_ADD {
                Ok(Instruction::Add { num1_bits, num2_bits })
            } else {
                Ok(Instruction::Subtract { num1_bits, num2_bits })
            }
        }
    } else {
        Err(CalcError::UnknownOpcode)
    }
}

/// Parses an instruction payload.  Pure: no side effects.
///
/// Fails with `EmptyInstruction` on an empty payload, with
/// `TruncatedOperands` when a recognized opcode's two eight-byte operands
/// are not all present, and with `UnknownOpcode` on any leading byte outside
/// the recognized set; each if and only if so.
pub fn parse(payload: &[u8]) -> (r: Result<Instruction, CalcError>)
    ensures
        r == parse_spec(payload@),
{
    if payload.len() == 0 {
        return Err(CalcError::EmptyInstruction);
    }
    let opcode = *vstd::slice::slice_index_get(payload, 0);
    if opcode == OPCODE_ADD || opcode == OPCODE_SUBTRACT {
        if payload.len() < 17 {
            return Err(CalcError::TruncatedOperands);
        }
        let num1_bits = read_le_u64(payload, 1);
        let num2_bits = read_le_u64(payload, 9);
        if opcode == OPCODE_ADD {
            Ok(Instruction::Add { num1_bits, num2_bits })
        } else {
            Ok(Instruction::Subtract { num1_bits, num2_bits })
        }
    } else {
        Err(CalcError::UnknownOpcode)
    }
}

} // verus!
