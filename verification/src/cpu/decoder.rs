//! Decoding of a raw opcode word without surrounding bytes.

use vstd::prelude::*;

use crate::cpu::instruction_formats::DecodeError;
use crate::cpu::instruction_formats::spec_decoded;
use crate::cpu::instructions::DecodedInstruction;
use crate::cpu::instructions::Instruction;

verus! {

/// Wraps a raw opcode word as an `Unknown` instruction of four bytes at
/// the given address.
pub fn decode_instruction(opcode: u32, address: u32) -> (r: Result<
    DecodedInstruction,
    DecodeError,
>)
    ensures
        r == Ok::<DecodedInstruction, DecodeError>(
            spec_decoded(Instruction::Unknown { opcode }, address, 4),
        ),
{
    let instruction = Instruction::Unknown { opcode };
    Ok(DecodedInstruction::new(instruction, address, 4))
}

} // verus!

