//! The multi-format instruction decoder.
//!
//! The opcode field of the first 16-bit word selects one of five fixed
//! binary layouts; each layout has a fixed encoded size of 2, 4 or 6
//! bytes.  Decoding is total: an unrecognized encoding decodes to
//! `Unknown`, and the only decode-time failure is a byte slice shorter
//! than the selected format.

use vstd::prelude::*;

use crate::cpu::instructions::DataSize;
use crate::cpu::instructions::DecodedInstruction;
use crate::cpu::instructions::Instruction;
use crate::cpu::instructions::Operand;
use crate::cpu::instructions::spec_estimate_cycles;
use crate::cpu::registers::ConditionCode;
use std::collections::HashMap;

verus! {

broadcast use vstd::std_specs::hash::group_hash_axioms;

/// Why decoding failed; the one decode-time error.
#[derive(Debug, Clone, Copy, PartialEq, Eq, Structural)]
pub enum DecodeError {
    /// The byte slice is shorter than the selected format requires.
    InsufficientBytes,
}

/// One of the fixed binary layouts an encoding may use, with its decoded
/// fields.
#[derive(Debug, Clone, Copy, PartialEq, Eq, Structural)]
pub enum InstructionFormat {
    /// Basic register-to-register operation, 16 bits.
    Format1 { opcode: u8, r2: u8, r1: u8, mode: u8 },
    /// Register and 16-bit immediate, 32 bits.
    Format2 { opcode: u8, r2: u8, r1: u8, mode: u8, immediate: u16 },
    /// Register and 32-bit displacement, 48 bits.
    Format3 { opcode: u8, r2: u8, r1: u8, mode: u8, displacement: u32 },
    /// Branch with condition, 32 bits.
    Format4 { opcode: u8, condition: u8, displacement: i32 },
    /// System operation, 16 bits.
    Format5 { opcode: u8, function: u8, immediate: u8 },
}

/// The first 16-bit word of an encoding, read little-endian.
pub open spec fn spec_first_word(data: Seq<u8>) -> u16 {
    (data[0] + data[1] * 0x100) as u16
}

/// The branch condition selected by the condition field.
pub open spec fn spec_condition_of(bits: u8) -> ConditionCode {
    if bits == 0x01 {
        ConditionCode::Equal
    } else if bits == 0x02 {
        ConditionCode::NotEqual
    } else if bits == 0x03 {
        ConditionCode::Carry
    } else if bits == 0x04 {
        ConditionCode::NotCarry
    } else if bits == 0x05 {
        ConditionCode::Negative
    } else if bits == 0x06 {
        ConditionCode::Positive
    } else {
        ConditionCode::Always
    }
}

/// The operation selected by a basic register-to-register encoding.
pub open spec fn spec_decode_format1(opcode: u8, r2: u8, r1: u8) -> Instruction {
    let dest = Operand::Register(r2 as usize);
    let src = Operand::Register(r1 as usize);
    if opcode == 0x00 {
        Instruction::Mov { dest, src }
    } else if opcode == 0x01 {
        Instruction::Add { dest, src1: dest, src2: src }
    } else if opcode == 0x02 {
        Instruction::Sub { dest, src1: dest, src2: src }
    } else if opcode == 0x03 {
        Instruction::And { dest, src1: dest, src2: src }
    } else if opcode == 0x04 {
        Instruction::Or { dest, src1: dest, src2: src }
    } else if opcode == 0x05 {
        Instruction::Xor { dest, src1: dest, src2: src }
    } else if opcode == 0x06 {
        Instruction::Compare { src1: dest, src2: src }
    } else {
        Instruction::Unknown {
            opcode: ((opcode as u32) * 0x10000 + (r2 as u32) * 0x100 + r1 as u32) as u32,
        }
    }
}

/// The operation selected by a register-immediate encoding.
pub open spec fn spec_decode_format2(opcode: u8, r2: u8, r1: u8, immediate: u16) -> Instruction {
    let dest = Operand::Register(r2 as usize);
    let imm = Operand::Immediate(immediate as u32);
    if opcode == 0x10 {
        Instruction::Mov { dest, src: imm }
    } else if opcode == 0x11 {
        Instruction::Add { dest, src1: dest, src2: imm }
    } else if opcode == 0x12 {
        Instruction::Sub { dest, src1: dest, src2: imm }
    } else if opcode == 0x13 {
        Instruction::And { dest, src1: dest, src2: imm }
    } else if opcode == 0x14 {
        Instruction::Or { dest, src1: dest, src2: imm }
    } else if opcode == 0x15 {
        Instruction::Xor { dest, src1: dest, src2: imm }
    } else if opcode == 0x16 {
        Instruction::Compare { src1: dest, src2: imm }
    } else {
        Instruction::Unknown {
            opcode: ((opcode as u32) * 0x1000000 + (r2 as u32) * 0x10000 + (r1 as u32) * 0x100 + (
            immediate as u32) % 0x100) as u32,
        }
    }
}

/// The operation selected by a register-displacement encoding.
pub open spec fn spec_decode_format3(opcode: u8, r2: u8, r1: u8, displacement: u32) -> Instruction {
    let dest = Operand::Register(r2 as usize);
    let addr = Operand::IndirectOffset(r1 as usize, displacement as i32);
    if opcode == 0x20 {
        Instruction::Load { dest, address: addr, size: DataSize::DWord }
    } else if opcode == 0x21 {
        Instruction::Store { src: dest, address: addr, size: DataSize::DWord }
    } else {
        Instruction::Unknown {
            opcode: ((opcode as u32) * 0x1000000 + (r2 as u32) * 0x10000 + (r1 as u32) * 0x100 + (
            displacement % 0x100)) as u32,
        }
    }
}

/// The operation selected by a branch encoding.
pub open spec fn spec_decode_format4(opcode: u8, condition: u8, displacement: i32) -> Instruction {
    let target = Operand::Immediate(displacement as u32);
    if opcode == 0x30 {
        Instruction::Jump { target }
    } else if opcode == 0x31 {
        Instruction::JumpConditional { condition: spec_condition_of(condition), target }
    } else if opcode == 0x32 {
        Instruction::Call { target }
    } else {
        Instruction::Unknown {
            opcode: ((opcode as u32) * 0x10000 + (condition as u32) * 0x100 + (displacement as u32)
                % 0x100) as u32,
        }
    }
}

/// The operation selected by a system encoding.
pub open spec fn spec_decode_format5(opcode: u8, function: u8, immediate: u8) -> Instruction {
    if function == 0x00 {
        Instruction::Nop
    } else if function == 0x01 {
        Instruction::Halt
    } else if function == 0x02 {
        Instruction::Return
    } else if function == 0x03 {
        Instruction::ReturnFromInterrupt
    } else {
        Instruction::Unknown {
            opcode: ((opcode as u32) * 0x10000 + (function as u32) * 0x100 + immediate as u32) as u32,
        }
    }
}

/// A decoded-instruction record for a given operation, address and size.
pub open spec fn spec_decoded(instruction: Instruction, address: u32, size: u32)
    -> DecodedInstruction {
    DecodedInstruction {
        cycles: spec_estimate_cycles(instruction),
        instruction,
        address,
        size,
    }
}

/// What decoding a byte slice at an address yields.  The opcode is the
/// top six bits of the first little-endian 16-bit word; it selects the
/// format, the format fixes the encoded size; a slice shorter than that
/// size fails with `InsufficientBytes`.
pub open spec fn spec_decode(data: Seq<u8>, address: u32) -> Result<
    DecodedInstruction,
    DecodeError,
> {
    if data.len() < 2 {
        Err(DecodeError::InsufficientBytes)
    } else {
        let w = spec_first_word(data);
        let opcode = ((w >> 10u16) & 0x3F) as u8;
        let r2 = ((w >> 5u16) & 0x1F) as u8;
        let r1 = (w & 0x1F) as u8;
        if opcode < 0x10 {
            Ok(spec_decoded(spec_decode_format1(opcode, r2, r1), address, 2))
        } else if opcode < 0x20 {
            if data.len() < 4 {
                Err(DecodeError::InsufficientBytes)
            } else {
                let immediate = (data[2] + data[3] * 0x100) as u16;
                Ok(spec_decoded(spec_decode_format2(opcode, r2, r1, immediate), address, 4))
            }
        } else if opcode < 0x30 {
            if data.len() < 6 {
                Err(DecodeError::InsufficientBytes)
            } else {
                let displacement = (data[2] + data[3] * 0x100 + data[4] * 0x10000 + data[5]
                    * 0x1000000) as u32;
                Ok(spec_decoded(spec_decode_format3(opcode, r2, r1, displacement), address, 6))
            }
        } else if opcode < 0x38 {
            if data.len() < 4 {
                Err(DecodeError::InsufficientBytes)
            } else {
                let displacement = (data[1] + data[2] * 0x100 + data[3] * 0x10000) as i32;
                Ok(spec_decoded(spec_decode_format4(opcode, r2, displacement), address, 4))
            }
        } else {
            Ok(spec_decoded(spec_decode_format5(opcode, r2, r1), address, 2))
        }
    }
}

/// The instruction decoder, with an address-keyed cache of previously
/// decoded instructions.  The cache is never invalidated by later memory
/// writes; it is cleared only by `clear_cache`.
#[derive(Debug)]
pub struct V60InstructionDecoder {
    instruction_cache: HashMap<u32, DecodedInstruction>,
}

impl V60InstructionDecoder {
    /// The decode cache as a map from address to decoded instruction.
    pub closed spec fn spec_cache(&self) -> Map<u32, DecodedInstruction> {
        self.instruction_cache@
    }

    /// Every cached entry records the address it was decoded from and the
    /// cycle cost of its own instruction.
    pub open spec fn wf(&self) -> bool {
        forall|a: u32| #[trigger]
            self.spec_cache().contains_key(a) ==> self.spec_cache()[a].cycles
                == spec_estimate_cycles(self.spec_cache()[a].instruction) && self.spec_cache()[
                a
            ].address == a
    }

    /// A decoder with an empty cache.
    pub fn new() -> (r: V60InstructionDecoder)
        ensures
            r.spec_cache() == Map::<u32, DecodedInstruction>::empty(),
            r.wf(),
    {
        V60InstructionDecoder { instruction_cache: HashMap::new() }
    }

    /// Decodes the bytes at an address, serving and filling the cache.
    ///
    /// An address present in the cache is answered from it, without
    /// looking at the bytes.  Otherwise the bytes decide: on success the
    /// result is cached; a short slice fails with `InsufficientBytes` and
    /// caches nothing.
    pub fn decode(&mut self, data: &[u8], address: u32) -> (r: Result<
        DecodedInstruction,
        DecodeError,
    >)
        requires
            old(self).wf(),
        ensures
            final(self).wf(),
            old(self).spec_cache().contains_key(address) ==> r == Ok::<
                DecodedInstruction,
                DecodeError,
            >(old(self).spec_cache()[address]) && final(self).spec_cache() == old(
                self,
            ).spec_cache(),
            !old(self).spec_cache().contains_key(address) ==> r == spec_decode(data@, address)
                && (match r {
                Ok(decoded) => final(self).spec_cache() == old(self).spec_cache().insert(
                    address,
                    decoded,
                ),
                Err(_) => final(self).spec_cache() == old(self).spec_cache(),
            }),
    {
        if let Some(cached) = self.instruction_cache.get(&address) {
            return Ok(*cached);
        }
        if data.len() < 2 {
            return Err(DecodeError::InsufficientBytes);
        }
        let w: u16 = data[0] as u16 + data[1] as u16 * 0x100;
        let opcode = ((w >> 10u16) & 0x3F) as u8;
        let r2 = ((w >> 5u16) & 0x1F) as u8;
        let r1 = (w & 0x1F) as u8;
        let decoded: DecodedInstruction;
        if opcode < 0x10 {
            decoded = DecodedInstruction::new(Self::decode_format1(opcode, r2, r1), address, 2);
        } else if opcode < 0x20 {
            if data.len() < 4 {
                return Err(DecodeError::InsufficientBytes);
            }
            let immediate: u16 = data[2] as u16 + data[3] as u16 * 0x100;
            decoded = DecodedInstruction::new(
                Self::decode_format2(opcode, r2, r1, immediate),
                address,
                4,
            );
        } else if opcode < 0x30 {
            if data.len() < 6 {
                return Err(DecodeError::InsufficientBytes);
            }
            let displacement: u32 = data[2] as u32 + data[3] as u32 * 0x100 + data[4] as u32
                * 0x10000 + data[5] as u32 * 0x1000000;
            decoded = DecodedInstruction::new(
                Self::decode_format3(opcode, r2, r1, displacement),
                address,
                6,
            );
        } else if opcode < 0x38 {
            if data.len() < 4 {
                return Err(DecodeError::InsufficientBytes);
            }
            let displacement: i32 = data[1] as i32 + data[2] as i32 * 0x100 + data[3] as i32
                * 0x10000;
            decoded = DecodedInstruction::new(
                Self::decode_format4(opcode, r2, displacement),
                address,
                4,
            );
        } else {
            decoded = DecodedInstruction::new(Self::decode_format5(opcode, r2, r1), address, 2);
        }
        self.instruction_cache.insert(address, decoded);
        Ok(decoded)
    }

    /// Decodes a basic register-to-register encoding.
    fn decode_format1(opcode: u8, r2: u8, r1: u8) -> (r: Instruction)
        ensures
            r == spec_decode_format1(opcode, r2, r1),
    {
        let dest = Operand::Register(r2 as usize);
        let src = Operand::Register(r1 as usize);
        match opcode {
            0x00 => Instruction::Mov { dest, src },
            0x01 => Instruction::Add { dest, src1: dest, src2: src },
            0x02 => Instruction::Sub { dest, src1: dest, src2: src },
            0x03 => Instruction::And { dest, src1: dest, src2: src },
            0x04 => Instruction::Or { dest, src1: dest, src2: src },
            0x05 => Instruction::Xor { dest, src1: dest, src2: src },
            0x06 => Instruction::Compare { src1: dest, src2: src },
            _ => Instruction::Unknown {
                opcode: (opcode as u32) * 0x10000 + (r2 as u32) * 0x100 + r1 as u32,
            },
        }
    }

    /// Decodes a register-immediate encoding.
    fn decode_format2(opcode: u8, r2: u8, r1: u8, immediate: u16) -> (r: Instruction)
        ensures
            r == spec_decode_format2(opcode, r2, r1, immediate),
    {
        let dest = Operand::Register(r2 as usize);
        let imm = Operand::Immediate(immediate as u32);
        match opcode {
            0x10 => Instruction::Mov { dest, src: imm },
            0x11 => Instruction::Add { dest, src1: dest, src2: imm },
            0x12 => Instruction::Sub { dest, src1: dest, src2: imm },
            0x13 => Instruction::And { dest, src1: dest, src2: imm },
            0x14 => Instruction::Or { dest, src1: dest, src2: imm },
            0x15 => Instruction::Xor { dest, src1: dest, src2: imm },
            0x16 => Instruction::Compare { src1: dest, src2: imm },
            _ => Instruction::Unknown {
                opcode: (opcode as u32) * 0x1000000 + (r2 as u32) * 0x10000 + (r1 as u32) * 0x100
                    + (immediate as u32) % 0x100,
            },
        }
    }

    /// Decodes a register-displacement encoding.
    fn decode_format3(opcode: u8, r2: u8, r1: u8, displacement: u32) -> (r: Instruction)
        ensures
            r == spec_decode_format3(opcode, r2, r1, displacement),
    {
        let dest = Operand::Register(r2 as usize);
        let addr = Operand::IndirectOffset(r1 as usize, displacement as i32);
        match opcode {
            0x20 => Instruction::Load { dest, address: addr, size: DataSize::DWord },
            0x21 => Instruction::Store { src: dest, address: addr, size: DataSize::DWord },
            _ => Instruction::Unknown {
                opcode: (opcode as u32) * 0x1000000 + (r2 as u32) * 0x10000 + (r1 as u32) * 0x100
                    + displacement % 0x100,
            },
        }
    }

    /// Decodes a branch encoding.
    fn decode_format4(opcode: u8, condition: u8, displacement: i32) -> (r: Instruction)
        ensures
            r == spec_decode_format4(opcode, condition, displacement),
    {
        let target = Operand::Immediate(displacement as u32);
        let cond = match condition {
            0x01 => ConditionCode::Equal,
            0x02 => ConditionCode::NotEqual,
            0x03 => ConditionCode::Carry,
            0x04 => ConditionCode::NotCarry,
            0x05 => ConditionCode::Negative,
            0x06 => ConditionCode::Positive,
            _ => ConditionCode::Always,
        };
        match opcode {
            0x30 => Instruction::Jump { target },
            0x31 => Instruction::JumpConditional { condition: cond, target },
            0x32 => Instruction::Call { target },
            _ => Instruction::Unknown {
                opcode: (opcode as u32) * 0x10000 + (condition as u32) * 0x100 + (
                displacement as u32) % 0x100,
            },
        }
    }

    /// Decodes a system encoding.
    fn decode_format5(opcode: u8, function: u8, immediate: u8) -> (r: Instruction)
        ensures
            r == spec_decode_format5(opcode, function, immediate),
    {
        match function {
            0x00 => Instruction::Nop,
            0x01 => Instruction::Halt,
            0x02 => Instruction::Return,
            0x03 => Instruction::ReturnFromInterrupt,
            _ => Instruction::Unknown {
                opcode: (opcode as u32) * 0x10000 + (function as u32) * 0x100 + immediate as u32,
            },
        }
    }

    /// Empties the decode cache.
    pub fn clear_cache(&mut self)
        ensures
            final(self).spec_cache() == Map::<u32, DecodedInstruction>::empty(),
            final(self).wf(),
    {
        self.instruction_cache.clear();
    }
}

} // verus!
