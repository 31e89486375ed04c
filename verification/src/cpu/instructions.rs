//! The instruction data model: operations, addressing modes, data sizes
//! and the decoded form with its metadata.

use vstd::prelude::*;

use crate::cpu::registers::ConditionCode;

verus! {

/// An addressing mode together with its parameters; it names a value or
/// a memory location, it does not hold the value itself.
#[derive(Debug, Clone, Copy, PartialEq, Eq, Structural)]
pub enum Operand {
    /// A general register by index.
    Register(usize),
    /// A literal value.
    Immediate(u32),
    /// A fixed memory address.
    Direct(u32),
    /// The address held in a register.
    Indirect(usize),
    /// The address held in a register plus a signed displacement.
    IndirectOffset(usize, i32),
    /// A base register plus an index register scaled by a constant.
    IndirectIndexed(usize, usize, u32),
    /// An address relative to the program counter.
    PcRelative(i32),
}

/// The width of a memory transfer.
#[derive(Debug, Clone, Copy, PartialEq, Eq, Structural)]
pub enum DataSize {
    /// 8 bits.
    Byte,
    /// 16 bits.
    Word,
    /// 32 bits.
    DWord,
}

/// The width of a transfer in bytes.
pub open spec fn spec_data_size_bytes(s: DataSize) -> int {
    match s {
        DataSize::Byte => 1,
        DataSize::Word => 2,
        DataSize::DWord => 4,
    }
}

impl DataSize {
    /// The width in bytes.
    pub fn bytes(self) -> (r: usize)
        ensures
            r == spec_data_size_bytes(self),
    {
        match self {
            DataSize::Byte => 1,
            DataSize::Word => 2,
            DataSize::DWord => 4,
        }
    }

    /// The width in bits.
    pub fn bits(self) -> (r: usize)
        ensures
            r == 8 * spec_data_size_bytes(self),
    {
        self.bytes() * 8
    }
}

/// One semantic operation of the processor together with its operands;
/// a closed union with exhaustive dispatch in the executor.
#[derive(Debug, Clone, Copy, PartialEq, Eq, Structural)]
pub enum Instruction {
    Add { dest: Operand, src1: Operand, src2: Operand },
    Sub { dest: Operand, src1: Operand, src2: Operand },
    Mul { dest: Operand, src1: Operand, src2: Operand },
    Div { dest: Operand, src1: Operand, src2: Operand },
    And { dest: Operand, src1: Operand, src2: Operand },
    Or { dest: Operand, src1: Operand, src2: Operand },
    Xor { dest: Operand, src1: Operand, src2: Operand },
    Not { dest: Operand, src: Operand },
    Shl { dest: Operand, src: Operand, shift: Operand },
    Shr { dest: Operand, src: Operand, shift: Operand },
    Mov { dest: Operand, src: Operand },
    Load { dest: Operand, address: Operand, size: DataSize },
    Store { src: Operand, address: Operand, size: DataSize },
    Jump { target: Operand },
    JumpConditional { condition: ConditionCode, target: Operand },
    Call { target: Operand },
    Return,
    Compare { src1: Operand, src2: Operand },
    Test { src1: Operand, src2: Operand },
    Nop,
    Halt,
    FloatAdd { dest: Operand, src1: Operand, src2: Operand },
    FloatMul { dest: Operand, src1: Operand, src2: Operand },
    FloatSub { dest: Operand, src1: Operand, src2: Operand },
    FloatDiv { dest: Operand, src1: Operand, src2: Operand },
    FloatCompare { src1: Operand, src2: Operand },
    RotateLeft { dest: Operand, src: Operand, count: Operand },
    RotateRight { dest: Operand, src: Operand, count: Operand },
    BitTest { src: Operand, bit: Operand },
    BitSet { dest: Operand, bit: Operand },
    BitClear { dest: Operand, bit: Operand },
    BitScan { dest: Operand, src: Operand },
    StringMove { size: DataSize },
    StringCompare { size: DataSize },
    StringScan { size: DataSize },
    SoftwareInterrupt { vector: u8 },
    ReturnFromInterrupt,
    EnableInterrupts,
    DisableInterrupts,
    BcdAdd { dest: Operand, src1: Operand, src2: Operand },
    BcdSub { dest: Operand, src1: Operand, src2: Operand },
    /// An encoding that names no known operation.
    Unknown { opcode: u32 },
}

/// The fixed cycle cost charged for an instruction.
pub open spec fn spec_estimate_cycles(instruction: Instruction) -> u32 {
    match instruction {
        Instruction::Nop | Instruction::Mov { .. } => 1,
        Instruction::Add { .. }
        | Instruction::Sub { .. }
        | Instruction::And { .. }
        | Instruction::Or { .. }
        | Instruction::Xor { .. }
        | Instruction::Not { .. } => 2,
        Instruction::Shl { .. }
        | Instruction::Shr { .. }
        | Instruction::RotateLeft { .. }
        | Instruction::RotateRight { .. } => 3,
        Instruction::Mul { .. } => 10,
        Instruction::Div { .. } => 20,
        Instruction::Load { .. } | Instruction::Store { .. } => 3,
        Instruction::Jump { .. } | Instruction::JumpConditional { .. } => 4,
        Instruction::Call { .. } | Instruction::Return => 5,
        Instruction::Compare { .. } | Instruction::Test { .. } => 2,
        Instruction::FloatAdd { .. } | Instruction::FloatSub { .. } => 8,
        Instruction::FloatMul { .. } => 10,
        Instruction::FloatDiv { .. } => 15,
        Instruction::FloatCompare { .. } => 6,
        Instruction::BitTest { .. } | Instruction::BitSet { .. } | Instruction::BitClear {
            ..
        } => 2,
        Instruction::BitScan { .. } => 4,
        Instruction::StringMove { .. } => 8,
        Instruction::StringCompare { .. } => 10,
        Instruction::StringScan { .. } => 12,
        Instruction::SoftwareInterrupt { .. } => 20,
        Instruction::ReturnFromInterrupt => 15,
        Instruction::EnableInterrupts | Instruction::DisableInterrupts => 3,
        Instruction::BcdAdd { .. } | Instruction::BcdSub { .. } => 6,
        Instruction::Halt => 1,
        Instruction::Unknown { .. } => 1,
    }
}

/// Every instruction costs at least one cycle.
pub proof fn lemma_cycles_at_least_one(instruction: Instruction)
    ensures
        spec_estimate_cycles(instruction) >= 1,
{
}

/// Computes the fixed cycle cost of an instruction.
fn estimate_cycles(instruction: &Instruction) -> (r: u32)
    ensures
        r == spec_estimate_cycles(*instruction),
{
    match instruction {
        Instruction::Nop | Instruction::Mov { .. } => 1,
        Instruction::Add { .. }
        | Instruction::Sub { .. }
        | Instruction::And { .. }
        | Instruction::Or { .. }
        | Instruction::Xor { .. }
        | Instruction::Not { .. } => 2,
        Instruction::Shl { .. }
        | Instruction::Shr { .. }
        | Instruction::RotateLeft { .. }
        | Instruction::RotateRight { .. } => 3,
        Instruction::Mul { .. } => 10,
        Instruction::Div { .. } => 20,
        Instruction::Load { .. } | Instruction::Store { .. } => 3,
        Instruction::Jump { .. } | Instruction::JumpConditional { .. } => 4,
        Instruction::Call { .. } | Instruction::Return => 5,
        Instruction::Compare { .. } | Instruction::Test { .. } => 2,
        Instruction::FloatAdd { .. } | Instruction::FloatSub { .. } => 8,
        Instruction::FloatMul { .. } => 10,
        Instruction::FloatDiv { .. } => 15,
        Instruction::FloatCompare { .. } => 6,
        Instruction::BitTest { .. } | Instruction::BitSet { .. } | Instruction::BitClear {
            ..
        } => 2,
        Instruction::BitScan { .. } => 4,
        Instruction::StringMove { .. } => 8,
        Instruction::StringCompare { .. } => 10,
        Instruction::StringScan { .. } => 12,
        Instruction::SoftwareInterrupt { .. } => 20,
        Instruction::ReturnFromInterrupt => 15,
        Instruction::EnableInterrupts | Instruction::DisableInterrupts => 3,
        Instruction::BcdAdd { .. } | Instruction::BcdSub { .. } => 6,
        Instruction::Halt => 1,
        Instruction::Unknown { .. } => 1,
    }
}

/// A decoded instruction together with where it came from, how many bytes
/// it occupied and its fixed cycle cost.
#[derive(Debug, Clone, Copy, PartialEq, Eq, Structural)]
pub struct DecodedInstruction {
    /// The operation and its operands.
    pub instruction: Instruction,
    /// The byte address the instruction was decoded from.
    pub address: u32,
    /// The encoded size in bytes.
    pub size: u32,
    /// The fixed cycle cost charged when it executes.
    pub cycles: u32,
}

impl DecodedInstruction {
    /// Packages a decoded instruction, computing its cycle cost.
    pub fn new(instruction: Instruction, address: u32, size: u32) -> (r: DecodedInstruction)
        ensures
            r == (DecodedInstruction {
                cycles: spec_estimate_cycles(instruction),
                instruction,
                address,
                size,
            }),
    {
        let cycles = estimate_cycles(&instruction);
        DecodedInstruction { instruction, address, size, cycles }
    }
}

} // verus!
