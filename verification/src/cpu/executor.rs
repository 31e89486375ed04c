//! The executor: operand evaluation, exhaustive instruction dispatch and
//! the statistics it maintains.

use vstd::prelude::*;

use crate::cpu::Interrupt;
use crate::cpu::NecV60;
use crate::cpu::arithmetic::ArithmeticResult;
use crate::cpu::arithmetic::ArithmeticUnit;
use crate::cpu::arithmetic::spec_add_result;
use crate::cpu::arithmetic::spec_arith_result;
use crate::cpu::arithmetic::spec_div_result;
use crate::cpu::arithmetic::spec_mul_result;
use crate::cpu::arithmetic::spec_sub_result;
use crate::cpu::bcd::BcdResult;
use crate::cpu::bcd::BcdUnit;
use crate::cpu::bcd::spec_bcd_add_result;
use crate::cpu::bcd::spec_bcd_sub_result;
use crate::cpu::bit_manipulation::BitManipulationUnit;
use crate::cpu::bit_manipulation::BitResult;
use crate::cpu::bit_manipulation::spec_clear_bit_result;
use crate::cpu::bit_manipulation::spec_scan_forward_result;
use crate::cpu::bit_manipulation::spec_set_bit_result;
use crate::cpu::bit_manipulation::spec_test_bit_result;
use crate::cpu::instruction_formats::DecodeError;
use crate::cpu::instructions::DataSize;
use crate::cpu::instructions::DecodedInstruction;
use crate::cpu::instructions::Instruction;
use crate::cpu::instructions::Operand;
use crate::cpu::instructions::spec_data_size_bytes;
use crate::cpu::logical::LogicalUnit;
use crate::cpu::logical::spec_rotl32;
use crate::cpu::logical::spec_rotr32;
use crate::cpu::logical::spec_shl_result;
use crate::cpu::logical::spec_shr_result;
use crate::cpu::registers::ProcessorStatusWord;
use crate::cpu::registers::V60Registers;
use crate::cpu::registers::spec_condition_met;
use crate::cpu::registers::spec_psw_from_bits;
use crate::cpu::registers::spec_read_general;
use crate::cpu::registers::spec_write_general;
use crate::cpu::spec_queue;
use crate::memory::interface::MemoryError;
use crate::memory::interface::MemoryInterface;
use crate::memory::interface::spec_le16;
use crate::memory::interface::spec_le32;
use crate::memory::interface::spec_store16;
use crate::memory::interface::spec_store32;
use vstd::wrapping::u32_specs;
use vstd::wrapping::u64_specs;

verus! {

/// An error raised while executing an instruction.
#[derive(Debug, Clone, Copy, PartialEq, Eq, Structural)]
pub enum ExecutionError {
    /// The instruction names no operation this processor executes.
    UnknownInstruction { opcode: u32 },
    /// A division had a zero divisor.
    DivisionByZero,
    /// A store addressed an operand that cannot be written.
    InvalidOperandForWrite,
}

/// Any error a processor step can end with: a decode failure, an
/// execution error, or a memory error propagated from the bus.
#[derive(Debug, Clone, Copy, PartialEq, Eq, Structural)]
pub enum CpuError {
    /// The fetched bytes could not be decoded.
    Decode(DecodeError),
    /// The instruction failed to execute.
    Execution(ExecutionError),
    /// The memory rejected an access.
    Memory(MemoryError),
}

/// Monotonic counters the executor maintains; diagnostic only, they never
/// affect what an instruction does.
#[derive(Debug, Clone, Copy, PartialEq, Eq, Structural)]
pub struct ExecutionStats {
    /// Instructions dispatched.
    pub instructions_executed: u64,
    /// Cycles charged for dispatched instructions.
    pub cycles_executed: u64,
    /// Taken branches, calls and returns.
    pub branches_taken: u64,
    /// Memory accesses made for operands, loads and stores.
    pub memory_accesses: u64,
    /// Decode-cache hits.
    pub cache_hits: u64,
    /// Exceptional outcomes: carries, overflows and zero divisors.
    pub exceptions_raised: u64,
}

/// Statistics with every counter at zero.
pub open spec fn spec_stats_reset() -> ExecutionStats {
    ExecutionStats {
        instructions_executed: 0,
        cycles_executed: 0,
        branches_taken: 0,
        memory_accesses: 0,
        cache_hits: 0,
        exceptions_raised: 0,
    }
}

/// The counters after one dispatch: each named counter grows by its
/// delta, wrapping at 64 bits.
pub open spec fn spec_bump_stats(
    s: ExecutionStats,
    instrs: u64,
    cycles: u64,
    branches: u64,
    mem: u64,
    exc: u64,
) -> ExecutionStats {
    ExecutionStats {
        instructions_executed: u64_specs::wrapping_add(s.instructions_executed, instrs),
        cycles_executed: u64_specs::wrapping_add(s.cycles_executed, cycles),
        branches_taken: u64_specs::wrapping_add(s.branches_taken, branches),
        memory_accesses: u64_specs::wrapping_add(s.memory_accesses, mem),
        cache_hits: s.cache_hits,
        exceptions_raised: u64_specs::wrapping_add(s.exceptions_raised, exc),
    }
}

impl ExecutionStats {
    /// Statistics with every counter at zero.
    pub fn new() -> (r: ExecutionStats)
        ensures
            r == spec_stats_reset(),
    {
        ExecutionStats {
            instructions_executed: 0,
            cycles_executed: 0,
            branches_taken: 0,
            memory_accesses: 0,
            cache_hits: 0,
            exceptions_raised: 0,
        }
    }

    /// Puts every counter back to zero.
    pub fn reset(&mut self)
        ensures
            *final(self) == spec_stats_reset(),
    {
        self.instructions_executed = 0;
        self.cycles_executed = 0;
        self.branches_taken = 0;
        self.memory_accesses = 0;
        self.cache_hits = 0;
        self.exceptions_raised = 0;
    }
}

impl Default for ExecutionStats {
    /// Statistics with every counter at zero.
    fn default() -> (r: ExecutionStats)
        ensures
            r == spec_stats_reset(),
    {
        ExecutionStats::new()
    }
}

/// Whether reading the operand goes through memory (and so counts as a
/// memory access).
pub open spec fn spec_operand_reads_memory(op: Operand) -> bool {
    match op {
        Operand::Indirect(_) => true,
        Operand::IndirectOffset(_, _) => true,
        Operand::IndirectIndexed(_, _, _) => true,
        Operand::PcRelative(_) => true,
        _ => false,
    }
}

/// 1 when reading the operand counts as a memory access, else 0.
pub open spec fn spec_read_bump(op: Operand) -> u64 {
    if spec_operand_reads_memory(op) {
        1u64
    } else {
        0u64
    }
}

/// The memory address a memory-reading operand reaches, given the
/// registers; addresses wrap at 32 bits.
pub open spec fn spec_operand_read_addr(regs: V60Registers, op: Operand) -> u32 {
    match op {
        Operand::Indirect(r) => spec_read_general(regs, r as int),
        Operand::IndirectOffset(r, offset) => u32_specs::wrapping_add_signed(
            spec_read_general(regs, r as int),
            offset,
        ),
        Operand::IndirectIndexed(base, index, scale) => u32_specs::wrapping_add(
            spec_read_general(regs, base as int),
            u32_specs::wrapping_mul(spec_read_general(regs, index as int), scale),
        ),
        Operand::PcRelative(offset) => u32_specs::wrapping_add_signed(regs.pc, offset),
        _ => 0u32,
    }
}

/// What reading an operand yields: a register's content, the literal, the
/// direct operand's own address, or the 32-bit word at the effective
/// address — nothing when that memory read fails.
pub open spec fn spec_operand_value<M: MemoryInterface>(cpu: NecV60, m: M, op: Operand) -> Option<
    u32,
> {
    match op {
        Operand::Register(r) => Some(spec_read_general(cpu.registers, r as int)),
        Operand::Immediate(v) => Some(v),
        Operand::Direct(a) => Some(a),
        _ => {
            let a = spec_operand_read_addr(cpu.registers, op);
            if m.read_ok(a, 4) {
                Some(spec_le32(m.mem(), a as int))
            } else {
                None::<u32>
            }
        },
    }
}

/// Whether writing the operand goes through memory.
pub open spec fn spec_operand_writes_memory(op: Operand) -> bool {
    match op {
        Operand::Direct(_) => true,
        Operand::Indirect(_) => true,
        Operand::IndirectOffset(_, _) => true,
        Operand::IndirectIndexed(_, _, _) => true,
        _ => false,
    }
}

/// The memory address a memory-writing operand reaches.
pub open spec fn spec_operand_write_addr(regs: V60Registers, op: Operand) -> u32 {
    match op {
        Operand::Direct(a) => a,
        _ => spec_operand_read_addr(regs, op),
    }
}

/// The two memories have the same length and accept the same accesses;
/// writes never change this shape.
pub open spec fn spec_mem_same_shape<M: MemoryInterface>(a: M, b: M) -> bool {
    &&& b.mem().len() == a.mem().len()
    &&& forall|ad: u32, n: nat| #[trigger] b.read_ok(ad, n) == a.read_ok(ad, n)
    &&& forall|ad: u32, n: nat| #[trigger] b.write_ok(ad, n) == a.write_ok(ad, n)
}

/// The processor with only its statistics counters changed.
pub open spec fn spec_with_stats(cpu: NecV60, stats: ExecutionStats) -> NecV60 {
    NecV60 { stats, ..cpu }
}

impl NecV60 {
    /// Reads the value an operand names.  Register, immediate and direct
    /// operands never fail; a direct operand reads as its own address.
    /// The other modes read a 32-bit word from memory, count one memory
    /// access whether or not the read succeeds, and propagate its error.
    pub(crate) fn read_operand<M: MemoryInterface>(&mut self, operand: &Operand, memory: &M) -> (r:
        Result<u32, CpuError>)
        ensures
            *final(self) == spec_with_stats(
                *old(self),
                spec_bump_stats(old(self).stats, 0, 0, 0, spec_read_bump(*operand), 0),
            ),
            (match r {
                Ok(v) => spec_operand_value(*old(self), *memory, *operand) == Some(v),
                Err(e) => spec_operand_value(*old(self), *memory, *operand) is None
                    && e is Memory,
            }),
    {
        match operand {
            Operand::Register(reg) => Ok(self.registers.read_general(*reg)),
            Operand::Immediate(val) => Ok(*val),
            Operand::Direct(addr) => Ok(*addr),
            Operand::Indirect(reg) => {
                let addr = self.registers.read_general(*reg);
                self.stats.memory_accesses = self.stats.memory_accesses.wrapping_add(1);
                match memory.read_u32(addr) {
                    Ok(v) => Ok(v),
                    Err(e) => Err(CpuError::Memory(e)),
                }
            },
            Operand::IndirectOffset(reg, offset) => {
                let base = self.registers.read_general(*reg);
                let addr = base.wrapping_add_signed(*offset);
                self.stats.memory_accesses = self.stats.memory_accesses.wrapping_add(1);
                match memory.read_u32(addr) {
                    Ok(v) => Ok(v),
                    Err(e) => Err(CpuError::Memory(e)),
                }
            },
            Operand::IndirectIndexed(base_reg, index_reg, scale) => {
                let base = self.registers.read_general(*base_reg);
                let index = self.registers.read_general(*index_reg);
                let addr = base.wrapping_add(index.wrapping_mul(*scale));
                self.stats.memory_accesses = self.stats.memory_accesses.wrapping_add(1);
                match memory.read_u32(addr) {
                    Ok(v) => Ok(v),
                    Err(e) => Err(CpuError::Memory(e)),
                }
            },
            Operand::PcRelative(offset) => {
                let addr = self.registers.pc.wrapping_add_signed(*offset);
                self.stats.memory_accesses = self.stats.memory_accesses.wrapping_add(1);
                match memory.read_u32(addr) {
                    Ok(v) => Ok(v),
                    Err(e) => Err(CpuError::Memory(e)),
                }
            },
        }
    }

    /// Writes a value through an operand.  A register operand writes the
    /// register; the memory modes store a 32-bit word, counting one
    /// memory access whether or not the store succeeds.  An immediate or
    /// PC-relative operand cannot be written.
    pub(crate) fn write_operand<M: MemoryInterface>(
        &mut self,
        operand: &Operand,
        value: u32,
        memory: &mut M,
    ) -> (r: Result<(), CpuError>)
        ensures
            (match *operand {
                Operand::Register(idx) => {
                    &&& *final(self) == (NecV60 {
                        registers: spec_write_general(old(self).registers, idx as int, value),
                        ..*old(self)
                    })
                    &&& *final(memory) == *old(memory)
                    &&& r is Ok
                },
                Operand::Immediate(_) | Operand::PcRelative(_) => {
                    &&& *final(self) == *old(self)
                    &&& *final(memory) == *old(memory)
                    &&& r == Err::<(), CpuError>(
                        CpuError::Execution(ExecutionError::InvalidOperandForWrite),
                    )
                },
                _ => {
                    let a = spec_operand_write_addr(old(self).registers, *operand);
                    &&& *final(self) == spec_with_stats(
                        *old(self),
                        spec_bump_stats(old(self).stats, 0, 0, 0, 1, 0),
                    )
                    &&& spec_mem_same_shape(*old(memory), *final(memory))
                    &&& (old(memory).write_ok(a, 4) ==> r is Ok && final(memory).mem()
                        == crate::memory::interface::spec_store32(
                        old(memory).mem(),
                        a as int,
                        value,
                    ))
                    &&& (!old(memory).write_ok(a, 4) ==> r is Err && (r matches Err(e) ==> e
                        is Memory) && final(memory).mem() == old(memory).mem())
                },
            }),
    {
        match operand {
            Operand::Register(reg) => {
                self.registers.write_general(*reg, value);
                Ok(())
            },
            Operand::Direct(addr) => {
                self.stats.memory_accesses = self.stats.memory_accesses.wrapping_add(1);
                match memory.write_u32(*addr, value) {
                    Ok(_) => Ok(()),
                    Err(e) => Err(CpuError::Memory(e)),
                }
            },
            Operand::Indirect(reg) => {
                let addr = self.registers.read_general(*reg);
                self.stats.memory_accesses = self.stats.memory_accesses.wrapping_add(1);
                match memory.write_u32(addr, value) {
                    Ok(_) => Ok(()),
                    Err(e) => Err(CpuError::Memory(e)),
                }
            },
            Operand::IndirectOffset(reg, offset) => {
                let base = self.registers.read_general(*reg);
                let addr = base.wrapping_add_signed(*offset);
                self.stats.memory_accesses = self.stats.memory_accesses.wrapping_add(1);
                match memory.write_u32(addr, value) {
                    Ok(_) => Ok(()),
                    Err(e) => Err(CpuError::Memory(e)),
                }
            },
            Operand::IndirectIndexed(base_reg, index_reg, scale) => {
                let base = self.registers.read_general(*base_reg);
                let index = self.registers.read_general(*index_reg);
                let addr = base.wrapping_add(index.wrapping_mul(*scale));
                self.stats.memory_accesses = self.stats.memory_accesses.wrapping_add(1);
                match memory.write_u32(addr, value) {
                    Ok(_) => Ok(()),
                    Err(e) => Err(CpuError::Memory(e)),
                }
            },
            Operand::Immediate(_) | Operand::PcRelative(_) => {
                Err(CpuError::Execution(ExecutionError::InvalidOperandForWrite))
            },
        }
    }
}

/// A result that failed with a memory error.
pub open spec fn spec_is_mem_err<T>(r: Result<T, CpuError>) -> bool {
    match r {
        Err(CpuError::Memory(_)) => true,
        _ => false,
    }
}

/// The status word after an arithmetic or logical result: its five
/// condition flags replace the old ones.
pub open spec fn spec_psw_after_arith(p: ProcessorStatusWord, ar: ArithmeticResult)
    -> ProcessorStatusWord {
    ProcessorStatusWord {
        carry: ar.carry,
        zero: ar.zero,
        sign: ar.negative,
        overflow: ar.overflow,
        parity: ar.parity,
        ..p
    }
}

/// The status word after a bit operation: zero when no bit was found,
/// carry when one was.
pub open spec fn spec_psw_after_bit(p: ProcessorStatusWord, br: BitResult)
    -> ProcessorStatusWord {
    ProcessorStatusWord { zero: !br.bit_found, carry: br.bit_found, ..p }
}

/// The status word after a BCD operation.
pub open spec fn spec_psw_after_bcd(p: ProcessorStatusWord, br: BcdResult)
    -> ProcessorStatusWord {
    ProcessorStatusWord {
        zero: br.zero,
        carry: br.carry,
        overflow: br.overflow,
        parity: br.adjust_needed,
        ..p
    }
}

/// A processor whose zero program counter has been replaced by the
/// instruction's own address; a non-zero program counter stands.
pub open spec fn spec_pc_anchor(cpu: NecV60, address: u32) -> NecV60 {
    if cpu.registers.pc == 0 {
        NecV60 { registers: V60Registers { pc: address, ..cpu.registers }, ..cpu }
    } else {
        cpu
    }
}

/// The two-source operations that write a result back.
#[derive(Debug, Clone, Copy, PartialEq, Eq, Structural)]
pub enum AluOp {
    Add,
    Sub,
    Mul,
    And,
    Or,
    Xor,
    Shl,
    Shr,
    RotateLeft,
    RotateRight,
    BitSet,
    BitClear,
    BcdAdd,
    BcdSub,
}

/// The value a two-source operation computes.
pub open spec fn spec_alu_value(op: AluOp, v1: u32, v2: u32) -> u32 {
    match op {
        AluOp::Add => spec_add_result(v1, v2).value,
        AluOp::Sub => spec_sub_result(v1, v2).value,
        AluOp::Mul => spec_mul_result(v1, v2).value,
        AluOp::And => v1 & v2,
        AluOp::Or => v1 | v2,
        AluOp::Xor => v1 ^ v2,
        AluOp::Shl => spec_shl_result(v1, v2).value,
        AluOp::Shr => spec_shr_result(v1, v2).value,
        AluOp::RotateLeft => spec_rotl32(v1, v2),
        AluOp::RotateRight => spec_rotr32(v1, v2),
        AluOp::BitSet => spec_set_bit_result(v1, v2).value,
        AluOp::BitClear => spec_clear_bit_result(v1, v2).value,
        AluOp::BcdAdd => spec_bcd_add_result(v1, v2).value,
        AluOp::BcdSub => spec_bcd_sub_result(v1, v2).value,
    }
}

/// The status word a two-source operation leaves.
pub open spec fn spec_alu_psw(op: AluOp, v1: u32, v2: u32, p: ProcessorStatusWord)
    -> ProcessorStatusWord {
    match op {
        AluOp::Add => spec_psw_after_arith(p, spec_add_result(v1, v2)),
        AluOp::Sub => spec_psw_after_arith(p, spec_sub_result(v1, v2)),
        AluOp::Mul => spec_psw_after_arith(p, spec_mul_result(v1, v2)),
        AluOp::And => spec_psw_after_arith(p, spec_arith_result(v1 & v2, false, false)),
        AluOp::Or => spec_psw_after_arith(p, spec_arith_result(v1 | v2, false, false)),
        AluOp::Xor => spec_psw_after_arith(p, spec_arith_result(v1 ^ v2, false, false)),
        AluOp::Shl => spec_psw_after_arith(p, spec_shl_result(v1, v2)),
        AluOp::Shr => spec_psw_after_arith(p, spec_shr_result(v1, v2)),
        AluOp::RotateLeft => ProcessorStatusWord { zero: spec_rotl32(v1, v2) == 0u32, ..p },
        AluOp::RotateRight => ProcessorStatusWord { zero: spec_rotr32(v1, v2) == 0u32, ..p },
        AluOp::BitSet => spec_psw_after_bit(p, spec_set_bit_result(v1, v2)),
        AluOp::BitClear => spec_psw_after_bit(p, spec_clear_bit_result(v1, v2)),
        AluOp::BcdAdd => spec_psw_after_bcd(p, spec_bcd_add_result(v1, v2)),
        AluOp::BcdSub => spec_psw_after_bcd(p, spec_bcd_sub_result(v1, v2)),
    }
}

/// How many exceptions the outcome of a two-source operation raises.
pub open spec fn spec_alu_exc(op: AluOp, v1: u32, v2: u32) -> u64 {
    match op {
        AluOp::Add => if spec_add_result(v1, v2).overflow || spec_add_result(v1, v2).carry {
            1u64
        } else {
            0u64
        },
        AluOp::Sub => if spec_sub_result(v1, v2).overflow {
            1u64
        } else {
            0u64
        },
        AluOp::Mul => if spec_mul_result(v1, v2).overflow {
            1u64
        } else {
            0u64
        },
        AluOp::BcdAdd => if spec_bcd_add_result(v1, v2).overflow {
            1u64
        } else {
            0u64
        },
        AluOp::BcdSub => if spec_bcd_sub_result(v1, v2).overflow {
            1u64
        } else {
            0u64
        },
        _ => 0u64,
    }
}

/// The one-source operations that write a result back.
#[derive(Debug, Clone, Copy, PartialEq, Eq, Structural)]
pub enum UnaryOp {
    Move,
    Complement,
    ScanForward,
}

/// The value a one-source operation computes.
pub open spec fn spec_unary_value(op: UnaryOp, v: u32) -> u32 {
    match op {
        UnaryOp::Move => v,
        UnaryOp::Complement => !v,
        UnaryOp::ScanForward => spec_scan_forward_result(v).value,
    }
}

/// The status word a one-source operation leaves.
pub open spec fn spec_unary_psw(op: UnaryOp, v: u32, p: ProcessorStatusWord)
    -> ProcessorStatusWord {
    match op {
        UnaryOp::Move => p,
        UnaryOp::Complement => spec_psw_after_arith(p, spec_arith_result(!v, false, false)),
        UnaryOp::ScanForward => spec_psw_after_bit(p, spec_scan_forward_result(v)),
    }
}

/// The two-source operations that only set flags.
#[derive(Debug, Clone, Copy, PartialEq, Eq, Structural)]
pub enum FlagOp {
    Compare,
    Test,
    BitTest,
}

/// The status word a flags-only operation leaves.
pub open spec fn spec_flag_psw(op: FlagOp, v1: u32, v2: u32, p: ProcessorStatusWord)
    -> ProcessorStatusWord {
    match op {
        FlagOp::Compare => spec_psw_after_arith(p, spec_sub_result(v1, v2)),
        FlagOp::Test => spec_psw_after_arith(p, spec_arith_result(v1 & v2, false, false)),
        FlagOp::BitTest => spec_psw_after_bit(p, spec_test_bit_result(v1, v2)),
    }
}

/// Committing a computed result: the value is written through the
/// destination operand; on success the status word is replaced, the
/// program counter advances by the instruction size, the exception
/// counter grows by `exc` and the memory-access counter by `tail_mem`.
/// A failed store leaves flags and program counter untouched.
pub open spec fn spec_rel_commit<M: MemoryInterface>(
    cpu: NecV60,
    m: M,
    dest: Operand,
    value: u32,
    new_psw: ProcessorStatusWord,
    exc: u64,
    tail_mem: u64,
    size: u32,
    post: NecV60,
    post_m: M,
    r: Result<(), CpuError>,
) -> bool {
    match dest {
        Operand::Register(idx) => {
            let regs1 = spec_write_general(cpu.registers, idx as int, value);
            let regs2 = V60Registers {
                psw: new_psw,
                pc: u32_specs::wrapping_add(regs1.pc, size),
                ..regs1
            };
            &&& post == (NecV60 {
                registers: regs2,
                stats: spec_bump_stats(cpu.stats, 0, 0, 0, tail_mem, exc),
                ..cpu
            })
            &&& post_m == m
            &&& r is Ok
        },
        Operand::Immediate(_) | Operand::PcRelative(_) => {
            &&& post == cpu
            &&& post_m == m
            &&& r == Err::<(), CpuError>(CpuError::Execution(ExecutionError::InvalidOperandForWrite))
        },
        _ => {
            let a = spec_operand_write_addr(cpu.registers, dest);
            &&& spec_mem_same_shape(m, post_m)
            &&& (m.write_ok(a, 4) ==> {
                let regs2 = V60Registers {
                    psw: new_psw,
                    pc: u32_specs::wrapping_add(cpu.registers.pc, size),
                    ..cpu.registers
                };
                &&& post == (NecV60 {
                    registers: regs2,
                    stats: spec_bump_stats(cpu.stats, 0, 0, 0, ((1 + tail_mem) as u64), exc),
                    ..cpu
                })
                &&& post_m.mem() == spec_store32(m.mem(), a as int, value)
                &&& r is Ok
            })
            &&& (!m.write_ok(a, 4) ==> {
                &&& post == spec_with_stats(cpu, spec_bump_stats(cpu.stats, 0, 0, 0, 1, 0))
                &&& post_m.mem() == m.mem()
                &&& spec_is_mem_err(r)
            })
        },
    }
}

/// A failed operand read: only the memory-access counter may have moved,
/// and the error is the memory's.
pub open spec fn spec_rel_read_failed<M: MemoryInterface, T>(
    cpu: NecV60,
    m: M,
    op: Operand,
    post: NecV60,
    post_m: M,
    r: Result<T, CpuError>,
) -> bool {
    &&& post == spec_with_stats(cpu, spec_bump_stats(cpu.stats, 0, 0, 0, spec_read_bump(op), 0))
    &&& post_m == m
    &&& spec_is_mem_err(r)
}

/// The processor after a successful operand read: only the memory-access
/// counter may have moved.
pub open spec fn spec_after_read(cpu: NecV60, op: Operand) -> NecV60 {
    spec_with_stats(cpu, spec_bump_stats(cpu.stats, 0, 0, 0, spec_read_bump(op), 0))
}

/// Reading two operands and writing the operation's result back.
pub open spec fn spec_rel_alu2<M: MemoryInterface>(
    cpu: NecV60,
    m: M,
    op: AluOp,
    a_op: Operand,
    b_op: Operand,
    dest: Operand,
    size: u32,
    cycles: u32,
    post: NecV60,
    post_m: M,
    r: Result<u32, CpuError>,
) -> bool {
    match spec_operand_value(cpu, m, a_op) {
        None => spec_rel_read_failed(cpu, m, a_op, post, post_m, r),
        Some(v1) => {
            let cpu2 = spec_after_read(cpu, a_op);
            match spec_operand_value(cpu2, m, b_op) {
                None => spec_rel_read_failed(cpu2, m, b_op, post, post_m, r),
                Some(v2) => {
                    let cpu3 = spec_after_read(cpu2, b_op);
                    let rr: Result<(), CpuError> = match r {
                        Ok(_) => Ok(()),
                        Err(e) => Err(e),
                    };
                    &&& spec_rel_commit(
                        cpu3,
                        m,
                        dest,
                        spec_alu_value(op, v1, v2),
                        spec_alu_psw(op, v1, v2, cpu3.registers.psw),
                        spec_alu_exc(op, v1, v2),
                        0,
                        size,
                        post,
                        post_m,
                        rr,
                    )
                    &&& (r is Ok ==> r == Ok::<u32, CpuError>(cycles))
                },
            }
        },
    }
}

/// Reading one operand and writing the operation's result back.
pub open spec fn spec_rel_unary<M: MemoryInterface>(
    cpu: NecV60,
    m: M,
    op: UnaryOp,
    a_op: Operand,
    dest: Operand,
    size: u32,
    cycles: u32,
    post: NecV60,
    post_m: M,
    r: Result<u32, CpuError>,
) -> bool {
    match spec_operand_value(cpu, m, a_op) {
        None => spec_rel_read_failed(cpu, m, a_op, post, post_m, r),
        Some(v) => {
            let cpu2 = spec_after_read(cpu, a_op);
            let rr: Result<(), CpuError> = match r {
                Ok(_) => Ok(()),
                Err(e) => Err(e),
            };
            &&& spec_rel_commit(
                cpu2,
                m,
                dest,
                spec_unary_value(op, v),
                spec_unary_psw(op, v, cpu2.registers.psw),
                0,
                0,
                size,
                post,
                post_m,
                rr,
            )
            &&& (r is Ok ==> r == Ok::<u32, CpuError>(cycles))
        },
    }
}

/// Reading two operands for their flags only: the status word is
/// replaced and the program counter advances; nothing is written back.
pub open spec fn spec_rel_flags<M: MemoryInterface>(
    cpu: NecV60,
    m: M,
    op: FlagOp,
    a_op: Operand,
    b_op: Operand,
    size: u32,
    cycles: u32,
    post: NecV60,
    post_m: M,
    r: Result<u32, CpuError>,
) -> bool {
    match spec_operand_value(cpu, m, a_op) {
        None => spec_rel_read_failed(cpu, m, a_op, post, post_m, r),
        Some(v1) => {
            let cpu2 = spec_after_read(cpu, a_op);
            match spec_operand_value(cpu2, m, b_op) {
                None => spec_rel_read_failed(cpu2, m, b_op, post, post_m, r),
                Some(v2) => {
                    let cpu3 = spec_after_read(cpu2, b_op);
                    let regs2 = V60Registers {
                        psw: spec_flag_psw(op, v1, v2, cpu3.registers.psw),
                        pc: u32_specs::wrapping_add(cpu3.registers.pc, size),
                        ..cpu3.registers
                    };
                    &&& post == (NecV60 { registers: regs2, ..cpu3 })
                    &&& post_m == m
                    &&& r == Ok::<u32, CpuError>(cycles)
                },
            }
        },
    }
}

/// Division: a zero divisor raises an exception and fails without
/// touching registers or memory; otherwise the quotient commits like any
/// two-source result.
pub open spec fn spec_rel_div<M: MemoryInterface>(
    cpu: NecV60,
    m: M,
    src1: Operand,
    src2: Operand,
    dest: Operand,
    size: u32,
    cycles: u32,
    post: NecV60,
    post_m: M,
    r: Result<u32, CpuError>,
) -> bool {
    match spec_operand_value(cpu, m, src1) {
        None => spec_rel_read_failed(cpu, m, src1, post, post_m, r),
        Some(v1) => {
            let cpu2 = spec_after_read(cpu, src1);
            match spec_operand_value(cpu2, m, src2) {
                None => spec_rel_read_failed(cpu2, m, src2, post, post_m, r),
                Some(v2) => {
                    let cpu3 = spec_after_read(cpu2, src2);
                    if v2 == 0 {
                        &&& post == spec_with_stats(
                            cpu3,
                            spec_bump_stats(cpu3.stats, 0, 0, 0, 0, 1),
                        )
                        &&& post_m == m
                        &&& r == Err::<u32, CpuError>(
                            CpuError::Execution(ExecutionError::DivisionByZero),
                        )
                    } else {
                        let rr: Result<(), CpuError> = match r {
                            Ok(_) => Ok(()),
                            Err(e) => Err(e),
                        };
                        &&& spec_rel_commit(
                            cpu3,
                            m,
                            dest,
                            spec_div_result(v1, v2).value,
                            spec_psw_after_arith(cpu3.registers.psw, spec_div_result(v1, v2)),
                            0,
                            0,
                            size,
                            post,
                            post_m,
                            rr,
                        )
                        &&& (r is Ok ==> r == Ok::<u32, CpuError>(cycles))
                    }
                },
            }
        },
    }
}

/// A load: the address operand is read, then the memory word of the
/// given width; the value commits through the destination and one more
/// memory access is counted.
pub open spec fn spec_rel_load<M: MemoryInterface>(
    cpu: NecV60,
    m: M,
    dest: Operand,
    address: Operand,
    width: DataSize,
    size: u32,
    cycles: u32,
    post: NecV60,
    post_m: M,
    r: Result<u32, CpuError>,
) -> bool {
    match spec_operand_value(cpu, m, address) {
        None => spec_rel_read_failed(cpu, m, address, post, post_m, r),
        Some(addr) => {
            let cpu2 = spec_after_read(cpu, address);
            let n = spec_data_size_bytes(width) as nat;
            if m.read_ok(addr, n) {
                let value = (match width {
                    DataSize::Byte => m.mem()[addr as int] as u32,
                    DataSize::Word => spec_le16(m.mem(), addr as int) as u32,
                    DataSize::DWord => spec_le32(m.mem(), addr as int),
                });
                let rr: Result<(), CpuError> = match r {
                    Ok(_) => Ok(()),
                    Err(e) => Err(e),
                };
                &&& spec_rel_commit(
                    cpu2,
                    m,
                    dest,
                    value,
                    cpu2.registers.psw,
                    0,
                    1,
                    size,
                    post,
                    post_m,
                    rr,
                )
                &&& (r is Ok ==> r == Ok::<u32, CpuError>(cycles))
            } else {
                &&& post == cpu2
                &&& post_m == m
                &&& spec_is_mem_err(r)
            }
        },
    }
}

/// A store: the source value and the address operand are read, then the
/// value — truncated to the given width — is written to memory, the
/// program counter advances and one memory access is counted.
pub open spec fn spec_rel_store<M: MemoryInterface>(
    cpu: NecV60,
    m: M,
    src: Operand,
    address: Operand,
    width: DataSize,
    size: u32,
    cycles: u32,
    post: NecV60,
    post_m: M,
    r: Result<u32, CpuError>,
) -> bool {
    match spec_operand_value(cpu, m, src) {
        None => spec_rel_read_failed(cpu, m, src, post, post_m, r),
        Some(v) => {
            let cpu2 = spec_after_read(cpu, src);
            match spec_operand_value(cpu2, m, address) {
                None => spec_rel_read_failed(cpu2, m, address, post, post_m, r),
                Some(addr) => {
                    let cpu3 = spec_after_read(cpu2, address);
                    let n = spec_data_size_bytes(width) as nat;
                    if m.write_ok(addr, n) {
                        let new_mem = (match width {
                            DataSize::Byte => m.mem().update(addr as int, (v % 0x100) as u8),
                            DataSize::Word => spec_store16(
                                m.mem(),
                                addr as int,
                                (v % 0x10000) as u16,
                            ),
                            DataSize::DWord => spec_store32(m.mem(), addr as int, v),
                        });
                        let regs2 = V60Registers {
                            pc: u32_specs::wrapping_add(cpu3.registers.pc, size),
                            ..cpu3.registers
                        };
                        &&& post == (NecV60 {
                            registers: regs2,
                            stats: spec_bump_stats(cpu3.stats, 0, 0, 0, 1, 0),
                            ..cpu3
                        })
                        &&& spec_mem_same_shape(m, post_m)
                        &&& post_m.mem() == new_mem
                        &&& r == Ok::<u32, CpuError>(cycles)
                    } else {
                        &&& post == cpu3
                        &&& spec_mem_same_shape(m, post_m)
                        &&& post_m.mem() == m.mem()
                        &&& spec_is_mem_err(r)
                    }
                },
            }
        },
    }
}

/// Returning from an interrupt: the flags are popped first, then the
/// program counter, each moving the stack pointer up by four; interrupts
/// are re-enabled unconditionally.  A failed pop stops there.
pub open spec fn spec_rfi_rel<M: MemoryInterface>(
    cpu: NecV60,
    m: M,
    post: NecV60,
    post_m: M,
    r: Result<(), CpuError>,
) -> bool {
    let sp0 = cpu.registers.sp;
    if !m.read_ok(sp0, 4) {
        &&& post == cpu
        &&& post_m == m
        &&& spec_is_mem_err(r)
    } else {
        let flags = spec_le32(m.mem(), sp0 as int);
        let sp1 = u32_specs::wrapping_add(sp0, 4);
        let cpu1 = NecV60 {
            registers: V60Registers {
                sp: sp1,
                psw: spec_psw_from_bits(flags),
                ..cpu.registers
            },
            ..cpu
        };
        if !m.read_ok(sp1, 4) {
            &&& post == cpu1
            &&& post_m == m
            &&& spec_is_mem_err(r)
        } else {
            let new_pc = spec_le32(m.mem(), sp1 as int);
            &&& post == (NecV60 {
                registers: V60Registers {
                    sp: u32_specs::wrapping_add(sp1, 4),
                    pc: new_pc,
                    psw: spec_psw_from_bits(flags),
                    ..cpu.registers
                },
                interrupts_enabled: true,
                ..cpu
            })
            &&& post_m == m
            &&& r is Ok
        }
    }
}

/// The two processors agree on every field but the pending-interrupt
/// queue.
pub open spec fn spec_fields_eq_except_pending(a: NecV60, b: NecV60) -> bool {
    &&& a.registers == b.registers
    &&& a.decoder == b.decoder
    &&& a.cycle_count == b.cycle_count
    &&& a.stats == b.stats
    &&& a.halted == b.halted
    &&& a.interrupts_enabled == b.interrupts_enabled
}

/// What executing one decoded instruction does, relating the processor
/// and memory before and after to the returned cycle count or error.
///
/// A zero program counter is first anchored to the instruction's
/// address; the instruction and cycle counters then grow whatever the
/// outcome.  From there each operation reads its operands, computes
/// through its unit, writes back and advances the program counter,
/// exactly as the per-family relations state.  Operations this integer
/// core cannot perform (floating point, the implicit-operand string
/// instructions) and `Unknown` encodings fail as unknown instructions.
#[verifier::opaque]
pub open spec fn spec_execute_rel<M: MemoryInterface>(
    pre: NecV60,
    m: M,
    di: DecodedInstruction,
    post: NecV60,
    post_m: M,
    r: Result<u32, CpuError>,
) -> bool {
    let cpu0 = spec_pc_anchor(pre, di.address);
    let cpu1 = spec_with_stats(
        cpu0,
        spec_bump_stats(cpu0.stats, 1, di.cycles as u64, 0, 0, 0),
    );
    let size = di.size;
    let cycles = di.cycles;
    match di.instruction {
        Instruction::Add { dest, src1, src2 } => spec_rel_alu2(
            cpu1,
            m,
            AluOp::Add,
            src1,
            src2,
            dest,
            size,
            cycles,
            post,
            post_m,
            r,
        ),
        Instruction::Sub { dest, src1, src2 } => spec_rel_alu2(
            cpu1,
            m,
            AluOp::Sub,
            src1,
            src2,
            dest,
            size,
            cycles,
            post,
            post_m,
            r,
        ),
        Instruction::Mul { dest, src1, src2 } => spec_rel_alu2(
            cpu1,
            m,
            AluOp::Mul,
            src1,
            src2,
            dest,
            size,
            cycles,
            post,
            post_m,
            r,
        ),
        Instruction::Div { dest, src1, src2 } => spec_rel_div(
            cpu1,
            m,
            src1,
            src2,
            dest,
            size,
            cycles,
            post,
            post_m,
            r,
        ),
        Instruction::And { dest, src1, src2 } => spec_rel_alu2(
            cpu1,
            m,
            AluOp::And,
            src1,
            src2,
            dest,
            size,
            cycles,
            post,
            post_m,
            r,
        ),
        Instruction::Or { dest, src1, src2 } => spec_rel_alu2(
            cpu1,
            m,
            AluOp::Or,
            src1,
            src2,
            dest,
            size,
            cycles,
            post,
            post_m,
            r,
        ),
        Instruction::Xor { dest, src1, src2 } => spec_rel_alu2(
            cpu1,
            m,
            AluOp::Xor,
            src1,
            src2,
            dest,
            size,
            cycles,
            post,
            post_m,
            r,
        ),
        Instruction::Not { dest, src } => spec_rel_unary(
            cpu1,
            m,
            UnaryOp::Complement,
            src,
            dest,
            size,
            cycles,
            post,
            post_m,
            r,
        ),
        Instruction::Shl { dest, src, shift } => spec_rel_alu2(
            cpu1,
            m,
            AluOp::Shl,
            src,
            shift,
            dest,
            size,
            cycles,
            post,
            post_m,
            r,
        ),
        Instruction::Shr { dest, src, shift } => spec_rel_alu2(
            cpu1,
            m,
            AluOp::Shr,
            src,
            shift,
            dest,
            size,
            cycles,
            post,
            post_m,
            r,
        ),
        Instruction::Mov { dest, src } => spec_rel_unary(
            cpu1,
            m,
            UnaryOp::Move,
            src,
            dest,
            size,
            cycles,
            post,
            post_m,
            r,
        ),
        Instruction::Load { dest, address, size: width } => spec_rel_load(
            cpu1,
            m,
            dest,
            address,
            width,
            size,
            cycles,
            post,
            post_m,
            r,
        ),
        Instruction::Store { src, address, size: width } => spec_rel_store(
            cpu1,
            m,
            src,
            address,
            width,
            size,
            cycles,
            post,
            post_m,
            r,
        ),
        Instruction::Jump { target } => {
            match spec_operand_value(cpu1, m, target) {
                None => spec_rel_read_failed(cpu1, m, target, post, post_m, r),
                Some(t) => {
                    let cpu2 = spec_after_read(cpu1, target);
                    &&& post == (NecV60 {
                        registers: V60Registers { pc: t, ..cpu2.registers },
                        stats: spec_bump_stats(cpu2.stats, 0, 0, 1, 0, 0),
                        ..cpu2
                    })
                    &&& post_m == m
                    &&& r == Ok::<u32, CpuError>(cycles)
                },
            }
        },
        Instruction::JumpConditional { condition, target } => {
            if spec_condition_met(cpu1.registers.psw, condition) {
                match spec_operand_value(cpu1, m, target) {
                    None => spec_rel_read_failed(cpu1, m, target, post, post_m, r),
                    Some(t) => {
                        let cpu2 = spec_after_read(cpu1, target);
                        &&& post == (NecV60 {
                            registers: V60Registers { pc: t, ..cpu2.registers },
                            stats: spec_bump_stats(cpu2.stats, 0, 0, 1, 0, 0),
                            ..cpu2
                        })
                        &&& post_m == m
                        &&& r == Ok::<u32, CpuError>(cycles)
                    },
                }
            } else {
                &&& post == (NecV60 {
                    registers: V60Registers {
                        pc: u32_specs::wrapping_add(cpu1.registers.pc, size),
                        ..cpu1.registers
                    },
                    ..cpu1
                })
                &&& post_m == m
                &&& r == Ok::<u32, CpuError>(cycles)
            }
        },
        Instruction::Call { target } => {
            match spec_operand_value(cpu1, m, target) {
                None => spec_rel_read_failed(cpu1, m, target, post, post_m, r),
                Some(t) => {
                    let cpu2 = spec_after_read(cpu1, target);
                    let sp1 = u32_specs::wrapping_sub(cpu2.registers.sp, 4);
                    let ret = u32_specs::wrapping_add(cpu2.registers.pc, size);
                    if m.write_ok(sp1, 4) {
                        &&& post == (NecV60 {
                            registers: V60Registers { sp: sp1, pc: t, ..cpu2.registers },
                            stats: spec_bump_stats(cpu2.stats, 0, 0, 1, 0, 0),
                            ..cpu2
                        })
                        &&& spec_mem_same_shape(m, post_m)
                        &&& post_m.mem() == spec_store32(m.mem(), sp1 as int, ret)
                        &&& r == Ok::<u32, CpuError>(cycles)
                    } else {
                        &&& post == cpu2
                        &&& spec_mem_same_shape(m, post_m)
                        &&& post_m.mem() == m.mem()
                        &&& spec_is_mem_err(r)
                    }
                },
            }
        },
        Instruction::Return => {
            let sp0 = cpu1.registers.sp;
            if m.read_ok(sp0, 4) {
                &&& post == (NecV60 {
                    registers: V60Registers {
                        pc: spec_le32(m.mem(), sp0 as int),
                        sp: u32_specs::wrapping_add(sp0, 4),
                        ..cpu1.registers
                    },
                    stats: spec_bump_stats(cpu1.stats, 0, 0, 1, 0, 0),
                    ..cpu1
                })
                &&& post_m == m
                &&& r == Ok::<u32, CpuError>(cycles)
            } else {
                &&& post == cpu1
                &&& post_m == m
                &&& spec_is_mem_err(r)
            }
        },
        Instruction::Compare { src1, src2 } => spec_rel_flags(
            cpu1,
            m,
            FlagOp::Compare,
            src1,
            src2,
            size,
            cycles,
            post,
            post_m,
            r,
        ),
        Instruction::Test { src1, src2 } => spec_rel_flags(
            cpu1,
            m,
            FlagOp::Test,
            src1,
            src2,
            size,
            cycles,
            post,
            post_m,
            r,
        ),
        Instruction::Nop => {
            &&& post == (NecV60 {
                registers: V60Registers {
                    pc: u32_specs::wrapping_add(cpu1.registers.pc, size),
                    ..cpu1.registers
                },
                ..cpu1
            })
            &&& post_m == m
            &&& r == Ok::<u32, CpuError>(cycles)
        },
        Instruction::Halt => {
            &&& post == (NecV60 {
                registers: V60Registers {
                    pc: u32_specs::wrapping_add(cpu1.registers.pc, size),
                    ..cpu1.registers
                },
                halted: true,
                ..cpu1
            })
            &&& post_m == m
            &&& r == Ok::<u32, CpuError>(cycles)
        },
        Instruction::RotateLeft { dest, src, count } => spec_rel_alu2(
            cpu1,
            m,
            AluOp::RotateLeft,
            src,
            count,
            dest,
            size,
            cycles,
            post,
            post_m,
            r,
        ),
        Instruction::RotateRight { dest, src, count } => spec_rel_alu2(
            cpu1,
            m,
            AluOp::RotateRight,
            src,
            count,
            dest,
            size,
            cycles,
            post,
            post_m,
            r,
        ),
        Instruction::BitTest { src, bit } => spec_rel_flags(
            cpu1,
            m,
            FlagOp::BitTest,
            src,
            bit,
            size,
            cycles,
            post,
            post_m,
            r,
        ),
        Instruction::BitSet { dest, bit } => spec_rel_alu2(
            cpu1,
            m,
            AluOp::BitSet,
            dest,
            bit,
            dest,
            size,
            cycles,
            post,
            post_m,
            r,
        ),
        Instruction::BitClear { dest, bit } => spec_rel_alu2(
            cpu1,
            m,
            AluOp::BitClear,
            dest,
            bit,
            dest,
            size,
            cycles,
            post,
            post_m,
            r,
        ),
        Instruction::BitScan { dest, src } => spec_rel_unary(
            cpu1,
            m,
            UnaryOp::ScanForward,
            src,
            dest,
            size,
            cycles,
            post,
            post_m,
            r,
        ),
        Instruction::BcdAdd { dest, src1, src2 } => spec_rel_alu2(
            cpu1,
            m,
            AluOp::BcdAdd,
            src1,
            src2,
            dest,
            size,
            cycles,
            post,
            post_m,
            r,
        ),
        Instruction::BcdSub { dest, src1, src2 } => spec_rel_alu2(
            cpu1,
            m,
            AluOp::BcdSub,
            src1,
            src2,
            dest,
            size,
            cycles,
            post,
            post_m,
            r,
        ),
        Instruction::SoftwareInterrupt { vector } => {
            &&& spec_fields_eq_except_pending(
                NecV60 {
                    registers: V60Registers {
                        pc: u32_specs::wrapping_add(cpu1.registers.pc, size),
                        ..cpu1.registers
                    },
                    ..cpu1
                },
                post,
            )
            &&& post.pending_interrupts@ == spec_queue(
                cpu1.pending_interrupts@,
                Interrupt::External(vector),
            )
            &&& post_m == m
            &&& r == Ok::<u32, CpuError>(cycles)
        },
        Instruction::ReturnFromInterrupt => {
            let rr: Result<(), CpuError> = match r {
                Ok(_) => Ok(()),
                Err(e) => Err(e),
            };
            &&& spec_rfi_rel(cpu1, m, post, post_m, rr)
            &&& (r is Ok ==> r == Ok::<u32, CpuError>(cycles))
        },
        Instruction::EnableInterrupts => {
            &&& post == (NecV60 {
                registers: V60Registers {
                    pc: u32_specs::wrapping_add(cpu1.registers.pc, size),
                    ..cpu1.registers
                },
                interrupts_enabled: true,
                ..cpu1
            })
            &&& post_m == m
            &&& r == Ok::<u32, CpuError>(cycles)
        },
        Instruction::DisableInterrupts => {
            &&& post == (NecV60 {
                registers: V60Registers {
                    pc: u32_specs::wrapping_add(cpu1.registers.pc, size),
                    ..cpu1.registers
                },
                interrupts_enabled: false,
                ..cpu1
            })
            &&& post_m == m
            &&& r == Ok::<u32, CpuError>(cycles)
        },
        Instruction::Unknown { opcode } => {
            &&& post == cpu1
            &&& post_m == m
            &&& r == Err::<u32, CpuError>(
                CpuError::Execution(ExecutionError::UnknownInstruction { opcode }),
            )
        },
        _ => {
            &&& post == cpu1
            &&& post_m == m
            &&& r == Err::<u32, CpuError>(
                CpuError::Execution(ExecutionError::UnknownInstruction { opcode: 0u32 }),
            )
        },
    }
}

/// Committing a result never touches the cycle counter or the decoder.
proof fn lemma_commit_frame<M: MemoryInterface>(
    cpu: NecV60,
    m: M,
    dest: Operand,
    value: u32,
    new_psw: ProcessorStatusWord,
    exc: u64,
    tail_mem: u64,
    size: u32,
    post: NecV60,
    post_m: M,
    rr: Result<(), CpuError>,
)
    requires
        spec_rel_commit(cpu, m, dest, value, new_psw, exc, tail_mem, size, post, post_m, rr),
    ensures
        post.cycle_count == cpu.cycle_count,
        post.decoder == cpu.decoder,
{
}

/// A two-source operation never touches the cycle counter or the
/// decoder, and returns its given cycle cost on success.
proof fn lemma_alu2_frame<M: MemoryInterface>(
    cpu: NecV60,
    m: M,
    op: AluOp,
    a_op: Operand,
    b_op: Operand,
    dest: Operand,
    size: u32,
    cycles: u32,
    post: NecV60,
    post_m: M,
    r: Result<u32, CpuError>,
)
    requires
        spec_rel_alu2(cpu, m, op, a_op, b_op, dest, size, cycles, post, post_m, r),
    ensures
        post.cycle_count == cpu.cycle_count,
        post.decoder == cpu.decoder,
        (match r {
            Ok(c) => c == cycles,
            Err(_) => true,
        }),
{
    if spec_operand_value(cpu, m, a_op) is Some {
        let cpu2 = spec_after_read(cpu, a_op);
        if spec_operand_value(cpu2, m, b_op) is Some {
            let cpu3 = spec_after_read(cpu2, b_op);
            let v1 = spec_operand_value(cpu, m, a_op)->Some_0;
            let v2 = spec_operand_value(cpu2, m, b_op)->Some_0;
            let rr: Result<(), CpuError> = match r {
                Ok(_) => Ok(()),
                Err(e) => Err(e),
            };
            lemma_commit_frame(
                cpu3,
                m,
                dest,
                spec_alu_value(op, v1, v2),
                spec_alu_psw(op, v1, v2, cpu3.registers.psw),
                spec_alu_exc(op, v1, v2),
                0,
                size,
                post,
                post_m,
                rr,
            );
        }
    }
}

/// A one-source operation never touches the cycle counter or the
/// decoder, and returns its given cycle cost on success.
proof fn lemma_unary_frame<M: MemoryInterface>(
    cpu: NecV60,
    m: M,
    op: UnaryOp,
    a_op: Operand,
    dest: Operand,
    size: u32,
    cycles: u32,
    post: NecV60,
    post_m: M,
    r: Result<u32, CpuError>,
)
    requires
        spec_rel_unary(cpu, m, op, a_op, dest, size, cycles, post, post_m, r),
    ensures
        post.cycle_count == cpu.cycle_count,
        post.decoder == cpu.decoder,
        (match r {
            Ok(c) => c == cycles,
            Err(_) => true,
        }),
{
    if spec_operand_value(cpu, m, a_op) is Some {
        let cpu2 = spec_after_read(cpu, a_op);
        let v = spec_operand_value(cpu, m, a_op)->Some_0;
        let rr: Result<(), CpuError> = match r {
            Ok(_) => Ok(()),
            Err(e) => Err(e),
        };
        lemma_commit_frame(
            cpu2,
            m,
            dest,
            spec_unary_value(op, v),
            spec_unary_psw(op, v, cpu2.registers.psw),
            0,
            0,
            size,
            post,
            post_m,
            rr,
        );
    }
}

/// A division never touches the cycle counter or the decoder, and
/// returns its given cycle cost on success.
proof fn lemma_div_frame<M: MemoryInterface>(
    cpu: NecV60,
    m: M,
    src1: Operand,
    src2: Operand,
    dest: Operand,
    size: u32,
    cycles: u32,
    post: NecV60,
    post_m: M,
    r: Result<u32, CpuError>,
)
    requires
        spec_rel_div(cpu, m, src1, src2, dest, size, cycles, post, post_m, r),
    ensures
        post.cycle_count == cpu.cycle_count,
        post.decoder == cpu.decoder,
        (match r {
            Ok(c) => c == cycles,
            Err(_) => true,
        }),
{
    if spec_operand_value(cpu, m, src1) is Some {
        let cpu2 = spec_after_read(cpu, src1);
        if spec_operand_value(cpu2, m, src2) is Some {
            let cpu3 = spec_after_read(cpu2, src2);
            let v1 = spec_operand_value(cpu, m, src1)->Some_0;
            let v2 = spec_operand_value(cpu2, m, src2)->Some_0;
            if v2 != 0 {
                let rr: Result<(), CpuError> = match r {
                    Ok(_) => Ok(()),
                    Err(e) => Err(e),
                };
                lemma_commit_frame(
                    cpu3,
                    m,
                    dest,
                    spec_div_result(v1, v2).value,
                    spec_psw_after_arith(cpu3.registers.psw, spec_div_result(v1, v2)),
                    0,
                    0,
                    size,
                    post,
                    post_m,
                    rr,
                );
            }
        }
    }
}

/// A load never touches the cycle counter or the decoder, and returns
/// its given cycle cost on success.
proof fn lemma_load_frame<M: MemoryInterface>(
    cpu: NecV60,
    m: M,
    dest: Operand,
    address: Operand,
    width: DataSize,
    size: u32,
    cycles: u32,
    post: NecV60,
    post_m: M,
    r: Result<u32, CpuError>,
)
    requires
        spec_rel_load(cpu, m, dest, address, width, size, cycles, post, post_m, r),
    ensures
        post.cycle_count == cpu.cycle_count,
        post.decoder == cpu.decoder,
        (match r {
            Ok(c) => c == cycles,
            Err(_) => true,
        }),
{
    if spec_operand_value(cpu, m, address) is Some {
        let addr = spec_operand_value(cpu, m, address)->Some_0;
        let cpu2 = spec_after_read(cpu, address);
        let n = spec_data_size_bytes(width) as nat;
        if m.read_ok(addr, n) {
            let value = (match width {
                DataSize::Byte => m.mem()[addr as int] as u32,
                DataSize::Word => spec_le16(m.mem(), addr as int) as u32,
                DataSize::DWord => spec_le32(m.mem(), addr as int),
            });
            let rr: Result<(), CpuError> = match r {
                Ok(_) => Ok(()),
                Err(e) => Err(e),
            };
            lemma_commit_frame(
                cpu2,
                m,
                dest,
                value,
                cpu2.registers.psw,
                0,
                1,
                size,
                post,
                post_m,
                rr,
            );
        }
    }
}

/// Executing an instruction never touches the cycle counter or the
/// decoder, and a successful execution returns exactly the instruction's
/// cycle cost.
#[verifier::rlimit(100)]
pub proof fn lemma_execute_rel_frame<M: MemoryInterface>(
    pre: NecV60,
    m: M,
    di: DecodedInstruction,
    post: NecV60,
    post_m: M,
    r: Result<u32, CpuError>,
)
    requires
        spec_execute_rel(pre, m, di, post, post_m, r),
    ensures
        post.cycle_count == pre.cycle_count,
        post.decoder == pre.decoder,
        (match r {
            Ok(c) => c == di.cycles,
            Err(_) => true,
        }),
{
    reveal(spec_execute_rel);
    let cpu0 = spec_pc_anchor(pre, di.address);
    let cpu1 = spec_with_stats(
        cpu0,
        spec_bump_stats(cpu0.stats, 1, di.cycles as u64, 0, 0, 0),
    );
    let size = di.size;
    let cycles = di.cycles;
    match di.instruction {
        Instruction::Add { dest, src1, src2 } => {
            lemma_alu2_frame(cpu1, m, AluOp::Add, src1, src2, dest, size, cycles, post, post_m, r);
        },
        Instruction::Sub { dest, src1, src2 } => {
            lemma_alu2_frame(cpu1, m, AluOp::Sub, src1, src2, dest, size, cycles, post, post_m, r);
        },
        Instruction::Mul { dest, src1, src2 } => {
            lemma_alu2_frame(cpu1, m, AluOp::Mul, src1, src2, dest, size, cycles, post, post_m, r);
        },
        Instruction::Div { dest, src1, src2 } => {
            lemma_div_frame(cpu1, m, src1, src2, dest, size, cycles, post, post_m, r);
        },
        Instruction::And { dest, src1, src2 } => {
            lemma_alu2_frame(cpu1, m, AluOp::And, src1, src2, dest, size, cycles, post, post_m, r);
        },
        Instruction::Or { dest, src1, src2 } => {
            lemma_alu2_frame(cpu1, m, AluOp::Or, src1, src2, dest, size, cycles, post, post_m, r);
        },
        Instruction::Xor { dest, src1, src2 } => {
            lemma_alu2_frame(cpu1, m, AluOp::Xor, src1, src2, dest, size, cycles, post, post_m, r);
        },
        Instruction::Not { dest, src } => {
            lemma_unary_frame(
                cpu1,
                m,
                UnaryOp::Complement,
                src,
                dest,
                size,
                cycles,
                post,
                post_m,
                r,
            );
        },
        Instruction::Shl { dest, src, shift } => {
            lemma_alu2_frame(cpu1, m, AluOp::Shl, src, shift, dest, size, cycles, post, post_m, r);
        },
        Instruction::Shr { dest, src, shift } => {
            lemma_alu2_frame(cpu1, m, AluOp::Shr, src, shift, dest, size, cycles, post, post_m, r);
        },
        Instruction::Mov { dest, src } => {
            lemma_unary_frame(cpu1, m, UnaryOp::Move, src, dest, size, cycles, post, post_m, r);
        },
        Instruction::Load { dest, address, size: width } => {
            lemma_load_frame(cpu1, m, dest, address, width, size, cycles, post, post_m, r);
        },
        Instruction::RotateLeft { dest, src, count } => {
            lemma_alu2_frame(
                cpu1,
                m,
                AluOp::RotateLeft,
                src,
                count,
                dest,
                size,
                cycles,
                post,
                post_m,
                r,
            );
        },
        Instruction::RotateRight { dest, src, count } => {
            lemma_alu2_frame(
                cpu1,
                m,
                AluOp::RotateRight,
                src,
                count,
                dest,
                size,
                cycles,
                post,
                post_m,
                r,
            );
        },
        Instruction::BitSet { dest, bit } => {
            lemma_alu2_frame(cpu1, m, AluOp::BitSet, dest, bit, dest, size, cycles, post, post_m, r);
        },
        Instruction::BitClear { dest, bit } => {
            lemma_alu2_frame(
                cpu1,
                m,
                AluOp::BitClear,
                dest,
                bit,
                dest,
                size,
                cycles,
                post,
                post_m,
                r,
            );
        },
        Instruction::BitScan { dest, src } => {
            lemma_unary_frame(
                cpu1,
                m,
                UnaryOp::ScanForward,
                src,
                dest,
                size,
                cycles,
                post,
                post_m,
                r,
            );
        },
        Instruction::BcdAdd { dest, src1, src2 } => {
            lemma_alu2_frame(
                cpu1,
                m,
                AluOp::BcdAdd,
                src1,
                src2,
                dest,
                size,
                cycles,
                post,
                post_m,
                r,
            );
        },
        Instruction::BcdSub { dest, src1, src2 } => {
            lemma_alu2_frame(
                cpu1,
                m,
                AluOp::BcdSub,
                src1,
                src2,
                dest,
                size,
                cycles,
                post,
                post_m,
                r,
            );
        },
        _ => {},
    }
}

impl NecV60 {
    /// Writes a computed value through the destination, then replaces the
    /// flags, advances the program counter and counts the outcome; a
    /// failed store changes neither flags nor program counter.
    fn commit_result<M: MemoryInterface>(
        &mut self,
        dest: &Operand,
        value: u32,
        new_psw: ProcessorStatusWord,
        exc: bool,
        tail_mem: bool,
        size: u32,
        memory: &mut M,
    ) -> (r: Result<(), CpuError>)
        ensures
            spec_rel_commit(
                *old(self),
                *old(memory),
                *dest,
                value,
                new_psw,
                if exc {
                    1u64
                } else {
                    0u64
                },
                if tail_mem {
                    1u64
                } else {
                    0u64
                },
                size,
                *final(self),
                *final(memory),
                r,
            ),
    {
        match self.write_operand(dest, value, memory) {
            Ok(_) => {
                self.registers.psw = new_psw;
                self.registers.pc = self.registers.pc.wrapping_add(size);
                if exc {
                    self.stats.exceptions_raised = self.stats.exceptions_raised.wrapping_add(1);
                }
                if tail_mem {
                    self.stats.memory_accesses = self.stats.memory_accesses.wrapping_add(1);
                }
                Ok(())
            },
            Err(e) => Err(e),
        }
    }

    /// Executes a two-source operation: reads both operands, computes
    /// through the matching unit and commits the result.
    #[verifier::rlimit(100)]
    fn exec_alu2<M: MemoryInterface>(
        &mut self,
        op: AluOp,
        a_op: &Operand,
        b_op: &Operand,
        dest: &Operand,
        size: u32,
        cycles: u32,
        memory: &mut M,
    ) -> (r: Result<u32, CpuError>)
        ensures
            spec_rel_alu2(
                *old(self),
                *old(memory),
                op,
                *a_op,
                *b_op,
                *dest,
                size,
                cycles,
                *final(self),
                *final(memory),
                r,
            ),
            final(self).cycle_count == old(self).cycle_count,
            final(self).decoder == old(self).decoder,
    {
        let v1 = self.read_operand(a_op, memory)?;
        let v2 = self.read_operand(b_op, memory)?;
        let value: u32;
        let mut p = self.registers.psw;
        let exc: bool;
        match op {
            AluOp::Add => {
                let ar = ArithmeticUnit::add(v1, v2);
                ar.update_psw(&mut p);
                value = ar.value;
                exc = ar.overflow || ar.carry;
            },
            AluOp::Sub => {
                let ar = ArithmeticUnit::sub(v1, v2);
                ar.update_psw(&mut p);
                value = ar.value;
                exc = ar.overflow;
            },
            AluOp::Mul => {
                let ar = ArithmeticUnit::mul(v1, v2);
                ar.update_psw(&mut p);
                value = ar.value;
                exc = ar.overflow;
            },
            AluOp::And => {
                let ar = LogicalUnit::and(v1, v2);
                ar.update_psw(&mut p);
                value = ar.value;
                exc = false;
            },
            AluOp::Or => {
                let ar = LogicalUnit::or(v1, v2);
                ar.update_psw(&mut p);
                value = ar.value;
                exc = false;
            },
            AluOp::Xor => {
                let ar = LogicalUnit::xor(v1, v2);
                ar.update_psw(&mut p);
                value = ar.value;
                exc = false;
            },
            AluOp::Shl => {
                let ar = LogicalUnit::shl(v1, v2);
                ar.update_psw(&mut p);
                value = ar.value;
                exc = false;
            },
            AluOp::Shr => {
                let ar = LogicalUnit::shr(v1, v2);
                ar.update_psw(&mut p);
                value = ar.value;
                exc = false;
            },
            AluOp::RotateLeft => {
                value = BitManipulationUnit::rotate_left(v1, v2);
                p.set_zero_flag(value == 0);
                exc = false;
            },
            AluOp::RotateRight => {
                value = BitManipulationUnit::rotate_right(v1, v2);
                p.set_zero_flag(value == 0);
                exc = false;
            },
            AluOp::BitSet => {
                let br = BitManipulationUnit::set_bit(v1, v2);
                br.update_psw(&mut p);
                value = br.value;
                exc = false;
            },
            AluOp::BitClear => {
                let br = BitManipulationUnit::clear_bit(v1, v2);
                br.update_psw(&mut p);
                value = br.value;
                exc = false;
            },
            AluOp::BcdAdd => {
                let br = BcdUnit::add(v1, v2);
                br.update_psw(&mut p);
                value = br.value;
                exc = br.overflow;
            },
            AluOp::BcdSub => {
                let br = BcdUnit::sub(v1, v2);
                br.update_psw(&mut p);
                value = br.value;
                exc = br.overflow;
            },
        }
        self.commit_result(dest, value, p, exc, false, size, memory)?;
        Ok(cycles)
    }

    /// Executes a one-source operation: reads the operand, computes and
    /// commits the result.
    #[verifier::rlimit(50)]
    fn exec_unary<M: MemoryInterface>(
        &mut self,
        op: UnaryOp,
        a_op: &Operand,
        dest: &Operand,
        size: u32,
        cycles: u32,
        memory: &mut M,
    ) -> (r: Result<u32, CpuError>)
        ensures
            spec_rel_unary(
                *old(self),
                *old(memory),
                op,
                *a_op,
                *dest,
                size,
                cycles,
                *final(self),
                *final(memory),
                r,
            ),
            final(self).cycle_count == old(self).cycle_count,
            final(self).decoder == old(self).decoder,
    {
        let v = self.read_operand(a_op, memory)?;
        let value: u32;
        let mut p = self.registers.psw;
        match op {
            UnaryOp::Move => {
                value = v;
            },
            UnaryOp::Complement => {
                let ar = LogicalUnit::not(v);
                ar.update_psw(&mut p);
                value = ar.value;
            },
            UnaryOp::ScanForward => {
                let br = BitManipulationUnit::scan_forward(v);
                br.update_psw(&mut p);
                value = br.value;
            },
        }
        self.commit_result(dest, value, p, false, false, size, memory)?;
        Ok(cycles)
    }

    /// Executes a flags-only operation: reads both operands, replaces the
    /// flags and advances the program counter.
    #[verifier::rlimit(50)]
    fn exec_flags<M: MemoryInterface>(
        &mut self,
        op: FlagOp,
        a_op: &Operand,
        b_op: &Operand,
        size: u32,
        cycles: u32,
        memory: &mut M,
    ) -> (r: Result<u32, CpuError>)
        ensures
            spec_rel_flags(
                *old(self),
                *old(memory),
                op,
                *a_op,
                *b_op,
                size,
                cycles,
                *final(self),
                *final(memory),
                r,
            ),
            final(self).cycle_count == old(self).cycle_count,
            final(self).decoder == old(self).decoder,
    {
        let v1 = self.read_operand(a_op, memory)?;
        let v2 = self.read_operand(b_op, memory)?;
        match op {
            FlagOp::Compare => {
                let ar = ArithmeticUnit::sub(v1, v2);
                ar.update_psw(&mut self.registers.psw);
            },
            FlagOp::Test => {
                let ar = LogicalUnit::test(v1, v2);
                ar.update_psw(&mut self.registers.psw);
            },
            FlagOp::BitTest => {
                let br = BitManipulationUnit::test_bit(v1, v2);
                br.update_psw(&mut self.registers.psw);
            },
        }
        self.registers.pc = self.registers.pc.wrapping_add(size);
        Ok(cycles)
    }

    /// Executes a division, raising an exception on a zero divisor.
    #[verifier::rlimit(50)]
    fn exec_div<M: MemoryInterface>(
        &mut self,
        src1: &Operand,
        src2: &Operand,
        dest: &Operand,
        size: u32,
        cycles: u32,
        memory: &mut M,
    ) -> (r: Result<u32, CpuError>)
        ensures
            spec_rel_div(
                *old(self),
                *old(memory),
                *src1,
                *src2,
                *dest,
                size,
                cycles,
                *final(self),
                *final(memory),
                r,
            ),
            final(self).cycle_count == old(self).cycle_count,
            final(self).decoder == old(self).decoder,
    {
        let v1 = self.read_operand(src1, memory)?;
        let v2 = self.read_operand(src2, memory)?;
        match ArithmeticUnit::div(v1, v2) {
            Ok(ar) => {
                let mut p = self.registers.psw;
                ar.update_psw(&mut p);
                self.commit_result(dest, ar.value, p, false, false, size, memory)?;
                Ok(cycles)
            },
            Err(_) => {
                self.stats.exceptions_raised = self.stats.exceptions_raised.wrapping_add(1);
                Err(CpuError::Execution(ExecutionError::DivisionByZero))
            },
        }
    }

    /// Executes a load of the given width.
    #[verifier::rlimit(50)]
    fn exec_load<M: MemoryInterface>(
        &mut self,
        dest: &Operand,
        address: &Operand,
        width: DataSize,
        size: u32,
        cycles: u32,
        memory: &mut M,
    ) -> (r: Result<u32, CpuError>)
        ensures
            spec_rel_load(
                *old(self),
                *old(memory),
                *dest,
                *address,
                width,
                size,
                cycles,
                *final(self),
                *final(memory),
                r,
            ),
            final(self).cycle_count == old(self).cycle_count,
            final(self).decoder == old(self).decoder,
    {
        let addr = self.read_operand(address, memory)?;
        let value = match width {
            DataSize::Byte => {
                match memory.read_u8(addr) {
                    Ok(b) => b as u32,
                    Err(e) => {
                        return Err(CpuError::Memory(e));
                    },
                }
            },
            DataSize::Word => {
                match memory.read_u16(addr) {
                    Ok(w) => w as u32,
                    Err(e) => {
                        return Err(CpuError::Memory(e));
                    },
                }
            },
            DataSize::DWord => {
                match memory.read_u32(addr) {
                    Ok(w) => w,
                    Err(e) => {
                        return Err(CpuError::Memory(e));
                    },
                }
            },
        };
        let p = self.registers.psw;
        self.commit_result(dest, value, p, false, true, size, memory)?;
        Ok(cycles)
    }

    /// Executes a store of the given width.
    #[verifier::rlimit(50)]
    fn exec_store<M: MemoryInterface>(
        &mut self,
        src: &Operand,
        address: &Operand,
        width: DataSize,
        size: u32,
        cycles: u32,
        memory: &mut M,
    ) -> (r: Result<u32, CpuError>)
        ensures
            spec_rel_store(
                *old(self),
                *old(memory),
                *src,
                *address,
                width,
                size,
                cycles,
                *final(self),
                *final(memory),
                r,
            ),
            final(self).cycle_count == old(self).cycle_count,
            final(self).decoder == old(self).decoder,
    {
        let v = self.read_operand(src, memory)?;
        let addr = self.read_operand(address, memory)?;
        let outcome = match width {
            DataSize::Byte => memory.write_u8(addr, (v % 0x100) as u8),
            DataSize::Word => memory.write_u16(addr, (v % 0x10000) as u16),
            DataSize::DWord => memory.write_u32(addr, v),
        };
        match outcome {
            Ok(_) => {},
            Err(e) => {
                return Err(CpuError::Memory(e));
            },
        }
        self.registers.pc = self.registers.pc.wrapping_add(size);
        self.stats.memory_accesses = self.stats.memory_accesses.wrapping_add(1);
        Ok(cycles)
    }

    /// Executes one decoded instruction against the registers and the
    /// memory, and returns its cycle cost.
    ///
    /// A zero program counter is first anchored to the instruction's own
    /// address, and the instruction and cycle counters grow whatever the
    /// outcome.  `spec_execute_rel` states the exact effect of every
    /// operation.  The floating-point and string instructions, whose
    /// operands this integer core cannot model, fail as unknown
    /// instructions, as do `Unknown` encodings.
    #[verifier::rlimit(100)]
    pub fn execute_instruction<M: MemoryInterface>(
        &mut self,
        instruction: &DecodedInstruction,
        memory: &mut M,
    ) -> (r: Result<u32, CpuError>)
        ensures
            spec_execute_rel(
                *old(self),
                *old(memory),
                *instruction,
                *final(self),
                *final(memory),
                r,
            ),
    {
        reveal(crate::cpu::executor::spec_execute_rel);
        if self.registers.pc == 0 {
            self.registers.pc = instruction.address;
        }
        self.stats.instructions_executed = self.stats.instructions_executed.wrapping_add(1);
        self.stats.cycles_executed = self.stats.cycles_executed.wrapping_add(
            instruction.cycles as u64,
        );
        let size = instruction.size;
        let cycles = instruction.cycles;
        match &instruction.instruction {
            Instruction::Add { dest, src1, src2 } => {
                self.exec_alu2(AluOp::Add, src1, src2, dest, size, cycles, memory)
            },
            Instruction::Sub { dest, src1, src2 } => {
                self.exec_alu2(AluOp::Sub, src1, src2, dest, size, cycles, memory)
            },
            Instruction::Mul { dest, src1, src2 } => {
                self.exec_alu2(AluOp::Mul, src1, src2, dest, size, cycles, memory)
            },
            Instruction::Div { dest, src1, src2 } => {
                self.exec_div(src1, src2, dest, size, cycles, memory)
            },
            Instruction::And { dest, src1, src2 } => {
                self.exec_alu2(AluOp::And, src1, src2, dest, size, cycles, memory)
            },
            Instruction::Or { dest, src1, src2 } => {
                self.exec_alu2(AluOp::Or, src1, src2, dest, size, cycles, memory)
            },
            Instruction::Xor { dest, src1, src2 } => {
                self.exec_alu2(AluOp::Xor, src1, src2, dest, size, cycles, memory)
            },
            Instruction::Not { dest, src } => {
                self.exec_unary(UnaryOp::Complement, src, dest, size, cycles, memory)
            },
            Instruction::Shl { dest, src, shift } => {
                self.exec_alu2(AluOp::Shl, src, shift, dest, size, cycles, memory)
            },
            Instruction::Shr { dest, src, shift } => {
                self.exec_alu2(AluOp::Shr, src, shift, dest, size, cycles, memory)
            },
            Instruction::Mov { dest, src } => {
                self.exec_unary(UnaryOp::Move, src, dest, size, cycles, memory)
            },
            Instruction::Load { dest, address, size: width } => {
                self.exec_load(dest, address, *width, size, cycles, memory)
            },
            Instruction::Store { src, address, size: width } => {
                self.exec_store(src, address, *width, size, cycles, memory)
            },
            Instruction::Jump { target } => {
                let t = self.read_operand(target, memory)?;
                self.registers.pc = t;
                self.stats.branches_taken = self.stats.branches_taken.wrapping_add(1);
                Ok(cycles)
            },
            Instruction::JumpConditional { condition, target } => {
                if self.registers.psw.condition_met(*condition) {
                    let t = self.read_operand(target, memory)?;
                    self.registers.pc = t;
                    self.stats.branches_taken = self.stats.branches_taken.wrapping_add(1);
                } else {
                    self.registers.pc = self.registers.pc.wrapping_add(size);
                }
                Ok(cycles)
            },
            Instruction::Call { target } => {
                let t = self.read_operand(target, memory)?;
                let sp1 = self.registers.sp.wrapping_sub(4);
                let ret = self.registers.pc.wrapping_add(size);
                match memory.write_u32(sp1, ret) {
                    Ok(_) => {},
                    Err(e) => {
                        return Err(CpuError::Memory(e));
                    },
                }
                self.registers.sp = sp1;
                self.registers.pc = t;
                self.stats.branches_taken = self.stats.branches_taken.wrapping_add(1);
                Ok(cycles)
            },
            Instruction::Return => {
                let ret = match memory.read_u32(self.registers.sp) {
                    Ok(v) => v,
                    Err(e) => {
                        return Err(CpuError::Memory(e));
                    },
                };
                self.registers.pc = ret;
                self.registers.sp = self.registers.sp.wrapping_add(4);
                self.stats.branches_taken = self.stats.branches_taken.wrapping_add(1);
                Ok(cycles)
            },
            Instruction::Compare { src1, src2 } => {
                self.exec_flags(FlagOp::Compare, src1, src2, size, cycles, memory)
            },
            Instruction::Test { src1, src2 } => {
                self.exec_flags(FlagOp::Test, src1, src2, size, cycles, memory)
            },
            Instruction::Nop => {
                self.registers.pc = self.registers.pc.wrapping_add(size);
                Ok(cycles)
            },
            Instruction::Halt => {
                self.halted = true;
                self.registers.pc = self.registers.pc.wrapping_add(size);
                Ok(cycles)
            },
            Instruction::RotateLeft { dest, src, count } => {
                self.exec_alu2(AluOp::RotateLeft, src, count, dest, size, cycles, memory)
            },
            Instruction::RotateRight { dest, src, count } => {
                self.exec_alu2(AluOp::RotateRight, src, count, dest, size, cycles, memory)
            },
            Instruction::BitTest { src, bit } => {
                self.exec_flags(FlagOp::BitTest, src, bit, size, cycles, memory)
            },
            Instruction::BitSet { dest, bit } => {
                let d = *dest;
                self.exec_alu2(AluOp::BitSet, &d, bit, dest, size, cycles, memory)
            },
            Instruction::BitClear { dest, bit } => {
                let d = *dest;
                self.exec_alu2(AluOp::BitClear, &d, bit, dest, size, cycles, memory)
            },
            Instruction::BitScan { dest, src } => {
                self.exec_unary(UnaryOp::ScanForward, src, dest, size, cycles, memory)
            },
            Instruction::BcdAdd { dest, src1, src2 } => {
                self.exec_alu2(AluOp::BcdAdd, src1, src2, dest, size, cycles, memory)
            },
            Instruction::BcdSub { dest, src1, src2 } => {
                self.exec_alu2(AluOp::BcdSub, src1, src2, dest, size, cycles, memory)
            },
            Instruction::SoftwareInterrupt { vector } => {
                self.queue_interrupt(Interrupt::External(*vector));
                self.registers.pc = self.registers.pc.wrapping_add(size);
                Ok(cycles)
            },
            Instruction::ReturnFromInterrupt => {
                self.return_from_interrupt(memory)?;
                Ok(cycles)
            },
            Instruction::EnableInterrupts => {
                self.interrupts_enabled = true;
                self.registers.pc = self.registers.pc.wrapping_add(size);
                Ok(cycles)
            },
            Instruction::DisableInterrupts => {
                self.interrupts_enabled = false;
                self.registers.pc = self.registers.pc.wrapping_add(size);
                Ok(cycles)
            },
            Instruction::Unknown { opcode } => {
                Err(CpuError::Execution(ExecutionError::UnknownInstruction { opcode: *opcode }))
            },
            _ => Err(CpuError::Execution(ExecutionError::UnknownInstruction { opcode: 0 })),
        }
    }
}

} // verus!
