//! The processor core: registers, instruction model, decoder, compute units
//! and the fetch-decode-execute machinery.

pub mod arithmetic;
pub mod bcd;
pub mod bit_manipulation;
pub mod decoder;
pub mod executor;
pub mod instruction_formats;
pub mod instructions;
pub mod logical;
pub mod registers;
pub mod string_operations;

pub use arithmetic::ArithmeticError;
pub use arithmetic::ArithmeticResult;
pub use arithmetic::ArithmeticUnit;
pub use bcd::BcdResult;
pub use bcd::BcdUnit;
pub use bit_manipulation::BitManipulationUnit;
pub use bit_manipulation::BitResult;
pub use decoder::decode_instruction;
pub use executor::CpuError;
pub use executor::ExecutionError;
pub use executor::ExecutionStats;
pub use instruction_formats::DecodeError;
pub use instruction_formats::InstructionFormat;
pub use instruction_formats::V60InstructionDecoder;
pub use instructions::DataSize;
pub use instructions::DecodedInstruction;
pub use instructions::Instruction;
pub use instructions::Operand;
pub use logical::LogicalUnit;
pub use registers::ConditionCode;
pub use registers::ProcessorStatusWord;
pub use registers::V60Registers;
pub use string_operations::StringError;
pub use string_operations::StringResult;
pub use string_operations::StringUnit;

use vstd::prelude::*;

use crate::cpu::executor::spec_rfi_rel;
use crate::cpu::executor::spec_stats_reset;
use crate::cpu::registers::spec_registers_reset;
use crate::memory::interface::MemoryInterface;

verus! {

/// An interrupt a peripheral can request service for.
#[derive(Debug, Clone, Copy, PartialEq, Eq, Structural)]
pub enum Interrupt {
    /// End of a video frame.
    VBlank,
    /// The main timer.
    TimerMain,
    /// The secondary timer.
    TimerSub,
    /// The graphics processor.
    Gpu,
    /// The audio processor.
    Audio,
    /// The input controller.
    Input,
    /// A numbered external source.
    External(u8),
}

/// The vector-table address holding the handler for an interrupt: a fixed
/// low address for the built-in kinds, and a separate table for external
/// sources.
pub open spec fn spec_vector_address(interrupt: Interrupt) -> u32 {
    match interrupt {
        Interrupt::VBlank => 0x0000_0040u32,
        Interrupt::TimerMain => 0x0000_0044u32,
        Interrupt::TimerSub => 0x0000_0048u32,
        Interrupt::Gpu => 0x0000_004Cu32,
        Interrupt::Audio => 0x0000_0050u32,
        Interrupt::Input => 0x0000_0054u32,
        Interrupt::External(vector) => (0x0000_0058 + vector as int * 4) as u32,
    }
}

impl Interrupt {
    /// The vector-table address holding this interrupt's handler.
    pub fn vector_address(self) -> (r: u32)
        ensures
            r == spec_vector_address(self),
    {
        match self {
            Interrupt::VBlank => 0x0000_0040,
            Interrupt::TimerMain => 0x0000_0044,
            Interrupt::TimerSub => 0x0000_0048,
            Interrupt::Gpu => 0x0000_004C,
            Interrupt::Audio => 0x0000_0050,
            Interrupt::Input => 0x0000_0054,
            Interrupt::External(vector) => 0x0000_0058 + (vector as u32) * 4,
        }
    }
}

/// The pending-interrupt queue after a request for `k`: appended at the
/// back, unless an entry of the same kind is already pending.
pub open spec fn spec_queue(q: Seq<Interrupt>, k: Interrupt) -> Seq<Interrupt> {
    if q.contains(k) {
        q
    } else {
        q.push(k)
    }
}

/// Requesting the same interrupt kind twice before it is processed leaves
/// exactly one pending entry of that kind: the queue no longer changes,
/// and a kind that was absent before is pending exactly once.
pub proof fn lemma_queue_interrupt_idempotent(q: Seq<Interrupt>, k: Interrupt)
    ensures
        spec_queue(spec_queue(q, k), k) == spec_queue(q, k),
        !q.contains(k) ==> spec_queue(spec_queue(q, k), k).to_multiset().count(k) == 1,
{
    broadcast use vstd::seq_lib::group_to_multiset_ensures;

    if !q.contains(k) {
        assert(spec_queue(q, k) == q.push(k));
        assert(q.push(k)[q.len() as int] == k);
        assert(q.push(k).contains(k));
        assert(q.push(k).to_multiset() =~= q.to_multiset().insert(k));
        assert(q.to_multiset().count(k) == 0);
    }
}

/// The processor: registers, decoder, cycle counter, statistics, halt
/// state and the pending-interrupt queue.
#[derive(Debug)]
pub struct NecV60 {
    /// The register file.
    pub registers: V60Registers,
    /// The instruction decoder with its cache.
    pub decoder: V60InstructionDecoder,
    /// Cycles executed since the last reset.
    pub cycle_count: u64,
    /// Execution statistics; diagnostic only.
    pub stats: ExecutionStats,
    /// Whether a halt instruction has stopped the processor.
    pub halted: bool,
    /// Whether pending interrupts are accepted.
    pub interrupts_enabled: bool,
    /// Interrupts waiting to be dispatched, in arrival order, one entry
    /// per kind.
    pub pending_interrupts: Vec<Interrupt>,
}

/// The documented state of a freshly constructed or reset processor.
pub open spec fn spec_cpu_reset(cpu: NecV60) -> bool {
    &&& spec_registers_reset(cpu.registers)
    &&& cpu.decoder.spec_cache() == Map::<u32, DecodedInstruction>::empty()
    &&& cpu.cycle_count == 0
    &&& cpu.stats == spec_stats_reset()
    &&& !cpu.halted
    &&& cpu.interrupts_enabled
    &&& cpu.pending_interrupts@ == Seq::<Interrupt>::empty()
}

impl NecV60 {
    /// A processor in the reset state: registers and counters zero, flags
    /// cleared, decode cache empty, running, interrupts enabled, nothing
    /// pending.
    pub fn new() -> (r: NecV60)
        ensures
            spec_cpu_reset(r),
    {
        NecV60 {
            registers: V60Registers::new(),
            decoder: V60InstructionDecoder::new(),
            cycle_count: 0,
            stats: ExecutionStats::new(),
            halted: false,
            interrupts_enabled: true,
            pending_interrupts: Vec::new(),
        }
    }

    /// Puts the processor back into the reset state.
    pub fn reset(&mut self)
        ensures
            spec_cpu_reset(*final(self)),
    {
        self.registers.reset();
        self.decoder.clear_cache();
        self.cycle_count = 0;
        self.stats.reset();
        self.halted = false;
        self.interrupts_enabled = true;
        self.pending_interrupts.clear();
    }

    /// A read-only snapshot of the processor for debugging.
    pub fn get_debug_state(&self) -> (r: CpuDebugState)
        ensures
            r.registers == self.registers,
            r.cycle_count == self.cycle_count,
            r.halted == self.halted,
    {
        CpuDebugState {
            registers: self.registers.clone(),
            cycle_count: self.cycle_count,
            halted: self.halted,
        }
    }

    /// Requests service for an interrupt.  A kind already pending is not
    /// queued again; everything else about the processor is untouched.
    pub fn queue_interrupt(&mut self, interrupt: Interrupt)
        ensures
            final(self).pending_interrupts@ == spec_queue(
                old(self).pending_interrupts@,
                interrupt,
            ),
            final(self).registers == old(self).registers,
            final(self).decoder == old(self).decoder,
            final(self).cycle_count == old(self).cycle_count,
            final(self).stats == old(self).stats,
            final(self).halted == old(self).halted,
            final(self).interrupts_enabled == old(self).interrupts_enabled,
    {
        let n = self.pending_interrupts.len();
        let mut k: usize = 0;
        while k < n
            invariant
                n == self.pending_interrupts@.len(),
                k <= n,
                *self == *old(self),
                forall|j: int| 0 <= j < k ==> self.pending_interrupts@[j] != interrupt,
            decreases n - k,
        {
            if self.pending_interrupts[k] == interrupt {
                proof {
                    assert(self.pending_interrupts@.contains(interrupt));
                }
                return ;
            }
            k = k + 1;
        }
        proof {
            assert(!self.pending_interrupts@.contains(interrupt));
        }
        self.pending_interrupts.push(interrupt);
    }
}

impl NecV60 {
    /// Pops the flags and then the program counter from the stack,
    /// moving the stack pointer up by four after each pop, and re-enables
    /// interrupts unconditionally.  A failed pop stops there and is
    /// propagated.
    pub fn return_from_interrupt<M: MemoryInterface>(&mut self, memory: &mut M) -> (r: Result<
        (),
        CpuError,
    >)
        ensures
            spec_rfi_rel(*old(self), *old(memory), *final(self), *final(memory), r),
            final(self).cycle_count == old(self).cycle_count,
            final(self).decoder == old(self).decoder,
    {
        let flags = match memory.read_u32(self.registers.sp) {
            Ok(v) => v,
            Err(e) => {
                return Err(CpuError::Memory(e));
            },
        };
        self.registers.sp = self.registers.sp.wrapping_add(4);
        self.registers.psw = ProcessorStatusWord::from_bits_truncate(flags);
        let pc = match memory.read_u32(self.registers.sp) {
            Ok(v) => v,
            Err(e) => {
                return Err(CpuError::Memory(e));
            },
        };
        self.registers.sp = self.registers.sp.wrapping_add(4);
        self.registers.pc = pc;
        self.interrupts_enabled = true;
        Ok(())
    }
}


/// Dispatching one interrupt: acceptance is turned off, the program
/// counter and then the packed flags are pushed (the stack pointer
/// dropping by four before each push), the handler address is read from
/// the interrupt's vector, the program counter jumps there, and
/// acceptance is restored to what it was.  A failed push or vector read
/// stops there, leaving acceptance off.
pub open spec fn spec_dispatch_rel<M: MemoryInterface>(
    cpu: NecV60,
    m: M,
    interrupt: Interrupt,
    post: NecV60,
    post_m: M,
    rr: Result<(), CpuError>,
) -> bool {
    let were = cpu.interrupts_enabled;
    let sp1 = vstd::wrapping::u32_specs::wrapping_sub(cpu.registers.sp, 4);
    let sp2 = vstd::wrapping::u32_specs::wrapping_sub(sp1, 4);
    if !m.write_ok(sp1, 4) {
        &&& post == (NecV60 {
            registers: V60Registers { sp: sp1, ..cpu.registers },
            interrupts_enabled: false,
            ..cpu
        })
        &&& crate::cpu::executor::spec_mem_same_shape(m, post_m)
        &&& post_m.mem() == m.mem()
        &&& crate::cpu::executor::spec_is_mem_err(rr)
    } else {
        let m1 = crate::memory::interface::spec_store32(m.mem(), sp1 as int, cpu.registers.pc);
        if !m.write_ok(sp2, 4) {
            &&& post == (NecV60 {
                registers: V60Registers { sp: sp2, ..cpu.registers },
                interrupts_enabled: false,
                ..cpu
            })
            &&& crate::cpu::executor::spec_mem_same_shape(m, post_m)
            &&& post_m.mem() == m1
            &&& crate::cpu::executor::spec_is_mem_err(rr)
        } else {
            let m2 = crate::memory::interface::spec_store32(
                m1,
                sp2 as int,
                crate::cpu::registers::spec_psw_bits(cpu.registers.psw),
            );
            let vec = spec_vector_address(interrupt);
            if !m.read_ok(vec, 4) {
                &&& post == (NecV60 {
                    registers: V60Registers { sp: sp2, ..cpu.registers },
                    interrupts_enabled: false,
                    ..cpu
                })
                &&& crate::cpu::executor::spec_mem_same_shape(m, post_m)
                &&& post_m.mem() == m2
                &&& crate::cpu::executor::spec_is_mem_err(rr)
            } else {
                &&& post == (NecV60 {
                    registers: V60Registers {
                        sp: sp2,
                        pc: crate::memory::interface::spec_le32(m2, vec as int),
                        ..cpu.registers
                    },
                    interrupts_enabled: were,
                    ..cpu
                })
                &&& crate::cpu::executor::spec_mem_same_shape(m, post_m)
                &&& post_m.mem() == m2
                &&& rr is Ok
            }
        }
    }
}

/// Dispatching the first pending interrupt and, on success, removing it
/// from the queue.
pub open spec fn spec_dispatch_first_rel<M: MemoryInterface>(
    cpu: NecV60,
    m: M,
    post: NecV60,
    post_m: M,
    rr: Result<(), CpuError>,
) -> bool {
    let k = cpu.pending_interrupts@[0];
    match rr {
        Err(_) => spec_dispatch_rel(cpu, m, k, post, post_m, rr),
        Ok(_) => {
            let sp1 = vstd::wrapping::u32_specs::wrapping_sub(cpu.registers.sp, 4);
            let sp2 = vstd::wrapping::u32_specs::wrapping_sub(sp1, 4);
            let m1 = crate::memory::interface::spec_store32(
                m.mem(),
                sp1 as int,
                cpu.registers.pc,
            );
            let m2 = crate::memory::interface::spec_store32(
                m1,
                sp2 as int,
                crate::cpu::registers::spec_psw_bits(cpu.registers.psw),
            );
            let vec = spec_vector_address(k);
            &&& m.write_ok(sp1, 4)
            &&& m.write_ok(sp2, 4)
            &&& m.read_ok(vec, 4)
            &&& crate::cpu::executor::spec_fields_eq_except_pending(
                NecV60 {
                    registers: V60Registers {
                        sp: sp2,
                        pc: crate::memory::interface::spec_le32(m2, vec as int),
                        ..cpu.registers
                    },
                    ..cpu
                },
                post,
            )
            &&& post.pending_interrupts@ == cpu.pending_interrupts@.drop_first()
            &&& crate::cpu::executor::spec_mem_same_shape(m, post_m)
            &&& post_m.mem() == m2
        },
    }
}

/// The two processors agree on every field but the decoder.
pub open spec fn spec_fields_eq_except_decoder(a: NecV60, b: NecV60) -> bool {
    &&& a.registers == b.registers
    &&& a.cycle_count == b.cycle_count
    &&& a.stats == b.stats
    &&& a.halted == b.halted
    &&& a.interrupts_enabled == b.interrupts_enabled
    &&& a.pending_interrupts == b.pending_interrupts
}

/// Fetches the eight bytes an instruction may occupy, starting at `pc`
/// with wrap-around addressing; fails with the memory's error at the
/// first byte that cannot be read.
fn fetch_bytes<M: MemoryInterface>(memory: &M, pc: u32) -> (r: Result<Vec<u8>, CpuError>)
    ensures
        (match r {
            Ok(data) => data@.len() == 8 && forall|j: int|
                0 <= j < 8 ==> (#[trigger] memory.read_ok(
                    vstd::wrapping::u32_specs::wrapping_add(pc, j as u32),
                    1,
                )) && data@[j] == memory.mem()[vstd::wrapping::u32_specs::wrapping_add(
                    pc,
                    j as u32,
                ) as int],
            Err(e) => e is Memory && exists|j: int|
                0 <= j < 8 && !(#[trigger] memory.read_ok(
                    vstd::wrapping::u32_specs::wrapping_add(pc, j as u32),
                    1,
                )),
        }),
{
    let mut data: Vec<u8> = Vec::new();
    let mut i: u32 = 0;
    while i < 8
        invariant
            i <= 8,
            data@.len() == i,
            forall|j: int|
                0 <= j < i ==> (#[trigger] memory.read_ok(
                    vstd::wrapping::u32_specs::wrapping_add(pc, j as u32),
                    1,
                )) && data@[j] == memory.mem()[vstd::wrapping::u32_specs::wrapping_add(
                    pc,
                    j as u32,
                ) as int],
        decreases 8 - i,
    {
        match memory.read_u8(pc.wrapping_add(i)) {
            Ok(b) => {
                data.push(b);
            },
            Err(e) => {
                proof {
                    assert(!memory.read_ok(
                        vstd::wrapping::u32_specs::wrapping_add(pc, (i as int) as u32),
                        1,
                    ));
                }
                return Err(CpuError::Memory(e));
            },
        }
        proof {
            assert(data@[i as int] == memory.mem()[vstd::wrapping::u32_specs::wrapping_add(
                pc,
                (i as int) as u32,
            ) as int]);
        }
        i = i + 1;
    }
    Ok(data)
}

impl NecV60 {
    /// Dispatches one interrupt: pushes the program counter and the
    /// flags, reads the handler from the vector table and jumps to it.
    fn handle_interrupt<M: MemoryInterface>(&mut self, interrupt: Interrupt, memory: &mut M) -> (r:
        Result<(), CpuError>)
        ensures
            spec_dispatch_rel(
                *old(self),
                *old(memory),
                interrupt,
                *final(self),
                *final(memory),
                r,
            ),
    {
        let interrupts_were_enabled = self.interrupts_enabled;
        self.interrupts_enabled = false;
        let pc = self.registers.pc;
        let flags = self.registers.psw.bits();
        self.registers.sp = self.registers.sp.wrapping_sub(4);
        match memory.write_u32(self.registers.sp, pc) {
            Ok(_) => {},
            Err(e) => {
                return Err(CpuError::Memory(e));
            },
        }
        self.registers.sp = self.registers.sp.wrapping_sub(4);
        match memory.write_u32(self.registers.sp, flags) {
            Ok(_) => {},
            Err(e) => {
                return Err(CpuError::Memory(e));
            },
        }
        let handler_address = interrupt.vector_address();
        let handler = match memory.read_u32(handler_address) {
            Ok(v) => v,
            Err(e) => {
                return Err(CpuError::Memory(e));
            },
        };
        self.registers.pc = handler;
        if interrupts_were_enabled {
            self.interrupts_enabled = true;
        }
        Ok(())
    }

    /// Dispatches the first pending interrupt, if interrupts are accepted
    /// and one is pending; returns whether one was dispatched.  The
    /// dispatched entry leaves the queue only when its dispatch
    /// succeeded.
    pub fn process_interrupts<M: MemoryInterface>(&mut self, memory: &mut M) -> (r: Result<
        bool,
        CpuError,
    >)
        ensures
            (!old(self).interrupts_enabled || old(self).pending_interrupts@.len() == 0) ==> r
                == Ok::<bool, CpuError>(false) && *final(self) == *old(self) && *final(memory)
                == *old(memory),
            (old(self).interrupts_enabled && old(self).pending_interrupts@.len() > 0) ==> (match r {
                Ok(b) => b == true && spec_dispatch_first_rel(
                    *old(self),
                    *old(memory),
                    *final(self),
                    *final(memory),
                    Ok(()),
                ),
                Err(e) => spec_dispatch_first_rel(
                    *old(self),
                    *old(memory),
                    *final(self),
                    *final(memory),
                    Err(e),
                ),
            }),
    {
        if !self.interrupts_enabled || self.pending_interrupts.len() == 0 {
            return Ok(false);
        }
        let interrupt = self.pending_interrupts[0];
        match self.handle_interrupt(interrupt, memory) {
            Ok(_) => {},
            Err(e) => {
                return Err(e);
            },
        }
        self.pending_interrupts.remove(0);
        Ok(true)
    }

    /// Runs the processor for one step.
    ///
    /// A halted processor consumes one cycle and does nothing.  When
    /// interrupts are accepted and one is pending, that interrupt is
    /// dispatched for a fixed ten cycles and no instruction is fetched.
    /// Otherwise eight bytes are fetched at the program counter, decoded
    /// (through the decode cache) and executed, and the instruction's
    /// cycle cost is charged to the cycle counter and returned.
    /// Fetches, decodes (through the cache) and executes one instruction
    /// at the current program counter, charging its cycle cost.
    #[verifier::rlimit(100)]
    fn fetch_decode_execute<M: MemoryInterface>(&mut self, memory: &mut M) -> (r: Result<
        u32,
        CpuError,
    >)
        requires
            old(self).decoder.wf(),
        ensures
            final(self).decoder.wf(),
            (match r {
                Ok(c) => c >= 1,
                Err(_) => true,
            }),
            ({
                let pc = old(self).registers.pc;
                let m = *old(memory);
                if exists|i: int|
                    0 <= i < 8 && !(#[trigger] m.read_ok(
                        vstd::wrapping::u32_specs::wrapping_add(pc, i as u32),
                        1,
                    )) {
                    &&& crate::cpu::executor::spec_is_mem_err(r)
                    &&& *final(self) == *old(self)
                    &&& *final(memory) == *old(memory)
                } else {
                    let data = Seq::new(
                        8,
                        |i: int|
                            m.mem()[vstd::wrapping::u32_specs::wrapping_add(pc, i as u32) as int],
                    );
                    let dr = (if old(self).decoder.spec_cache().contains_key(pc) {
                        Ok::<DecodedInstruction, DecodeError>(old(self).decoder.spec_cache()[pc])
                    } else {
                        crate::cpu::instruction_formats::spec_decode(data, pc)
                    });
                    match dr {
                        Err(e) => r == Err::<u32, CpuError>(CpuError::Decode(e)) && *final(self)
                            == *old(self) && *final(memory) == *old(memory),
                        Ok(di) => exists|mid: NecV60|
                            {
                                &&& #[trigger] spec_fields_eq_except_decoder(mid, *old(self))
                                &&& mid.decoder.spec_cache() == (if old(
                                    self,
                                ).decoder.spec_cache().contains_key(pc) {
                                    old(self).decoder.spec_cache()
                                } else {
                                    old(self).decoder.spec_cache().insert(pc, di)
                                })
                                &&& crate::cpu::executor::spec_execute_rel(
                                    mid,
                                    m,
                                    di,
                                    NecV60 {
                                        cycle_count: old(self).cycle_count,
                                        ..*final(self)
                                    },
                                    *final(memory),
                                    r,
                                )
                                &&& (match r {
                                    Ok(c) => final(self).cycle_count
                                        == vstd::wrapping::u64_specs::wrapping_add(
                                        old(self).cycle_count,
                                        c as u64,
                                    ),
                                    Err(_) => final(self).cycle_count == old(self).cycle_count,
                                })
                            },
                    }
                }
            }),
    {
        let pc = self.registers.pc;
        let instruction_data = match fetch_bytes(memory, pc) {
            Ok(data) => data,
            Err(e) => {
                return Err(e);
            },
        };
        proof {
            assert forall|j: int| 0 <= j < 8 implies instruction_data@[j] == old(
                memory,
            ).mem()[vstd::wrapping::u32_specs::wrapping_add(
                old(self).registers.pc,
                j as u32,
            ) as int] by {
                assert(memory.read_ok(
                    vstd::wrapping::u32_specs::wrapping_add(old(self).registers.pc, j as u32),
                    1,
                ));
            }
            assert(instruction_data@ =~= Seq::new(
                8,
                |j: int|
                    old(memory).mem()[vstd::wrapping::u32_specs::wrapping_add(
                        old(self).registers.pc,
                        j as u32,
                    ) as int],
            ));
        }
        let decoded = match self.decoder.decode(instruction_data.as_slice(), pc) {
            Ok(d) => d,
            Err(e) => {
                return Err(CpuError::Decode(e));
            },
        };
        let ghost mid = *self;
        proof {
            crate::cpu::instructions::lemma_cycles_at_least_one(decoded.instruction);
            assert(spec_fields_eq_except_decoder(mid, *old(self)));
        }
        let ghost mem_mid = *memory;
        let result = self.execute_instruction(&decoded, memory);
        proof {
            crate::cpu::executor::lemma_execute_rel_frame(mid, mem_mid, decoded, *self, *memory, result);
        }
        let cycles = match result {
            Ok(c) => c,
            Err(e) => {
                return Err(e);
            },
        };
        self.cycle_count = self.cycle_count.wrapping_add(cycles as u64);
        Ok(cycles)
    }

    #[verifier::rlimit(100)]
    pub fn step<M: MemoryInterface>(&mut self, memory: &mut M) -> (r: Result<u32, CpuError>)
        requires
            old(self).decoder.wf(),
        ensures
            final(self).decoder.wf(),
            (match r {
                Ok(c) => c >= 1,
                Err(_) => true,
            }),
            old(self).halted ==> r == Ok::<u32, CpuError>(1) && *final(self) == *old(self)
                && *final(memory) == *old(memory),
            (!old(self).halted && old(self).interrupts_enabled
                && old(self).pending_interrupts@.len() > 0) ==> (match r {
                Ok(c) => c == 10 && spec_dispatch_first_rel(
                    *old(self),
                    *old(memory),
                    *final(self),
                    *final(memory),
                    Ok(()),
                ),
                Err(e) => spec_dispatch_first_rel(
                    *old(self),
                    *old(memory),
                    *final(self),
                    *final(memory),
                    Err(e),
                ),
            }),
            (!old(self).halted && !(old(self).interrupts_enabled
                && old(self).pending_interrupts@.len() > 0)) ==> ({
                let pc = old(self).registers.pc;
                let m = *old(memory);
                if exists|i: int|
                    0 <= i < 8 && !(#[trigger] m.read_ok(
                        vstd::wrapping::u32_specs::wrapping_add(pc, i as u32),
                        1,
                    )) {
                    &&& crate::cpu::executor::spec_is_mem_err(r)
                    &&& *final(self) == *old(self)
                    &&& *final(memory) == *old(memory)
                } else {
                    let data = Seq::new(
                        8,
                        |i: int|
                            m.mem()[vstd::wrapping::u32_specs::wrapping_add(pc, i as u32) as int],
                    );
                    let dr = (if old(self).decoder.spec_cache().contains_key(pc) {
                        Ok::<DecodedInstruction, DecodeError>(old(self).decoder.spec_cache()[pc])
                    } else {
                        crate::cpu::instruction_formats::spec_decode(data, pc)
                    });
                    match dr {
                        Err(e) => r == Err::<u32, CpuError>(CpuError::Decode(e)) && *final(self)
                            == *old(self) && *final(memory) == *old(memory),
                        Ok(di) => exists|mid: NecV60|
                            {
                                &&& #[trigger] spec_fields_eq_except_decoder(mid, *old(self))
                                &&& mid.decoder.spec_cache() == (if old(
                                    self,
                                ).decoder.spec_cache().contains_key(pc) {
                                    old(self).decoder.spec_cache()
                                } else {
                                    old(self).decoder.spec_cache().insert(pc, di)
                                })
                                &&& crate::cpu::executor::spec_execute_rel(
                                    mid,
                                    m,
                                    di,
                                    NecV60 {
                                        cycle_count: old(self).cycle_count,
                                        ..*final(self)
                                    },
                                    *final(memory),
                                    r,
                                )
                                &&& (match r {
                                    Ok(c) => final(self).cycle_count
                                        == vstd::wrapping::u64_specs::wrapping_add(
                                        old(self).cycle_count,
                                        c as u64,
                                    ),
                                    Err(_) => final(self).cycle_count == old(self).cycle_count,
                                })
                            },
                    }
                }
            }),
    {
        if self.halted {
            return Ok(1);
        }
        match self.process_interrupts(memory) {
            Ok(true) => {
                return Ok(10);
            },
            Ok(false) => {},
            Err(e) => {
                return Err(e);
            },
        }
        self.fetch_decode_execute(memory)
    }

    /// Runs steps until at least `cycles` cycles have accumulated or the
    /// processor halts, and returns the cycles actually consumed; the
    /// total may overshoot the target, since whole instructions are
    /// charged, and saturates at the largest 32-bit value.  The first
    /// step that fails stops the run with its error.
    pub fn run_cycles<M: MemoryInterface>(&mut self, cycles: u32, memory: &mut M) -> (r: Result<
        u32,
        CpuError,
    >)
        requires
            old(self).decoder.wf(),
        ensures
            final(self).decoder.wf(),
            (match r {
                Ok(executed) => executed >= cycles || final(self).halted,
                Err(_) => true,
            }),
            old(self).halted ==> r == Ok::<u32, CpuError>(0) && *final(self) == *old(self)
                && *final(memory) == *old(memory),
            cycles == 0 ==> r == Ok::<u32, CpuError>(0) && *final(self) == *old(self)
                && *final(memory) == *old(memory),
    {
        let mut executed: u32 = 0;
        let mut remaining = cycles;
        while remaining > 0 && !self.halted
            invariant
                self.decoder.wf(),
                remaining <= cycles,
                executed >= cycles - remaining,
                old(self).halted ==> remaining == cycles,
                remaining == cycles ==> (*self == *old(self) && *memory == *old(memory) && executed
                    == 0),
            decreases remaining,
        {
            let c = match self.step(memory) {
                Ok(c) => c,
                Err(e) => {
                    return Err(e);
                },
            };
            if c > u32::MAX - executed {
                executed = u32::MAX;
            } else {
                executed = executed + c;
            }
            if c >= remaining {
                remaining = 0;
            } else {
                remaining = remaining - c;
            }
        }
        Ok(executed)
    }
}

/// A read-only snapshot of the processor: the registers, the cycle count
/// and the halt state.
#[derive(Debug, Clone)]
pub struct CpuDebugState {
    /// The register file at the time of the snapshot.
    pub registers: V60Registers,
    /// Cycles executed since the last reset.
    pub cycle_count: u64,
    /// Whether the processor was halted.
    pub halted: bool,
}

} // verus!
