//! The register file: general registers, PC, SP, FP, control registers and
//! the processor status word.

use vstd::prelude::*;

verus! {

broadcast use vstd::array::group_array_axioms;

/// Processor Status Word: the condition and control flags of the CPU.
///
/// Each flag is held as its own field; `bits` and `from_bits_truncate`
/// translate to and from the packed 32-bit form used when the flags are
/// pushed on the stack during interrupt dispatch.
#[derive(Debug, Clone, Copy, PartialEq, Eq, Structural)]
pub struct ProcessorStatusWord {
    /// An operation produced an unsigned carry or borrow.
    pub carry: bool,
    /// An operation produced zero.
    pub zero: bool,
    /// An operation produced a negative result (bit 31 set).
    pub sign: bool,
    /// An operation overflowed in signed arithmetic.
    pub overflow: bool,
    /// The result had an even number of one bits.
    pub parity: bool,
    /// Interrupts are accepted.
    pub interrupt_enable: bool,
    /// Supervisor mode.
    pub supervisor: bool,
    /// Debug mode.
    pub debug: bool,
}

/// Condition codes tested by conditional branches.
#[derive(Debug, Clone, Copy, PartialEq, Eq, Structural)]
pub enum ConditionCode {
    Always,
    Never,
    Equal,
    NotEqual,
    Carry,
    NotCarry,
    Negative,
    Positive,
    Overflow,
    NotOverflow,
}

/// What `condition_met` returns for a given status word and condition.
pub open spec fn spec_condition_met(psw: ProcessorStatusWord, condition: ConditionCode) -> bool {
    match condition {
        ConditionCode::Always => true,
        ConditionCode::Never => false,
        ConditionCode::Equal => psw.zero,
        ConditionCode::NotEqual => !psw.zero,
        ConditionCode::Carry => psw.carry,
        ConditionCode::NotCarry => !psw.carry,
        ConditionCode::Negative => psw.sign,
        ConditionCode::Positive => !psw.sign,
        ConditionCode::Overflow => psw.overflow,
        ConditionCode::NotOverflow => !psw.overflow,
    }
}

/// The packed 32-bit form of a status word.
pub open spec fn spec_psw_bits(psw: ProcessorStatusWord) -> u32 {
    ((if psw.carry { 1u32 } else { 0u32 })
        + (if psw.zero { 2u32 } else { 0u32 })
        + (if psw.sign { 4u32 } else { 0u32 })
        + (if psw.overflow { 8u32 } else { 0u32 })
        + (if psw.parity { 16u32 } else { 0u32 })
        + (if psw.interrupt_enable { 256u32 } else { 0u32 })
        + (if psw.supervisor { 32768u32 } else { 0u32 })
        + (if psw.debug { 65536u32 } else { 0u32 })) as u32
}

/// The status word with every flag cleared.
pub open spec fn spec_psw_empty() -> ProcessorStatusWord {
    ProcessorStatusWord {
        carry: false,
        zero: false,
        sign: false,
        overflow: false,
        parity: false,
        interrupt_enable: false,
        supervisor: false,
        debug: false,
    }
}

/// The status word decoded from a packed 32-bit value; unknown bits are
/// dropped.
pub open spec fn spec_psw_from_bits(bits: u32) -> ProcessorStatusWord {
    ProcessorStatusWord {
        carry: bits & 1u32 != 0u32,
        zero: bits & 2u32 != 0u32,
        sign: bits & 4u32 != 0u32,
        overflow: bits & 8u32 != 0u32,
        parity: bits & 16u32 != 0u32,
        interrupt_enable: bits & 256u32 != 0u32,
        supervisor: bits & 32768u32 != 0u32,
        debug: bits & 65536u32 != 0u32,
    }
}

impl ProcessorStatusWord {
    /// Bit mask of the carry flag.
    pub const CARRY: u32 = 1;

    /// Bit mask of the zero flag.
    pub const ZERO: u32 = 2;

    /// Bit mask of the sign flag.
    pub const SIGN: u32 = 4;

    /// Bit mask of the overflow flag.
    pub const OVERFLOW: u32 = 8;

    /// Bit mask of the parity flag.
    pub const PARITY: u32 = 16;

    /// Bit mask of the interrupt-enable flag.
    pub const INTERRUPT_ENABLE: u32 = 256;

    /// Bit mask of the supervisor flag.
    pub const SUPERVISOR: u32 = 32768;

    /// Bit mask of the debug flag.
    pub const DEBUG: u32 = 65536;

    /// A status word with every flag cleared.
    pub fn empty() -> (r: ProcessorStatusWord)
        ensures
            r == spec_psw_empty(),
    {
        ProcessorStatusWord {
            carry: false,
            zero: false,
            sign: false,
            overflow: false,
            parity: false,
            interrupt_enable: false,
            supervisor: false,
            debug: false,
        }
    }

    /// The packed 32-bit form of the flags.
    pub fn bits(&self) -> (r: u32)
        ensures
            r == spec_psw_bits(*self),
    {
        let mut r: u32 = 0;
        if self.carry {
            r = r + 1;
        }
        if self.zero {
            r = r + 2;
        }
        if self.sign {
            r = r + 4;
        }
        if self.overflow {
            r = r + 8;
        }
        if self.parity {
            r = r + 16;
        }
        if self.interrupt_enable {
            r = r + 256;
        }
        if self.supervisor {
            r = r + 32768;
        }
        if self.debug {
            r = r + 65536;
        }
        r
    }

    /// Rebuilds a status word from its packed form, dropping unknown bits.
    pub fn from_bits_truncate(bits: u32) -> (r: ProcessorStatusWord)
        ensures
            r == spec_psw_from_bits(bits),
    {
        ProcessorStatusWord {
            carry: bits & 1 != 0,
            zero: bits & 2 != 0,
            sign: bits & 4 != 0,
            overflow: bits & 8 != 0,
            parity: bits & 16 != 0,
            interrupt_enable: bits & 256 != 0,
            supervisor: bits & 32768 != 0,
            debug: bits & 65536 != 0,
        }
    }

    /// True when every flag selected by `mask` is set.
    pub fn contains(&self, mask: u32) -> (r: bool)
        ensures
            r == ((spec_psw_bits(*self) & mask) == mask),
    {
        (self.bits() & mask) == mask
    }

    /// Sets every flag selected by `mask`.
    pub fn insert(&mut self, mask: u32)
        ensures
            final(self).carry == (old(self).carry || (mask & 1u32) != 0),
            final(self).zero == (old(self).zero || (mask & 2u32) != 0),
            final(self).sign == (old(self).sign || (mask & 4u32) != 0),
            final(self).overflow == (old(self).overflow || (mask & 8u32) != 0),
            final(self).parity == (old(self).parity || (mask & 16u32) != 0),
            final(self).interrupt_enable == (old(self).interrupt_enable || (mask & 256u32) != 0),
            final(self).supervisor == (old(self).supervisor || (mask & 32768u32) != 0),
            final(self).debug == (old(self).debug || (mask & 65536u32) != 0),
    {
        if mask & 1 != 0 {
            self.carry = true;
        }
        if mask & 2 != 0 {
            self.zero = true;
        }
        if mask & 4 != 0 {
            self.sign = true;
        }
        if mask & 8 != 0 {
            self.overflow = true;
        }
        if mask & 16 != 0 {
            self.parity = true;
        }
        if mask & 256 != 0 {
            self.interrupt_enable = true;
        }
        if mask & 32768 != 0 {
            self.supervisor = true;
        }
        if mask & 65536 != 0 {
            self.debug = true;
        }
    }

    /// Clears every flag selected by `mask`.
    #[verifier::rlimit(30)]
    pub fn remove(&mut self, mask: u32)
        ensures
            final(self).carry == (old(self).carry && (mask & 1u32) == 0),
            final(self).zero == (old(self).zero && (mask & 2u32) == 0),
            final(self).sign == (old(self).sign && (mask & 4u32) == 0),
            final(self).overflow == (old(self).overflow && (mask & 8u32) == 0),
            final(self).parity == (old(self).parity && (mask & 16u32) == 0),
            final(self).interrupt_enable == (old(self).interrupt_enable && (mask & 256u32) == 0),
            final(self).supervisor == (old(self).supervisor && (mask & 32768u32) == 0),
            final(self).debug == (old(self).debug && (mask & 65536u32) == 0),
    {
        if mask & 1 != 0 {
            self.carry = false;
        }
        if mask & 2 != 0 {
            self.zero = false;
        }
        if mask & 4 != 0 {
            self.sign = false;
        }
        if mask & 8 != 0 {
            self.overflow = false;
        }
        if mask & 16 != 0 {
            self.parity = false;
        }
        if mask & 256 != 0 {
            self.interrupt_enable = false;
        }
        if mask & 32768 != 0 {
            self.supervisor = false;
        }
        if mask & 65536 != 0 {
            self.debug = false;
        }
    }

    /// Sets or clears every flag selected by `mask` according to `value`.
    pub fn set(&mut self, mask: u32, value: bool)
        ensures
            final(self).carry == (if (mask & 1u32) != 0 { value } else { old(self).carry }),
            final(self).zero == (if (mask & 2u32) != 0 { value } else { old(self).zero }),
            final(self).sign == (if (mask & 4u32) != 0 { value } else { old(self).sign }),
            final(self).overflow == (if (mask & 8u32) != 0 { value } else { old(self).overflow }),
            final(self).parity == (if (mask & 16u32) != 0 { value } else { old(self).parity }),
            final(self).interrupt_enable == (if (mask & 256u32) != 0 {
                value
            } else {
                old(self).interrupt_enable
            }),
            final(self).supervisor == (if (mask & 32768u32) != 0 {
                value
            } else {
                old(self).supervisor
            }),
            final(self).debug == (if (mask & 65536u32) != 0 { value } else { old(self).debug }),
    {
        if value {
            self.insert(mask);
        } else {
            self.remove(mask);
        }
    }

    /// Replaces the four condition flags from a result and its carry and
    /// overflow indications; the other flags keep their values.
    pub fn update_flags(&mut self, result: u32, carry: bool, overflow: bool)
        ensures
            *final(self) == (ProcessorStatusWord {
                carry: carry,
                zero: result == 0,
                sign: result >= 0x8000_0000,
                overflow: overflow,
                ..*old(self)
            }),
    {
        self.carry = carry;
        self.zero = result == 0;
        self.sign = result >= 0x8000_0000;
        self.overflow = overflow;
    }

    /// Sets or clears the zero flag alone.
    pub fn set_zero_flag(&mut self, value: bool)
        ensures
            *final(self) == (ProcessorStatusWord { zero: value, ..*old(self) }),
    {
        self.zero = value;
    }

    /// Sets or clears the sign flag alone.
    pub fn set_negative_flag(&mut self, value: bool)
        ensures
            *final(self) == (ProcessorStatusWord { sign: value, ..*old(self) }),
    {
        self.sign = value;
    }

    /// Sets or clears the carry flag alone.
    pub fn set_carry_flag(&mut self, value: bool)
        ensures
            *final(self) == (ProcessorStatusWord { carry: value, ..*old(self) }),
    {
        self.carry = value;
    }

    /// Sets or clears the overflow flag alone.
    pub fn set_overflow_flag(&mut self, value: bool)
        ensures
            *final(self) == (ProcessorStatusWord { overflow: value, ..*old(self) }),
    {
        self.overflow = value;
    }

    /// Sets or clears the parity flag alone.
    pub fn set_parity_flag(&mut self, value: bool)
        ensures
            *final(self) == (ProcessorStatusWord { parity: value, ..*old(self) }),
    {
        self.parity = value;
    }

    /// Whether a branch condition holds under the current flags.
    pub fn condition_met(&self, condition: ConditionCode) -> (r: bool)
        ensures
            r == spec_condition_met(*self, condition),
    {
        match condition {
            ConditionCode::Always => true,
            ConditionCode::Never => false,
            ConditionCode::Equal => self.zero,
            ConditionCode::NotEqual => !self.zero,
            ConditionCode::Carry => self.carry,
            ConditionCode::NotCarry => !self.carry,
            ConditionCode::Negative => self.sign,
            ConditionCode::Positive => !self.sign,
            ConditionCode::Overflow => self.overflow,
            ConditionCode::NotOverflow => !self.overflow,
        }
    }
}

/// The full register file: 32 general registers, PC, SP, FP, the status
/// word and 16 control registers.
#[derive(Debug, Clone, Copy)]
pub struct V60Registers {
    /// General registers R0 to R31; R0 is an ordinary writable register.
    pub general: [u32; 32],
    /// Program counter: the byte address of the next instruction.
    pub pc: u32,
    /// Stack pointer.
    pub sp: u32,
    /// Frame pointer.
    pub fp: u32,
    /// The flags.
    pub psw: ProcessorStatusWord,
    /// System control registers.
    pub control: [u32; 16],
}

/// The documented state of the register file after construction or reset:
/// everything zero and every flag cleared.
pub open spec fn spec_registers_reset(r: V60Registers) -> bool {
    &&& forall|i: int| 0 <= i < 32 ==> r.general@[i] == 0
    &&& r.pc == 0
    &&& r.sp == 0
    &&& r.fp == 0
    &&& r.psw == spec_psw_empty()
    &&& forall|i: int| 0 <= i < 16 ==> r.control@[i] == 0
}

impl V60Registers {
    /// A fresh register file in the reset state.
    pub fn new() -> (r: V60Registers)
        ensures
            spec_registers_reset(r),
    {
        let general = [0u32; 32];
        let control = [0u32; 16];
        assert(forall|i: int| 0 <= i < 32 ==> general@[i] == 0u32);
        assert(forall|i: int| 0 <= i < 16 ==> control@[i] == 0u32);
        V60Registers {
            general,
            pc: 0,
            sp: 0,
            fp: 0,
            psw: ProcessorStatusWord::empty(),
            control,
        }
    }

    /// Puts every register back to its reset value.
    pub fn reset(&mut self)
        ensures
            spec_registers_reset(*final(self)),
    {
        self.general = [0u32; 32];
        self.pc = 0;
        self.sp = 0;
        self.fp = 0;
        self.psw = ProcessorStatusWord::empty();
        self.control = [0u32; 16];
    }

    /// Reads a general register; an index outside 0..32 reads as zero.
    pub fn read_general(&self, index: usize) -> (r: u32)
        ensures
            r == spec_read_general(*self, index as int),
    {
        if index < 32 {
            self.general[index]
        } else {
            0
        }
    }

    /// Writes a general register; an index outside 0..32 is ignored.
    pub fn write_general(&mut self, index: usize, value: u32)
        ensures
            *final(self) == spec_write_general(*old(self), index as int, value),
    {
        if index < 32 {
            self.general[index] = value;
        }
    }

    /// Reads a control register; an index outside 0..16 reads as zero.
    pub fn read_control(&self, index: usize) -> (r: u32)
        ensures
            r == (if index < 16 {
                self.control@[index as int]
            } else {
                0u32
            }),
    {
        if index < 16 {
            self.control[index]
        } else {
            0
        }
    }

    /// Writes a control register; an index outside 0..16 is ignored.
    pub fn write_control(&mut self, index: usize, value: u32)
        ensures
            index < 16 ==> *final(self) == (V60Registers {
                control: spec_array_update16(old(self).control, index as int, value),
                ..*old(self)
            }),
            index >= 16 ==> *final(self) == *old(self),
    {
        if index < 16 {
            self.control[index] = value;
        }
    }

    /// Reads a general register, under its conventional name.
    pub fn get_gpr(&self, index: usize) -> (r: u32)
        ensures
            r == spec_read_general(*self, index as int),
    {
        self.read_general(index)
    }

    /// Writes a general register, under its conventional name.
    pub fn set_gpr(&mut self, index: usize, value: u32)
        ensures
            *final(self) == spec_write_general(*old(self), index as int, value),
    {
        self.write_general(index, value);
    }

    /// The program counter.
    pub fn get_pc(&self) -> (r: u32)
        ensures
            r == self.pc,
    {
        self.pc
    }

    /// Sets the program counter.
    pub fn set_pc(&mut self, value: u32)
        ensures
            *final(self) == (V60Registers { pc: value, ..*old(self) }),
    {
        self.pc = value;
    }
}

impl Default for V60Registers {
    /// The reset state.
    fn default() -> (r: V60Registers)
        ensures
            spec_registers_reset(r),
    {
        V60Registers::new()
    }
}

/// What reading general register `index` yields: the register's value for
/// 0..32, zero outside.
pub open spec fn spec_read_general(r: V60Registers, index: int) -> u32 {
    if 0 <= index < 32 {
        r.general@[index]
    } else {
        0u32
    }
}

/// The register file after writing general register `index`; a write
/// outside 0..32 changes nothing.
pub open spec fn spec_write_general(r: V60Registers, index: int, value: u32) -> V60Registers {
    if 0 <= index < 32 {
        V60Registers { general: spec_array_update32(r.general, index, value), ..r }
    } else {
        r
    }
}

/// A 32-element array with one element replaced.
pub open spec fn spec_array_update32(a: [u32; 32], i: int, v: u32) -> [u32; 32] {
    vstd::array::spec_array_update(a, i, v)
}

/// A 16-element array with one element replaced.
pub open spec fn spec_array_update16(a: [u32; 16], i: int, v: u32) -> [u32; 16] {
    vstd::array::spec_array_update(a, i, v)
}

} // verus!
