//! The bit-manipulation unit: single-bit tests and edits, bit scans and
//! plain rotations.
//!
//! A bit index of 32 or more leaves the value unchanged and reports
//! `bit_found == false`; a scan that finds no bit reports 32 as the
//! position.

use vstd::prelude::*;

use crate::cpu::logical::highest_set_bit_index;
use crate::cpu::logical::lowest_set_bit_index;
use crate::cpu::logical::spec_highest_set_bit;
use crate::cpu::logical::spec_lowest_set_bit;
use crate::cpu::logical::spec_rotl32;
use crate::cpu::logical::spec_rotr32;
use crate::cpu::registers::ProcessorStatusWord;

verus! {

/// The outcome of a bit operation.
#[derive(Debug, Clone, Copy, PartialEq, Eq, Structural)]
pub struct BitResult {
    /// The resulting value, or the found position for scans.
    pub value: u32,
    /// Whether the addressed or searched bit was found set.
    pub bit_found: bool,
    /// The position that was addressed or found, when there is one.
    pub bit_position: Option<u8>,
}

impl BitResult {
    /// Reports the outcome in the status word: zero when no bit was
    /// found, carry when one was; the other flags keep their values.
    pub fn update_psw(&self, psw: &mut ProcessorStatusWord)
        ensures
            *final(psw) == (ProcessorStatusWord {
                zero: !self.bit_found,
                carry: self.bit_found,
                ..*old(psw)
            }),
    {
        psw.set_zero_flag(!self.bit_found);
        psw.set_carry_flag(self.bit_found);
    }
}

/// The full outcome of testing one bit.
pub open spec fn spec_test_bit_result(value: u32, bit_position: u32) -> BitResult {
    if bit_position >= 32 {
        BitResult { value: 0u32, bit_found: false, bit_position: None }
    } else {
        BitResult {
            value: if value & (1u32 << bit_position) != 0 {
                1u32
            } else {
                0u32
            },
            bit_found: value & (1u32 << bit_position) != 0,
            bit_position: Some(bit_position as u8),
        }
    }
}

/// The full outcome of setting one bit.
pub open spec fn spec_set_bit_result(value: u32, bit_position: u32) -> BitResult {
    if bit_position >= 32 {
        BitResult { value, bit_found: false, bit_position: None }
    } else {
        BitResult {
            value: value | (1u32 << bit_position),
            bit_found: value & (1u32 << bit_position) != 0,
            bit_position: Some(bit_position as u8),
        }
    }
}

/// The full outcome of clearing one bit.
pub open spec fn spec_clear_bit_result(value: u32, bit_position: u32) -> BitResult {
    if bit_position >= 32 {
        BitResult { value, bit_found: false, bit_position: None }
    } else {
        BitResult {
            value: value & !(1u32 << bit_position),
            bit_found: value & (1u32 << bit_position) != 0,
            bit_position: Some(bit_position as u8),
        }
    }
}

/// The full outcome of scanning for the lowest one bit.
pub open spec fn spec_scan_forward_result(value: u32) -> BitResult {
    if value == 0 {
        BitResult { value: 32u32, bit_found: false, bit_position: None }
    } else {
        BitResult {
            value: spec_lowest_set_bit(value as int) as u32,
            bit_found: true,
            bit_position: Some(spec_lowest_set_bit(value as int) as u8),
        }
    }
}

/// The bit-manipulation unit.
#[derive(Debug)]
pub struct BitManipulationUnit;

impl BitManipulationUnit {
    /// Tests one bit: the value is 1 or 0 as the bit is set or clear.
    pub fn test_bit(value: u32, bit_position: u32) -> (r: BitResult)
        ensures
            r == spec_test_bit_result(value, bit_position),
    {
        if bit_position >= 32 {
            return BitResult { value: 0, bit_found: false, bit_position: None };
        }
        let bit_set = (value & (1u32 << bit_position)) != 0;
        BitResult {
            value: if bit_set {
                1
            } else {
                0
            },
            bit_found: bit_set,
            bit_position: Some(bit_position as u8),
        }
    }

    /// Sets one bit; `bit_found` reports whether it was already set.
    pub fn set_bit(value: u32, bit_position: u32) -> (r: BitResult)
        ensures
            r == spec_set_bit_result(value, bit_position),
    {
        if bit_position >= 32 {
            return BitResult { value, bit_found: false, bit_position: None };
        }
        let new_value = value | (1u32 << bit_position);
        let was_set = (value & (1u32 << bit_position)) != 0;
        BitResult { value: new_value, bit_found: was_set, bit_position: Some(bit_position as u8) }
    }

    /// Clears one bit; `bit_found` reports whether it was set before.
    pub fn clear_bit(value: u32, bit_position: u32) -> (r: BitResult)
        ensures
            r == spec_clear_bit_result(value, bit_position),
    {
        if bit_position >= 32 {
            return BitResult { value, bit_found: false, bit_position: None };
        }
        let new_value = value & !(1u32 << bit_position);
        let was_set = (value & (1u32 << bit_position)) != 0;
        BitResult { value: new_value, bit_found: was_set, bit_position: Some(bit_position as u8) }
    }

    /// Finds the lowest one bit; reports 32 and no position when the
    /// value is zero.
    pub fn scan_forward(value: u32) -> (r: BitResult)
        ensures
            r == spec_scan_forward_result(value),
    {
        if value == 0 {
            return BitResult { value: 32, bit_found: false, bit_position: None };
        }
        let position = lowest_set_bit_index(value);
        BitResult { value: position, bit_found: true, bit_position: Some(position as u8) }
    }

    /// Finds the lowest zero bit; reports 32 and no position when every
    /// bit is one.
    pub fn scan_reverse(value: u32) -> (r: BitResult)
        ensures
            value == 0xFFFF_FFFF ==> r == (BitResult {
                value: 32u32,
                bit_found: false,
                bit_position: None::<u8>,
            }),
            value != 0xFFFF_FFFF ==> r == (BitResult {
                value: spec_lowest_set_bit((!value) as int) as u32,
                bit_found: true,
                bit_position: Some(spec_lowest_set_bit((!value) as int) as u8),
            }),
    {
        if value == 0xFFFF_FFFF {
            return BitResult { value: 32, bit_found: false, bit_position: None };
        }
        let inverted = !value;
        proof {
            assert(value != 0xFFFF_FFFFu32 ==> !value != 0u32) by (bit_vector);
        }
        let position = lowest_set_bit_index(inverted);
        BitResult { value: position, bit_found: true, bit_position: Some(position as u8) }
    }

    /// Rotates left by `count % 32` bits.
    pub fn rotate_left(value: u32, count: u32) -> (r: u32)
        ensures
            r == spec_rotl32(value, count),
    {
        let count = count % 32;
        if count == 0 {
            value
        } else {
            (value << count) | (value >> (32 - count))
        }
    }

    /// Rotates right by `count % 32` bits.
    pub fn rotate_right(value: u32, count: u32) -> (r: u32)
        ensures
            r == spec_rotr32(value, count),
    {
        let count = count % 32;
        if count == 0 {
            value
        } else {
            (value >> count) | (value << (32 - count))
        }
    }

    /// The number of one bits.
    pub fn popcount(value: u32) -> (r: u32)
        ensures
            r == crate::cpu::arithmetic::spec_pop_bits(value as int),
    {
        crate::cpu::arithmetic::count_set_bits(value)
    }

    /// Finds the highest one bit; reports 32 and no position when the
    /// value is zero.
    pub fn find_msb(value: u32) -> (r: BitResult)
        ensures
            value == 0 ==> r == (BitResult {
                value: 32u32,
                bit_found: false,
                bit_position: None::<u8>,
            }),
            value != 0 ==> r == (BitResult {
                value: spec_highest_set_bit(value as int) as u32,
                bit_found: true,
                bit_position: Some(spec_highest_set_bit(value as int) as u8),
            }),
    {
        if value == 0 {
            return BitResult { value: 32, bit_found: false, bit_position: None };
        }
        let position = highest_set_bit_index(value);
        BitResult { value: position, bit_found: true, bit_position: Some(position as u8) }
    }
}

/// Rotating right and then left by the same amount, both reduced modulo
/// 32, restores the original value.
pub proof fn lemma_rotate_round_trip(x: u32, n: u32)
    requires
        n < 32,
    ensures
        spec_rotl32(spec_rotr32(x, n), n) == x,
{
    if n % 32 != 0 {
        let y = spec_rotr32(x, n);
        assert((((x >> n) | (x << ((32 - n) as u32))) << n) | (((x >> n) | (x << ((32 - n) as u32)))
            >> ((32 - n) as u32)) == x) by (bit_vector)
            requires
                0 < n < 32,
        ;
        assert(y == (x >> n) | (x << ((32 - n) as u32)));
        assert(spec_rotl32(y, n) == (y << n) | (y >> ((32 - n) as u32)));
    }
}

} // verus!
