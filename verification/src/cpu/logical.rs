//! The logical unit: bitwise operations, shifts and rotations.
//!
//! No logical operation ever reports an overflow; the carry reports the
//! last bit shifted or rotated out; shift and rotation amounts are reduced
//! modulo 32.

use vstd::prelude::*;

use crate::cpu::arithmetic::ArithmeticResult;
use crate::cpu::arithmetic::count_set_bits;
use crate::cpu::arithmetic::spec_arith_result;
use crate::cpu::arithmetic::spec_pop_bits;
use vstd::arithmetic::power2::pow2;

verus! {

/// A 32-bit value rotated left by `n % 32` bits.
pub open spec fn spec_rotl32(x: u32, n: u32) -> u32 {
    if n % 32 == 0 {
        x
    } else {
        (x << (n % 32)) | (x >> ((32 - n % 32) as u32))
    }
}

/// A 32-bit value rotated right by `n % 32` bits.
pub open spec fn spec_rotr32(x: u32, n: u32) -> u32 {
    if n % 32 == 0 {
        x
    } else {
        (x >> (n % 32)) | (x << ((32 - n % 32) as u32))
    }
}

/// The index of the lowest one bit of a positive integer.
pub open spec fn spec_lowest_set_bit(x: int) -> int
    decreases x,
{
    if x <= 0 {
        0
    } else if x % 2 == 1 {
        0
    } else {
        1 + spec_lowest_set_bit(x / 2)
    }
}

/// The index of the highest one bit of a positive integer.
pub open spec fn spec_highest_set_bit(x: int) -> int
    decreases x,
{
    if x <= 1 {
        0
    } else {
        1 + spec_highest_set_bit(x / 2)
    }
}

/// Finds the index of the lowest one bit; requires a non-zero argument.
pub(crate) fn lowest_set_bit_index(x: u32) -> (r: u32)
    requires
        x != 0,
    ensures
        r == spec_lowest_set_bit(x as int),
        r < 32,
{
    let mut v = x;
    let mut i: u32 = 0;
    proof {
        vstd::arithmetic::power2::lemma2_to64();
    }
    while v % 2 == 0
        invariant
            1 <= v <= x,
            i <= 31,
            x as int == v as int * pow2(i as nat),
            spec_lowest_set_bit(x as int) == i + spec_lowest_set_bit(v as int),
        decreases v,
    {
        proof {
            assert(v as int / 2 * pow2((i + 1) as nat) == v as int * pow2(i as nat)) by {
                vstd::arithmetic::power2::lemma_pow2_unfold((i + 1) as nat);
                assert(v as int / 2 * (2 * pow2(i as nat)) == (v as int / 2 * 2) * pow2(
                    i as nat,
                )) by (nonlinear_arith);
            }
            assert(i < 31) by {
                if i >= 31 {
                    assert(pow2(31) == 0x8000_0000) by {
                        vstd::arithmetic::power2::lemma2_to64();
                    }
                    assert(x as int >= 2 * 0x8000_0000) by (nonlinear_arith)
                        requires
                            x as int == v as int * pow2(31),
                            v >= 2,
                            pow2(31) == 0x8000_0000,
                    ;
                }
            }
            assert(v as int / 2 >= 1);
            assert(v as int / 2 <= x) by (nonlinear_arith)
                requires
                    x as int == v as int * pow2(i as nat),
                    pow2(i as nat) >= 1,
                    v >= 1,
            ;
        }
        v = v / 2;
        i = i + 1;
    }
    i
}

/// Finds the index of the highest one bit; requires a non-zero argument.
pub(crate) fn highest_set_bit_index(x: u32) -> (r: u32)
    requires
        x != 0,
    ensures
        r == spec_highest_set_bit(x as int),
        r < 32,
{
    let mut v = x;
    let mut i: u32 = 0;
    proof {
        vstd::arithmetic::power2::lemma2_to64();
    }
    while v >= 2
        invariant
            1 <= v <= x,
            i <= 31,
            x as int >= v as int * pow2(i as nat),
            spec_highest_set_bit(x as int) == i + spec_highest_set_bit(v as int),
        decreases v,
    {
        proof {
            assert(v as int / 2 * pow2((i + 1) as nat) <= v as int * pow2(i as nat)) by {
                vstd::arithmetic::power2::lemma_pow2_unfold((i + 1) as nat);
                assert(v as int / 2 * (2 * pow2(i as nat)) <= v as int * pow2(i as nat))
                    by (nonlinear_arith)
                    requires
                        pow2(i as nat) >= 0,
                        v >= 0,
                ;
            }
            assert(i < 31) by {
                if i >= 31 {
                    assert(pow2(31) == 0x8000_0000) by {
                        vstd::arithmetic::power2::lemma2_to64();
                    }
                    assert(x as int >= 2 * 0x8000_0000) by (nonlinear_arith)
                        requires
                            x as int >= v as int * pow2(31),
                            v >= 2,
                            pow2(31) == 0x8000_0000,
                    ;
                }
            }
        }
        v = v / 2;
        i = i + 1;
    }
    i
}

/// The full outcome of a logical shift left by `n % 32`.
pub open spec fn spec_shl_result(x: u32, n: u32) -> ArithmeticResult {
    if n % 32 == 0 {
        spec_arith_result(x, false, false)
    } else {
        spec_arith_result(x << (n % 32), (x >> ((32 - n % 32) as u32)) & 1 != 0, false)
    }
}

/// The full outcome of a logical shift right by `n % 32`.
pub open spec fn spec_shr_result(x: u32, n: u32) -> ArithmeticResult {
    if n % 32 == 0 {
        spec_arith_result(x, false, false)
    } else {
        spec_arith_result(x >> (n % 32), (x >> ((n % 32 - 1) as u32)) & 1 != 0, false)
    }
}

/// The full outcome of an arithmetic shift right by `n % 32`.
pub open spec fn spec_sar_result(x: u32, n: u32) -> ArithmeticResult {
    if n % 32 == 0 {
        spec_arith_result(x, false, false)
    } else {
        spec_arith_result(
            ((x as i32) >> (n % 32)) as u32,
            (x >> ((n % 32 - 1) as u32)) & 1 != 0,
            false,
        )
    }
}

/// The full outcome of a rotation left by `n % 32`.
pub open spec fn spec_rol_result(x: u32, n: u32) -> ArithmeticResult {
    if n % 32 == 0 {
        spec_arith_result(x, false, false)
    } else {
        spec_arith_result(spec_rotl32(x, n), spec_rotl32(x, n) & 1 != 0, false)
    }
}

/// The full outcome of a rotation right by `n % 32`.
pub open spec fn spec_ror_result(x: u32, n: u32) -> ArithmeticResult {
    if n % 32 == 0 {
        spec_arith_result(x, false, false)
    } else {
        spec_arith_result(spec_rotr32(x, n), (spec_rotr32(x, n) >> 31u32) & 1 != 0, false)
    }
}

/// The logical and bit-shift unit.
#[derive(Debug)]
pub struct LogicalUnit;

impl LogicalUnit {
    /// Bitwise AND.
    pub fn and(operand1: u32, operand2: u32) -> (r: ArithmeticResult)
        ensures
            r == spec_arith_result(operand1 & operand2, false, false),
    {
        ArithmeticResult::new(operand1 & operand2, false, false)
    }

    /// Bitwise OR.
    pub fn or(operand1: u32, operand2: u32) -> (r: ArithmeticResult)
        ensures
            r == spec_arith_result(operand1 | operand2, false, false),
    {
        ArithmeticResult::new(operand1 | operand2, false, false)
    }

    /// Bitwise XOR.
    pub fn xor(operand1: u32, operand2: u32) -> (r: ArithmeticResult)
        ensures
            r == spec_arith_result(operand1 ^ operand2, false, false),
    {
        ArithmeticResult::new(operand1 ^ operand2, false, false)
    }

    /// Bitwise complement.
    pub fn not(operand: u32) -> (r: ArithmeticResult)
        ensures
            r == spec_arith_result(!operand, false, false),
    {
        ArithmeticResult::new(!operand, false, false)
    }

    /// Logical shift left by `shift_amount % 32`; the carry is the last
    /// bit shifted out, clear for a zero shift.
    pub fn shl(operand: u32, shift_amount: u32) -> (r: ArithmeticResult)
        ensures
            r == spec_shl_result(operand, shift_amount),
    {
        let shift = shift_amount % 32;
        if shift == 0 {
            return ArithmeticResult::new(operand, false, false);
        }
        let result = operand << shift;
        let carry = (operand >> (32 - shift)) & 1 != 0;
        ArithmeticResult::new(result, carry, false)
    }

    /// Logical shift right by `shift_amount % 32`; the carry is the last
    /// bit shifted out, clear for a zero shift.
    pub fn shr(operand: u32, shift_amount: u32) -> (r: ArithmeticResult)
        ensures
            r == spec_shr_result(operand, shift_amount),
    {
        let shift = shift_amount % 32;
        if shift == 0 {
            return ArithmeticResult::new(operand, false, false);
        }
        let result = operand >> shift;
        let carry = (operand >> (shift - 1)) & 1 != 0;
        ArithmeticResult::new(result, carry, false)
    }

    /// Arithmetic shift right by `shift_amount % 32`: the sign bit is
    /// replicated; the carry is the last bit shifted out.
    pub fn sar(operand: u32, shift_amount: u32) -> (r: ArithmeticResult)
        ensures
            r == spec_sar_result(operand, shift_amount),
    {
        let shift = shift_amount % 32;
        if shift == 0 {
            return ArithmeticResult::new(operand, false, false);
        }
        let signed_operand = operand as i32;
        let result = (signed_operand >> shift) as u32;
        let carry = (operand >> (shift - 1)) & 1 != 0;
        ArithmeticResult::new(result, carry, false)
    }

    /// Rotate left by `rotation_amount % 32`; the carry is the bit rotated
    /// into the lowest position, clear for a zero rotation.
    pub fn rol(operand: u32, rotation_amount: u32) -> (r: ArithmeticResult)
        ensures
            r == spec_rol_result(operand, rotation_amount),
    {
        let rotation = rotation_amount % 32;
        if rotation == 0 {
            return ArithmeticResult::new(operand, false, false);
        }
        let result = (operand << rotation) | (operand >> (32 - rotation));
        let carry = result & 1 != 0;
        ArithmeticResult::new(result, carry, false)
    }

    /// Rotate right by `rotation_amount % 32`; the carry is the bit
    /// rotated into the highest position, clear for a zero rotation.
    pub fn ror(operand: u32, rotation_amount: u32) -> (r: ArithmeticResult)
        ensures
            r == spec_ror_result(operand, rotation_amount),
    {
        let rotation = rotation_amount % 32;
        if rotation == 0 {
            return ArithmeticResult::new(operand, false, false);
        }
        let result = (operand >> rotation) | (operand << (32 - rotation));
        let carry = (result >> 31) & 1 != 0;
        ArithmeticResult::new(result, carry, false)
    }

    /// Bitwise AND computed only for its flags.
    pub fn test(operand1: u32, operand2: u32) -> (r: ArithmeticResult)
        ensures
            r == spec_arith_result(operand1 & operand2, false, false),
    {
        ArithmeticResult::new(operand1 & operand2, false, false)
    }

    /// The number of one bits.
    pub fn bit_count(operand: u32) -> (r: ArithmeticResult)
        ensures
            r == spec_arith_result(spec_pop_bits(operand as int) as u32, false, false),
    {
        proof {
            crate::cpu::arithmetic::lemma_pop_bits_bound(operand as int);
        }
        ArithmeticResult::new(count_set_bits(operand), false, false)
    }

    /// The index of the lowest one bit; zero, with the zero flag set, when
    /// there is none.
    pub fn bit_scan_forward(operand: u32) -> (r: ArithmeticResult)
        ensures
            operand == 0 ==> r == spec_arith_result(0, false, false),
            operand != 0 ==> r == spec_arith_result(
                spec_lowest_set_bit(operand as int) as u32,
                false,
                false,
            ),
    {
        if operand == 0 {
            return ArithmeticResult::new(0, false, false);
        }
        ArithmeticResult::new(lowest_set_bit_index(operand), false, false)
    }

    /// The index of the highest one bit; zero, with the zero flag set,
    /// when there is none.
    pub fn bit_scan_reverse(operand: u32) -> (r: ArithmeticResult)
        ensures
            operand == 0 ==> r == spec_arith_result(0, false, false),
            operand != 0 ==> r == spec_arith_result(
                spec_highest_set_bit(operand as int) as u32,
                false,
                false,
            ),
    {
        if operand == 0 {
            return ArithmeticResult::new(0, false, false);
        }
        ArithmeticResult::new(highest_set_bit_index(operand), false, false)
    }
}

} // verus!
