//! The integer arithmetic unit: pure functions from operands to a result
//! with the flags it implies.

use vstd::prelude::*;

use crate::cpu::registers::ProcessorStatusWord;

verus! {

/// The number of one bits in the binary form of a non-negative integer.
pub open spec fn spec_pop_bits(x: int) -> int
    decreases x,
{
    if x <= 0 {
        0
    } else {
        x % 2 + spec_pop_bits(x / 2)
    }
}

/// A non-negative integer has at least as many as zero and at most itself
/// one bits.
pub proof fn lemma_pop_bits_bound(x: int)
    requires
        x >= 0,
    ensures
        0 <= spec_pop_bits(x) <= x,
    decreases x,
{
    if x > 0 {
        lemma_pop_bits_bound(x / 2);
    }
}

/// Counts the one bits of a 32-bit value.
pub(crate) fn count_set_bits(x: u32) -> (r: u32)
    ensures
        r == spec_pop_bits(x as int),
{
    proof {
        lemma_pop_bits_bound(x as int);
    }
    let mut v = x;
    let mut ones: u32 = 0;
    while v > 0
        invariant
            ones + spec_pop_bits(v as int) == spec_pop_bits(x as int),
            spec_pop_bits(x as int) <= x,
        decreases v,
    {
        proof {
            lemma_pop_bits_bound(v as int);
            lemma_pop_bits_bound(v as int / 2);
        }
        ones = ones + v % 2;
        v = v / 2;
    }
    ones
}

/// Whether the result has an even number of one bits.
pub open spec fn spec_parity_even(v: u32) -> bool {
    spec_pop_bits(v as int) % 2 == 0
}

/// A value that is strictly positive when read as a signed 32-bit integer.
pub open spec fn spec_is_pos_i32(x: u32) -> bool {
    0 < x < 0x8000_0000
}

/// A value that is negative when read as a signed 32-bit integer.
pub open spec fn spec_is_neg_i32(x: u32) -> bool {
    x >= 0x8000_0000
}

/// The 32-bit truncation of an integer.
pub open spec fn spec_wrap32(x: int) -> u32 {
    (x % 0x1_0000_0000) as u32
}

/// Signed overflow of an addition: both operands share a sign and the
/// result's sign differs from it.
pub open spec fn spec_add_overflow(a: u32, b: u32, r: u32) -> bool {
    (spec_is_pos_i32(a) && spec_is_pos_i32(b) && spec_is_neg_i32(r)) || (spec_is_neg_i32(a)
        && spec_is_neg_i32(b) && spec_is_pos_i32(r))
}

/// Signed overflow of a subtraction: the operands have opposite signs and
/// the result's sign matches the subtrahend's.
pub open spec fn spec_sub_overflow(a: u32, b: u32, r: u32) -> bool {
    (spec_is_pos_i32(a) && spec_is_neg_i32(b) && spec_is_neg_i32(r)) || (spec_is_neg_i32(a)
        && spec_is_pos_i32(b) && spec_is_pos_i32(r))
}

/// The result a compute unit hands back: a value and the flags it implies.
#[derive(Debug, Clone, Copy, PartialEq, Eq, Structural)]
pub struct ArithmeticResult {
    /// The 32-bit result value.
    pub value: u32,
    /// The value is zero.
    pub zero: bool,
    /// The value is negative as a signed integer.
    pub negative: bool,
    /// The operation carried or borrowed.
    pub carry: bool,
    /// The operation overflowed in signed arithmetic.
    pub overflow: bool,
    /// The value has an even number of one bits.
    pub parity: bool,
}

/// The result record implied by a value and its carry and overflow
/// indications: zero, sign and parity are derived from the value.
pub open spec fn spec_arith_result(value: u32, carry: bool, overflow: bool) -> ArithmeticResult {
    ArithmeticResult {
        value,
        zero: value == 0,
        negative: spec_is_neg_i32(value),
        carry,
        overflow,
        parity: spec_parity_even(value),
    }
}

/// The full outcome of a 32-bit addition.
pub open spec fn spec_add_result(a: u32, b: u32) -> ArithmeticResult {
    spec_arith_result(
        spec_wrap32(a + b),
        a + b > u32::MAX,
        spec_add_overflow(a, b, spec_wrap32(a + b)),
    )
}

/// The full outcome of a 32-bit subtraction.
pub open spec fn spec_sub_result(a: u32, b: u32) -> ArithmeticResult {
    spec_arith_result(spec_wrap32(a - b), a < b, spec_sub_overflow(a, b, spec_wrap32(a - b)))
}

/// The full outcome of a 32-bit multiplication.
pub open spec fn spec_mul_result(a: u32, b: u32) -> ArithmeticResult {
    spec_arith_result(spec_wrap32(a * b), a * b > u32::MAX, a * b > u32::MAX)
}

/// The full outcome of a 32-bit division with a non-zero divisor.
pub open spec fn spec_div_result(a: u32, b: u32) -> ArithmeticResult {
    spec_arith_result((a as int / b as int) as u32, false, false)
}

impl ArithmeticResult {
    /// Builds a result record, deriving zero, sign and parity from the
    /// value.
    pub fn new(value: u32, carry: bool, overflow: bool) -> (r: ArithmeticResult)
        ensures
            r == spec_arith_result(value, carry, overflow),
    {
        let ones = count_set_bits(value);
        ArithmeticResult {
            value,
            zero: value == 0,
            negative: value >= 0x8000_0000,
            carry,
            overflow,
            parity: ones % 2 == 0,
        }
    }

    /// Copies the five condition flags of this result into a status word;
    /// the control flags keep their values.
    pub fn update_psw(&self, psw: &mut ProcessorStatusWord)
        ensures
            *final(psw) == (ProcessorStatusWord {
                carry: self.carry,
                zero: self.zero,
                sign: self.negative,
                overflow: self.overflow,
                parity: self.parity,
                ..*old(psw)
            }),
    {
        psw.set_zero_flag(self.zero);
        psw.set_negative_flag(self.negative);
        psw.set_carry_flag(self.carry);
        psw.set_overflow_flag(self.overflow);
        psw.set_parity_flag(self.parity);
    }
}

/// Why an arithmetic operation failed.
#[derive(Debug, Clone, Copy, PartialEq, Eq, Structural)]
pub enum ArithmeticError {
    /// The divisor was zero.
    DivisionByZero,
}

/// The integer arithmetic unit.
#[derive(Debug)]
pub struct ArithmeticUnit;

impl ArithmeticUnit {
    /// 32-bit addition: the value wraps around; carry reports the unsigned
    /// wraparound, overflow the signed one.
    pub fn add(operand1: u32, operand2: u32) -> (r: ArithmeticResult)
        ensures
            r == spec_add_result(operand1, operand2),
    {
        let sum = operand1 as u64 + operand2 as u64;
        let result = (sum % 0x1_0000_0000) as u32;
        let carry = sum > 0xFFFF_FFFF;
        let overflow = (operand1 > 0 && operand1 < 0x8000_0000 && operand2 > 0 && operand2
            < 0x8000_0000 && result >= 0x8000_0000) || (operand1 >= 0x8000_0000 && operand2
            >= 0x8000_0000 && result > 0 && result < 0x8000_0000);
        ArithmeticResult::new(result, carry, overflow)
    }

    /// 32-bit subtraction: the value wraps around; carry reports the
    /// borrow, overflow the signed wraparound.
    pub fn sub(operand1: u32, operand2: u32) -> (r: ArithmeticResult)
        ensures
            r == spec_sub_result(operand1, operand2),
    {
        let result = if operand1 >= operand2 {
            operand1 - operand2
        } else {
            let diff = operand2 as u64 - operand1 as u64;
            (0x1_0000_0000 - diff) as u32
        };
        let carry = operand1 < operand2;
        let overflow = (operand1 > 0 && operand1 < 0x8000_0000 && operand2 >= 0x8000_0000 && result
            >= 0x8000_0000) || (operand1 >= 0x8000_0000 && operand2 > 0 && operand2 < 0x8000_0000
            && result > 0 && result < 0x8000_0000);
        ArithmeticResult::new(result, carry, overflow)
    }

    /// 32-bit multiplication: the value is the low half of the 64-bit
    /// product; carry and overflow both report that the product exceeded
    /// 32 bits.
    pub fn mul(operand1: u32, operand2: u32) -> (r: ArithmeticResult)
        ensures
            r == spec_mul_result(operand1, operand2),
    {
        proof {
            assert(operand1 * operand2 < 0x1_0000_0000_0000_0000) by (nonlinear_arith)
                requires
                    operand1 < 0x1_0000_0000,
                    operand2 < 0x1_0000_0000,
            ;
        }
        let wide = operand1 as u64 * operand2 as u64;
        let result = (wide % 0x1_0000_0000) as u32;
        let overflow = wide > 0xFFFF_FFFF;
        ArithmeticResult::new(result, overflow, overflow)
    }

    /// 32-bit unsigned division: fails when the divisor is zero, and
    /// otherwise returns the quotient with carry and overflow clear.
    pub fn div(operand1: u32, operand2: u32) -> (r: Result<ArithmeticResult, ArithmeticError>)
        ensures
            operand2 != 0 ==> r == Ok::<ArithmeticResult, ArithmeticError>(
                spec_div_result(operand1, operand2),
            ),
            operand2 == 0 ==> r == Err::<ArithmeticResult, ArithmeticError>(
                ArithmeticError::DivisionByZero,
            ),
    {
        if operand2 == 0 {
            return Err(ArithmeticError::DivisionByZero);
        }
        Ok(ArithmeticResult::new(operand1 / operand2, false, false))
    }

    /// Addition with an incoming carry.
    pub fn adc(operand1: u32, operand2: u32, carry_in: bool) -> (r: ArithmeticResult)
        ensures
            r == spec_arith_result(
                spec_wrap32(operand1 + operand2 + (if carry_in { 1int } else { 0int })),
                operand1 + operand2 + (if carry_in { 1int } else { 0int }) > u32::MAX,
                spec_add_overflow(
                    operand1,
                    operand2,
                    spec_wrap32(operand1 + operand2 + (if carry_in { 1int } else { 0int })),
                ),
            ),
    {
        let carry_value: u64 = if carry_in {
            1
        } else {
            0
        };
        let sum = operand1 as u64 + operand2 as u64 + carry_value;
        let result = (sum % 0x1_0000_0000) as u32;
        let carry = sum > 0xFFFF_FFFF;
        let overflow = (operand1 > 0 && operand1 < 0x8000_0000 && operand2 > 0 && operand2
            < 0x8000_0000 && result >= 0x8000_0000) || (operand1 >= 0x8000_0000 && operand2
            >= 0x8000_0000 && result > 0 && result < 0x8000_0000);
        ArithmeticResult::new(result, carry, overflow)
    }

    /// Subtraction with an incoming borrow.
    pub fn sbb(operand1: u32, operand2: u32, borrow_in: bool) -> (r: ArithmeticResult)
        ensures
            r == spec_arith_result(
                spec_wrap32(operand1 - operand2 - (if borrow_in { 1int } else { 0int })),
                (operand1 as int) < operand2 + (if borrow_in { 1int } else { 0int }),
                spec_sub_overflow(
                    operand1,
                    operand2,
                    spec_wrap32(operand1 - operand2 - (if borrow_in { 1int } else { 0int })),
                ),
            ),
    {
        let borrow_value: u64 = if borrow_in {
            1
        } else {
            0
        };
        let rhs = operand2 as u64 + borrow_value;
        let lhs = operand1 as u64;
        let result = if lhs >= rhs {
            (lhs - rhs) as u32
        } else {
            (lhs + 0x1_0000_0000 - rhs) as u32
        };
        let carry = lhs < rhs;
        let overflow = (operand1 > 0 && operand1 < 0x8000_0000 && operand2 >= 0x8000_0000 && result
            >= 0x8000_0000) || (operand1 >= 0x8000_0000 && operand2 > 0 && operand2 < 0x8000_0000
            && result > 0 && result < 0x8000_0000);
        ArithmeticResult::new(result, carry, overflow)
    }

    /// Adds one.
    pub fn inc(operand: u32) -> (r: ArithmeticResult)
        ensures
            r == spec_arith_result(
                spec_wrap32(operand + 1),
                operand == u32::MAX,
                spec_add_overflow(operand, 1, spec_wrap32(operand + 1)),
            ),
    {
        Self::add(operand, 1)
    }

    /// Subtracts one.
    pub fn dec(operand: u32) -> (r: ArithmeticResult)
        ensures
            r == spec_arith_result(
                spec_wrap32(operand - 1),
                operand == 0,
                spec_sub_overflow(operand, 1, spec_wrap32(operand - 1)),
            ),
    {
        Self::sub(operand, 1)
    }

    /// Two's-complement negation: carry is set for every non-zero operand,
    /// overflow only when negating the smallest signed value.
    pub fn neg(operand: u32) -> (r: ArithmeticResult)
        ensures
            r == spec_arith_result(
                spec_wrap32(0 - operand),
                operand != 0,
                operand == 0x8000_0000,
            ),
    {
        let result = if operand == 0 {
            0
        } else {
            (0x1_0000_0000u64 - operand as u64) as u32
        };
        ArithmeticResult::new(result, operand != 0, operand == 0x8000_0000)
    }
}

} // verus!
