//! The binary-coded-decimal unit: validity checks, conversions to and
//! from binary, digit-wise addition and subtraction, and decimal
//! adjustment.
//!
//! A 32-bit value holds eight 4-bit nibbles, one decimal digit each.  When
//! either operand of `add` or `sub` has a nibble above 9, no arithmetic is
//! attempted: the result reports `overflow` and `adjust_needed` with a
//! zero value.

use vstd::prelude::*;

use crate::cpu::registers::ProcessorStatusWord;
use vstd::arithmetic::div_mod::lemma_div_denominator;
use vstd::arithmetic::div_mod::lemma_fundamental_div_mod;
use vstd::arithmetic::div_mod::lemma_fundamental_div_mod_converse;

verus! {

/// Sixteen to the `k`-th power.
pub open spec fn pow16(k: nat) -> int
    decreases k,
{
    if k == 0 {
        1
    } else {
        16 * pow16((k - 1) as nat)
    }
}

/// Ten to the `k`-th power.
pub open spec fn pow10(k: nat) -> int
    decreases k,
{
    if k == 0 {
        1
    } else {
        10 * pow10((k - 1) as nat)
    }
}

/// Powers of sixteen are positive.
pub proof fn lemma_pow16_pos(k: nat)
    ensures
        pow16(k) >= 1,
    decreases k,
{
    if k > 0 {
        lemma_pow16_pos((k - 1) as nat);
    }
}

/// Powers of sixteen grow with the exponent.
pub proof fn lemma_pow16_mono(j: nat, k: nat)
    requires
        j <= k,
    ensures
        pow16(j) <= pow16(k),
    decreases k,
{
    if j < k {
        lemma_pow16_mono(j, (k - 1) as nat);
        lemma_pow16_pos((k - 1) as nat);
    }
}

/// Powers of ten are positive.
pub proof fn lemma_pow10_pos(k: nat)
    ensures
        pow10(k) >= 1,
    decreases k,
{
    if k > 0 {
        lemma_pow10_pos((k - 1) as nat);
    }
}

/// Powers of ten grow with the exponent.
pub proof fn lemma_pow10_mono(j: nat, k: nat)
    requires
        j <= k,
    ensures
        pow10(j) <= pow10(k),
    decreases k,
{
    if j < k {
        lemma_pow10_mono(j, (k - 1) as nat);
        lemma_pow10_pos((k - 1) as nat);
    }
}

/// Nibble `i` of a 32-bit value, counting from the low end.
pub open spec fn spec_nibble(x: u32, i: int) -> int {
    (x as int / pow16(i as nat)) % 16
}

/// Every nibble of the value is a decimal digit.
pub open spec fn spec_is_valid_bcd(x: u32) -> bool {
    forall|i: int| 0 <= i < 8 ==> spec_nibble(x, i) <= 9
}

/// Validity read one nibble at a time: the low nibble is a digit and the
/// rest of the value is valid for one nibble fewer.
pub open spec fn spec_valid_bcd_rec(x: int, k: nat) -> bool
    decreases k,
{
    if k == 0 {
        true
    } else {
        x % 16 <= 9 && spec_valid_bcd_rec(x / 16, (k - 1) as nat)
    }
}

/// The binary value of the low `k` nibbles read as decimal digits;
/// reading stops at the first nibble that is not a digit.
pub open spec fn spec_bcd_to_binary(x: int, k: nat) -> int
    decreases k,
{
    if k == 0 {
        0
    } else if x % 16 > 9 {
        0
    } else {
        x % 16 + 10 * spec_bcd_to_binary(x / 16, (k - 1) as nat)
    }
}

/// The BCD form of the low `k` decimal digits of a binary value.
pub open spec fn spec_binary_to_bcd(n: int, k: nat) -> int
    decreases k,
{
    if k == 0 {
        0
    } else {
        n % 10 + 16 * spec_binary_to_bcd(n / 10, (k - 1) as nat)
    }
}

/// Digit-wise BCD addition over the low `k` nibbles: the pair holds the
/// result value and the final carry (0 or 1).
pub open spec fn spec_bcd_add_rec(a: int, b: int, cin: int, k: nat) -> (int, int)
    decreases k,
{
    if k == 0 {
        (0, cin)
    } else {
        let s = a % 16 + b % 16 + cin;
        let d = if s > 9 {
            s - 10
        } else {
            s
        };
        let c = if s > 9 {
            1int
        } else {
            0int
        };
        let rest = spec_bcd_add_rec(a / 16, b / 16, c, (k - 1) as nat);
        (d + 16 * rest.0, rest.1)
    }
}

/// Digit-wise BCD subtraction over the low `k` nibbles: the pair holds
/// the result value and the final borrow (0 or 1).
pub open spec fn spec_bcd_sub_rec(a: int, b: int, bin: int, k: nat) -> (int, int)
    decreases k,
{
    if k == 0 {
        (0, bin)
    } else {
        let s = a % 16 - b % 16 - bin;
        let d = if s < 0 {
            s + 10
        } else {
            s
        };
        let c = if s < 0 {
            1int
        } else {
            0int
        };
        let rest = spec_bcd_sub_rec(a / 16, b / 16, c, (k - 1) as nat);
        (d + 16 * rest.0, rest.1)
    }
}

/// Decimal adjustment after an addition, one nibble at a time.  `pend` is
/// the carry rippling into the nibble, `force` asks for a correction of
/// the first nibble regardless of its value.  The triple holds the value,
/// the final carry (0 or 1) and whether any nibble was corrected.
pub open spec fn spec_daa_rec(x: int, pend: int, force: bool, k: nat) -> (int, int, bool)
    decreases k,
{
    if k == 0 {
        (0, pend, false)
    } else {
        let n = x % 16 + pend;
        if n > 9 || force {
            let adj = n + 6;
            let rest = spec_daa_rec(x / 16, adj / 16, false, (k - 1) as nat);
            (adj % 16 + 16 * rest.0, rest.1, true)
        } else {
            let rest = spec_daa_rec(x / 16, 0, false, (k - 1) as nat);
            (n + 16 * rest.0, rest.1, rest.2)
        }
    }
}

/// Decimal adjustment after a subtraction, one nibble at a time; each
/// nibble is corrected independently.  The triple holds the value,
/// whether any nibble was corrected, and whether any corrected nibble was
/// below 6 (which signals a borrow).
pub open spec fn spec_das_rec(x: int, force: bool, k: nat) -> (int, bool, bool)
    decreases k,
{
    if k == 0 {
        (0, false, false)
    } else {
        let n = x % 16;
        let cond = n > 9 || force;
        let d = if cond {
            (n + 10) % 16
        } else {
            n
        };
        let borrow_here = cond && n < 6;
        let rest = spec_das_rec(x / 16, false, (k - 1) as nat);
        (d + 16 * rest.0, cond || rest.1, borrow_here || rest.2)
    }
}

/// The two readings of validity agree: the recursive form over `k`
/// nibbles and the statement that each of the first `k` nibbles is a
/// digit.
pub proof fn lemma_valid_rec_nibbles(x: int, k: nat)
    requires
        x >= 0,
    ensures
        spec_valid_bcd_rec(x, k) <==> (forall|i: int|
            0 <= i < k ==> (x / #[trigger] pow16(i as nat)) % 16 <= 9),
    decreases k,
{
    if k > 0 {
        lemma_valid_rec_nibbles(x / 16, (k - 1) as nat);
        assert(x / pow16(0) == x) by {
            assert(pow16(0) == 1);
        }
        if spec_valid_bcd_rec(x, k) {
            assert forall|i: int| 0 <= i < k implies (x / #[trigger] pow16(i as nat)) % 16
                <= 9 by {
                if i == 0 {
                    assert((x / pow16(0)) % 16 == x % 16);
                } else {
                    assert(((x / 16) / pow16((i - 1) as nat)) % 16 <= 9);
                    lemma_pow16_pos((i - 1) as nat);
                    lemma_div_denominator(x, 16, pow16((i - 1) as nat));
                    assert(pow16(i as nat) == 16 * pow16((i - 1) as nat));
                }
            }
        }
        if forall|i: int| 0 <= i < k ==> (x / #[trigger] pow16(i as nat)) % 16 <= 9 {
            let i0: int = 0;
            assert((x / pow16(i0 as nat)) % 16 <= 9);
            assert(pow16(i0 as nat) == 1);
            assert(x % 16 <= 9);
            assert forall|i: int| 0 <= i < k - 1 implies ((x / 16) / #[trigger] pow16(
                i as nat,
            )) % 16 <= 9 by {
                assert((x / pow16((i + 1) as nat)) % 16 <= 9);
                lemma_pow16_pos(i as nat);
                lemma_div_denominator(x, 16, pow16(i as nat));
                assert(pow16((i + 1) as nat) == 16 * pow16(i as nat));
            }
        }
    }
}

/// For a 32-bit value, the nibble-wise statement of validity and the
/// recursive reading agree.
pub proof fn lemma_valid_bcd_u32(x: u32)
    ensures
        spec_is_valid_bcd(x) <==> spec_valid_bcd_rec(x as int, 8),
{
    lemma_valid_rec_nibbles(x as int, 8);
    if spec_is_valid_bcd(x) {
        assert forall|i: int| 0 <= i < 8 implies (x as int / #[trigger] pow16(i as nat)) % 16
            <= 9 by {
            assert(spec_nibble(x, i) <= 9);
        }
    }
    if spec_valid_bcd_rec(x as int, 8) {
        assert forall|i: int| 0 <= i < 8 implies #[trigger] spec_nibble(x, i) <= 9 by {
            assert((x as int / pow16(i as nat)) % 16 <= 9);
        }
    }
}

/// A zero value has a zero BCD form.
pub proof fn lemma_binary_to_bcd_zero(k: nat)
    ensures
        spec_binary_to_bcd(0, k) == 0,
    decreases k,
{
    if k > 0 {
        lemma_binary_to_bcd_zero((k - 1) as nat);
    }
}

/// The value built from `k` decimal digits stays under `16^k`.
pub proof fn lemma_binary_to_bcd_bound(n: int, k: nat)
    requires
        n >= 0,
    ensures
        0 <= spec_binary_to_bcd(n, k) < pow16(k),
    decreases k,
{
    if k == 0 {
        assert(pow16(0) == 1);
    } else {
        lemma_binary_to_bcd_bound(n / 10, (k - 1) as nat);
        assert(pow16(k) == 16 * pow16((k - 1) as nat));
        assert(n % 10 + 16 * spec_binary_to_bcd(n / 10, (k - 1) as nat) < 16 * pow16(
            (k - 1) as nat,
        )) by (nonlinear_arith)
            requires
                n % 10 <= 15,
                spec_binary_to_bcd(n / 10, (k - 1) as nat) <= pow16((k - 1) as nat) - 1,
        ;
    }
}

/// Converting a binary value below `10^k` to BCD and back restores it.
proof fn lemma_bcd_round_trip_rec(n: int, k: nat)
    requires
        0 <= n < pow10(k),
    ensures
        spec_bcd_to_binary(spec_binary_to_bcd(n, k), k) == n,
    decreases k,
{
    if k == 0 {
        assert(pow10(0) == 1);
    } else {
        let r = n % 10;
        let rest = spec_binary_to_bcd(n / 10, (k - 1) as nat);
        let g = spec_binary_to_bcd(n, k);
        assert(g == r + 16 * rest);
        lemma_binary_to_bcd_bound(n / 10, (k - 1) as nat);
        lemma_fundamental_div_mod_converse(g, 16, rest, r);
        assert(g % 16 == r && g / 16 == rest);
        assert(pow10(k) == 10 * pow10((k - 1) as nat));
        assert(n / 10 < pow10((k - 1) as nat)) by (nonlinear_arith)
            requires
                0 <= n < 10 * pow10((k - 1) as nat),
        ;
        lemma_bcd_round_trip_rec(n / 10, (k - 1) as nat);
        lemma_fundamental_div_mod(n, 10);
    }
}

/// Converting any binary value with at most eight decimal digits to BCD
/// and back restores it.
pub proof fn lemma_bcd_round_trip(n: u32)
    requires
        n < 100_000_000,
    ensures
        spec_bcd_to_binary(spec_binary_to_bcd(n as int, 8), 8) == n,
{
    reveal_with_fuel(pow16, 9);
            reveal_with_fuel(pow10, 9);
    assert(pow10(8) == 100_000_000);
    lemma_bcd_round_trip_rec(n as int, 8);
}

/// The outcome of a BCD operation.
#[derive(Debug, Clone, Copy, PartialEq, Eq, Structural)]
pub struct BcdResult {
    /// The resulting BCD value.
    pub value: u32,
    /// The final decimal carry or borrow.
    pub carry: bool,
    /// Set when the operands were not valid BCD.
    pub overflow: bool,
    /// The value is zero.
    pub zero: bool,
    /// A decimal adjustment was or would be needed.
    pub adjust_needed: bool,
}

impl BcdResult {
    /// Reports the outcome in the status word; the flags not listed keep
    /// their values.
    pub fn update_psw(&self, psw: &mut ProcessorStatusWord)
        ensures
            *final(psw) == (ProcessorStatusWord {
                zero: self.zero,
                carry: self.carry,
                overflow: self.overflow,
                parity: self.adjust_needed,
                ..*old(psw)
            }),
    {
        psw.set_zero_flag(self.zero);
        psw.set_carry_flag(self.carry);
        psw.set_overflow_flag(self.overflow);
        psw.set_parity_flag(self.adjust_needed);
    }
}

/// The full outcome of a digit-wise BCD addition, including the
/// rejection of operands that are not valid BCD.
pub open spec fn spec_bcd_add_result(a: u32, b: u32) -> BcdResult {
    if !(spec_is_valid_bcd(a) && spec_is_valid_bcd(b)) {
        BcdResult { value: 0u32, carry: false, overflow: true, zero: false, adjust_needed: true }
    } else {
        BcdResult {
            value: spec_bcd_add_rec(a as int, b as int, 0, 8).0 as u32,
            carry: spec_bcd_add_rec(a as int, b as int, 0, 8).1 == 1,
            overflow: false,
            zero: spec_bcd_add_rec(a as int, b as int, 0, 8).0 == 0,
            adjust_needed: false,
        }
    }
}

/// The full outcome of a digit-wise BCD subtraction, including the
/// rejection of operands that are not valid BCD.
pub open spec fn spec_bcd_sub_result(a: u32, b: u32) -> BcdResult {
    if !(spec_is_valid_bcd(a) && spec_is_valid_bcd(b)) {
        BcdResult { value: 0u32, carry: false, overflow: true, zero: false, adjust_needed: true }
    } else {
        BcdResult {
            value: spec_bcd_sub_rec(a as int, b as int, 0, 8).0 as u32,
            carry: spec_bcd_sub_rec(a as int, b as int, 0, 8).1 == 1,
            overflow: false,
            zero: spec_bcd_sub_rec(a as int, b as int, 0, 8).0 == 0,
            adjust_needed: false,
        }
    }
}

/// The BCD compute unit.
#[derive(Debug)]
pub struct BcdUnit;

impl BcdUnit {
    /// True exactly when every nibble of the value is in 0..=9.
    pub fn is_valid_bcd(value: u32) -> (r: bool)
        ensures
            r == spec_is_valid_bcd(value),
    {
        let mut x = value;
        let mut i: u32 = 0;
        while i < 8
            invariant
                i <= 8,
                spec_valid_bcd_rec(value as int, 8) == spec_valid_bcd_rec(
                    x as int,
                    (8 - i) as nat,
                ),
            decreases 8 - i,
        {
            if x % 16 > 9 {
                proof {
                    lemma_valid_bcd_u32(value);
                }
                return false;
            }
            x = x / 16;
            i = i + 1;
        }
        proof {
            lemma_valid_bcd_u32(value);
        }
        true
    }

    /// Reads the nibbles as decimal digits, low digit first, stopping at
    /// the first nibble that is not a digit.
    pub fn bcd_to_binary(bcd: u32) -> (r: u32)
        ensures
            r == spec_bcd_to_binary(bcd as int, 8),
    {
        proof {
            reveal_with_fuel(pow16, 9);
            reveal_with_fuel(pow10, 9);
        }
        let mut x = bcd;
        let mut result: u64 = 0;
        let mut mult: u64 = 1;
        let mut i: u32 = 0;
        while i < 8
            invariant
                i <= 8,
                mult == pow10(i as nat),
                mult <= 100_000_000,
                result < mult,
                result + mult * spec_bcd_to_binary(x as int, (8 - i) as nat) == spec_bcd_to_binary(
                    bcd as int,
                    8,
                ),
            decreases 8 - i,
        {
            let nib = x % 16;
            if nib > 9 {
                proof {
                    assert(spec_bcd_to_binary(x as int, (8 - i) as nat) == 0);
                    assert(result == spec_bcd_to_binary(bcd as int, 8)) by (nonlinear_arith)
                        requires
                            result + mult * spec_bcd_to_binary(x as int, (8 - i) as nat)
                                == spec_bcd_to_binary(bcd as int, 8),
                            spec_bcd_to_binary(x as int, (8 - i) as nat) == 0,
                    ;
                }
                return result as u32;
            }
            proof {
                lemma_pow10_mono((i + 1) as nat, 8);
                assert(pow10(8) == 100_000_000) by {
                    reveal_with_fuel(pow10, 9);
                }
                assert(pow10((i + 1) as nat) == 10 * pow10(i as nat));
                let rest = spec_bcd_to_binary(x as int / 16, (8 - (i + 1)) as nat);
                assert(spec_bcd_to_binary(x as int, (8 - i) as nat) == nib + 10 * rest);
                assert(mult * (nib + 10 * rest) == mult * nib + (10 * mult) * rest)
                    by (nonlinear_arith);
                assert(mult * nib == nib * mult) by (nonlinear_arith);
                assert(result + nib * mult < 10 * mult) by (nonlinear_arith)
                    requires
                        result < mult,
                        nib <= 9,
                        mult >= 1,
                ;
            }
            result = result + (nib as u64) * mult;
            x = x / 16;
            mult = mult * 10;
            i = i + 1;
        }
        proof {
            assert(spec_bcd_to_binary(x as int, (8 - i) as nat) == 0 ==> result
                == spec_bcd_to_binary(bcd as int, 8)) by (nonlinear_arith)
                requires
                    result + mult * spec_bcd_to_binary(x as int, (8 - i) as nat)
                        == spec_bcd_to_binary(bcd as int, 8),
            ;
        }
        result as u32
    }

    /// Writes the low eight decimal digits of a binary value into the
    /// nibbles of the result, low digit first.
    pub fn binary_to_bcd(binary: u32) -> (r: u32)
        ensures
            r == spec_binary_to_bcd(binary as int, 8),
    {
        proof {
            reveal_with_fuel(pow16, 9);
            reveal_with_fuel(pow10, 9);
        }
        let mut n = binary;
        let mut result: u64 = 0;
        let mut mult: u64 = 1;
        let mut i: u32 = 0;
        while n > 0 && i < 8
            invariant
                i <= 8,
                mult == pow16(i as nat),
                mult <= 0x1_0000_0000,
                result < mult,
                result + mult * spec_binary_to_bcd(n as int, (8 - i) as nat)
                    == spec_binary_to_bcd(binary as int, 8),
            decreases 8 - i,
        {
            let digit = n % 10;
            proof {
                lemma_pow16_mono((i + 1) as nat, 8);
                assert(pow16(8) == 0x1_0000_0000) by {
                    reveal_with_fuel(pow16, 9);
                }
                assert(pow16((i + 1) as nat) == 16 * pow16(i as nat));
                let rest = spec_binary_to_bcd(n as int / 10, (8 - (i + 1)) as nat);
                assert(spec_binary_to_bcd(n as int, (8 - i) as nat) == digit + 16 * rest);
                assert(mult * (digit + 16 * rest) == mult * digit + (16 * mult) * rest)
                    by (nonlinear_arith);
                assert(mult * digit == digit * mult) by (nonlinear_arith);
                assert(result + digit * mult < 16 * mult) by (nonlinear_arith)
                    requires
                        result < mult,
                        digit <= 9,
                        mult >= 1,
                ;
            }
            result = result + (digit as u64) * mult;
            n = n / 10;
            mult = mult * 16;
            i = i + 1;
        }
        proof {
            if n == 0 {
                lemma_binary_to_bcd_zero((8 - i) as nat);
            }
            assert(spec_binary_to_bcd(n as int, (8 - i) as nat) == 0 ==> result
                == spec_binary_to_bcd(binary as int, 8)) by (nonlinear_arith)
                requires
                    result + mult * spec_binary_to_bcd(n as int, (8 - i) as nat)
                        == spec_binary_to_bcd(binary as int, 8),
            ;
        }
        result as u32
    }

    /// Digit-wise addition with carry propagation.  Operands that are not
    /// valid BCD are rejected with `overflow` and `adjust_needed` set.
    pub fn add(a: u32, b: u32) -> (r: BcdResult)
        ensures
            r == spec_bcd_add_result(a, b),
    {
        if !Self::is_valid_bcd(a) || !Self::is_valid_bcd(b) {
            return BcdResult {
                value: 0,
                carry: false,
                overflow: true,
                zero: false,
                adjust_needed: true,
            };
        }
        proof {
            reveal_with_fuel(pow16, 9);
            reveal_with_fuel(pow10, 9);
            lemma_valid_bcd_u32(a);
            lemma_valid_bcd_u32(b);
        }
        let mut x = a;
        let mut y = b;
        let mut carry: u32 = 0;
        let mut result: u64 = 0;
        let mut mult: u64 = 1;
        let mut i: u32 = 0;
        while i < 8
            invariant
                i <= 8,
                carry <= 1,
                mult == pow16(i as nat),
                mult <= 0x1_0000_0000,
                result < mult,
                spec_valid_bcd_rec(x as int, (8 - i) as nat),
                spec_valid_bcd_rec(y as int, (8 - i) as nat),
                result + mult * spec_bcd_add_rec(x as int, y as int, carry as int, (8 - i) as nat).0
                    == spec_bcd_add_rec(a as int, b as int, 0, 8).0,
                spec_bcd_add_rec(x as int, y as int, carry as int, (8 - i) as nat).1
                    == spec_bcd_add_rec(a as int, b as int, 0, 8).1,
            decreases 8 - i,
        {
            let na = x % 16;
            let nb = y % 16;
            let s = na + nb + carry;
            let d = if s > 9 {
                s - 10
            } else {
                s
            };
            let c: u32 = if s > 9 {
                1
            } else {
                0
            };
            proof {
                lemma_pow16_mono((i + 1) as nat, 8);
                assert(pow16(8) == 0x1_0000_0000) by {
                    reveal_with_fuel(pow16, 9);
                }
                assert(pow16((i + 1) as nat) == 16 * pow16(i as nat));
                let rest = spec_bcd_add_rec(
                    x as int / 16,
                    y as int / 16,
                    c as int,
                    (8 - (i + 1)) as nat,
                );
                assert(spec_bcd_add_rec(x as int, y as int, carry as int, (8 - i) as nat).0 == d
                    + 16 * rest.0);
                assert(mult * (d + 16 * rest.0) == mult * d + (16 * mult) * rest.0)
                    by (nonlinear_arith);
                assert(mult * d == d * mult) by (nonlinear_arith);
                assert(result + d * mult < 16 * mult) by (nonlinear_arith)
                    requires
                        result < mult,
                        d <= 9,
                        mult >= 1,
                ;
            }
            result = result + (d as u64) * mult;
            x = x / 16;
            y = y / 16;
            carry = c;
            mult = mult * 16;
            i = i + 1;
        }
        let value = result as u32;
        BcdResult {
            value,
            carry: carry == 1,
            overflow: false,
            zero: value == 0,
            adjust_needed: false,
        }
    }

    /// Digit-wise subtraction with borrow propagation.  Operands that are
    /// not valid BCD are rejected with `overflow` and `adjust_needed`
    /// set.
    pub fn sub(a: u32, b: u32) -> (r: BcdResult)
        ensures
            r == spec_bcd_sub_result(a, b),
    {
        if !Self::is_valid_bcd(a) || !Self::is_valid_bcd(b) {
            return BcdResult {
                value: 0,
                carry: false,
                overflow: true,
                zero: false,
                adjust_needed: true,
            };
        }
        proof {
            reveal_with_fuel(pow16, 9);
            reveal_with_fuel(pow10, 9);
            lemma_valid_bcd_u32(a);
            lemma_valid_bcd_u32(b);
        }
        let mut x = a;
        let mut y = b;
        let mut borrow: u32 = 0;
        let mut result: u64 = 0;
        let mut mult: u64 = 1;
        let mut i: u32 = 0;
        while i < 8
            invariant
                i <= 8,
                borrow <= 1,
                mult == pow16(i as nat),
                mult <= 0x1_0000_0000,
                result < mult,
                spec_valid_bcd_rec(x as int, (8 - i) as nat),
                spec_valid_bcd_rec(y as int, (8 - i) as nat),
                result + mult * spec_bcd_sub_rec(
                    x as int,
                    y as int,
                    borrow as int,
                    (8 - i) as nat,
                ).0 == spec_bcd_sub_rec(a as int, b as int, 0, 8).0,
                spec_bcd_sub_rec(x as int, y as int, borrow as int, (8 - i) as nat).1
                    == spec_bcd_sub_rec(a as int, b as int, 0, 8).1,
            decreases 8 - i,
        {
            let na = x % 16;
            let nb = y % 16;
            let d: u32;
            let c: u32;
            if na >= nb + borrow {
                d = na - nb - borrow;
                c = 0;
            } else {
                d = na + 10 - nb - borrow;
                c = 1;
            }
            proof {
                lemma_pow16_mono((i + 1) as nat, 8);
                assert(pow16(8) == 0x1_0000_0000) by {
                    reveal_with_fuel(pow16, 9);
                }
                assert(pow16((i + 1) as nat) == 16 * pow16(i as nat));
                let rest = spec_bcd_sub_rec(
                    x as int / 16,
                    y as int / 16,
                    c as int,
                    (8 - (i + 1)) as nat,
                );
                assert(spec_bcd_sub_rec(x as int, y as int, borrow as int, (8 - i) as nat).0 == d
                    + 16 * rest.0);
                assert(mult * (d + 16 * rest.0) == mult * d + (16 * mult) * rest.0)
                    by (nonlinear_arith);
                assert(mult * d == d * mult) by (nonlinear_arith);
                assert(result + d * mult < 16 * mult) by (nonlinear_arith)
                    requires
                        result < mult,
                        d <= 9,
                        mult >= 1,
                ;
            }
            result = result + (d as u64) * mult;
            x = x / 16;
            y = y / 16;
            borrow = c;
            mult = mult * 16;
            i = i + 1;
        }
        let value = result as u32;
        BcdResult {
            value,
            carry: borrow == 1,
            overflow: false,
            zero: value == 0,
            adjust_needed: false,
        }
    }

    /// Decimal adjustment after a binary addition of packed digits: every
    /// nibble above 9 (and the first nibble when a carry came in) gets a
    /// correction of +6, with the carry rippling upward.
    pub fn decimal_adjust_add(value: u32, carry_in: bool) -> (r: BcdResult)
        ensures
            r == (BcdResult {
                value: spec_daa_rec(value as int, 0, carry_in, 8).0 as u32,
                carry: carry_in || spec_daa_rec(value as int, 0, carry_in, 8).1 == 1,
                overflow: false,
                zero: spec_daa_rec(value as int, 0, carry_in, 8).0 == 0,
                adjust_needed: spec_daa_rec(value as int, 0, carry_in, 8).2,
            }),
    {
        proof {
            reveal_with_fuel(pow16, 9);
            reveal_with_fuel(pow10, 9);
        }
        let mut x = value;
        let mut pend: u32 = 0;
        let mut force = carry_in;
        let mut adjusted = false;
        let mut result: u64 = 0;
        let mut mult: u64 = 1;
        let mut i: u32 = 0;
        while i < 8
            invariant
                i <= 8,
                pend <= 1,
                mult == pow16(i as nat),
                mult <= 0x1_0000_0000,
                result < mult,
                i > 0 ==> !force,
                result + mult * spec_daa_rec(x as int, pend as int, force, (8 - i) as nat).0
                    == spec_daa_rec(value as int, 0, carry_in, 8).0,
                spec_daa_rec(x as int, pend as int, force, (8 - i) as nat).1 == spec_daa_rec(
                    value as int,
                    0,
                    carry_in,
                    8,
                ).1,
                (adjusted || spec_daa_rec(x as int, pend as int, force, (8 - i) as nat).2)
                    == spec_daa_rec(value as int, 0, carry_in, 8).2,
            decreases 8 - i,
        {
            let n = x % 16 + pend;
            let d: u32;
            let p: u32;
            if n > 9 || force {
                let adj = n + 6;
                d = adj % 16;
                p = adj / 16;
                adjusted = true;
            } else {
                d = n;
                p = 0;
            }
            proof {
                lemma_pow16_mono((i + 1) as nat, 8);
                assert(pow16(8) == 0x1_0000_0000) by {
                    reveal_with_fuel(pow16, 9);
                }
                assert(pow16((i + 1) as nat) == 16 * pow16(i as nat));
                let rest = spec_daa_rec(x as int / 16, p as int, false, (8 - (i + 1)) as nat);
                assert(spec_daa_rec(x as int, pend as int, force, (8 - i) as nat).0 == d + 16
                    * rest.0);
                assert(mult * (d + 16 * rest.0) == mult * d + (16 * mult) * rest.0)
                    by (nonlinear_arith);
                assert(mult * d == d * mult) by (nonlinear_arith);
                assert(result + d * mult < 16 * mult) by (nonlinear_arith)
                    requires
                        result < mult,
                        d <= 15,
                        mult >= 1,
                ;
            }
            result = result + (d as u64) * mult;
            x = x / 16;
            pend = p;
            force = false;
            mult = mult * 16;
            i = i + 1;
        }
        proof {
            let total = spec_daa_rec(value as int, 0, carry_in, 8);
            assert(spec_daa_rec(x as int, pend as int, force, (8 - i) as nat).0 == 0);
            assert(spec_daa_rec(x as int, pend as int, force, (8 - i) as nat).1 == pend as int);
            assert(result == total.0);
            assert(total.1 == pend as int);
            assert(adjusted == total.2);
        }
        let out = result as u32;
        BcdResult {
            value: out,
            carry: carry_in || pend == 1,
            overflow: false,
            zero: out == 0,
            adjust_needed: adjusted,
        }
    }

    /// Decimal adjustment after a binary subtraction of packed digits:
    /// every nibble above 9 (and the first nibble when a borrow came in)
    /// gets a correction of -6; a corrected nibble below 6 signals a
    /// borrow.
    pub fn decimal_adjust_sub(value: u32, borrow_in: bool) -> (r: BcdResult)
        ensures
            r == (BcdResult {
                value: spec_das_rec(value as int, borrow_in, 8).0 as u32,
                carry: borrow_in || spec_das_rec(value as int, borrow_in, 8).2,
                overflow: false,
                zero: spec_das_rec(value as int, borrow_in, 8).0 == 0,
                adjust_needed: spec_das_rec(value as int, borrow_in, 8).1,
            }),
    {
        proof {
            reveal_with_fuel(pow16, 9);
            reveal_with_fuel(pow10, 9);
        }
        let mut x = value;
        let mut force = borrow_in;
        let mut adjusted = false;
        let mut borrow = false;
        let mut result: u64 = 0;
        let mut mult: u64 = 1;
        let mut i: u32 = 0;
        while i < 8
            invariant
                i <= 8,
                mult == pow16(i as nat),
                mult <= 0x1_0000_0000,
                result < mult,
                i > 0 ==> !force,
                result + mult * spec_das_rec(x as int, force, (8 - i) as nat).0 == spec_das_rec(
                    value as int,
                    borrow_in,
                    8,
                ).0,
                (adjusted || spec_das_rec(x as int, force, (8 - i) as nat).1) == spec_das_rec(
                    value as int,
                    borrow_in,
                    8,
                ).1,
                (borrow || spec_das_rec(x as int, force, (8 - i) as nat).2) == spec_das_rec(
                    value as int,
                    borrow_in,
                    8,
                ).2,
            decreases 8 - i,
        {
            let n = x % 16;
            let d: u32;
            if n > 9 || force {
                d = (n + 10) % 16;
                adjusted = true;
                if n < 6 {
                    borrow = true;
                }
            } else {
                d = n;
            }
            proof {
                lemma_pow16_mono((i + 1) as nat, 8);
                assert(pow16(8) == 0x1_0000_0000) by {
                    reveal_with_fuel(pow16, 9);
                }
                assert(pow16((i + 1) as nat) == 16 * pow16(i as nat));
                let rest = spec_das_rec(x as int / 16, false, (8 - (i + 1)) as nat);
                assert(spec_das_rec(x as int, force, (8 - i) as nat).0 == d + 16 * rest.0);
                assert(mult * (d + 16 * rest.0) == mult * d + (16 * mult) * rest.0)
                    by (nonlinear_arith);
                assert(mult * d == d * mult) by (nonlinear_arith);
                assert(result + d * mult < 16 * mult) by (nonlinear_arith)
                    requires
                        result < mult,
                        d <= 15,
                        mult >= 1,
                ;
            }
            result = result + (d as u64) * mult;
            x = x / 16;
            force = false;
            mult = mult * 16;
            i = i + 1;
        }
        proof {
            let total = spec_das_rec(value as int, borrow_in, 8);
            assert(spec_das_rec(x as int, force, (8 - i) as nat).0 == 0);
            assert(!spec_das_rec(x as int, force, (8 - i) as nat).1);
            assert(!spec_das_rec(x as int, force, (8 - i) as nat).2);
            assert(result == total.0);
            assert(adjusted == total.1);
            assert(borrow == total.2);
        }
        let out = result as u32;
        BcdResult {
            value: out,
            carry: borrow_in || borrow,
            overflow: false,
            zero: out == 0,
            adjust_needed: adjusted,
        }
    }
}

} // verus!
