//! Tests of the integer arithmetic unit.

use pixel_model2_rust::cpu::ArithmeticUnit;

#[test]
fn test_arithmetic_add() {
    let result = ArithmeticUnit::add(10, 20);
    assert_eq!(result.value, 30);
    assert!(!result.carry);
    assert!(!result.overflow);
    assert!(!result.zero);
    assert!(!result.negative);
}

#[test]
fn test_arithmetic_add_overflow() {
    let result = ArithmeticUnit::add(u32::MAX, 1);
    assert_eq!(result.value, 0);
    assert!(result.carry);
    assert!(result.zero);
}

#[test]
fn test_arithmetic_sub() {
    let result = ArithmeticUnit::sub(30, 10);
    assert_eq!(result.value, 20);
    assert!(!result.carry);
    assert!(!result.overflow);
}

#[test]
fn test_arithmetic_mul() {
    let result = ArithmeticUnit::mul(6, 7);
    assert_eq!(result.value, 42);
    assert!(!result.overflow);
}

#[test]
fn test_arithmetic_div() {
    let result = ArithmeticUnit::div(42, 6).unwrap();
    assert_eq!(result.value, 7);
}

#[test]
fn test_arithmetic_div_by_zero() {
    let result = ArithmeticUnit::div(42, 0);
    assert!(result.is_err());
}

#[test]
fn test_arithmetic_sub_borrow() {
    let result = ArithmeticUnit::sub(10, 30);
    assert_eq!(result.value, 0xFFFF_FFEC);
    assert!(result.carry);
    assert!(result.negative);
}

#[test]
fn test_arithmetic_mul_overflow() {
    let result = ArithmeticUnit::mul(0x1_0000, 0x1_0000);
    assert_eq!(result.value, 0);
    assert!(result.overflow);
    assert!(result.carry);
}

#[test]
fn test_arithmetic_adc_carry_chain() {
    let result = ArithmeticUnit::adc(u32::MAX, 0, true);
    assert_eq!(result.value, 0);
    assert!(result.carry);
}

#[test]
fn test_arithmetic_sbb_borrow_chain() {
    let result = ArithmeticUnit::sbb(0, 0, true);
    assert_eq!(result.value, u32::MAX);
    assert!(result.carry);
}

#[test]
fn test_arithmetic_inc_dec() {
    assert_eq!(ArithmeticUnit::inc(41).value, 42);
    assert_eq!(ArithmeticUnit::dec(43).value, 42);
    let wrapped = ArithmeticUnit::inc(u32::MAX);
    assert_eq!(wrapped.value, 0);
    assert!(wrapped.carry);
}

#[test]
fn test_arithmetic_neg() {
    let result = ArithmeticUnit::neg(1);
    assert_eq!(result.value, u32::MAX);
    assert!(result.carry);
    assert!(!result.overflow);
    let minimum = ArithmeticUnit::neg(0x8000_0000);
    assert_eq!(minimum.value, 0x8000_0000);
    assert!(minimum.overflow);
    let zero = ArithmeticUnit::neg(0);
    assert_eq!(zero.value, 0);
    assert!(!zero.carry);
}

#[test]
fn test_arithmetic_parity_flag() {
    assert!(ArithmeticUnit::add(0, 0).parity);
    assert!(!ArithmeticUnit::add(1, 0).parity);
    assert!(ArithmeticUnit::add(2, 1).parity);
}
