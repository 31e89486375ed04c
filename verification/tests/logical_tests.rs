//! Tests of the logical and bit-shift unit.

use pixel_model2_rust::cpu::LogicalUnit;

#[test]
fn test_logical_and() {
    let result = LogicalUnit::and(0xFF00, 0x0FFF);
    assert_eq!(result.value, 0x0F00);
    assert!(!result.carry);
    assert!(!result.overflow);
}

#[test]
fn test_logical_or() {
    let result = LogicalUnit::or(0xFF00, 0x00FF);
    assert_eq!(result.value, 0xFFFF);
}

#[test]
fn test_logical_xor() {
    let result = LogicalUnit::xor(0xFFFF, 0xFF00);
    assert_eq!(result.value, 0x00FF);
}

#[test]
fn test_logical_not() {
    let result = LogicalUnit::not(0xFFFF0000);
    assert_eq!(result.value, 0x0000FFFF);
}

#[test]
fn test_shift_left() {
    let result = LogicalUnit::shl(0x12345678, 4);
    assert_eq!(result.value, 0x23456780);
    assert!(result.carry);
}

#[test]
fn test_shift_right() {
    let result = LogicalUnit::shr(0x12345678, 4);
    assert_eq!(result.value, 0x01234567);
    assert!(result.carry);
}

#[test]
fn test_rotate_left() {
    let result = LogicalUnit::rol(0x80000001, 1);
    assert_eq!(result.value, 0x00000003);
    assert!(result.carry);
}

#[test]
fn test_bit_scan_forward() {
    let result = LogicalUnit::bit_scan_forward(0x00000008);
    assert_eq!(result.value, 3);
}

#[test]
fn test_bit_scan_reverse() {
    let result = LogicalUnit::bit_scan_reverse(0x80000000);
    assert_eq!(result.value, 31);
}

#[test]
fn test_shift_by_zero_keeps_value() {
    let result = LogicalUnit::shl(0x1234, 0);
    assert_eq!(result.value, 0x1234);
    assert!(!result.carry);
    let result = LogicalUnit::shr(0x1234, 32);
    assert_eq!(result.value, 0x1234);
    assert!(!result.carry);
}

#[test]
fn test_arithmetic_shift_right_sign() {
    let result = LogicalUnit::sar(0x80000000, 4);
    assert_eq!(result.value, 0xF8000000);
    let result = LogicalUnit::sar(0x40000000, 4);
    assert_eq!(result.value, 0x04000000);
}

#[test]
fn test_rotate_right_carry() {
    let result = LogicalUnit::ror(0x00000001, 1);
    assert_eq!(result.value, 0x80000000);
    assert!(result.carry);
}

#[test]
fn test_bit_count() {
    assert_eq!(LogicalUnit::bit_count(0).value, 0);
    assert_eq!(LogicalUnit::bit_count(0xFFFF_FFFF).value, 32);
    assert_eq!(LogicalUnit::bit_count(0b1010101).value, 4);
}

#[test]
fn test_logical_test_sets_zero() {
    let result = LogicalUnit::test(0xF0, 0x0F);
    assert_eq!(result.value, 0);
    assert!(result.zero);
}
