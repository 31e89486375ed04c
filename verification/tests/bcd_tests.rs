//! Tests of the binary-coded-decimal unit.

use pixel_model2_rust::cpu::BcdUnit;

#[test]
fn test_bcd_validation() {
    assert!(BcdUnit::is_valid_bcd(0x1234));
    assert!(BcdUnit::is_valid_bcd(0x9876));
    assert!(!BcdUnit::is_valid_bcd(0xABCD));
    assert!(!BcdUnit::is_valid_bcd(0x123A));
}

#[test]
fn test_bcd_conversion() {
    assert_eq!(BcdUnit::bcd_to_binary(0x1234), 1234);
    assert_eq!(BcdUnit::bcd_to_binary(0x9876), 9876);
    assert_eq!(BcdUnit::binary_to_bcd(1234), 0x1234);
    assert_eq!(BcdUnit::binary_to_bcd(9876), 0x9876);
}

#[test]
fn test_bcd_add() {
    let result = BcdUnit::add(0x23, 0x45);
    assert_eq!(result.value, 0x68);
    assert!(!result.carry);
    assert!(!result.zero);

    let result = BcdUnit::add(0x99, 0x01);
    assert_eq!(result.value, 0x100);
    assert!(!result.carry);
    assert!(!result.zero);
}

#[test]
fn test_bcd_sub() {
    let result = BcdUnit::sub(0x68, 0x23);
    assert_eq!(result.value, 0x45);
    assert!(!result.carry);

    let result = BcdUnit::sub(0x23, 0x45);
    assert!(result.carry);
}

#[test]
fn test_decimal_adjust() {
    let result = BcdUnit::decimal_adjust_add(0x9F, false);
    assert!(result.adjust_needed);
}

#[test]
fn test_bcd_round_trip_eight_digits() {
    assert_eq!(BcdUnit::bcd_to_binary(BcdUnit::binary_to_bcd(0)), 0);
    assert_eq!(BcdUnit::bcd_to_binary(BcdUnit::binary_to_bcd(7)), 7);
    assert_eq!(BcdUnit::bcd_to_binary(BcdUnit::binary_to_bcd(90_210)), 90_210);
    assert_eq!(
        BcdUnit::bcd_to_binary(BcdUnit::binary_to_bcd(99_999_999)),
        99_999_999
    );
}

#[test]
fn test_bcd_add_full_carry() {
    let result = BcdUnit::add(0x99999999, 0x00000001);
    assert_eq!(result.value, 0);
    assert!(result.carry);
    assert!(result.zero);
}

#[test]
fn test_bcd_add_invalid_operand() {
    let result = BcdUnit::add(0x2A, 0x01);
    assert_eq!(result.value, 0);
    assert!(result.overflow);
    assert!(result.adjust_needed);
    assert!(!result.carry);
}

#[test]
fn test_decimal_adjust_sub_low_nibble() {
    let result = BcdUnit::decimal_adjust_sub(0x0F, false);
    assert_eq!(result.value, 0x09);
    assert!(result.adjust_needed);
}
