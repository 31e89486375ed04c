//! Tests of the bit-manipulation unit.

use pixel_model2_rust::cpu::BitManipulationUnit;

#[test]
fn test_bit_operations() {
    let result = BitManipulationUnit::test_bit(0b1010, 1);
    assert!(result.bit_found);
    assert_eq!(result.bit_position, Some(1));

    let result = BitManipulationUnit::test_bit(0b1010, 0);
    assert!(!result.bit_found);

    let result = BitManipulationUnit::set_bit(0b1010, 0);
    assert_eq!(result.value, 0b1011);

    let result = BitManipulationUnit::clear_bit(0b1010, 1);
    assert_eq!(result.value, 0b1000);
}

#[test]
fn test_bit_scan() {
    let result = BitManipulationUnit::scan_forward(0b1010);
    assert!(result.bit_found);
    assert_eq!(result.value, 1);

    let result = BitManipulationUnit::scan_forward(0);
    assert!(!result.bit_found);
    assert_eq!(result.value, 32);
}

#[test]
fn test_rotations() {
    let value = 0b11000000000000000000000000000001u32;

    let rotated = BitManipulationUnit::rotate_left(value, 1);
    assert_eq!(rotated, 0b10000000000000000000000000000011u32);

    let rotated = BitManipulationUnit::rotate_right(value, 1);
    assert_eq!(rotated, 0b11100000000000000000000000000000u32);
}

#[test]
fn test_popcount() {
    let count = BitManipulationUnit::popcount(0b1010101);
    assert_eq!(count, 4);
}

#[test]
fn test_rotate_round_trip() {
    let value = 0xDEADBEEFu32;
    for n in 0..32 {
        assert_eq!(
            BitManipulationUnit::rotate_left(BitManipulationUnit::rotate_right(value, n), n),
            value
        );
    }
}

#[test]
fn test_bit_index_out_of_range() {
    let result = BitManipulationUnit::test_bit(0xFFFF_FFFF, 32);
    assert!(!result.bit_found);
    assert_eq!(result.bit_position, None);
    let result = BitManipulationUnit::set_bit(0x1234, 40);
    assert_eq!(result.value, 0x1234);
    assert!(!result.bit_found);
}

#[test]
fn test_scan_reverse_finds_zero_bit() {
    let result = BitManipulationUnit::scan_reverse(0xFFFF_FFFF);
    assert!(!result.bit_found);
    assert_eq!(result.value, 32);
    let result = BitManipulationUnit::scan_reverse(0b0111);
    assert!(result.bit_found);
    assert_eq!(result.value, 3);
}

#[test]
fn test_find_msb() {
    let result = BitManipulationUnit::find_msb(0x8000_0000);
    assert_eq!(result.value, 31);
    let result = BitManipulationUnit::find_msb(0);
    assert!(!result.bit_found);
    assert_eq!(result.value, 32);
}
