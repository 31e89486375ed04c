//! Tests of the string unit, run against a RAM.

use pixel_model2_rust::cpu::StringUnit;
use pixel_model2_rust::memory::MemoryInterface;
use pixel_model2_rust::memory::Ram;

#[test]
fn test_string_move() {
    let mut memory = Ram::new(0x10000);

    memory.write_u8(0x1000, b'H').unwrap();
    memory.write_u8(0x1001, b'e').unwrap();
    memory.write_u8(0x1002, b'l').unwrap();
    memory.write_u8(0x1003, b'l').unwrap();
    memory.write_u8(0x1004, b'o').unwrap();
    memory.write_u8(0x1005, 0).unwrap();

    let result = StringUnit::string_move(&mut memory, 0x1000, 0x2000, 10, 1).unwrap();

    assert_eq!(result.bytes_processed, 6);
    assert_eq!(memory.read_u8(0x2000).unwrap(), b'H');
    assert_eq!(memory.read_u8(0x2004).unwrap(), b'o');
    assert_eq!(memory.read_u8(0x2005).unwrap(), 0);
}

#[test]
fn test_string_compare() {
    let mut memory = Ram::new(0x10000);

    let text = b"Test";
    for (i, &byte) in text.iter().enumerate() {
        memory.write_u8(0x1000 + i as u32, byte).unwrap();
        memory.write_u8(0x2000 + i as u32, byte).unwrap();
    }
    memory.write_u8(0x1004, 0).unwrap();
    memory.write_u8(0x2004, 0).unwrap();

    let result = StringUnit::string_compare(&memory, 0x1000, 0x2000, 10, 1).unwrap();
    assert!(result.equal);
    assert_eq!(result.bytes_processed, 5);
}

#[test]
fn test_string_scan() {
    let mut memory = Ram::new(0x10000);

    let text = b"Hello";
    for (i, &byte) in text.iter().enumerate() {
        memory.write_u8(0x1000 + i as u32, byte).unwrap();
    }
    memory.write_u8(0x1005, 0).unwrap();

    let result = StringUnit::string_scan(&memory, 0x1000, b'l' as u32, 10, 1).unwrap();
    assert!(result.found);
    assert_eq!(result.bytes_processed, 3);
}

#[test]
fn test_string_fill_and_length() {
    let mut memory = Ram::new(0x1000);
    StringUnit::string_fill(&mut memory, 0x100, 0xAB, 8, 1).unwrap();
    for i in 0..8 {
        assert_eq!(memory.read_u8(0x100 + i).unwrap(), 0xAB);
    }
    assert_eq!(memory.read_u8(0x108).unwrap(), 0);

    let length = StringUnit::string_length(&memory, 0x100, 100, 1).unwrap();
    assert_eq!(length, 8);
}

#[test]
fn test_string_compare_mismatch_index() {
    let mut memory = Ram::new(0x1000);
    memory.write_u8(0x10, b'a').unwrap();
    memory.write_u8(0x11, b'b').unwrap();
    memory.write_u8(0x20, b'a').unwrap();
    memory.write_u8(0x21, b'c').unwrap();
    let result = StringUnit::string_compare(&memory, 0x10, 0x20, 10, 1).unwrap();
    assert!(!result.equal);
    assert_eq!(result.bytes_processed, 2);
}

#[test]
fn test_string_unsupported_element_size() {
    let mut memory = Ram::new(0x100);
    assert!(StringUnit::string_move(&mut memory, 0, 0x10, 4, 3).is_err());
    assert!(StringUnit::string_scan(&memory, 0, 1, 4, 0).is_err());
}

#[test]
fn test_string_move_out_of_bounds() {
    let mut memory = Ram::new(0x10);
    memory.write_u8(0x0, 7).unwrap();
    let result = StringUnit::string_move(&mut memory, 0x0, 0x20, 4, 1);
    assert!(result.is_err());
}

#[test]
fn test_string_scan_word_elements() {
    let mut memory = Ram::new(0x100);
    memory.write_u16(0x10, 0x1111).unwrap();
    memory.write_u16(0x12, 0x2222).unwrap();
    memory.write_u16(0x14, 0x3333).unwrap();
    let result = StringUnit::string_scan(&memory, 0x10, 0x3333, 8, 2).unwrap();
    assert!(result.found);
    assert_eq!(result.bytes_processed, 6);
}
