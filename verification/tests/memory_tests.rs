//! Tests of the RAM, the ROM and the address-space map.

use pixel_model2_rust::memory::MemoryError;
use pixel_model2_rust::memory::MemoryInterface;
use pixel_model2_rust::memory::MemoryMap;
use pixel_model2_rust::memory::MemoryMapEntry;
use pixel_model2_rust::memory::MemoryRegion;
use pixel_model2_rust::memory::Ram;
use pixel_model2_rust::memory::Rom;

#[test]
fn test_ram_read_write_little_endian() {
    let mut ram = Ram::new(0x100);
    ram.write_u32(0x10, 0xCAFEBABE).unwrap();
    assert_eq!(ram.read_u32(0x10).unwrap(), 0xCAFEBABE);
    assert_eq!(ram.read_u8(0x10).unwrap(), 0xBE);
    assert_eq!(ram.read_u8(0x13).unwrap(), 0xCA);
    assert_eq!(ram.read_u16(0x12).unwrap(), 0xCAFE);

    ram.write_u16(0x20, 0x1234).unwrap();
    assert_eq!(ram.read_u8(0x20).unwrap(), 0x34);
    assert_eq!(ram.read_u8(0x21).unwrap(), 0x12);
}

#[test]
fn test_ram_out_of_bounds() {
    let mut ram = Ram::new(0x10);
    assert_eq!(ram.read_u8(0x10), Err(MemoryError::OutOfBounds));
    assert_eq!(ram.read_u32(0x0D), Err(MemoryError::OutOfBounds));
    assert_eq!(ram.write_u32(0x0D, 1), Err(MemoryError::OutOfBounds));
    assert!(ram.read_u32(0x0C).is_ok());
}

#[test]
fn test_ram_clear_and_load() {
    let mut ram = Ram::new(0x20);
    ram.load_data(4, &[1, 2, 3]).unwrap();
    assert_eq!(ram.read_u8(4).unwrap(), 1);
    assert_eq!(ram.read_u8(6).unwrap(), 3);
    assert!(ram.load_data(0x1E, &[1, 2, 3]).is_err());
    ram.clear();
    assert_eq!(ram.read_u8(4).unwrap(), 0);
    assert_eq!(ram.size(), 0x20);
}

#[test]
fn test_ram_blocks() {
    let mut ram = Ram::new(0x40);
    ram.write_block(0x10, &[9, 8, 7, 6]).unwrap();
    assert_eq!(ram.read_block(0x10, 4).unwrap(), vec![9, 8, 7, 6]);
    ram.fill(0x20, 4, 0x5A).unwrap();
    assert_eq!(ram.read_block(0x20, 4).unwrap(), vec![0x5A; 4]);
    assert!(ram.read_block(0x3E, 4).is_err());
}

#[test]
fn test_rom_is_read_only() {
    let mut rom = Rom::new(vec![1, 2, 3, 4]);
    assert_eq!(rom.read_u8(0).unwrap(), 1);
    assert_eq!(rom.read_u32(0).unwrap(), 0x04030201);
    assert_eq!(rom.write_u8(0, 9), Err(MemoryError::ReadOnly));
    assert_eq!(rom.write_u32(0, 9), Err(MemoryError::ReadOnly));
    assert_eq!(rom.read_u8(0).unwrap(), 1);
}

#[test]
fn test_rom_checksum_and_info() {
    let rom = Rom::with_name(vec![1, 0, 0, 0, 2, 0, 0, 0], String::from("prog"));
    assert_eq!(rom.checksum(), 3);
    assert!(rom.verify_integrity());
    assert_eq!(rom.name(), "prog");
    assert_eq!(rom.size(), 8);
    let info = rom.get_info();
    assert_eq!(info.checksum, 3);
    assert!(info.is_valid);
    assert_eq!(info.size, 8);

    // A partial trailing chunk is padded with zero bytes.
    let short = Rom::new(vec![5, 0, 0, 0, 1]);
    assert_eq!(short.checksum(), 6);
}

#[test]
fn test_rom_find_pattern() {
    let rom = Rom::new(vec![0xAA, 0xBB, 0xAA, 0xBB, 0xAA]);
    assert_eq!(rom.find_pattern(&[0xAA, 0xBB]), vec![0, 2]);
    assert_eq!(rom.find_pattern(&[0xAA]), vec![0, 2, 4]);
    assert_eq!(rom.find_pattern(&[0xCC]), Vec::<usize>::new());
    assert_eq!(rom.find_pattern(&[]), Vec::<usize>::new());
}

#[test]
fn test_memory_map_entries() {
    let entry = MemoryMapEntry::new(0x1000, 0x2000, MemoryRegion::MainRam, 0, 0x800, true);
    assert!(entry.contains(0x1000));
    assert!(entry.contains(0x1FFF));
    assert!(!entry.contains(0x2000));
    // Addresses fold onto the region's real size, mirroring it.
    assert_eq!(entry.to_local_offset(0x1000), Some(0));
    assert_eq!(entry.to_local_offset(0x1800), Some(0));
    assert_eq!(entry.to_local_offset(0x1801), Some(1));
    assert_eq!(entry.to_local_offset(0x2000), None);
}

#[test]
fn test_memory_map_resolve() {
    let map = MemoryMap::new_model2();
    assert_eq!(map.resolve(0x0000_0000), Some((MemoryRegion::MainRam, 0)));
    assert_eq!(map.resolve(0x0080_0004), Some((MemoryRegion::MainRam, 4)));
    assert_eq!(
        map.resolve(0x0200_0010),
        Some((MemoryRegion::ProgramRom, 0x10))
    );
    assert_eq!(
        map.resolve(0x1040_0000),
        Some((MemoryRegion::VideoRam, 0))
    );
    assert_eq!(
        map.resolve(0xF000_0004),
        Some((MemoryRegion::IoRegisters, 4))
    );
    assert_eq!(map.resolve(0x0500_0000), None);
}

#[test]
fn test_memory_map_writable() {
    let map = MemoryMap::new_model2();
    assert!(map.is_writable(0x0000_1000));
    assert!(!map.is_writable(0x0200_0000));
    assert!(!map.is_writable(0x2000_0000));
    assert!(!map.is_writable(0x0500_0000));
    assert!(map.is_writable(0x3000_0000));
}

#[test]
fn test_memory_map_listing() {
    let map = MemoryMap::new_model2();
    let regions = map.list_regions();
    assert_eq!(regions.len(), 9);
    assert_eq!(regions[0], (MemoryRegion::MainRam, 0x0000_0000, 0x0080_0000));
    assert_eq!(
        regions[8],
        (MemoryRegion::IoRegisters, 0xF000_0000, 0xF000_1000)
    );
    let info = map.get_region_info(0x2000_0000).unwrap();
    assert_eq!(info.region, MemoryRegion::GraphicsRom);
    assert!(map.get_region_info(0x0500_0000).is_none());
}

#[test]
fn test_ram_access_stats() {
    let mut ram = Ram::new(0x10);
    ram.write_u8(0, 1).unwrap();
    ram.write_u32(4, 2).unwrap();
    let stats = ram.get_stats();
    assert_eq!(stats.writes, 2);
    assert_eq!(stats.bytes_written, 5);
}

#[test]
fn test_ram_copy_overlapping() {
    let mut ram = Ram::new(0x20);
    ram.write_block(0, &[1, 2, 3, 4]).unwrap();
    ram.copy(0, 2, 4).unwrap();
    // The destination received the source bytes as they were before.
    assert_eq!(ram.read_block(0, 6).unwrap(), vec![1, 2, 1, 2, 3, 4]);
    assert!(ram.copy(0, 0x1E, 4).is_err());
}
