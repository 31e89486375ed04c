//! The byte-addressable memory abstraction consumed by the processor, with
//! two concrete memories (RAM and ROM) and the platform's address-space map.

pub mod interface;
pub mod mapping;
pub mod ram;
pub mod rom;

pub use interface::MemoryError;
pub use interface::MemoryInterface;
pub use mapping::MemoryMap;
pub use mapping::MemoryMapEntry;
pub use mapping::MemoryRegion;
pub use ram::AccessStats;
pub use ram::Ram;
pub use rom::Rom;
pub use rom::RomInfo;
