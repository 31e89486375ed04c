//! Instruction-level emulation of a 32-bit CISC arcade processor.
//!
//! The crate is split in two halves: `cpu` holds the register file, the
//! instruction decoder, the compute units and the executor; `memory` holds
//! the byte-addressable memory abstraction the executor reads and writes
//! through, together with two concrete memories (RAM and ROM) and the
//! address-space map of the platform.

pub mod cpu;
pub mod memory;
