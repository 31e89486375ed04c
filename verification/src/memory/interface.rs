//! The memory interface the processor reads and writes through.
//!
//! A memory is modelled by three spec functions: `mem`, the byte contents;
//! `read_ok` and `write_ok`, which say for which address and width an
//! access succeeds.  Multi-byte values are little-endian.

use vstd::prelude::*;

verus! {

/// Why a memory access failed.
#[derive(Debug, Clone, Copy, PartialEq, Eq, Structural)]
pub enum MemoryError {
    /// The access reaches past the end of the memory.
    OutOfBounds,
    /// The memory rejects writes.
    ReadOnly,
}

/// A 16-bit value read little-endian at offset `a`.
pub open spec fn spec_le16(s: Seq<u8>, a: int) -> u16 {
    (s[a] + s[a + 1] * 0x100) as u16
}

/// A 32-bit value read little-endian at offset `a`.
pub open spec fn spec_le32(s: Seq<u8>, a: int) -> u32 {
    (s[a] + s[a + 1] * 0x100 + s[a + 2] * 0x10000 + s[a + 3] * 0x1000000) as u32
}

/// The contents after a 16-bit little-endian store at offset `a`.
pub open spec fn spec_store16(s: Seq<u8>, a: int, v: u16) -> Seq<u8> {
    s.update(a, (v % 0x100) as u8).update(a + 1, (v / 0x100) as u8)
}

/// The contents after a 32-bit little-endian store at offset `a`.
pub open spec fn spec_store32(s: Seq<u8>, a: int, v: u32) -> Seq<u8> {
    s.update(a, (v % 0x100) as u8).update(a + 1, ((v / 0x100) % 0x100) as u8).update(
        a + 2,
        ((v / 0x10000) % 0x100) as u8,
    ).update(a + 3, (v / 0x1000000) as u8)
}

/// The common interface of every memory the processor can be run against.
///
/// Reads never change the memory.  A write either succeeds, replacing
/// exactly the addressed bytes, or fails and leaves the contents as they
/// were; which accesses succeed never changes over the life of a memory.
pub trait MemoryInterface: Sized {
    /// The byte contents of the memory.
    spec fn mem(&self) -> Seq<u8>;

    /// Whether an `n`-byte read at `address` succeeds.
    spec fn read_ok(&self, address: u32, n: nat) -> bool;

    /// Whether an `n`-byte write at `address` succeeds.
    spec fn write_ok(&self, address: u32, n: nat) -> bool;

    /// Reads one byte.
    fn read_u8(&self, address: u32) -> (r: Result<u8, MemoryError>)
        ensures
            self.read_ok(address, 1) ==> address + 1 <= self.mem().len() && r == Ok::<
                u8,
                MemoryError,
            >(self.mem()[address as int]),
            !self.read_ok(address, 1) ==> r is Err,
    ;

    /// Reads a 16-bit little-endian value.
    fn read_u16(&self, address: u32) -> (r: Result<u16, MemoryError>)
        ensures
            self.read_ok(address, 2) ==> address + 2 <= self.mem().len() && r == Ok::<
                u16,
                MemoryError,
            >(spec_le16(self.mem(), address as int)),
            !self.read_ok(address, 2) ==> r is Err,
    ;

    /// Reads a 32-bit little-endian value.
    fn read_u32(&self, address: u32) -> (r: Result<u32, MemoryError>)
        ensures
            self.read_ok(address, 4) ==> address + 4 <= self.mem().len() && r == Ok::<
                u32,
                MemoryError,
            >(spec_le32(self.mem(), address as int)),
            !self.read_ok(address, 4) ==> r is Err,
    ;

    /// Writes one byte.
    fn write_u8(&mut self, address: u32, value: u8) -> (r: Result<(), MemoryError>)
        ensures
            forall|a: u32, n: nat| #[trigger]
                final(self).read_ok(a, n) == old(self).read_ok(a, n),
            forall|a: u32, n: nat| #[trigger]
                final(self).write_ok(a, n) == old(self).write_ok(a, n),
            final(self).mem().len() == old(self).mem().len(),
            old(self).write_ok(address, 1) ==> address + 1 <= old(self).mem().len() && r is Ok
                && final(self).mem() == old(self).mem().update(address as int, value),
            !old(self).write_ok(address, 1) ==> r is Err && final(self).mem() == old(self).mem(),
    ;

    /// Writes a 16-bit little-endian value.
    fn write_u16(&mut self, address: u32, value: u16) -> (r: Result<(), MemoryError>)
        ensures
            forall|a: u32, n: nat| #[trigger]
                final(self).read_ok(a, n) == old(self).read_ok(a, n),
            forall|a: u32, n: nat| #[trigger]
                final(self).write_ok(a, n) == old(self).write_ok(a, n),
            final(self).mem().len() == old(self).mem().len(),
            old(self).write_ok(address, 2) ==> address + 2 <= old(self).mem().len() && r is Ok
                && final(self).mem() == spec_store16(old(self).mem(), address as int, value),
            !old(self).write_ok(address, 2) ==> r is Err && final(self).mem() == old(self).mem(),
    ;

    /// Writes a 32-bit little-endian value.
    fn write_u32(&mut self, address: u32, value: u32) -> (r: Result<(), MemoryError>)
        ensures
            forall|a: u32, n: nat| #[trigger]
                final(self).read_ok(a, n) == old(self).read_ok(a, n),
            forall|a: u32, n: nat| #[trigger]
                final(self).write_ok(a, n) == old(self).write_ok(a, n),
            final(self).mem().len() == old(self).mem().len(),
            old(self).write_ok(address, 4) ==> address + 4 <= old(self).mem().len() && r is Ok
                && final(self).mem() == spec_store32(old(self).mem(), address as int, value),
            !old(self).write_ok(address, 4) ==> r is Err && final(self).mem() == old(self).mem(),
    ;
}

} // verus!
