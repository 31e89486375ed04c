//! A random-access memory backed by a byte vector.

use vstd::prelude::*;

use crate::memory::interface::MemoryError;
use crate::memory::interface::MemoryInterface;
use crate::memory::interface::spec_store16;
use crate::memory::interface::spec_store32;

verus! {

/// Counters of the accesses a RAM has served; diagnostic only.
#[derive(Debug, Clone, Copy, PartialEq, Eq, Structural)]
pub struct AccessStats {
    /// Number of read operations.
    pub reads: u64,
    /// Number of write operations.
    pub writes: u64,
    /// Bytes read in total.
    pub bytes_read: u64,
    /// Bytes written in total.
    pub bytes_written: u64,
}

/// Access statistics with every counter at zero.
pub open spec fn spec_stats_zero() -> AccessStats {
    AccessStats { reads: 0, writes: 0, bytes_read: 0, bytes_written: 0 }
}

impl AccessStats {
    fn new() -> (r: AccessStats)
        ensures
            r == spec_stats_zero(),
    {
        AccessStats { reads: 0, writes: 0, bytes_read: 0, bytes_written: 0 }
    }

    fn record_write(&mut self, bytes: usize)
        ensures
            *final(self) == (AccessStats {
                writes: vstd::wrapping::u64_specs::wrapping_add(old(self).writes, 1),
                bytes_written: vstd::wrapping::u64_specs::wrapping_add(
                    old(self).bytes_written,
                    bytes as u64,
                ),
                ..*old(self)
            }),
    {
        self.writes = self.writes.wrapping_add(1);
        self.bytes_written = self.bytes_written.wrapping_add(bytes as u64);
    }

    fn reset(&mut self)
        ensures
            *final(self) == spec_stats_zero(),
    {
        self.reads = 0;
        self.writes = 0;
        self.bytes_read = 0;
        self.bytes_written = 0;
    }
}

/// A writable memory of a fixed size, every byte initially zero.
#[derive(Debug, Clone)]
pub struct Ram {
    data: Vec<u8>,
    stats: AccessStats,
}

impl Ram {
    /// The access counters of this RAM.
    pub closed spec fn spec_stats(&self) -> AccessStats {
        self.stats
    }

    /// A zero-filled RAM of `size` bytes.
    pub fn new(size: usize) -> (r: Ram)
        ensures
            r.mem().len() == size,
            forall|i: int| 0 <= i < size ==> r.mem()[i] == 0u8,
            r.spec_stats() == spec_stats_zero(),
    {
        let mut data: Vec<u8> = Vec::new();
        while data.len() < size
            invariant
                data@.len() <= size,
                forall|i: int| 0 <= i < data@.len() ==> data@[i] == 0u8,
            decreases size - data@.len(),
        {
            data.push(0);
        }
        Ram { data, stats: AccessStats::new() }
    }

    /// A RAM holding exactly the given bytes.
    pub fn from_data(data: Vec<u8>) -> (r: Ram)
        ensures
            r.mem() == data@,
            r.spec_stats() == spec_stats_zero(),
    {
        Ram { data, stats: AccessStats::new() }
    }

    /// The size of the RAM in bytes.
    pub fn size(&self) -> (r: usize)
        ensures
            r == self.mem().len(),
    {
        self.data.len()
    }

    /// Clears every byte to zero and resets the access counters.
    pub fn clear(&mut self)
        ensures
            final(self).mem().len() == old(self).mem().len(),
            forall|i: int| 0 <= i < final(self).mem().len() ==> final(self).mem()[i] == 0u8,
            final(self).spec_stats() == spec_stats_zero(),
    {
        let n = self.data.len();
        let mut i: usize = 0;
        while i < n
            invariant
                n == self.data@.len(),
                i <= n,
                forall|j: int| 0 <= j < i ==> self.data@[j] == 0u8,
            decreases n - i,
        {
            self.data[i] = 0;
            i = i + 1;
        }
        self.stats.reset();
    }

    /// Copies `data` into the RAM starting at `offset`; fails without
    /// changing anything when the bytes would not fit.
    pub fn load_data(&mut self, offset: usize, data: &[u8]) -> (r: Result<(), MemoryError>)
        ensures
            final(self).mem().len() == old(self).mem().len(),
            final(self).spec_stats() == old(self).spec_stats(),
            offset + data@.len() <= old(self).mem().len() ==> r is Ok && forall|i: int|
                0 <= i < old(self).mem().len() ==> final(self).mem()[i] == (if offset <= i < offset
                    + data@.len() {
                    data@[i - offset]
                } else {
                    old(self).mem()[i]
                }),
            offset + data@.len() > old(self).mem().len() ==> r == Err::<(), MemoryError>(
                MemoryError::OutOfBounds,
            ) && final(self).mem() == old(self).mem(),
    {
        if data.len() > self.data.len() || offset > self.data.len() - data.len() {
            return Err(MemoryError::OutOfBounds);
        }
        let cap = self.data.len();
        let mut i: usize = 0;
        while i < data.len()
            invariant
                cap == self.data@.len(),
                i <= data@.len(),
                offset + data@.len() <= self.data@.len(),
                self.data@.len() == old(self).mem().len(),
                self.stats == old(self).spec_stats(),
                forall|j: int|
                    0 <= j < self.data@.len() ==> self.data@[j] == (if offset <= j < offset + i {
                        data@[j - offset]
                    } else {
                        old(self).mem()[j]
                    }),
            decreases data@.len() - i,
        {
            self.data[offset + i] = data[i];
            i = i + 1;
        }
        Ok(())
    }

    /// The access counters.
    pub fn get_stats(&self) -> (r: &AccessStats)
        ensures
            *r == self.spec_stats(),
    {
        &self.stats
    }

    /// Reads `size` consecutive bytes; fails when the block reaches past
    /// the end.
    pub fn read_block(&self, address: u32, size: usize) -> (r: Result<Vec<u8>, MemoryError>)
        ensures
            address + size <= self.mem().len() ==> r is Ok && r->Ok_0@ == self.mem().subrange(
                address as int,
                address + size,
            ),
            address + size > self.mem().len() ==> r == Err::<Vec<u8>, MemoryError>(
                MemoryError::OutOfBounds,
            ),
    {
        if size > self.data.len() || (address as usize) > self.data.len() - size {
            return Err(MemoryError::OutOfBounds);
        }
        let base = address as usize;
        let cap = self.data.len();
        let mut out: Vec<u8> = Vec::new();
        let mut i: usize = 0;
        while i < size
            invariant
                cap == self.data@.len(),
                i <= size,
                base == address as int,
                base + size <= self.data@.len(),
                out@.len() == i,
                forall|j: int| 0 <= j < i ==> out@[j] == self.data@[base + j],
            decreases size - i,
        {
            out.push(self.data[base + i]);
            i = i + 1;
        }
        proof {
            assert(out@ =~= self.mem().subrange(address as int, address + size));
        }
        Ok(out)
    }

    /// Writes a block of bytes; fails without changing anything when the
    /// block reaches past the end.
    pub fn write_block(&mut self, address: u32, data: &[u8]) -> (r: Result<(), MemoryError>)
        ensures
            final(self).mem().len() == old(self).mem().len(),
            address + data@.len() <= old(self).mem().len() ==> r is Ok && forall|i: int|
                0 <= i < old(self).mem().len() ==> final(self).mem()[i] == (if address <= i
                    < address + data@.len() {
                    data@[i - address]
                } else {
                    old(self).mem()[i]
                }),
            address + data@.len() > old(self).mem().len() ==> r == Err::<(), MemoryError>(
                MemoryError::OutOfBounds,
            ) && final(self).mem() == old(self).mem() && final(self).spec_stats() == old(
                self,
            ).spec_stats(),
    {
        if data.len() > self.data.len() || (address as usize) > self.data.len() - data.len() {
            return Err(MemoryError::OutOfBounds);
        }
        let base = address as usize;
        let cap = self.data.len();
        let mut i: usize = 0;
        while i < data.len()
            invariant
                cap == self.data@.len(),
                i <= data@.len(),
                base == address as int,
                base + data@.len() <= self.data@.len(),
                self.data@.len() == old(self).mem().len(),
                forall|j: int|
                    0 <= j < self.data@.len() ==> self.data@[j] == (if base <= j < base + i {
                        data@[j - base]
                    } else {
                        old(self).mem()[j]
                    }),
            decreases data@.len() - i,
        {
            self.data[base + i] = data[i];
            i = i + 1;
        }
        self.stats.record_write(data.len());
        Ok(())
    }

    /// Copies a block from `src` to `dst`; the destination receives the
    /// source bytes as they were before the copy, also where the two
    /// regions overlap.  A block that reaches past the end fails, and a
    /// failure changes nothing.
    pub fn copy(&mut self, src: u32, dst: u32, size: usize) -> (r: Result<(), MemoryError>)
        ensures
            final(self).mem().len() == old(self).mem().len(),
            src + size <= old(self).mem().len() && dst + size <= old(self).mem().len() ==> r is Ok
                && forall|i: int|
                0 <= i < old(self).mem().len() ==> final(self).mem()[i] == (if dst <= i < dst
                    + size {
                    old(self).mem()[i - dst + src]
                } else {
                    old(self).mem()[i]
                }),
            src + size > old(self).mem().len() || dst + size > old(self).mem().len() ==> r == Err::<
                (),
                MemoryError,
            >(MemoryError::OutOfBounds) && final(self).mem() == old(self).mem(),
    {
        let data = match self.read_block(src, size) {
            Ok(d) => d,
            Err(e) => {
                return Err(e);
            },
        };
        match self.write_block(dst, data.as_slice()) {
            Ok(_) => Ok(()),
            Err(e) => Err(e),
        }
    }

    /// Fills a region with one byte value; fails without changing anything
    /// when the region reaches past the end.
    pub fn fill(&mut self, address: u32, size: usize, value: u8) -> (r: Result<(), MemoryError>)
        ensures
            final(self).mem().len() == old(self).mem().len(),
            address + size <= old(self).mem().len() ==> r is Ok && forall|i: int|
                0 <= i < old(self).mem().len() ==> final(self).mem()[i] == (if address <= i
                    < address + size {
                    value
                } else {
                    old(self).mem()[i]
                }),
            address + size > old(self).mem().len() ==> r == Err::<(), MemoryError>(
                MemoryError::OutOfBounds,
            ) && final(self).mem() == old(self).mem() && final(self).spec_stats() == old(
                self,
            ).spec_stats(),
    {
        if size > self.data.len() || (address as usize) > self.data.len() - size {
            return Err(MemoryError::OutOfBounds);
        }
        let base = address as usize;
        let cap = self.data.len();
        let mut i: usize = 0;
        while i < size
            invariant
                cap == self.data@.len(),
                i <= size,
                base == address as int,
                base + size <= self.data@.len(),
                self.data@.len() == old(self).mem().len(),
                forall|j: int|
                    0 <= j < self.data@.len() ==> self.data@[j] == (if base <= j < base + i {
                        value
                    } else {
                        old(self).mem()[j]
                    }),
            decreases size - i,
        {
            self.data[base + i] = value;
            i = i + 1;
        }
        self.stats.record_write(size);
        Ok(())
    }
}

impl MemoryInterface for Ram {
    closed spec fn mem(&self) -> Seq<u8> {
        self.data@
    }

    closed spec fn read_ok(&self, address: u32, n: nat) -> bool {
        address + n <= self.data@.len()
    }

    closed spec fn write_ok(&self, address: u32, n: nat) -> bool {
        address + n <= self.data@.len()
    }

    fn read_u8(&self, address: u32) -> (r: Result<u8, MemoryError>) {
        if (address as usize) < self.data.len() {
            Ok(self.data[address as usize])
        } else {
            Err(MemoryError::OutOfBounds)
        }
    }

    fn read_u16(&self, address: u32) -> (r: Result<u16, MemoryError>) {
        if self.data.len() >= 2 && (address as usize) <= self.data.len() - 2 {
            let a = address as usize;
            let low = self.data[a] as u16;
            let high = self.data[a + 1] as u16;
            Ok(low + high * 0x100)
        } else {
            Err(MemoryError::OutOfBounds)
        }
    }

    fn read_u32(&self, address: u32) -> (r: Result<u32, MemoryError>) {
        if self.data.len() >= 4 && (address as usize) <= self.data.len() - 4 {
            let a = address as usize;
            let b0 = self.data[a] as u32;
            let b1 = self.data[a + 1] as u32;
            let b2 = self.data[a + 2] as u32;
            let b3 = self.data[a + 3] as u32;
            Ok(b0 + b1 * 0x100 + b2 * 0x10000 + b3 * 0x1000000)
        } else {
            Err(MemoryError::OutOfBounds)
        }
    }

    fn write_u8(&mut self, address: u32, value: u8) -> (r: Result<(), MemoryError>) {
        if (address as usize) < self.data.len() {
            self.data[address as usize] = value;
            self.stats.record_write(1);
            Ok(())
        } else {
            Err(MemoryError::OutOfBounds)
        }
    }

    fn write_u16(&mut self, address: u32, value: u16) -> (r: Result<(), MemoryError>) {
        if self.data.len() >= 2 && (address as usize) <= self.data.len() - 2 {
            let a = address as usize;
            self.data[a] = (value % 0x100) as u8;
            self.data[a + 1] = (value / 0x100) as u8;
            self.stats.record_write(2);
            proof {
                assert(self.data@ =~= spec_store16(old(self).mem(), address as int, value));
            }
            Ok(())
        } else {
            Err(MemoryError::OutOfBounds)
        }
    }

    fn write_u32(&mut self, address: u32, value: u32) -> (r: Result<(), MemoryError>) {
        if self.data.len() >= 4 && (address as usize) <= self.data.len() - 4 {
            let a = address as usize;
            self.data[a] = (value % 0x100) as u8;
            self.data[a + 1] = ((value / 0x100) % 0x100) as u8;
            self.data[a + 2] = ((value / 0x10000) % 0x100) as u8;
            self.data[a + 3] = (value / 0x1000000) as u8;
            self.stats.record_write(4);
            proof {
                assert(self.data@ =~= spec_store32(old(self).mem(), address as int, value));
            }
            Ok(())
        } else {
            Err(MemoryError::OutOfBounds)
        }
    }
}

} // verus!
