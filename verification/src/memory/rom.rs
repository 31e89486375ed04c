//! A read-only memory with a name, an additive checksum and pattern
//! search.

use vstd::prelude::*;

use crate::memory::interface::MemoryError;
use crate::memory::interface::MemoryInterface;

verus! {

/// A byte of a sequence, or zero past its end.
pub open spec fn spec_byte_or_zero(s: Seq<u8>, i: int) -> int {
    if 0 <= i < s.len() {
        s[i] as int
    } else {
        0
    }
}

/// The little-endian 32-bit word starting at offset `i`, with missing
/// bytes read as zero.
pub open spec fn spec_word_or_zero(s: Seq<u8>, i: int) -> u32 {
    (spec_byte_or_zero(s, i) + spec_byte_or_zero(s, i + 1) * 0x100 + spec_byte_or_zero(s, i + 2)
        * 0x10000 + spec_byte_or_zero(s, i + 3) * 0x1000000) as u32
}

/// The additive checksum of the bytes from offset `i` on: the wrapping
/// 32-bit sum of the little-endian words of each 4-byte chunk, the last
/// chunk padded with zero bytes.
pub open spec fn spec_checksum_from(s: Seq<u8>, i: int) -> u32
    decreases s.len() - i,
{
    if i >= s.len() || i < 0 {
        0u32
    } else if i + 4 <= s.len() {
        ((spec_word_or_zero(s, i) + spec_checksum_from(s, i + 4)) % 0x1_0000_0000) as u32
    } else {
        spec_word_or_zero(s, i)
    }
}

/// The additive checksum of a whole byte sequence.
pub open spec fn spec_checksum(s: Seq<u8>) -> u32 {
    spec_checksum_from(s, 0)
}

/// Whether `pattern` occurs in `data` starting at offset `i`.
pub open spec fn spec_match_at(data: Seq<u8>, pattern: Seq<u8>, i: int) -> bool {
    &&& 0 <= i
    &&& i + pattern.len() <= data.len()
    &&& forall|j: int| 0 <= j < pattern.len() ==> data[i + j] == pattern[j]
}

/// A read-only memory.
#[derive(Debug, Clone)]
pub struct Rom {
    data: Vec<u8>,
    name: String,
    checksum: u32,
}

/// A summary of a ROM: its name, size, checksum and whether the stored
/// checksum matches the bytes.
#[derive(Debug, Clone)]
pub struct RomInfo {
    /// The name of the ROM.
    pub name: String,
    /// The size in bytes.
    pub size: usize,
    /// The stored checksum.
    pub checksum: u32,
    /// Whether the stored checksum matches the bytes.
    pub is_valid: bool,
}

impl Rom {
    /// The stored checksum, as recorded at construction.
    pub closed spec fn spec_checksum_field(&self) -> u32 {
        self.checksum
    }

    /// The name of the ROM.
    pub closed spec fn spec_name(&self) -> Seq<char> {
        self.name@
    }

    /// Computes the additive checksum of a byte slice.
    fn calculate_checksum(data: &[u8]) -> (r: u32)
        ensures
            r == spec_checksum(data@),
    {
        let n = data.len();
        let ghost s = data@;
        let mut i: usize = 0;
        let mut acc: u32 = 0;
        while i < n
            invariant
                n == s.len(),
                s == data@,
                i <= n,
                ((acc + spec_checksum_from(s, i as int)) % 0x1_0000_0000) as u32 == spec_checksum(
                    s,
                ),
            decreases n - i,
        {
            let b0 = data[i] as u32;
            let b1 = if n - i > 1 {
                data[i + 1] as u32
            } else {
                0
            };
            let b2 = if n - i > 2 {
                data[i + 2] as u32
            } else {
                0
            };
            let b3 = if n - i > 3 {
                data[i + 3] as u32
            } else {
                0
            };
            let word = b0 + b1 as u32 * 0x100 + b2 * 0x10000 + b3 * 0x1000000;
            proof {
                assert(word == spec_word_or_zero(s, i as int));
            }
            let ghost old_acc = acc;
            acc = ((acc as u64 + word as u64) % 0x1_0000_0000) as u32;
            if n - i < 4 {
                proof {
                    assert(spec_checksum_from(s, i as int) == spec_word_or_zero(s, i as int));
                    assert(acc == spec_checksum(s));
                    assert(spec_checksum_from(s, n as int) == 0);
                    vstd::arithmetic::div_mod::lemma_small_mod(acc as nat, 0x1_0000_0000);
                }
                i = n;
            } else {
                proof {
                    let rest = spec_checksum_from(s, i + 4) as int;
                    let rec_i = spec_checksum_from(s, i as int) as int;
                    assert(rec_i == (word + rest) % 0x1_0000_0000);
                    vstd::arithmetic::div_mod::lemma_add_mod_noop(
                        old_acc + word,
                        rest,
                        0x1_0000_0000,
                    );
                    vstd::arithmetic::div_mod::lemma_small_mod(rest as nat, 0x1_0000_0000);
                    assert((acc + rest % 0x1_0000_0000) % 0x1_0000_0000 == (old_acc + word + rest)
                        % 0x1_0000_0000);
                    vstd::arithmetic::div_mod::lemma_add_mod_noop(
                        old_acc as int,
                        word + rest,
                        0x1_0000_0000,
                    );
                    vstd::arithmetic::div_mod::lemma_small_mod(old_acc as nat, 0x1_0000_0000);
                    assert((old_acc + word + rest) % 0x1_0000_0000 == (old_acc + rec_i)
                        % 0x1_0000_0000);
                }
                i = i + 4;
            }
        }
        proof {
            assert(spec_checksum_from(s, i as int) == 0);
            vstd::arithmetic::div_mod::lemma_small_mod(acc as nat, 0x1_0000_0000);
        }
        acc
    }

    /// A ROM over the given bytes, with an empty name; the checksum is
    /// computed and stored.
    pub fn new(data: Vec<u8>) -> (r: Rom)
        ensures
            r.mem() == data@,
            r.spec_name() == Seq::<char>::empty(),
            r.spec_checksum_field() == spec_checksum(data@),
    {
        let checksum = Self::calculate_checksum(data.as_slice());
        Rom { data, name: String::new(), checksum }
    }

    /// A ROM over the given bytes with a name.
    pub fn with_name(data: Vec<u8>, name: String) -> (r: Rom)
        ensures
            r.mem() == data@,
            r.spec_name() == name@,
            r.spec_checksum_field() == spec_checksum(data@),
    {
        let mut rom = Self::new(data);
        rom.name = name;
        rom
    }

    /// The size of the ROM in bytes.
    pub fn size(&self) -> (r: usize)
        ensures
            r == self.mem().len(),
    {
        self.data.len()
    }

    /// The name of the ROM.
    pub fn name(&self) -> (r: &str)
        ensures
            r@ == self.spec_name(),
    {
        self.name.as_str()
    }

    /// The stored checksum.
    pub fn checksum(&self) -> (r: u32)
        ensures
            r == self.spec_checksum_field(),
    {
        self.checksum
    }

    /// Recomputes the checksum and compares it with the stored one.
    pub fn verify_integrity(&self) -> (r: bool)
        ensures
            r == (spec_checksum(self.mem()) == self.spec_checksum_field()),
    {
        Self::calculate_checksum(self.data.as_slice()) == self.checksum
    }

    /// Every offset at which the pattern occurs, in increasing order; an
    /// empty or oversized pattern matches nowhere.
    pub fn find_pattern(&self, pattern: &[u8]) -> (r: Vec<usize>)
        ensures
            pattern@.len() == 0 || pattern@.len() > self.mem().len() ==> r@ == Seq::<
                usize,
            >::empty(),
            pattern@.len() > 0 && pattern@.len() <= self.mem().len() ==> {
                &&& forall|k: int|
                    0 <= k < r@.len() ==> spec_match_at(self.mem(), pattern@, r@[k] as int)
                &&& forall|i: int|
                    0 <= i <= self.mem().len() - pattern@.len() && spec_match_at(
                        self.mem(),
                        pattern@,
                        i,
                    ) ==> r@.contains(i as usize)
                &&& forall|k: int| 0 <= k < r@.len() - 1 ==> #[trigger] r@[k] < r@[k + 1]
            },
    {
        let mut matches: Vec<usize> = Vec::new();
        if pattern.len() == 0 || pattern.len() > self.data.len() {
            return matches;
        }
        let dlen = self.data.len();
        let plen = pattern.len();
        let last = dlen - plen;
        let mut i: usize = 0;
        while i <= last
            invariant
                dlen == self.data@.len(),
                plen == pattern@.len(),
                plen >= 1,
                plen <= dlen,
                last == dlen - plen,
                i <= last + 1,
                forall|k: int|
                    0 <= k < matches@.len() ==> spec_match_at(
                        self.data@,
                        pattern@,
                        matches@[k] as int,
                    ),
                forall|j: int|
                    0 <= j < i && spec_match_at(self.data@, pattern@, j) ==> matches@.contains(
                        j as usize,
                    ),
                forall|k: int| 0 <= k < matches@.len() ==> matches@[k] < i,
                forall|k: int|
                    0 <= k < matches@.len() - 1 ==> #[trigger] matches@[k] < matches@[k + 1],
            decreases last + 1 - i,
        {
            let mut j: usize = 0;
            let mut is_match = true;
            while j < plen && is_match
                invariant
                    dlen == self.data@.len(),
                    plen == pattern@.len(),
                    i + plen <= dlen,
                    j <= plen,
                    is_match ==> (forall|t: int| 0 <= t < j ==> self.data@[i + t] == pattern@[t]),
                    !is_match ==> !spec_match_at(self.data@, pattern@, i as int),
                decreases plen - j,
            {
                if self.data[i + j] != pattern[j] {
                    is_match = false;
                }
                j = j + 1;
            }
            let ghost old_matches = matches@;
            if is_match {
                proof {
                    assert(spec_match_at(self.data@, pattern@, i as int));
                }
                matches.push(i);
                proof {
                    assert(matches@ == old_matches.push(i));
                    assert forall|j: int|
                        0 <= j < i + 1 && spec_match_at(
                            self.data@,
                            pattern@,
                            j,
                        ) implies matches@.contains(j as usize) by {
                        if j < i {
                            let k = choose|k: int|
                                0 <= k < old_matches.len() && old_matches[k] == j as usize;
                            assert(matches@[k] == j as usize);
                        } else {
                            assert(matches@[matches@.len() - 1] == i);
                        }
                    }
                }
            } else {
                proof {
                    assert forall|j: int|
                        0 <= j < i + 1 && spec_match_at(
                            self.data@,
                            pattern@,
                            j,
                        ) implies matches@.contains(j as usize) by {
                        if j < i {
                            let k = choose|k: int|
                                0 <= k < old_matches.len() && old_matches[k] == j as usize;
                            assert(matches@[k] == j as usize);
                        }
                    }
                }
            }
            i = i + 1;
        }
        matches
    }

    /// A summary of the ROM.
    pub fn get_info(&self) -> (r: RomInfo)
        ensures
            r.name@ == self.spec_name(),
            r.size == self.mem().len(),
            r.checksum == self.spec_checksum_field(),
            r.is_valid == (spec_checksum(self.mem()) == self.spec_checksum_field()),
    {
        RomInfo {
            name: self.name.clone(),
            size: self.data.len(),
            checksum: self.checksum,
            is_valid: self.verify_integrity(),
        }
    }

    /// Reads `size` consecutive bytes; fails when the block reaches past
    /// the end.
    pub fn read_block(&self, address: u32, size: usize) -> (r: Result<Vec<u8>, MemoryError>)
        ensures
            address + size <= self.mem().len() ==> r is Ok && r->Ok_0@ == self.mem().subrange(
                address as int,
                address + size,
            ),
            address + size > self.mem().len() ==> r == Err::<Vec<u8>, MemoryError>(
                MemoryError::OutOfBounds,
            ),
    {
        if size > self.data.len() || (address as usize) > self.data.len() - size {
            return Err(MemoryError::OutOfBounds);
        }
        let base = address as usize;
        let cap = self.data.len();
        let mut out: Vec<u8> = Vec::new();
        let mut i: usize = 0;
        while i < size
            invariant
                cap == self.data@.len(),
                i <= size,
                base == address as int,
                base + size <= self.data@.len(),
                out@.len() == i,
                forall|j: int| 0 <= j < i ==> out@[j] == self.data@[base + j],
            decreases size - i,
        {
            out.push(self.data[base + i]);
            i = i + 1;
        }
        proof {
            assert(out@ =~= self.mem().subrange(address as int, address + size));
        }
        Ok(out)
    }
}

impl MemoryInterface for Rom {
    closed spec fn mem(&self) -> Seq<u8> {
        self.data@
    }

    closed spec fn read_ok(&self, address: u32, n: nat) -> bool {
        address + n <= self.data@.len()
    }

    closed spec fn write_ok(&self, address: u32, n: nat) -> bool {
        false
    }

    fn read_u8(&self, address: u32) -> (r: Result<u8, MemoryError>) {
        if (address as usize) < self.data.len() {
            Ok(self.data[address as usize])
        } else {
            Err(MemoryError::OutOfBounds)
        }
    }

    fn read_u16(&self, address: u32) -> (r: Result<u16, MemoryError>) {
        if self.data.len() >= 2 && (address as usize) <= self.data.len() - 2 {
            let a = address as usize;
            let low = self.data[a] as u16;
            let high = self.data[a + 1] as u16;
            Ok(low + high * 0x100)
        } else {
            Err(MemoryError::OutOfBounds)
        }
    }

    fn read_u32(&self, address: u32) -> (r: Result<u32, MemoryError>) {
        if self.data.len() >= 4 && (address as usize) <= self.data.len() - 4 {
            let a = address as usize;
            let b0 = self.data[a] as u32;
            let b1 = self.data[a + 1] as u32;
            let b2 = self.data[a + 2] as u32;
            let b3 = self.data[a + 3] as u32;
            Ok(b0 + b1 * 0x100 + b2 * 0x10000 + b3 * 0x1000000)
        } else {
            Err(MemoryError::OutOfBounds)
        }
    }

    fn write_u8(&mut self, address: u32, value: u8) -> (r: Result<(), MemoryError>) {
        Err(MemoryError::ReadOnly)
    }

    fn write_u16(&mut self, address: u32, value: u16) -> (r: Result<(), MemoryError>) {
        Err(MemoryError::ReadOnly)
    }

    fn write_u32(&mut self, address: u32, value: u32) -> (r: Result<(), MemoryError>) {
        Err(MemoryError::ReadOnly)
    }
}

} // verus!
