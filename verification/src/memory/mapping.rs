//! The address-space map of the platform: which global address ranges
//! belong to which memory region, with mirroring and write protection.

use vstd::prelude::*;

verus! {

/// The memory regions of the platform.
#[derive(Debug, Clone, Copy, PartialEq, Eq, Structural)]
pub enum MemoryRegion {
    /// Main work RAM.
    MainRam,
    /// Video RAM.
    VideoRam,
    /// Audio RAM.
    AudioRam,
    /// The main program ROM.
    ProgramRom,
    /// The graphics ROM.
    GraphicsRom,
    /// The audio ROM.
    AudioRom,
    /// Memory-mapped peripheral registers.
    IoRegisters,
}

/// One mapped address range: global addresses `start..end` reach `region`
/// at `offset`, folded onto the region's real `size` (which mirrors the
/// region across a larger range).
#[derive(Debug, Clone, Copy, PartialEq, Eq, Structural)]
pub struct MemoryMapEntry {
    /// First global address of the range.
    pub start: u32,
    /// First global address past the range.
    pub end: u32,
    /// The region the range reaches.
    pub region: MemoryRegion,
    /// Offset added within the region.
    pub offset: u32,
    /// The real size of the region in bytes; never zero.
    pub size: u32,
    /// Whether the range accepts writes.
    pub writable: bool,
}

/// Whether a global address falls in the entry's range.
pub open spec fn spec_entry_contains(e: MemoryMapEntry, address: u32) -> bool {
    e.start <= address < e.end
}

/// The local offset a global address reaches inside the entry's region:
/// the distance from the range's start plus the entry's offset, folded
/// onto the region's size.
pub open spec fn spec_entry_local_offset(e: MemoryMapEntry, address: u32) -> u32 {
    (((address - e.start + e.offset) % 0x1_0000_0000) % (e.size as int)) as u32
}

impl MemoryMapEntry {
    /// Builds a map entry.
    pub fn new(start: u32, end: u32, region: MemoryRegion, offset: u32, size: u32, writable: bool)
        -> (r: MemoryMapEntry)
        requires
            size > 0,
        ensures
            r == (MemoryMapEntry { start, end, region, offset, size, writable }),
    {
        MemoryMapEntry { start, end, region, offset, size, writable }
    }

    /// Whether a global address falls in this range.
    pub fn contains(&self, address: u32) -> (r: bool)
        ensures
            r == spec_entry_contains(*self, address),
    {
        address >= self.start && address < self.end
    }

    /// The local offset the address reaches, or nothing when the address
    /// is outside the range.
    pub fn to_local_offset(&self, address: u32) -> (r: Option<u32>)
        requires
            self.size > 0,
        ensures
            spec_entry_contains(*self, address) ==> r == Some(
                spec_entry_local_offset(*self, address),
            ),
            !spec_entry_contains(*self, address) ==> r is None,
    {
        if !self.contains(address) {
            return None;
        }
        let local = (address - self.start).wrapping_add(self.offset);
        Some(local % self.size)
    }
}

/// An ordered table of map entries; every entry has a non-zero region
/// size, and the table is kept sorted by start address.
#[derive(Debug)]
pub struct MemoryMap {
    entries: Vec<MemoryMapEntry>,
}

/// Every entry of the sequence has a non-zero region size.
pub open spec fn spec_entries_sized(s: Seq<MemoryMapEntry>) -> bool {
    forall|k: int| 0 <= k < s.len() ==> (#[trigger] s[k]).size > 0
}

/// The sequence is sorted by start address.
pub open spec fn spec_entries_sorted(s: Seq<MemoryMapEntry>) -> bool {
    forall|j: int, k: int| 0 <= j < k < s.len() ==> s[j].start <= s[k].start
}

/// The index of the first entry whose range holds the address, if any.
pub open spec fn spec_first_hit(s: Seq<MemoryMapEntry>, address: u32) -> Option<int> {
    if exists|k: int| 0 <= k < s.len() && spec_entry_contains(s[k], address) {
        Some(
            choose|k: int|
                0 <= k < s.len() && spec_entry_contains(s[k], address) && forall|j: int|
                    0 <= j < k ==> !spec_entry_contains(s[j], address),
        )
    } else {
        None
    }
}

impl MemoryMap {
    /// The entries of the map, in table order.
    pub closed spec fn spec_entries(&self) -> Seq<MemoryMapEntry> {
        self.entries@
    }

    /// The map's invariant: every entry has a non-zero region size and
    /// the table is sorted by start address.
    pub open spec fn wf(&self) -> bool {
        spec_entries_sized(self.spec_entries()) && spec_entries_sorted(self.spec_entries())
    }

    /// An empty map.
    pub fn new() -> (r: MemoryMap)
        ensures
            r.spec_entries() == Seq::<MemoryMapEntry>::empty(),
            r.wf(),
    {
        MemoryMap { entries: Vec::new() }
    }

    /// Adds an entry, keeping the table sorted by start address; among
    /// equal start addresses the new entry goes last.
    pub fn add_entry(&mut self, entry: MemoryMapEntry)
        requires
            old(self).wf(),
            entry.size > 0,
        ensures
            final(self).wf(),
            ({
                let s = old(self).spec_entries();
                let t = final(self).spec_entries();
                exists|p: int|
                    0 <= p <= s.len() && (forall|j: int| 0 <= j < p ==> s[j].start <= entry.start)
                        && (p < s.len() ==> s[p].start > entry.start) && t == #[trigger] s.insert(
                        p,
                        entry,
                    )
            }),
    {
        let mut pos: usize = 0;
        while pos < self.entries.len() && self.entries[pos].start <= entry.start
            invariant
                pos <= self.entries@.len(),
                forall|j: int| 0 <= j < pos ==> self.entries@[j].start <= entry.start,
            decreases self.entries@.len() - pos,
        {
            pos = pos + 1;
        }
        proof {
            assert forall|k: int|
                pos <= k < self.entries@.len() implies self.entries@[k].start > entry.start by {
                if k == pos {
                } else {
                    assert(self.entries@[pos as int].start <= self.entries@[k].start);
                }
            }
        }
        let ghost before = self.entries@;
        self.entries.insert(pos, entry);
        proof {
            before.insert_ensures(pos as int, entry);
            assert(self.entries@ == before.insert(pos as int, entry));
            assert(spec_entries_sized(self.entries@)) by {
                assert forall|k: int|
                    0 <= k < self.entries@.len() implies (#[trigger] self.entries@[k]).size
                    > 0 by {
                    if k < pos {
                        assert(self.entries@[k] == before[k]);
                    } else if k > pos {
                        assert(self.entries@[k] == before[k - 1]);
                    }
                }
            }
            assert(spec_entries_sorted(self.entries@)) by {
                assert forall|j: int, k: int|
                    0 <= j < k < self.entries@.len() implies self.entries@[j].start
                    <= self.entries@[k].start by {
                    if j < pos {
                        assert(self.entries@[j] == before[j]);
                    } else if j > pos {
                        assert(self.entries@[j] == before[j - 1]);
                    }
                    if k < pos {
                        assert(self.entries@[k] == before[k]);
                    } else if k > pos {
                        assert(self.entries@[k] == before[k - 1]);
                    }
                }
            }
        }
    }

    /// The standard address map of the platform: main RAM with a mirror,
    /// program ROM, video RAM with a mirror, graphics ROM, audio RAM and
    /// ROM, and the peripheral register window.
    pub fn new_model2() -> (r: MemoryMap)
        ensures
            r.wf(),
    {
        let mut map = MemoryMap::new();
        map.add_entry(
            MemoryMapEntry::new(0x0000_0000, 0x0080_0000, MemoryRegion::MainRam, 0, 0x0080_0000, true),
        );
        map.add_entry(
            MemoryMapEntry::new(0x0080_0000, 0x0100_0000, MemoryRegion::MainRam, 0, 0x0080_0000, true),
        );
        map.add_entry(
            MemoryMapEntry::new(
                0x0200_0000,
                0x0280_0000,
                MemoryRegion::ProgramRom,
                0,
                0x0080_0000,
                false,
            ),
        );
        map.add_entry(
            MemoryMapEntry::new(
                0x1000_0000,
                0x1040_0000,
                MemoryRegion::VideoRam,
                0,
                0x0040_0000,
                true,
            ),
        );
        map.add_entry(
            MemoryMapEntry::new(
                0x1040_0000,
                0x1080_0000,
                MemoryRegion::VideoRam,
                0,
                0x0040_0000,
                true,
            ),
        );
        map.add_entry(
            MemoryMapEntry::new(
                0x2000_0000,
                0x2400_0000,
                MemoryRegion::GraphicsRom,
                0,
                0x0400_0000,
                false,
            ),
        );
        map.add_entry(
            MemoryMapEntry::new(
                0x3000_0000,
                0x3008_0000,
                MemoryRegion::AudioRam,
                0,
                0x0008_0000,
                true,
            ),
        );
        map.add_entry(
            MemoryMapEntry::new(
                0x3100_0000,
                0x3180_0000,
                MemoryRegion::AudioRom,
                0,
                0x0080_0000,
                false,
            ),
        );
        map.add_entry(
            MemoryMapEntry::new(
                0xF000_0000,
                0xF000_1000,
                MemoryRegion::IoRegisters,
                0,
                0x0000_1000,
                true,
            ),
        );
        map
    }

    /// Resolves a global address to its region and local offset, through
    /// the first entry whose range holds it; unmapped addresses resolve
    /// to nothing.
    pub fn resolve(&self, address: u32) -> (r: Option<(MemoryRegion, u32)>)
        requires
            self.wf(),
        ensures
            (match spec_first_hit(self.spec_entries(), address) {
                Some(k) => r == Some(
                    (
                        self.spec_entries()[k].region,
                        spec_entry_local_offset(self.spec_entries()[k], address),
                    ),
                ),
                None => r is None,
            }),
    {
        let n = self.entries.len();
        let mut k: usize = 0;
        while k < n
            invariant
                n == self.entries@.len(),
                k <= n,
                self.wf(),
                forall|j: int| 0 <= j < k ==> !spec_entry_contains(self.entries@[j], address),
            decreases n - k,
        {
            let e = self.entries[k];
            if e.contains(address) {
                let offset = match e.to_local_offset(address) {
                    Some(o) => o,
                    None => 0,
                };
                proof {
                    assert(spec_first_hit(self.entries@, address) == Some(k as int)) by {
                        let w = choose|w: int|
                            0 <= w < self.entries@.len() && spec_entry_contains(
                                self.entries@[w],
                                address,
                            ) && forall|j: int|
                                0 <= j < w ==> !spec_entry_contains(self.entries@[j], address);
                        assert(spec_entry_contains(self.entries@[k as int], address));
                        if w != k {
                            if w < k {
                                assert(!spec_entry_contains(self.entries@[w], address));
                            } else {
                                assert(!spec_entry_contains(self.entries@[k as int], address));
                            }
                        }
                    }
                }
                return Some((e.region, offset));
            }
            k = k + 1;
        }
        None
    }

    /// Whether a write to the address is accepted: the first entry whose
    /// range holds it decides; unmapped addresses are not writable.
    pub fn is_writable(&self, address: u32) -> (r: bool)
        requires
            self.wf(),
        ensures
            (match spec_first_hit(self.spec_entries(), address) {
                Some(k) => r == self.spec_entries()[k].writable,
                None => r == false,
            }),
    {
        let n = self.entries.len();
        let mut k: usize = 0;
        while k < n
            invariant
                n == self.entries@.len(),
                k <= n,
                self.wf(),
                forall|j: int| 0 <= j < k ==> !spec_entry_contains(self.entries@[j], address),
            decreases n - k,
        {
            let e = self.entries[k];
            if e.contains(address) {
                proof {
                    assert(spec_entry_contains(self.entries@[k as int], address));
                    let w = choose|w: int|
                        0 <= w < self.entries@.len() && spec_entry_contains(
                            self.entries@[w],
                            address,
                        ) && forall|j: int|
                            0 <= j < w ==> !spec_entry_contains(self.entries@[j], address);
                    if w != k {
                        if w < k {
                            assert(!spec_entry_contains(self.entries@[w], address));
                        } else {
                            assert(!spec_entry_contains(self.entries@[k as int], address));
                        }
                    }
                }
                return e.writable;
            }
            k = k + 1;
        }
        false
    }

    /// The first entry whose range holds the address, if any.
    pub fn get_region_info(&self, address: u32) -> (r: Option<&MemoryMapEntry>)
        requires
            self.wf(),
        ensures
            (match spec_first_hit(self.spec_entries(), address) {
                Some(k) => r == Some(&self.spec_entries()[k]),
                None => r is None,
            }),
    {
        let n = self.entries.len();
        let mut k: usize = 0;
        while k < n
            invariant
                n == self.entries@.len(),
                k <= n,
                self.wf(),
                forall|j: int| 0 <= j < k ==> !spec_entry_contains(self.entries@[j], address),
            decreases n - k,
        {
            if self.entries[k].contains(address) {
                proof {
                    assert(spec_entry_contains(self.entries@[k as int], address));
                    let w = choose|w: int|
                        0 <= w < self.entries@.len() && spec_entry_contains(
                            self.entries@[w],
                            address,
                        ) && forall|j: int|
                            0 <= j < w ==> !spec_entry_contains(self.entries@[j], address);
                    if w != k {
                        if w < k {
                            assert(!spec_entry_contains(self.entries@[w], address));
                        } else {
                            assert(!spec_entry_contains(self.entries@[k as int], address));
                        }
                    }
                }
                return Some(&self.entries[k]);
            }
            k = k + 1;
        }
        None
    }

    /// Every mapped range: region, start and end, in table order.
    pub fn list_regions(&self) -> (r: Vec<(MemoryRegion, u32, u32)>)
        ensures
            r@.len() == self.spec_entries().len(),
            forall|k: int|
                0 <= k < r@.len() ==> r@[k] == (
                    self.spec_entries()[k].region,
                    self.spec_entries()[k].start,
                    self.spec_entries()[k].end,
                ),
    {
        let n = self.entries.len();
        let mut out: Vec<(MemoryRegion, u32, u32)> = Vec::new();
        let mut k: usize = 0;
        while k < n
            invariant
                n == self.entries@.len(),
                k <= n,
                out@.len() == k,
                forall|j: int|
                    0 <= j < k ==> out@[j] == (
                        self.entries@[j].region,
                        self.entries@[j].start,
                        self.entries@[j].end,
                    ),
            decreases n - k,
        {
            let e = self.entries[k];
            out.push((e.region, e.start, e.end));
            k = k + 1;
        }
        out
    }
}

impl Default for MemoryMap {
    /// The empty map.
    fn default() -> (r: MemoryMap)
        ensures
            r.spec_entries() == Seq::<MemoryMapEntry>::empty(),
            r.wf(),
    {
        MemoryMap::new()
    }
}

} // verus!
