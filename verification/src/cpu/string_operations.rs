//! The string unit: element-wise memory copy, comparison, search, fill
//! and length, over 1-, 2- or 4-byte elements.
//!
//! Moves and comparisons stop at a zero element (NUL-terminated
//! semantics) or after `max_length` elements, whichever comes first; a
//! scan stops at the first matching element, a zero element or
//! exhaustion.

use vstd::prelude::*;

use crate::cpu::registers::ProcessorStatusWord;
use crate::memory::interface::MemoryError;
use crate::memory::interface::MemoryInterface;
use crate::memory::interface::spec_le16;
use crate::memory::interface::spec_le32;
use crate::memory::interface::spec_store16;
use crate::memory::interface::spec_store32;
use vstd::wrapping::u32_specs;

verus! {

/// Why a string operation failed.
#[derive(Debug, Clone, Copy, PartialEq, Eq, Structural)]
pub enum StringError {
    /// The element size was not 1, 2 or 4 bytes.
    UnsupportedElementSize,
    /// The memory rejected an access.
    Memory(MemoryError),
}

/// The element of the given byte width read little-endian at `a`.
pub open spec fn spec_elem(mem: Seq<u8>, a: u32, e: int) -> u32 {
    if e == 1 {
        mem[a as int] as u32
    } else if e == 2 {
        spec_le16(mem, a as int) as u32
    } else {
        spec_le32(mem, a as int)
    }
}

/// The contents after storing an element of the given byte width at `a`.
pub open spec fn spec_elem_store(mem: Seq<u8>, a: u32, v: u32, e: int) -> Seq<u8> {
    if e == 1 {
        mem.update(a as int, (v % 0x100) as u8)
    } else if e == 2 {
        spec_store16(mem, a as int, (v % 0x10000) as u16)
    } else {
        spec_store32(mem, a as int, v)
    }
}

/// The length of a NUL-terminated string: the number of elements before
/// the first zero element, capped at `max`; nothing when a read fails.
pub open spec fn spec_strlen_rec<M: MemoryInterface>(m: M, a: u32, max: u32, e: int) -> Option<int>
    decreases max,
{
    if max == 0 {
        Some(0int)
    } else if !m.read_ok(a, e as nat) {
        None
    } else if spec_elem(m.mem(), a, e) == 0 {
        Some(0int)
    } else {
        match spec_strlen_rec(m, u32_specs::wrapping_add(a, e as u32), (max - 1) as u32, e) {
            None => None,
            Some(n) => Some(n + 1),
        }
    }
}

/// The length a string scan reports never exceeds the element budget.
pub proof fn lemma_strlen_rec_bound<M: MemoryInterface>(m: M, a: u32, max: u32, e: int)
    ensures
        (match spec_strlen_rec(m, a, max, e) {
            Some(n) => 0 <= n <= max,
            None => true,
        }),
    decreases max,
{
    if max > 0 {
        lemma_strlen_rec_bound(m, u32_specs::wrapping_add(a, e as u32), (max - 1) as u32, e);
    }
}

/// A scan: the bytes consumed and whether the target was found, reading
/// until a match, a zero element or `max` elements; nothing when a read
/// fails.  Every element read counts its full width.
pub open spec fn spec_scan_rec<M: MemoryInterface>(m: M, a: u32, target: u32, max: u32, e: int)
    -> Option<(int, bool)>
    decreases max,
{
    if max == 0 {
        Some((0int, false))
    } else if !m.read_ok(a, e as nat) {
        None
    } else {
        let v = spec_elem(m.mem(), a, e);
        if v == target {
            Some((e, true))
        } else if v == 0 {
            Some((e, false))
        } else {
            match spec_scan_rec(
                m,
                u32_specs::wrapping_add(a, e as u32),
                target,
                (max - 1) as u32,
                e,
            ) {
                None => None,
                Some((p, f)) => Some((p + e, f)),
            }
        }
    }
}

/// The bytes a scan reports never exceed the element budget.
pub proof fn lemma_scan_rec_bound<M: MemoryInterface>(m: M, a: u32, target: u32, max: u32, e: int)
    requires
        e >= 0,
    ensures
        (match spec_scan_rec(m, a, target, max, e) {
            Some((p, f)) => 0 <= p <= max * e,
            None => true,
        }),
    decreases max,
{
    if max > 0 {
        lemma_scan_rec_bound(m, u32_specs::wrapping_add(a, e as u32), target, (max - 1) as u32, e);
        assert((max - 1) * e + e == max * e) by (nonlinear_arith);
        assert(e <= max * e) by (nonlinear_arith)
            requires
                e >= 0,
                max >= 1,
        ;
    }
}

/// A comparison: the bytes consumed and whether the strings were equal,
/// reading until a mismatch, a common zero element or `max` elements;
/// nothing when a read fails.
pub open spec fn spec_compare_rec<M: MemoryInterface>(m: M, a1: u32, a2: u32, max: u32, e: int)
    -> Option<(int, bool)>
    decreases max,
{
    if max == 0 {
        Some((0int, true))
    } else if !m.read_ok(a1, e as nat) || !m.read_ok(a2, e as nat) {
        None
    } else {
        let v1 = spec_elem(m.mem(), a1, e);
        let v2 = spec_elem(m.mem(), a2, e);
        if v1 != v2 {
            Some((e, false))
        } else if v1 == 0 {
            Some((e, true))
        } else {
            match spec_compare_rec(
                m,
                u32_specs::wrapping_add(a1, e as u32),
                u32_specs::wrapping_add(a2, e as u32),
                (max - 1) as u32,
                e,
            ) {
                None => None,
                Some((p, eq)) => Some((p + e, eq)),
            }
        }
    }
}

/// The bytes a comparison reports never exceed the element budget.
pub proof fn lemma_compare_rec_bound<M: MemoryInterface>(m: M, a1: u32, a2: u32, max: u32, e: int)
    requires
        e >= 0,
    ensures
        (match spec_compare_rec(m, a1, a2, max, e) {
            Some((p, eq)) => 0 <= p <= max * e,
            None => true,
        }),
    decreases max,
{
    if max > 0 {
        lemma_compare_rec_bound(
            m,
            u32_specs::wrapping_add(a1, e as u32),
            u32_specs::wrapping_add(a2, e as u32),
            (max - 1) as u32,
            e,
        );
        assert((max - 1) * e + e == max * e) by (nonlinear_arith);
        assert(e <= max * e) by (nonlinear_arith)
            requires
                e >= 0,
                max >= 1,
        ;
    }
}

/// A move: the final contents and the bytes consumed, copying elements
/// until a zero element has been copied or `max` elements were; on a
/// failed access the contents written so far are carried in the error.
pub open spec fn spec_move_rec<M: MemoryInterface>(
    m: M,
    mem: Seq<u8>,
    src: u32,
    dst: u32,
    max: u32,
    e: int,
) -> Result<(Seq<u8>, int), Seq<u8>>
    decreases max,
{
    if max == 0 {
        Ok((mem, 0int))
    } else if !m.read_ok(src, e as nat) {
        Err(mem)
    } else {
        let v = spec_elem(mem, src, e);
        if !m.write_ok(dst, e as nat) {
            Err(mem)
        } else {
            let mem2 = spec_elem_store(mem, dst, v, e);
            if v == 0 {
                Ok((mem2, e))
            } else {
                match spec_move_rec(
                    m,
                    mem2,
                    u32_specs::wrapping_add(src, e as u32),
                    u32_specs::wrapping_add(dst, e as u32),
                    (max - 1) as u32,
                    e,
                ) {
                    Ok((mf, p)) => Ok((mf, p + e)),
                    Err(mf) => Err(mf),
                }
            }
        }
    }
}

/// The bytes a move reports never exceed the element budget.
pub proof fn lemma_move_rec_bound<M: MemoryInterface>(
    m: M,
    mem: Seq<u8>,
    src: u32,
    dst: u32,
    max: u32,
    e: int,
)
    requires
        e >= 0,
    ensures
        (match spec_move_rec(m, mem, src, dst, max, e) {
            Ok((mf, p)) => 0 <= p <= max * e,
            Err(_) => true,
        }),
    decreases max,
{
    if max > 0 && m.read_ok(src, e as nat) && m.write_ok(dst, e as nat) {
        let v = spec_elem(mem, src, e);
        let mem2 = spec_elem_store(mem, dst, v, e);
        lemma_move_rec_bound(
            m,
            mem2,
            u32_specs::wrapping_add(src, e as u32),
            u32_specs::wrapping_add(dst, e as u32),
            (max - 1) as u32,
            e,
        );
        assert((max - 1) * e + e == max * e) by (nonlinear_arith);
        assert(e <= max * e) by (nonlinear_arith)
            requires
                e >= 0,
                max >= 1,
        ;
    }
}

/// A fill: the final contents, writing `count` elements; on a failed
/// write the contents written so far are carried in the error together
/// with the bytes consumed so far.
pub open spec fn spec_fill_rec<M: MemoryInterface>(
    m: M,
    mem: Seq<u8>,
    dst: u32,
    value: u32,
    count: u32,
    e: int,
) -> Result<Seq<u8>, Seq<u8>>
    decreases count,
{
    if count == 0 {
        Ok(mem)
    } else if !m.write_ok(dst, e as nat) {
        Err(mem)
    } else {
        spec_fill_rec(
            m,
            spec_elem_store(mem, dst, value, e),
            u32_specs::wrapping_add(dst, e as u32),
            value,
            (count - 1) as u32,
            e,
        )
    }
}

/// The outcome of a string operation.
#[derive(Debug, Clone, Copy, PartialEq, Eq, Structural)]
pub struct StringResult {
    /// Bytes consumed by the operation.
    pub bytes_processed: u32,
    /// The compared strings were equal; set vacuously by moves and fills.
    pub equal: bool,
    /// A scan found its target.
    pub found: bool,
    /// The operation used up its whole element budget.
    pub source_exhausted: bool,
    /// Unused by these operations; always clear.
    pub destination_exhausted: bool,
}

impl StringResult {
    /// Reports the outcome in the status word: zero when the strings were
    /// equal or the target was found, carry when the budget ran out,
    /// overflow when the destination ran out; other flags keep their
    /// values.
    pub fn update_psw(&self, psw: &mut ProcessorStatusWord)
        ensures
            *final(psw) == (ProcessorStatusWord {
                zero: self.equal || self.found,
                carry: self.source_exhausted,
                overflow: self.destination_exhausted,
                ..*old(psw)
            }),
    {
        psw.set_zero_flag(self.equal || self.found);
        psw.set_carry_flag(self.source_exhausted);
        psw.set_overflow_flag(self.destination_exhausted);
    }
}

/// Reads one element of the given width, mapping the error.
fn read_elem<M: MemoryInterface>(memory: &M, a: u32, element_size: u8) -> (r: Result<
    u32,
    StringError,
>)
    requires
        element_size == 1 || element_size == 2 || element_size == 4,
    ensures
        memory.read_ok(a, element_size as nat) ==> r == Ok::<u32, StringError>(
            spec_elem(memory.mem(), a, element_size as int),
        ),
        !memory.read_ok(a, element_size as nat) ==> r is Err && (r matches Err(e) ==> e
            is Memory),
{
    if element_size == 1 {
        match memory.read_u8(a) {
            Ok(v) => Ok(v as u32),
            Err(e) => Err(StringError::Memory(e)),
        }
    } else if element_size == 2 {
        match memory.read_u16(a) {
            Ok(v) => Ok(v as u32),
            Err(e) => Err(StringError::Memory(e)),
        }
    } else {
        match memory.read_u32(a) {
            Ok(v) => Ok(v),
            Err(e) => Err(StringError::Memory(e)),
        }
    }
}

/// Writes one element of the given width, mapping the error.
fn write_elem<M: MemoryInterface>(memory: &mut M, a: u32, v: u32, element_size: u8) -> (r: Result<
    (),
    StringError,
>)
    requires
        element_size == 1 || element_size == 2 || element_size == 4,
    ensures
        crate::cpu::executor::spec_mem_same_shape(*old(memory), *final(memory)),
        old(memory).write_ok(a, element_size as nat) ==> r is Ok && final(memory).mem()
            == spec_elem_store(old(memory).mem(), a, v, element_size as int),
        !old(memory).write_ok(a, element_size as nat) ==> r is Err && (r matches Err(e) ==> e
            is Memory) && final(memory).mem() == old(memory).mem(),
{
    if element_size == 1 {
        match memory.write_u8(a, (v % 0x100) as u8) {
            Ok(_) => Ok(()),
            Err(e) => Err(StringError::Memory(e)),
        }
    } else if element_size == 2 {
        match memory.write_u16(a, (v % 0x10000) as u16) {
            Ok(_) => Ok(()),
            Err(e) => Err(StringError::Memory(e)),
        }
    } else {
        match memory.write_u32(a, v) {
            Ok(_) => Ok(()),
            Err(e) => Err(StringError::Memory(e)),
        }
    }
}

/// The string unit.
#[derive(Debug)]
pub struct StringUnit;

impl StringUnit {
    /// Copies elements from `source` to `destination` until a zero
    /// element has been copied or `max_length` elements were.  The byte
    /// budget must fit the 32-bit address space.
    pub fn string_move<M: MemoryInterface>(
        memory: &mut M,
        source: u32,
        destination: u32,
        max_length: u32,
        element_size: u8,
    ) -> (r: Result<StringResult, StringError>)
        requires
            max_length * element_size <= u32::MAX,
        ensures
            crate::cpu::executor::spec_mem_same_shape(*old(memory), *final(memory)),
            !(element_size == 1 || element_size == 2 || element_size == 4) ==> r == Err::<
                StringResult,
                StringError,
            >(StringError::UnsupportedElementSize) && final(memory).mem() == old(memory).mem(),
            (element_size == 1 || element_size == 2 || element_size == 4) ==> (match spec_move_rec(
                *old(memory),
                old(memory).mem(),
                source,
                destination,
                max_length,
                element_size as int,
            ) {
                Ok((mf, p)) => r == Ok::<StringResult, StringError>(
                    StringResult {
                        bytes_processed: p as u32,
                        equal: true,
                        found: false,
                        source_exhausted: p == max_length * element_size,
                        destination_exhausted: false,
                    },
                ) && final(memory).mem() == mf,
                Err(mf) => r is Err && (r matches Err(e) ==> e is Memory) && final(memory).mem()
                    == mf,
            }),
    {
        if !(element_size == 1 || element_size == 2 || element_size == 4) {
            return Err(StringError::UnsupportedElementSize);
        }
        let e32 = element_size as u32;
        let budget = byte_budget(max_length, element_size);
        let mut bytes_processed: u32 = 0;
        let mut current_src = source;
        let mut current_dst = destination;
        let mut i: u32 = 0;
        let ghost m0 = *old(memory);
        while i < max_length
            invariant
                element_size == 1 || element_size == 2 || element_size == 4,
                e32 == element_size,
                max_length * element_size <= u32::MAX,
                budget == max_length * element_size,
                i <= max_length,
                bytes_processed == i * element_size,
                m0 == *old(memory),
                crate::cpu::executor::spec_mem_same_shape(m0, *memory),
                (match spec_move_rec(
                    m0,
                    old(memory).mem(),
                    source,
                    destination,
                    max_length,
                    element_size as int,
                ) {
                    Ok((mf, p)) => (match spec_move_rec(
                        m0,
                        memory.mem(),
                        current_src,
                        current_dst,
                        (max_length - i) as u32,
                        element_size as int,
                    ) {
                        Ok((mf2, p2)) => mf2 == mf && p == bytes_processed + p2,
                        Err(_) => false,
                    }),
                    Err(mf) => (match spec_move_rec(
                        m0,
                        memory.mem(),
                        current_src,
                        current_dst,
                        (max_length - i) as u32,
                        element_size as int,
                    ) {
                        Ok(_) => false,
                        Err(mf2) => mf2 == mf,
                    }),
                }),
            decreases max_length - i,
        {
            proof {
                assert((i + 1) * element_size <= max_length * element_size) by (nonlinear_arith)
                    requires
                        i + 1 <= max_length,
                        element_size >= 0,
                ;
                assert((i + 1) * element_size == i * element_size + element_size)
                    by (nonlinear_arith);
            }
            let value = match read_elem(memory, current_src, element_size) {
                Ok(v) => v,
                Err(err) => {
                    return Err(err);
                },
            };
            match write_elem(memory, current_dst, value, element_size) {
                Ok(_) => {},
                Err(err) => {
                    return Err(err);
                },
            }
            bytes_processed = bytes_processed + e32;
            current_src = current_src.wrapping_add(e32);
            current_dst = current_dst.wrapping_add(e32);
            i = i + 1;
            if value == 0 {
                proof {
                    lemma_move_rec_bound(
                        m0,
                        old(memory).mem(),
                        source,
                        destination,
                        max_length,
                        element_size as int,
                    );
                }
                return Ok(
                    StringResult {
                        bytes_processed,
                        equal: true,
                        found: false,
                        source_exhausted: bytes_processed == budget,
                        destination_exhausted: false,
                    },
                );
            }
        }
        proof {
            lemma_move_rec_bound(
                m0,
                old(memory).mem(),
                source,
                destination,
                max_length,
                element_size as int,
            );
        }
        Ok(
            StringResult {
                bytes_processed,
                equal: true,
                found: false,
                source_exhausted: bytes_processed == budget,
                destination_exhausted: false,
            },
        )
    }

    /// Compares elements of two strings until a mismatch, a common zero
    /// element or `max_length` elements.  The byte budget must fit the
    /// 32-bit address space.
    pub fn string_compare<M: MemoryInterface>(
        memory: &M,
        source1: u32,
        source2: u32,
        max_length: u32,
        element_size: u8,
    ) -> (r: Result<StringResult, StringError>)
        requires
            max_length * element_size <= u32::MAX,
        ensures
            !(element_size == 1 || element_size == 2 || element_size == 4) ==> r == Err::<
                StringResult,
                StringError,
            >(StringError::UnsupportedElementSize),
            (element_size == 1 || element_size == 2 || element_size == 4) ==> (
            match spec_compare_rec(*memory, source1, source2, max_length, element_size as int) {
                Some((p, eq)) => r == Ok::<StringResult, StringError>(
                    StringResult {
                        bytes_processed: p as u32,
                        equal: eq,
                        found: false,
                        source_exhausted: p == max_length * element_size,
                        destination_exhausted: false,
                    },
                ),
                None => r is Err && (r matches Err(e) ==> e is Memory),
            }),
    {
        if !(element_size == 1 || element_size == 2 || element_size == 4) {
            return Err(StringError::UnsupportedElementSize);
        }
        let e32 = element_size as u32;
        let budget = byte_budget(max_length, element_size);
        let mut bytes_processed: u32 = 0;
        let mut current_src1 = source1;
        let mut current_src2 = source2;
        let mut i: u32 = 0;
        while i < max_length
            invariant
                element_size == 1 || element_size == 2 || element_size == 4,
                e32 == element_size,
                max_length * element_size <= u32::MAX,
                budget == max_length * element_size,
                i <= max_length,
                bytes_processed == i * element_size,
                (match spec_compare_rec(
                    *memory,
                    source1,
                    source2,
                    max_length,
                    element_size as int,
                ) {
                    Some((p, eq)) => (match spec_compare_rec(
                        *memory,
                        current_src1,
                        current_src2,
                        (max_length - i) as u32,
                        element_size as int,
                    ) {
                        Some((p2, eq2)) => p == bytes_processed + p2 && eq2 == eq,
                        None => false,
                    }),
                    None => spec_compare_rec(
                        *memory,
                        current_src1,
                        current_src2,
                        (max_length - i) as u32,
                        element_size as int,
                    ) is None,
                }),
            decreases max_length - i,
        {
            proof {
                assert((i + 1) * element_size <= max_length * element_size) by (nonlinear_arith)
                    requires
                        i + 1 <= max_length,
                        element_size >= 0,
                ;
                assert((i + 1) * element_size == i * element_size + element_size)
                    by (nonlinear_arith);
            }
            let value1 = match read_elem(memory, current_src1, element_size) {
                Ok(v) => v,
                Err(err) => {
                    return Err(err);
                },
            };
            let value2 = match read_elem(memory, current_src2, element_size) {
                Ok(v) => v,
                Err(err) => {
                    return Err(err);
                },
            };
            bytes_processed = bytes_processed + e32;
            current_src1 = current_src1.wrapping_add(e32);
            current_src2 = current_src2.wrapping_add(e32);
            i = i + 1;
            if value1 != value2 {
                return Ok(
                    StringResult {
                        bytes_processed,
                        equal: false,
                        found: false,
                        source_exhausted: bytes_processed == budget,
                        destination_exhausted: false,
                    },
                );
            }
            if value1 == 0 {
                return Ok(
                    StringResult {
                        bytes_processed,
                        equal: true,
                        found: false,
                        source_exhausted: bytes_processed == budget,
                        destination_exhausted: false,
                    },
                );
            }
        }
        Ok(
            StringResult {
                bytes_processed,
                equal: true,
                found: false,
                source_exhausted: bytes_processed == budget,
                destination_exhausted: false,
            },
        )
    }

    /// Scans for `target_value` until it is found, a zero element is
    /// reached or `max_length` elements were read.  The byte budget must
    /// fit the 32-bit address space.
    pub fn string_scan<M: MemoryInterface>(
        memory: &M,
        source: u32,
        target_value: u32,
        max_length: u32,
        element_size: u8,
    ) -> (r: Result<StringResult, StringError>)
        requires
            max_length * element_size <= u32::MAX,
        ensures
            !(element_size == 1 || element_size == 2 || element_size == 4) ==> r == Err::<
                StringResult,
                StringError,
            >(StringError::UnsupportedElementSize),
            (element_size == 1 || element_size == 2 || element_size == 4) ==> (match spec_scan_rec(
                *memory,
                source,
                target_value,
                max_length,
                element_size as int,
            ) {
                Some((p, f)) => r == Ok::<StringResult, StringError>(
                    StringResult {
                        bytes_processed: p as u32,
                        equal: false,
                        found: f,
                        source_exhausted: p == max_length * element_size,
                        destination_exhausted: false,
                    },
                ),
                None => r is Err && (r matches Err(e) ==> e is Memory),
            }),
    {
        if !(element_size == 1 || element_size == 2 || element_size == 4) {
            return Err(StringError::UnsupportedElementSize);
        }
        let e32 = element_size as u32;
        let budget = byte_budget(max_length, element_size);
        let mut bytes_processed: u32 = 0;
        let mut current_src = source;
        let mut i: u32 = 0;
        while i < max_length
            invariant
                element_size == 1 || element_size == 2 || element_size == 4,
                e32 == element_size,
                max_length * element_size <= u32::MAX,
                budget == max_length * element_size,
                i <= max_length,
                bytes_processed == i * element_size,
                (match spec_scan_rec(
                    *memory,
                    source,
                    target_value,
                    max_length,
                    element_size as int,
                ) {
                    Some((p, f)) => (match spec_scan_rec(
                        *memory,
                        current_src,
                        target_value,
                        (max_length - i) as u32,
                        element_size as int,
                    ) {
                        Some((p2, f2)) => p == bytes_processed + p2 && f2 == f,
                        None => false,
                    }),
                    None => spec_scan_rec(
                        *memory,
                        current_src,
                        target_value,
                        (max_length - i) as u32,
                        element_size as int,
                    ) is None,
                }),
            decreases max_length - i,
        {
            proof {
                assert((i + 1) * element_size <= max_length * element_size) by (nonlinear_arith)
                    requires
                        i + 1 <= max_length,
                        element_size >= 0,
                ;
                assert((i + 1) * element_size == i * element_size + element_size)
                    by (nonlinear_arith);
            }
            let value = match read_elem(memory, current_src, element_size) {
                Ok(v) => v,
                Err(err) => {
                    return Err(err);
                },
            };
            bytes_processed = bytes_processed + e32;
            current_src = current_src.wrapping_add(e32);
            i = i + 1;
            if value == target_value {
                return Ok(
                    StringResult {
                        bytes_processed,
                        equal: false,
                        found: true,
                        source_exhausted: bytes_processed == budget,
                        destination_exhausted: false,
                    },
                );
            }
            if value == 0 {
                return Ok(
                    StringResult {
                        bytes_processed,
                        equal: false,
                        found: false,
                        source_exhausted: bytes_processed == budget,
                        destination_exhausted: false,
                    },
                );
            }
        }
        Ok(
            StringResult {
                bytes_processed,
                equal: false,
                found: false,
                source_exhausted: bytes_processed == budget,
                destination_exhausted: false,
            },
        )
    }

    /// Writes `count` copies of one element value starting at
    /// `destination`.  The byte budget must fit the 32-bit address
    /// space.
    pub fn string_fill<M: MemoryInterface>(
        memory: &mut M,
        destination: u32,
        fill_value: u32,
        count: u32,
        element_size: u8,
    ) -> (r: Result<StringResult, StringError>)
        requires
            count * element_size <= u32::MAX,
        ensures
            crate::cpu::executor::spec_mem_same_shape(*old(memory), *final(memory)),
            !(element_size == 1 || element_size == 2 || element_size == 4) ==> r == Err::<
                StringResult,
                StringError,
            >(StringError::UnsupportedElementSize) && final(memory).mem() == old(memory).mem(),
            (element_size == 1 || element_size == 2 || element_size == 4) ==> (match spec_fill_rec(
                *old(memory),
                old(memory).mem(),
                destination,
                fill_value,
                count,
                element_size as int,
            ) {
                Ok(mf) => r == Ok::<StringResult, StringError>(
                    StringResult {
                        bytes_processed: (count * element_size) as u32,
                        equal: true,
                        found: false,
                        source_exhausted: false,
                        destination_exhausted: false,
                    },
                ) && final(memory).mem() == mf,
                Err(mf) => r is Err && (r matches Err(e) ==> e is Memory) && final(memory).mem()
                    == mf,
            }),
    {
        if !(element_size == 1 || element_size == 2 || element_size == 4) {
            return Err(StringError::UnsupportedElementSize);
        }
        let e32 = element_size as u32;
        let budget = byte_budget(count, element_size);
        let mut current_dst = destination;
        let mut i: u32 = 0;
        let ghost m0 = *old(memory);
        while i < count
            invariant
                element_size == 1 || element_size == 2 || element_size == 4,
                e32 == element_size,
                i <= count,
                m0 == *old(memory),
                crate::cpu::executor::spec_mem_same_shape(m0, *memory),
                (match spec_fill_rec(
                    m0,
                    old(memory).mem(),
                    destination,
                    fill_value,
                    count,
                    element_size as int,
                ) {
                    Ok(mf) => spec_fill_rec(
                        m0,
                        memory.mem(),
                        current_dst,
                        fill_value,
                        (count - i) as u32,
                        element_size as int,
                    ) == Ok::<Seq<u8>, Seq<u8>>(mf),
                    Err(mf) => spec_fill_rec(
                        m0,
                        memory.mem(),
                        current_dst,
                        fill_value,
                        (count - i) as u32,
                        element_size as int,
                    ) == Err::<Seq<u8>, Seq<u8>>(mf),
                }),
            decreases count - i,
        {
            match write_elem(memory, current_dst, fill_value, element_size) {
                Ok(_) => {},
                Err(err) => {
                    return Err(err);
                },
            }
            current_dst = current_dst.wrapping_add(e32);
            i = i + 1;
        }
        Ok(
            StringResult {
                bytes_processed: budget,
                equal: true,
                found: false,
                source_exhausted: false,
                destination_exhausted: false,
            },
        )
    }

    /// The number of elements before the first zero element, capped at
    /// `max_length`.
    pub fn string_length<M: MemoryInterface>(
        memory: &M,
        source: u32,
        max_length: u32,
        element_size: u8,
    ) -> (r: Result<u32, StringError>)
        ensures
            !(element_size == 1 || element_size == 2 || element_size == 4) ==> r == Err::<
                u32,
                StringError,
            >(StringError::UnsupportedElementSize),
            (element_size == 1 || element_size == 2 || element_size == 4) ==> (
            match spec_strlen_rec(*memory, source, max_length, element_size as int) {
                Some(n) => r == Ok::<u32, StringError>(n as u32),
                None => r is Err && (r matches Err(e) ==> e is Memory),
            }),
    {
        if !(element_size == 1 || element_size == 2 || element_size == 4) {
            return Err(StringError::UnsupportedElementSize);
        }
        let e32 = element_size as u32;
        let mut length: u32 = 0;
        let mut current_src = source;
        let mut i: u32 = 0;
        while i < max_length
            invariant
                element_size == 1 || element_size == 2 || element_size == 4,
                e32 == element_size,
                i <= max_length,
                length == i,
                (match spec_strlen_rec(*memory, source, max_length, element_size as int) {
                    Some(n) => (match spec_strlen_rec(
                        *memory,
                        current_src,
                        (max_length - i) as u32,
                        element_size as int,
                    ) {
                        Some(k) => n == length + k,
                        None => false,
                    }),
                    None => spec_strlen_rec(
                        *memory,
                        current_src,
                        (max_length - i) as u32,
                        element_size as int,
                    ) is None,
                }),
            decreases max_length - i,
        {
            let value = match read_elem(memory, current_src, element_size) {
                Ok(v) => v,
                Err(err) => {
                    return Err(err);
                },
            };
            if value == 0 {
                return Ok(length);
            }
            length = length + 1;
            current_src = current_src.wrapping_add(e32);
            i = i + 1;
        }
        Ok(length)
    }
}

/// The byte budget of `max` elements of the given width.
fn byte_budget(max: u32, element_size: u8) -> (r: u32)
    requires
        max * element_size <= u32::MAX,
    ensures
        r == max * element_size,
{
    proof {
        assert(max as int * element_size as int == (max as u64 * element_size as u64) as int)
            by (nonlinear_arith)
            requires
                max <= 0xFFFF_FFFFu64,
                element_size <= 0xFFu64,
        ;
    }
    ((max as u64) * (element_size as u64)) as u32
}

} // verus!
