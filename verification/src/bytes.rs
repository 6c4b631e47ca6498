//! Little-endian integer fields of the shared pages.
//!
//! Every multi-byte field of the auxiliary page, the input region and the
//! feedback page is stored little-endian. These readers and writers relate
//! the executable byte accesses to the mathematical value of a field.

use vstd::prelude::*;

verus! {

/// The value of a two-byte little-endian field.
pub open spec fn le_u16(s: Seq<u8>) -> u16
    recommends
        s.len() == 2,
{
    (s[0] + s[1] * 0x100) as u16
}

/// The value of a four-byte little-endian field.
pub open spec fn le_u32(s: Seq<u8>) -> u32
    recommends
        s.len() == 4,
{
    (s[0] + s[1] * 0x100 + s[2] * 0x1_0000 + s[3] * 0x100_0000) as u32
}

/// The value of an eight-byte little-endian field.
pub open spec fn le_u64(s: Seq<u8>) -> u64
    recommends
        s.len() == 8,
{
    (s[0] + s[1] * 0x100 + s[2] * 0x1_0000 + s[3] * 0x100_0000 + s[4] * 0x1_0000_0000
        + s[5] * 0x100_0000_0000 + s[6] * 0x1_0000_0000_0000 + s[7] * 0x100_0000_0000_0000) as u64
}

/// The little-endian bytes of a 32-bit value.
pub open spec fn u32_le_bytes(v: u32) -> Seq<u8> {
    seq![
        (v % 0x100) as u8,
        ((v / 0x100) % 0x100) as u8,
        ((v / 0x1_0000) % 0x100) as u8,
        ((v / 0x100_0000) % 0x100) as u8,
    ]
}

/// The little-endian bytes of a 64-bit value.
pub open spec fn u64_le_bytes(v: u64) -> Seq<u8> {
    seq![
        (v % 0x100) as u8,
        ((v / 0x100) % 0x100) as u8,
        ((v / 0x1_0000) % 0x100) as u8,
        ((v / 0x100_0000) % 0x100) as u8,
        ((v / 0x1_0000_0000) % 0x100) as u8,
        ((v / 0x100_0000_0000) % 0x100) as u8,
        ((v / 0x1_0000_0000_0000) % 0x100) as u8,
        ((v / 0x100_0000_0000_0000) % 0x100) as u8,
    ]
}

/// Encoding a 32-bit value and reading the field back yields the value.
pub proof fn lemma_u32_le_roundtrip(v: u32)
    ensures
        le_u32(u32_le_bytes(v)) == v,
{
    assert(le_u32(u32_le_bytes(v)) == v) by (bit_vector);
}

/// Encoding a 64-bit value and reading the field back yields the value.
pub proof fn lemma_u64_le_roundtrip(v: u64)
    ensures
        le_u64(u64_le_bytes(v)) == v,
{
    assert(le_u64(u64_le_bytes(v)) == v) by (bit_vector);
}

/// Reads a two-byte little-endian field.
pub fn read_u16_le(b: &[u8], off: usize) -> (r: u16)
    requires
        off + 2 <= b@.len(),
    ensures
        r == le_u16(b@.subrange(off as int, off as int + 2)),
{
    let lo = b[off];
    let hi = b[off + 1];
    (lo as u16) + (hi as u16) * 0x100
}

/// Reads a four-byte little-endian field.
pub fn read_u32_le(b: &[u8], off: usize) -> (r: u32)
    requires
        off + 4 <= b@.len(),
    ensures
        r == le_u32(b@.subrange(off as int, off as int + 4)),
{
    let b0 = b[off] as u32;
    let b1 = b[off + 1] as u32;
    let b2 = b[off + 2] as u32;
    let b3 = b[off + 3] as u32;
    b0 + b1 * 0x100 + b2 * 0x1_0000 + b3 * 0x100_0000
}

/// Reads an eight-byte little-endian field.
pub fn read_u64_le(b: &[u8], off: usize) -> (r: u64)
    requires
        off + 8 <= b@.len(),
    ensures
        r == le_u64(b@.subrange(off as int, off as int + 8)),
{
    let b0 = b[off] as u64;
    let b1 = b[off + 1] as u64;
    let b2 = b[off + 2] as u64;
    let b3 = b[off + 3] as u64;
    let b4 = b[off + 4] as u64;
    let b5 = b[off + 5] as u64;
    let b6 = b[off + 6] as u64;
    let b7 = b[off + 7] as u64;
    b0 + b1 * 0x100 + b2 * 0x1_0000 + b3 * 0x100_0000 + b4 * 0x1_0000_0000 + b5 * 0x100_0000_0000
        + b6 * 0x1_0000_0000_0000 + b7 * 0x100_0000_0000_0000
}

/// Writes a four-byte little-endian field in place.
pub fn write_u32_le(b: &mut Vec<u8>, off: usize, v: u32)
    requires
        off + 4 <= old(b)@.len(),
    ensures
        final(b)@.len() == old(b)@.len(),
        final(b)@.subrange(off as int, off as int + 4) == u32_le_bytes(v),
        forall|i: int|
            0 <= i < old(b)@.len() && !(off <= i < off + 4) ==> final(b)@[i] == old(b)@[i],
{
    let n = b.len();
    assert(off + 4 <= n);
    b.set(off, (v % 0x100) as u8);
    b.set(off + 1, ((v / 0x100) % 0x100) as u8);
    b.set(off + 2, ((v / 0x1_0000) % 0x100) as u8);
    b.set(off + 3, ((v / 0x100_0000) % 0x100) as u8);
    proof {
        assert(b@.subrange(off as int, off as int + 4) =~= u32_le_bytes(v));
    }
}

/// Writes an eight-byte little-endian field in place.
pub fn write_u64_le(b: &mut Vec<u8>, off: usize, v: u64)
    requires
        off + 8 <= old(b)@.len(),
    ensures
        final(b)@.len() == old(b)@.len(),
        final(b)@.subrange(off as int, off as int + 8) == u64_le_bytes(v),
        forall|i: int|
            0 <= i < old(b)@.len() && !(off <= i < off + 8) ==> final(b)@[i] == old(b)@[i],
{
    let n = b.len();
    assert(off + 8 <= n);
    b.set(off, (v % 0x100) as u8);
    b.set(off + 1, ((v / 0x100) % 0x100) as u8);
    b.set(off + 2, ((v / 0x1_0000) % 0x100) as u8);
    b.set(off + 3, ((v / 0x100_0000) % 0x100) as u8);
    b.set(off + 4, ((v / 0x1_0000_0000) % 0x100) as u8);
    b.set(off + 5, ((v / 0x100_0000_0000) % 0x100) as u8);
    b.set(off + 6, ((v / 0x1_0000_0000_0000) % 0x100) as u8);
    b.set(off + 7, ((v / 0x100_0000_0000_0000) % 0x100) as u8);
    proof {
        assert(b@.subrange(off as int, off as int + 8) =~= u64_le_bytes(v));
    }
}

} // verus!
