//! Little-endian field readers over byte sequences, and the byte images of
//! the integer widths that the protocol uses.

use vstd::prelude::*;

verus! {

/// An IEEE-754 single-precision value kept as its bit pattern, exactly as it
/// travelled on the wire.
#[derive(Clone, Copy, PartialEq, Eq, Debug, Structural)]
pub struct RawF32 {
    pub bits: u32,
}

/// An IEEE-754 double-precision value kept as its bit pattern.
#[derive(Clone, Copy, PartialEq, Eq, Debug, Structural)]
pub struct RawF64 {
    pub bits: u64,
}

/// The unsigned 16-bit integer stored little-endian at `off`.
pub open spec fn le_u16(s: Seq<u8>, off: int) -> u16 {
    (s[off] as u16) | ((s[off + 1] as u16) << 8u16)
}

/// The signed 16-bit integer stored little-endian (two's complement) at `off`.
pub open spec fn le_i16(s: Seq<u8>, off: int) -> i16 {
    le_u16(s, off) as i16
}

/// The unsigned 32-bit integer stored little-endian at `off`.
pub open spec fn le_u32(s: Seq<u8>, off: int) -> u32 {
    (s[off] as u32) | ((s[off + 1] as u32) << 8u32) | ((s[off + 2] as u32) << 16u32) | ((
    s[off + 3] as u32) << 24u32)
}

/// The unsigned 64-bit integer stored little-endian at `off`.
pub open spec fn le_u64(s: Seq<u8>, off: int) -> u64 {
    (le_u32(s, off) as u64) | ((le_u32(s, off + 4) as u64) << 32u64)
}

/// The single-precision value stored at `off`.
pub open spec fn le_f32(s: Seq<u8>, off: int) -> RawF32 {
    RawF32 { bits: le_u32(s, off) }
}

/// The double-precision value stored at `off`.
pub open spec fn le_f64(s: Seq<u8>, off: int) -> RawF64 {
    RawF64 { bits: le_u64(s, off) }
}

/// The byte at `off`, read as a two's complement signed value.
pub open spec fn byte_i8(s: Seq<u8>, off: int) -> i8 {
    s[off] as i8
}

/// The little-endian image of a `u16`.
pub open spec fn u16_bytes(v: u16) -> Seq<u8> {
    seq![(v & 0xff) as u8, (v >> 8u16) as u8]
}

/// The little-endian image of a `u32`.
pub open spec fn u32_bytes(v: u32) -> Seq<u8> {
    seq![(v & 0xff) as u8, ((v >> 8u32) & 0xff) as u8, ((v >> 16u32) & 0xff) as u8, (v >> 24u32) as u8]
}

/// The little-endian image of a `u64`.
pub open spec fn u64_bytes(v: u64) -> Seq<u8> {
    u32_bytes((v & 0xffff_ffff) as u32) + u32_bytes((v >> 32u64) as u32)
}

/// Reads the little-endian `u16` at `off`.
pub fn read_u16(b: &[u8], off: usize) -> (r: u16)
    requires
        off + 2 <= b.len(),
    ensures
        r == le_u16(b@, off as int),
{
    (b[off] as u16) | ((b[off + 1] as u16) << 8u16)
}

/// Reads the little-endian `i16` at `off`.
pub fn read_i16(b: &[u8], off: usize) -> (r: i16)
    requires
        off + 2 <= b.len(),
    ensures
        r == le_i16(b@, off as int),
{
    read_u16(b, off) as i16
}

/// Reads the little-endian `u32` at `off`.
pub fn read_u32(b: &[u8], off: usize) -> (r: u32)
    requires
        off + 4 <= b.len(),
    ensures
        r == le_u32(b@, off as int),
{
    (b[off] as u32) | ((b[off + 1] as u32) << 8u32) | ((b[off + 2] as u32) << 16u32) | ((b[off
        + 3] as u32) << 24u32)
}

/// Reads the little-endian `u64` at `off`.
pub fn read_u64(b: &[u8], off: usize) -> (r: u64)
    requires
        off + 8 <= b.len(),
    ensures
        r == le_u64(b@, off as int),
{
    (read_u32(b, off) as u64) | ((read_u32(b, off + 4) as u64) << 32u64)
}

/// Reads the single-precision value at `off`.
pub fn read_f32(b: &[u8], off: usize) -> (r: RawF32)
    requires
        off + 4 <= b.len(),
    ensures
        r == le_f32(b@, off as int),
{
    RawF32 { bits: read_u32(b, off) }
}

/// Reads the double-precision value at `off`.
pub fn read_f64(b: &[u8], off: usize) -> (r: RawF64)
    requires
        off + 8 <= b.len(),
    ensures
        r == le_f64(b@, off as int),
{
    RawF64 { bits: read_u64(b, off) }
}

/// Reads the byte at `off` as a signed value.
pub fn read_i8(b: &[u8], off: usize) -> (r: i8)
    requires
        off < b.len(),
    ensures
        r == byte_i8(b@, off as int),
{
    b[off] as i8
}

/// Reading a `u16` back from its little-endian image gives the value.
pub proof fn lemma_u16_round_trip(s: Seq<u8>, off: int, v: u16)
    requires
        0 <= off,
        off + 2 <= s.len(),
        s.subrange(off, off + 2) == u16_bytes(v),
    ensures
        le_u16(s, off) == v,
{
    assert(s[off] == u16_bytes(v)[0]);
    assert(s[off + 1] == u16_bytes(v)[1]);
    let b0 = s[off];
    let b1 = s[off + 1];
    assert(b0 == (v & 0xff) as u8 && b1 == (v >> 8u16) as u8 ==> ((b0 as u16) | ((b1 as u16)
        << 8u16)) == v) by (bit_vector);
}

/// A signed byte survives the trip through its unsigned image.
pub proof fn lemma_i8_round_trip(v: i8)
    ensures
        (v as u8) as i8 == v,
{
    assert((v as u8) as i8 == v) by (bit_vector);
}

/// Reading an `i16` back from the little-endian image of its bits gives the
/// value.
pub proof fn lemma_i16_round_trip(s: Seq<u8>, off: int, v: i16)
    requires
        0 <= off,
        off + 2 <= s.len(),
        s.subrange(off, off + 2) == u16_bytes(v as u16),
    ensures
        le_i16(s, off) == v,
{
    lemma_u16_round_trip(s, off, v as u16);
    assert((v as u16) as i16 == v) by (bit_vector);
}

/// Reading a `u32` back from its little-endian image gives the value.
pub proof fn lemma_u32_round_trip(s: Seq<u8>, off: int, v: u32)
    requires
        0 <= off,
        off + 4 <= s.len(),
        s.subrange(off, off + 4) == u32_bytes(v),
    ensures
        le_u32(s, off) == v,
{
    assert(s[off] == u32_bytes(v)[0]);
    assert(s[off + 1] == u32_bytes(v)[1]);
    assert(s[off + 2] == u32_bytes(v)[2]);
    assert(s[off + 3] == u32_bytes(v)[3]);
    let b0 = s[off];
    let b1 = s[off + 1];
    let b2 = s[off + 2];
    let b3 = s[off + 3];
    assert(b0 == (v & 0xff) as u8 && b1 == ((v >> 8u32) & 0xff) as u8 && b2 == ((v >> 16u32)
        & 0xff) as u8 && b3 == (v >> 24u32) as u8 ==> ((b0 as u32) | ((b1 as u32) << 8u32) | ((
    b2 as u32) << 16u32) | ((b3 as u32) << 24u32)) == v) by (bit_vector);
}

/// Reading a `u64` back from its little-endian image gives the value.
pub proof fn lemma_u64_round_trip(s: Seq<u8>, off: int, v: u64)
    requires
        0 <= off,
        off + 8 <= s.len(),
        s.subrange(off, off + 8) == u64_bytes(v),
    ensures
        le_u64(s, off) == v,
{
    let lo = (v & 0xffff_ffff) as u32;
    let hi = (v >> 32u64) as u32;
    assert(s.subrange(off, off + 4) =~= u32_bytes(lo)) by {
        assert forall|k: int| 0 <= k < 4 implies s.subrange(off, off + 4)[k] == u32_bytes(lo)[k] by {
            assert(s.subrange(off, off + 8)[k] == u64_bytes(v)[k]);
        }
    }
    assert(s.subrange(off + 4, off + 8) =~= u32_bytes(hi)) by {
        assert forall|k: int| 0 <= k < 4 implies s.subrange(off + 4, off + 8)[k] == u32_bytes(
            hi,
        )[k] by {
            assert(s.subrange(off, off + 8)[k + 4] == u64_bytes(v)[k + 4]);
        }
    }
    lemma_u32_round_trip(s, off, lo);
    lemma_u32_round_trip(s, off + 4, hi);
    assert(((lo as u64) | ((hi as u64) << 32u64)) == v) by (bit_vector)
        requires
            lo == (v & 0xffff_ffff) as u32,
            hi == (v >> 32u64) as u32,
    ;
}

} // verus!
