//! Little-endian integer primitives over byte sequences.
//!
//! Every multi-byte integer of the on-disk format is little-endian whatever
//! the host's byte order; these readers assemble each value from its bytes
//! with shifts, so the result is the same on every host.
use vstd::arithmetic::power2::{lemma2_to64, pow2};
use vstd::prelude::*;

verus! {

/// The little-endian 16-bit integer whose bytes start at `off`.
pub open spec fn le16(b: Seq<u8>, off: int) -> u16 {
    (b[off] as u16) | ((b[off + 1] as u16) << 8u16)
}

/// The little-endian 32-bit integer whose bytes start at `off`.
pub open spec fn le32(b: Seq<u8>, off: int) -> u32 {
    (b[off] as u32) | ((b[off + 1] as u32) << 8u32) | ((b[off + 2] as u32) << 16u32) | ((b[off
        + 3] as u32) << 24u32)
}

/// The little-endian 64-bit integer whose bytes start at `off`.
pub open spec fn le64(b: Seq<u8>, off: int) -> u64 {
    (le32(b, off) as u64) | ((le32(b, off + 4) as u64) << 32u64)
}

/// The big-endian 16-bit integer whose bytes start at `off`.
pub open spec fn be16(b: Seq<u8>, off: int) -> u16 {
    ((b[off] as u16) << 8u16) | (b[off + 1] as u16)
}

/// The big-endian 32-bit integer whose bytes start at `off`.
pub open spec fn be32(b: Seq<u8>, off: int) -> u32 {
    ((b[off] as u32) << 24u32) | ((b[off + 1] as u32) << 16u32) | ((b[off + 2] as u32) << 8u32)
        | (b[off + 3] as u32)
}

/// The two bytes of `v`, least significant first.
pub open spec fn enc16(v: u16) -> Seq<u8> {
    seq![(v & 0xff) as u8, (v >> 8u16) as u8]
}

/// The four bytes of `v`, least significant first.
pub open spec fn enc32(v: u32) -> Seq<u8> {
    seq![
        (v & 0xff) as u8,
        ((v >> 8u32) & 0xff) as u8,
        ((v >> 16u32) & 0xff) as u8,
        (v >> 24u32) as u8,
    ]
}

/// The eight bytes of `v`, least significant first.
pub open spec fn enc64(v: u64) -> Seq<u8> {
    enc32((v & 0xffff_ffff) as u32) + enc32((v >> 32u64) as u32)
}

/// The two bytes of `v`, most significant first.
pub open spec fn enc16_be(v: u16) -> Seq<u8> {
    seq![(v >> 8u16) as u8, (v & 0xff) as u8]
}

/// The four bytes of `v`, most significant first.
pub open spec fn enc32_be(v: u32) -> Seq<u8> {
    seq![
        (v >> 24u32) as u8,
        ((v >> 16u32) & 0xff) as u8,
        ((v >> 8u32) & 0xff) as u8,
        (v & 0xff) as u8,
    ]
}

/// Joins a low half of `lo_bits` bits and a high half: `(hi << lo_bits) | lo`.
pub open spec fn concat_lo_hi(lo: int, hi: int, lo_bits: nat) -> int {
    lo + hi * pow2(lo_bits)
}

/// Reads the byte at `off`.
pub fn u8_le(b: &[u8], off: usize) -> (r: u8)
    requires
        off < b@.len(),
    ensures
        r == b@[off as int],
{
    b[off]
}

/// Reads the little-endian `u16` at `off`.
pub fn u16_le(b: &[u8], off: usize) -> (r: u16)
    requires
        off + 2 <= b@.len(),
    ensures
        r == le16(b@, off as int),
{
    (b[off] as u16) | ((b[off + 1] as u16) << 8u16)
}

/// Reads the little-endian `u32` at `off`.
pub fn u32_le(b: &[u8], off: usize) -> (r: u32)
    requires
        off + 4 <= b@.len(),
    ensures
        r == le32(b@, off as int),
{
    (b[off] as u32) | ((b[off + 1] as u32) << 8u32) | ((b[off + 2] as u32) << 16u32) | ((b[off
        + 3] as u32) << 24u32)
}

/// Reads the little-endian `u64` at `off`.
pub fn u64_le(b: &[u8], off: usize) -> (r: u64)
    requires
        off + 8 <= b@.len(),
    ensures
        r == le64(b@, off as int),
{
    let _len = b.len();
    (u32_le(b, off) as u64) | ((u32_le(b, off + 4) as u64) << 32u64)
}

/// Reads the big-endian `u16` at `off`.
pub fn u16_be(b: &[u8], off: usize) -> (r: u16)
    requires
        off + 2 <= b@.len(),
    ensures
        r == be16(b@, off as int),
{
    ((b[off] as u16) << 8u16) | (b[off + 1] as u16)
}

/// Reads the big-endian `u32` at `off`.
pub fn u32_be(b: &[u8], off: usize) -> (r: u32)
    requires
        off + 4 <= b@.len(),
    ensures
        r == be32(b@, off as int),
{
    ((b[off] as u32) << 24u32) | ((b[off + 1] as u32) << 16u32) | ((b[off + 2] as u32) << 8u32)
        | (b[off + 3] as u32)
}

/// Copies the `n` bytes that start at `off`.
pub fn copy_bytes(b: &[u8], off: usize, n: usize) -> (r: Vec<u8>)
    requires
        off + n <= b@.len(),
    ensures
        r@ == b@.subrange(off as int, off + n),
{
    let _len = b.len();
    let mut out: Vec<u8> = Vec::new();
    let mut i: usize = 0;
    while i < n
        invariant
            i <= n,
            off + n <= b@.len(),
            b@.len() <= usize::MAX,
            out@ == b@.subrange(off as int, off + i),
        decreases n - i,
    {
        out.push(b[off + i]);
        i = i + 1;
        assert(out@ =~= b@.subrange(off as int, off + i));
    }
    out
}

/// The `count` little-endian 32-bit integers that start at `off`.
pub open spec fn le32s(b: Seq<u8>, off: int, count: nat) -> Seq<u32> {
    Seq::new(count, |i: int| le32(b, off + 4 * i))
}

/// The bytes of each value in turn, least significant first.
pub open spec fn enc32s(s: Seq<u32>) -> Seq<u8>
    decreases s.len(),
{
    if s.len() == 0 {
        Seq::empty()
    } else {
        enc32s(s.drop_last()) + enc32(s.last())
    }
}

/// Reads the `count` little-endian `u32`s that start at `off`.
pub fn read_u32s(b: &[u8], off: usize, count: usize) -> (r: Vec<u32>)
    requires
        off + 4 * count <= b@.len(),
    ensures
        r@ == le32s(b@, off as int, count as nat),
{
    let _len = b.len();
    let mut out: Vec<u32> = Vec::new();
    let mut i: usize = 0;
    while i < count
        invariant
            i <= count,
            off + 4 * count <= b@.len(),
            b@.len() <= usize::MAX,
            out@ == le32s(b@, off as int, i as nat),
        decreases count - i,
    {
        out.push(u32_le(b, off + 4 * i));
        i = i + 1;
        assert(out@ =~= le32s(b@, off as int, i as nat));
    }
    out
}

/// `(hi << 16) | lo`: a 32-bit value stored as two 16-bit halves.
pub fn concat_u16_u32(lo: u16, hi: u16) -> (r: u32)
    ensures
        r as int == concat_lo_hi(lo as int, hi as int, 16),
{
    let r = (lo as u32) | ((hi as u32) << 16u32);
    assert(r == lo + hi * 0x10000) by (bit_vector)
        requires
            r == (lo as u32) | ((hi as u32) << 16u32),
    ;
    proof {
        lemma2_to64();
    }
    r
}

/// `(hi << 32) | lo`: a 64-bit value stored as two 32-bit halves.
pub fn concat_u32_u64(lo: u32, hi: u32) -> (r: u64)
    ensures
        r as int == concat_lo_hi(lo as int, hi as int, 32),
{
    let r = (lo as u64) | ((hi as u64) << 32u64);
    assert(r == lo + hi * 0x1_0000_0000) by (bit_vector)
        requires
            r == (lo as u64) | ((hi as u64) << 32u64),
    ;
    proof {
        lemma2_to64();
    }
    r
}

/// Reading back the bytes of a 16-bit value gives the value.
pub proof fn lemma_le16_round_trip(b: Seq<u8>, off: int)
    requires
        0 <= off,
        off + 2 <= b.len(),
    ensures
        enc16(le16(b, off)) == b.subrange(off, off + 2),
{
    let (b0, b1) = (b[off], b[off + 1]);
    let v = le16(b, off);
    assert((v & 0xff) as u8 == b0 && (v >> 8u16) as u8 == b1) by (bit_vector)
        requires
            v == (b0 as u16) | ((b1 as u16) << 8u16),
    ;
    assert(enc16(v) =~= b.subrange(off, off + 2));
}

/// The bytes of a 32-bit value read back as the value.
pub proof fn lemma_le32_round_trip(b: Seq<u8>, off: int)
    requires
        0 <= off,
        off + 4 <= b.len(),
    ensures
        enc32(le32(b, off)) == b.subrange(off, off + 4),
{
    let (b0, b1, b2, b3) = (b[off], b[off + 1], b[off + 2], b[off + 3]);
    let v = le32(b, off);
    assert((v & 0xff) as u8 == b0 && ((v >> 8u32) & 0xff) as u8 == b1 && ((v >> 16u32) & 0xff) as u8
        == b2 && (v >> 24u32) as u8 == b3) by (bit_vector)
        requires
            v == (b0 as u32) | ((b1 as u32) << 8u32) | ((b2 as u32) << 16u32) | ((b3 as u32)
                << 24u32),
    ;
    assert(enc32(v) =~= b.subrange(off, off + 4));
}

/// The bytes of a 64-bit value read back as the value.
pub proof fn lemma_le64_round_trip(b: Seq<u8>, off: int)
    requires
        0 <= off,
        off + 8 <= b.len(),
    ensures
        enc64(le64(b, off)) == b.subrange(off, off + 8),
{
    let lo = le32(b, off);
    let hi = le32(b, off + 4);
    let v = le64(b, off);
    assert((v & 0xffff_ffff) as u32 == lo && (v >> 32u64) as u32 == hi) by (bit_vector)
        requires
            v == (lo as u64) | ((hi as u64) << 32u64),
    ;
    lemma_le32_round_trip(b, off);
    lemma_le32_round_trip(b, off + 4);
    assert(enc64(v) =~= b.subrange(off, off + 8));
}

/// The bytes of a big-endian 16-bit value read back as the value, and the
/// value is zero exactly when both bytes are.
pub proof fn lemma_be16_round_trip(b: Seq<u8>, off: int)
    requires
        0 <= off,
        off + 2 <= b.len(),
    ensures
        enc16_be(be16(b, off)) == b.subrange(off, off + 2),
        (be16(b, off) == 0) <==> (b[off] == 0 && b[off + 1] == 0),
{
    let (b0, b1) = (b[off], b[off + 1]);
    let v = be16(b, off);
    assert((v >> 8u16) as u8 == b0 && (v & 0xff) as u8 == b1 && ((v == 0) <==> (b0 == 0 && b1
        == 0))) by (bit_vector)
        requires
            v == ((b0 as u16) << 8u16) | (b1 as u16),
    ;
    assert(enc16_be(v) =~= b.subrange(off, off + 2));
}

/// The bytes of a big-endian 32-bit value read back as the value, and the
/// value is zero exactly when its four bytes are.
pub proof fn lemma_be32_round_trip(b: Seq<u8>, off: int)
    requires
        0 <= off,
        off + 4 <= b.len(),
    ensures
        enc32_be(be32(b, off)) == b.subrange(off, off + 4),
        (be32(b, off) == 0) <==> (b[off] == 0 && b[off + 1] == 0 && b[off + 2] == 0 && b[off + 3]
            == 0),
{
    let (b0, b1, b2, b3) = (b[off], b[off + 1], b[off + 2], b[off + 3]);
    let v = be32(b, off);
    assert((v >> 24u32) as u8 == b0 && ((v >> 16u32) & 0xff) as u8 == b1 && ((v >> 8u32) & 0xff) as u8
        == b2 && (v & 0xff) as u8 == b3 && ((v == 0) <==> (b0 == 0 && b1 == 0 && b2 == 0 && b3
        == 0))) by (bit_vector)
        requires
            v == ((b0 as u32) << 24u32) | ((b1 as u32) << 16u32) | ((b2 as u32) << 8u32) | (b3 as u32),
    ;
    assert(enc32_be(v) =~= b.subrange(off, off + 4));
}

/// Two adjacent ranges of a sequence make up the range that spans both.
pub proof fn lemma_subrange_concat(b: Seq<u8>, a: int, m: int, c: int)
    requires
        0 <= a <= m <= c <= b.len(),
    ensures
        b.subrange(a, m) + b.subrange(m, c) == b.subrange(a, c),
{
    assert(b.subrange(a, m) + b.subrange(m, c) =~= b.subrange(a, c));
}

/// Re-encoding `count` integers read at `off` gives back their bytes.
pub proof fn lemma_le32s_round_trip(b: Seq<u8>, off: int, count: nat)
    requires
        0 <= off,
        off + 4 * count <= b.len(),
    ensures
        enc32s(le32s(b, off, count)) == b.subrange(off, off + 4 * count),
    decreases count,
{
    if count == 0 {
        assert(b.subrange(off, off) =~= Seq::<u8>::empty());
    } else {
        let n = (count - 1) as nat;
        lemma_le32s_round_trip(b, off, n);
        lemma_le32_round_trip(b, off + 4 * n);
        assert(le32s(b, off, count).drop_last() =~= le32s(b, off, n));
        assert(b.subrange(off, off + 4 * n) + b.subrange(off + 4 * n, off + 4 * count) =~= b.subrange(
            off,
            off + 4 * count,
        ));
    }
}

} // verus!
