//! Little-endian encoding of fixed-width integers into byte sequences.

use vstd::prelude::*;

verus! {

/// The two bytes of `x`, least significant first.
pub open spec fn le_u16(x: u16) -> Seq<u8> {
    seq![(x & 0xff) as u8, ((x >> 8) & 0xff) as u8]
}

/// The four bytes of `x`, least significant first.
pub open spec fn le_u32(x: u32) -> Seq<u8> {
    seq![
        (x & 0xff) as u8,
        ((x >> 8) & 0xff) as u8,
        ((x >> 16) & 0xff) as u8,
        ((x >> 24) & 0xff) as u8,
    ]
}

/// The eight bytes of `x`, least significant first.
pub open spec fn le_u64(x: u64) -> Seq<u8> {
    seq![
        (x & 0xff) as u8,
        ((x >> 8) & 0xff) as u8,
        ((x >> 16) & 0xff) as u8,
        ((x >> 24) & 0xff) as u8,
        ((x >> 32) & 0xff) as u8,
        ((x >> 40) & 0xff) as u8,
        ((x >> 48) & 0xff) as u8,
        ((x >> 56) & 0xff) as u8,
    ]
}

/// The four bytes of the two's complement representation of `x`.
pub open spec fn le_i32(x: i32) -> Seq<u8> {
    le_u32(x as u32)
}

pub open spec fn u16_of(b0: u8, b1: u8) -> u16 {
    (b0 as u16) | ((b1 as u16) << 8)
}

pub open spec fn u32_of(b0: u8, b1: u8, b2: u8, b3: u8) -> u32 {
    (b0 as u32) | ((b1 as u32) << 8) | ((b2 as u32) << 16) | ((b3 as u32) << 24)
}

pub open spec fn u64_of(b0: u8, b1: u8, b2: u8, b3: u8, b4: u8, b5: u8, b6: u8, b7: u8) -> u64 {
    (b0 as u64) | ((b1 as u64) << 8) | ((b2 as u64) << 16) | ((b3 as u64) << 24) | ((b4 as u64)
        << 32) | ((b5 as u64) << 40) | ((b6 as u64) << 48) | ((b7 as u64) << 56)
}

/// The little-endian `u16` stored in `s` at `off`.
pub open spec fn u16_at(s: Seq<u8>, off: int) -> u16 {
    u16_of(s[off], s[off + 1])
}

/// The little-endian `u32` stored in `s` at `off`.
pub open spec fn u32_at(s: Seq<u8>, off: int) -> u32 {
    u32_of(s[off], s[off + 1], s[off + 2], s[off + 3])
}

/// The little-endian `u64` stored in `s` at `off`.
pub open spec fn u64_at(s: Seq<u8>, off: int) -> u64 {
    u64_of(s[off], s[off + 1], s[off + 2], s[off + 3], s[off + 4], s[off + 5], s[off + 6], s[off + 7])
}

/// The little-endian `i32` stored in `s` at `off`.
pub open spec fn i32_at(s: Seq<u8>, off: int) -> i32 {
    u32_at(s, off) as i32
}

/// `s` with the bytes from `off` on replaced by `t`.
pub open spec fn splice(s: Seq<u8>, off: int, t: Seq<u8>) -> Seq<u8> {
    s.take(off) + t + s.skip(off + t.len())
}

/// `n` zero bytes.
pub open spec fn zeros(n: nat) -> Seq<u8> {
    Seq::new(n, |i: int| 0u8)
}

/// Decoding the bytes of `le_u16(x)` gives back `x`.
pub proof fn lemma_u16_roundtrip(x: u16)
    ensures
        u16_of((x & 0xff) as u8, ((x >> 8) & 0xff) as u8) == x,
{
    assert(u16_of((x & 0xff) as u8, ((x >> 8) & 0xff) as u8) == x) by (bit_vector);
}

/// Decoding the bytes of `le_u32(x)` gives back `x`.
pub proof fn lemma_u32_roundtrip(x: u32)
    ensures
        u32_of(
            (x & 0xff) as u8,
            ((x >> 8) & 0xff) as u8,
            ((x >> 16) & 0xff) as u8,
            ((x >> 24) & 0xff) as u8,
        ) == x,
{
    assert(u32_of(
        (x & 0xff) as u8,
        ((x >> 8) & 0xff) as u8,
        ((x >> 16) & 0xff) as u8,
        ((x >> 24) & 0xff) as u8,
    ) == x) by (bit_vector);
}

/// Decoding the bytes of `le_u64(x)` gives back `x`.
pub proof fn lemma_u64_roundtrip(x: u64)
    ensures
        u64_of(
            (x & 0xff) as u8,
            ((x >> 8) & 0xff) as u8,
            ((x >> 16) & 0xff) as u8,
            ((x >> 24) & 0xff) as u8,
            ((x >> 32) & 0xff) as u8,
            ((x >> 40) & 0xff) as u8,
            ((x >> 48) & 0xff) as u8,
            ((x >> 56) & 0xff) as u8,
        ) == x,
{
    assert(u64_of(
        (x & 0xff) as u8,
        ((x >> 8) & 0xff) as u8,
        ((x >> 16) & 0xff) as u8,
        ((x >> 24) & 0xff) as u8,
        ((x >> 32) & 0xff) as u8,
        ((x >> 40) & 0xff) as u8,
        ((x >> 48) & 0xff) as u8,
        ((x >> 56) & 0xff) as u8,
    ) == x) by (bit_vector);
}

/// Where the eight bytes of `s` at `off` are those of `le_u64(x)`, the
/// little-endian `u64` read there is `x`.
pub proof fn lemma_u64_at_le(s: Seq<u8>, off: int, x: u64)
    requires
        0 <= off,
        off + 8 <= s.len(),
        s.subrange(off, off + 8) == le_u64(x),
    ensures
        u64_at(s, off) == x,
{
    lemma_u64_roundtrip(x);
    assert forall|k: int| 0 <= k < 8 implies s[off + k] == le_u64(x)[k] by {
        assert(s.subrange(off, off + 8)[k] == s[off + k]);
    }
}

/// Where the four bytes of `s` at `off` are those of `le_u32(x)`, the
/// little-endian `u32` read there is `x`.
pub proof fn lemma_u32_at_le(s: Seq<u8>, off: int, x: u32)
    requires
        0 <= off,
        off + 4 <= s.len(),
        s.subrange(off, off + 4) == le_u32(x),
    ensures
        u32_at(s, off) == x,
{
    lemma_u32_roundtrip(x);
    assert forall|k: int| 0 <= k < 4 implies s[off + k] == le_u32(x)[k] by {
        assert(s.subrange(off, off + 4)[k] == s[off + k]);
    }
}

/// Reinterpreting the two's complement bits of `x` gives back `x`.
pub proof fn lemma_i32_roundtrip(x: i32)
    ensures
        (x as u32) as i32 == x,
{
    assert((x as u32) as i32 == x) by (bit_vector);
}

/// Appends the little-endian bytes of `x`.
pub fn push_u16(v: &mut Vec<u8>, x: u16)
    ensures
        final(v)@ == old(v)@ + le_u16(x),
{
    v.push((x & 0xff) as u8);
    v.push(((x >> 8) & 0xff) as u8);
    assert(v@ =~= old(v)@ + le_u16(x));
}

/// Appends the little-endian bytes of `x`.
pub fn push_u32(v: &mut Vec<u8>, x: u32)
    ensures
        final(v)@ == old(v)@ + le_u32(x),
{
    v.push((x & 0xff) as u8);
    v.push(((x >> 8) & 0xff) as u8);
    v.push(((x >> 16) & 0xff) as u8);
    v.push(((x >> 24) & 0xff) as u8);
    assert(v@ =~= old(v)@ + le_u32(x));
}

/// Appends the little-endian bytes of `x`.
pub fn push_u64(v: &mut Vec<u8>, x: u64)
    ensures
        final(v)@ == old(v)@ + le_u64(x),
{
    v.push((x & 0xff) as u8);
    v.push(((x >> 8) & 0xff) as u8);
    v.push(((x >> 16) & 0xff) as u8);
    v.push(((x >> 24) & 0xff) as u8);
    v.push(((x >> 32) & 0xff) as u8);
    v.push(((x >> 40) & 0xff) as u8);
    v.push(((x >> 48) & 0xff) as u8);
    v.push(((x >> 56) & 0xff) as u8);
    assert(v@ =~= old(v)@ + le_u64(x));
}

/// Appends the two's complement bytes of `x`.
pub fn push_i32(v: &mut Vec<u8>, x: i32)
    ensures
        final(v)@ == old(v)@ + le_i32(x),
{
    push_u32(v, x as u32);
}

/// Reads the little-endian `u16` at `off`.
pub fn read_u16(buf: &[u8], off: usize) -> (r: u16)
    requires
        off + 2 <= buf@.len(),
    ensures
        r == u16_at(buf@, off as int),
{
    (buf[off] as u16) | ((buf[off + 1] as u16) << 8)
}

/// Reads the little-endian `u32` at `off`.
pub fn read_u32(buf: &[u8], off: usize) -> (r: u32)
    requires
        off + 4 <= buf@.len(),
    ensures
        r == u32_at(buf@, off as int),
{
    (buf[off] as u32) | ((buf[off + 1] as u32) << 8) | ((buf[off + 2] as u32) << 16) | ((buf[off
        + 3] as u32) << 24)
}

/// Reads the little-endian `u64` at `off`.
pub fn read_u64(buf: &[u8], off: usize) -> (r: u64)
    requires
        off + 8 <= buf@.len(),
    ensures
        r == u64_at(buf@, off as int),
{
    (buf[off] as u64) | ((buf[off + 1] as u64) << 8) | ((buf[off + 2] as u64) << 16) | ((buf[off
        + 3] as u64) << 24) | ((buf[off + 4] as u64) << 32) | ((buf[off + 5] as u64) << 40) | ((
    buf[off + 6] as u64) << 48) | ((buf[off + 7] as u64) << 56)
}

/// Reads the little-endian `i32` at `off`.
pub fn read_i32(buf: &[u8], off: usize) -> (r: i32)
    requires
        off + 4 <= buf@.len(),
    ensures
        r == i32_at(buf@, off as int),
{
    read_u32(buf, off) as i32
}

/// Copies `src` into `buf` starting at `off`; the other bytes stay as they were.
pub fn copy_into(buf: &mut [u8], off: usize, src: &[u8])
    requires
        off + src@.len() <= old(buf)@.len(),
    ensures
        final(buf)@ == splice(old(buf)@, off as int, src@),
{
    let n = src.len();
    let len = buf.len();
    let mut i: usize = 0;
    while i < n
        invariant
            n == src@.len(),
            len == buf@.len(),
            off + n <= buf@.len(),
            buf@.len() == old(buf)@.len(),
            0 <= i <= n,
            forall|j: int| 0 <= j < off ==> buf@[j] == old(buf)@[j],
            forall|j: int| off <= j < off + i ==> buf@[j] == src@[j - off],
            forall|j: int| off + i <= j < buf@.len() ==> buf@[j] == old(buf)@[j],
        decreases n - i,
    {
        buf[off + i] = src[i];
        i = i + 1;
    }
    assert(buf@ =~= splice(old(buf)@, off as int, src@));
}

/// A vector of `n` zero bytes.
pub fn zero_bytes(n: usize) -> (v: Vec<u8>)
    ensures
        v@ == zeros(n as nat),
{
    let v = vec![0u8; n];
    assert(v@ =~= zeros(n as nat));
    v
}

/// Appends the bytes of `src` to `v`.
pub fn append_bytes(v: &mut Vec<u8>, src: &[u8])
    ensures
        final(v)@ == old(v)@ + src@,
{
    let n = src.len();
    let mut i: usize = 0;
    while i < n
        invariant
            n == src@.len(),
            0 <= i <= n,
            v@ == old(v)@ + src@.subrange(0, i as int),
        decreases n - i,
    {
        v.push(src[i]);
        i = i + 1;
        assert(v@ =~= old(v)@ + src@.subrange(0, i as int));
    }
    assert(src@.subrange(0, n as int) =~= src@);
}

/// Copies `src` into `v` starting at `off`; the other bytes stay as they were.
pub fn put_bytes(v: &mut Vec<u8>, off: usize, src: &[u8])
    requires
        off + src@.len() <= old(v)@.len(),
    ensures
        final(v)@ == splice(old(v)@, off as int, src@),
{
    copy_into(v.as_mut_slice(), off, src);
}

/// The bytes of `s` from `start` up to `end`, as a vector.
pub fn subrange_vec(s: &[u8], start: usize, end: usize) -> (r: Vec<u8>)
    requires
        start <= end <= s@.len(),
    ensures
        r@ == s@.subrange(start as int, end as int),
{
    let mut r: Vec<u8> = Vec::new();
    let mut i = start;
    while i < end
        invariant
            start <= i <= end,
            end <= s@.len(),
            r@ == s@.subrange(start as int, i as int),
        decreases end - i,
    {
        r.push(s[i]);
        i = i + 1;
        assert(r@ =~= s@.subrange(start as int, i as int));
    }
    r
}

} // verus!
