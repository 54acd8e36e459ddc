//! Fixed-width little-endian integers, stated arithmetically.

use vstd::prelude::*;

verus! {

/// The two little-endian bytes of `x`.
pub open spec fn u16_le(x: u16) -> Seq<u8> {
    seq![(x % 256) as u8, (x / 256) as u8]
}

/// The value whose little-endian bytes are the first two of `b`.
pub open spec fn u16_from_le(b: Seq<u8>) -> u16 {
    (b[0] + b[1] * 256) as u16
}

/// The four little-endian bytes of `x`.
pub open spec fn u32_le(x: u32) -> Seq<u8> {
    seq![
        (x % 256) as u8,
        ((x / 256) % 256) as u8,
        ((x / 65536) % 256) as u8,
        (x / 16777216) as u8,
    ]
}

/// The value whose little-endian bytes are the first four of `b`.
pub open spec fn u32_from_le(b: Seq<u8>) -> u32 {
    (b[0] + b[1] * 256 + b[2] * 65536 + b[3] * 16777216) as u32
}

/// The eight little-endian bytes of `x`: the low half, then the high half.
pub open spec fn u64_le(x: u64) -> Seq<u8> {
    u32_le((x % 4294967296) as u32) + u32_le((x / 4294967296) as u32)
}

/// The value whose little-endian bytes are the first eight of `b`.
pub open spec fn u64_from_le(b: Seq<u8>) -> u64 {
    (u32_from_le(b.subrange(0, 4)) + u32_from_le(b.subrange(4, 8)) * 4294967296) as u64
}

/// The two's-complement bit pattern of `x`, read as an unsigned number.
pub open spec fn i64_bits(x: i64) -> u64 {
    if x >= 0 {
        x as u64
    } else {
        (x + 18446744073709551616) as u64
    }
}

/// The signed number whose two's-complement bit pattern is `x`.
pub open spec fn i64_of_bits(x: u64) -> i64 {
    if x < 9223372036854775808 {
        x as i64
    } else {
        (x - 18446744073709551616) as i64
    }
}

/// The eight little-endian bytes of `x` in two's complement.
pub open spec fn i64_le(x: i64) -> Seq<u8> {
    u64_le(i64_bits(x))
}

/// The signed value whose little-endian two's-complement bytes are the first
/// eight of `b`.
pub open spec fn i64_from_le(b: Seq<u8>) -> i64 {
    i64_of_bits(u64_from_le(b))
}

/// The two's-complement bit pattern of an `i16`, read as an unsigned number.
pub open spec fn i16_bits(x: i16) -> u16 {
    if x >= 0 {
        x as u16
    } else {
        (x + 65536) as u16
    }
}

/// The two little-endian bytes of `x` in two's complement.
pub open spec fn i16_le(x: i16) -> Seq<u8> {
    u16_le(i16_bits(x))
}

/// Decoding undoes encoding for 16-bit values.
pub proof fn lemma_u16_round_trip(x: u16)
    ensures
        u16_le(x).len() == 2,
        u16_from_le(u16_le(x)) == x,
{
}

/// Encoding undoes decoding for any two bytes.
pub proof fn lemma_u16_bytes_round_trip(b: Seq<u8>)
    requires
        b.len() == 2,
    ensures
        u16_le(u16_from_le(b)) == b,
{
    assert(u16_le(u16_from_le(b)) =~= b);
}

/// Decoding undoes encoding for 32-bit values.
pub proof fn lemma_u32_round_trip(x: u32)
    ensures
        u32_le(x).len() == 4,
        u32_from_le(u32_le(x)) == x,
{
}

/// Encoding undoes decoding for any four bytes.
pub proof fn lemma_u32_bytes_round_trip(b: Seq<u8>)
    requires
        b.len() == 4,
    ensures
        u32_le(u32_from_le(b)) == b,
{
    let b0 = b[0] as int;
    let b1 = b[1] as int;
    let b2 = b[2] as int;
    let b3 = b[3] as int;
    let r2 = b2 + 256 * b3;
    let r1 = b1 + 256 * r2;
    let x = b0 + 256 * r1;
    assert(x == u32_from_le(b));
    assert(x % 256 == b0 && x / 256 == r1);
    assert(r1 % 256 == b1 && r1 / 256 == r2);
    assert(r2 % 256 == b2 && r2 / 256 == b3);
    assert(x / 65536 == r2);
    assert(x / 16777216 == b3);
    assert(u32_le(u32_from_le(b)) =~= b);
}

/// Decoding undoes encoding for 64-bit values.
pub proof fn lemma_u64_round_trip(x: u64)
    ensures
        u64_le(x).len() == 8,
        u64_from_le(u64_le(x)) == x,
{
    let lo = (x % 4294967296) as u32;
    let hi = (x / 4294967296) as u32;
    lemma_u32_round_trip(lo);
    lemma_u32_round_trip(hi);
    assert(u64_le(x).subrange(0, 4) =~= u32_le(lo));
    assert(u64_le(x).subrange(4, 8) =~= u32_le(hi));
}

/// Encoding undoes decoding for any eight bytes.
pub proof fn lemma_u64_bytes_round_trip(b: Seq<u8>)
    requires
        b.len() == 8,
    ensures
        u64_le(u64_from_le(b)) == b,
{
    let lo = u32_from_le(b.subrange(0, 4));
    let hi = u32_from_le(b.subrange(4, 8));
    lemma_u32_bytes_round_trip(b.subrange(0, 4));
    lemma_u32_bytes_round_trip(b.subrange(4, 8));
    let x = u64_from_le(b);
    assert(x == lo + 4294967296 * hi);
    assert(x % 4294967296 == lo && x / 4294967296 == hi);
    assert(u64_le(x) =~= b.subrange(0, 4) + b.subrange(4, 8));
    assert(b.subrange(0, 4) + b.subrange(4, 8) =~= b);
}

/// Decoding undoes encoding for signed 64-bit values.
pub proof fn lemma_i64_round_trip(x: i64)
    ensures
        i64_le(x).len() == 8,
        i64_from_le(i64_le(x)) == x,
{
    lemma_u64_round_trip(i64_bits(x));
}

/// Encoding undoes decoding of a signed value for any eight bytes.
pub proof fn lemma_i64_bytes_round_trip(b: Seq<u8>)
    requires
        b.len() == 8,
    ensures
        i64_le(i64_from_le(b)) == b,
{
    lemma_u64_bytes_round_trip(b);
}

/// Copies `N` bytes of `b`, starting at `at`, into an array.
pub fn array_from_slice<const N: usize>(b: &[u8], at: usize) -> (r: [u8; N])
    requires
        at + N <= b@.len(),
    ensures
        r@ == b@.subrange(at as int, at + N),
{
    let n = b.len();
    let mut r = [0u8; N];
    let mut i: usize = 0;
    while i < N
        invariant
            i <= N,
            at + N <= b@.len(),
            n == b@.len(),
            forall|j: int| 0 <= j < i ==> r@[j] == b@[at + j],
        decreases N - i,
    {
        r[i] = b[at + i];
        i += 1;
    }
    assert(r@ =~= b@.subrange(at as int, at + N));
    r
}

pub fn u16_to_le_bytes(x: u16) -> (r: [u8; 2])
    ensures
        r@ == u16_le(x),
{
    let r = [(x % 256) as u8, (x / 256) as u8];
    assert(r@ =~= u16_le(x));
    r
}

pub fn u16_from_le_bytes(b: &[u8; 2]) -> (r: u16)
    ensures
        r == u16_from_le(b@),
{
    let lo: u16 = b[0] as u16;
    let hi: u16 = b[1] as u16;
    lo + hi * 256
}

pub fn u32_to_le_bytes(x: u32) -> (r: [u8; 4])
    ensures
        r@ == u32_le(x),
{
    let r = [
        (x % 256) as u8,
        ((x / 256) % 256) as u8,
        ((x / 65536) % 256) as u8,
        (x / 16777216) as u8,
    ];
    assert(r@ =~= u32_le(x));
    r
}

/// Reads four bytes of `b`, starting at `at`, as a little-endian `u32`.
pub fn u32_from_le_slice(b: &[u8], at: usize) -> (r: u32)
    requires
        at + 4 <= b@.len(),
    ensures
        r == u32_from_le(b@.subrange(at as int, at + 4)),
{
    let b0: u32 = b[at] as u32;
    let b1: u32 = b[at + 1] as u32;
    let b2: u32 = b[at + 2] as u32;
    let b3: u32 = b[at + 3] as u32;
    b0 + b1 * 256 + b2 * 65536 + b3 * 16777216
}

pub fn u64_to_le_bytes(x: u64) -> (r: [u8; 8])
    ensures
        r@ == u64_le(x),
{
    let lo = u32_to_le_bytes((x % 4294967296) as u32);
    let hi = u32_to_le_bytes((x / 4294967296) as u32);
    let r = [lo[0], lo[1], lo[2], lo[3], hi[0], hi[1], hi[2], hi[3]];
    assert(r@ =~= u64_le(x));
    r
}

/// Reads eight bytes of `b`, starting at `at`, as a little-endian `u64`.
pub fn u64_from_le_slice(b: &[u8], at: usize) -> (r: u64)
    requires
        at + 8 <= b@.len(),
    ensures
        r == u64_from_le(b@.subrange(at as int, at + 8)),
{
    let n = b.len();
    let lo: u64 = u32_from_le_slice(b, at) as u64;
    let hi: u64 = u32_from_le_slice(b, at + 4) as u64;
    let ghost s = b@.subrange(at as int, at + 8);
    assert(s.subrange(0, 4) =~= b@.subrange(at as int, at + 4));
    assert(s.subrange(4, 8) =~= b@.subrange(at + 4, at + 8));
    lo + hi * 4294967296
}

pub fn i64_to_bits(x: i64) -> (r: u64)
    ensures
        r == i64_bits(x),
{
    if x >= 0 {
        x as u64
    } else {
        ((x - i64::MIN) as u64) + 9223372036854775808
    }
}

pub fn i64_from_bits(x: u64) -> (r: i64)
    ensures
        r == i64_of_bits(x),
{
    if x < 9223372036854775808 {
        x as i64
    } else {
        ((x - 9223372036854775808) as i64) + i64::MIN
    }
}

pub fn i64_to_le_bytes(x: i64) -> (r: [u8; 8])
    ensures
        r@ == i64_le(x),
{
    u64_to_le_bytes(i64_to_bits(x))
}

/// Reads eight bytes of `b`, starting at `at`, as a little-endian `i64`.
pub fn i64_from_le_slice(b: &[u8], at: usize) -> (r: i64)
    requires
        at + 8 <= b@.len(),
    ensures
        r == i64_from_le(b@.subrange(at as int, at + 8)),
{
    i64_from_bits(u64_from_le_slice(b, at))
}

pub fn i16_to_le_bytes(x: i16) -> (r: [u8; 2])
    ensures
        r@ == i16_le(x),
{
    let bits: u16 = if x >= 0 {
        x as u16
    } else {
        ((x - i16::MIN) as u16) + 32768
    };
    u16_to_le_bytes(bits)
}

} // verus!
