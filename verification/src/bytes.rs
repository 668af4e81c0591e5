//! Byte order: integers put together from bytes and taken apart again.

use vstd::prelude::*;

verus! {

/// The number whose little-endian bytes are `a`, `b`.
pub open spec fn le16(a: u8, b: u8) -> int {
    a + 256 * b
}

/// The number whose little-endian bytes are `a`, `b`, `c`, `d`.
pub open spec fn le32(a: u8, b: u8, c: u8, d: u8) -> int {
    a + 256 * b + 65536 * c + 16777216 * d
}

/// `x`, a number of `bits` bits, read as two's complement.
pub open spec fn signed(x: int, half: int) -> int {
    if x < half { x } else { x - 2 * half }
}

/// The little-endian bytes of a 16-bit number.
pub open spec fn bytes_le16(x: u16) -> Seq<u8> {
    seq![(x % 256) as u8, (x / 256) as u8]
}

/// The little-endian bytes of a 32-bit number.
pub open spec fn bytes_le32(x: u32) -> Seq<u8> {
    seq![(x % 256) as u8, (x / 256 % 256) as u8, (x / 65536 % 256) as u8, (x / 16777216) as u8]
}

/// The big-endian bytes of a 16-bit number.
pub open spec fn bytes_be16(x: u16) -> Seq<u8> {
    seq![(x / 256) as u8, (x % 256) as u8]
}

/// The big-endian bytes of a 32-bit number.
pub open spec fn bytes_be32(x: u32) -> Seq<u8> {
    seq![(x / 16777216) as u8, (x / 65536 % 256) as u8, (x / 256 % 256) as u8, (x % 256) as u8]
}

/// The big-endian bytes of the low 24 bits of a number.
pub open spec fn bytes_be24(x: u32) -> Seq<u8> {
    seq![(x / 65536 % 256) as u8, (x / 256 % 256) as u8, (x % 256) as u8]
}

pub fn u16_le(a: u8, b: u8) -> (r: u16)
    ensures
        r == le16(a, b),
{
    a as u16 + 256 * (b as u16)
}

pub fn u32_le(a: u8, b: u8, c: u8, d: u8) -> (r: u32)
    ensures
        r == le32(a, b, c, d),
{
    a as u32 + 256 * (b as u32) + 65536 * (c as u32) + 16777216 * (d as u32)
}

/// `x` as two's complement.
pub fn to_i8(x: u8) -> (r: i8)
    ensures
        r == signed(x as int, 0x80),
{
    if x < 0x80 {
        x as i8
    } else {
        (x as i16 - 256) as i8
    }
}

/// `x` as two's complement.
pub fn to_i16(x: u16) -> (r: i16)
    ensures
        r == signed(x as int, 0x8000),
{
    if x < 0x8000 {
        x as i16
    } else {
        (x as i32 - 65536) as i16
    }
}

/// `x` as two's complement.
pub fn to_i32(x: u32) -> (r: i32)
    ensures
        r == signed(x as int, 0x8000_0000),
{
    if x < 0x8000_0000 {
        x as i32
    } else {
        (x as i64 - 0x1_0000_0000) as i32
    }
}

pub fn i16_le(a: u8, b: u8) -> (r: i16)
    ensures
        r == signed(le16(a, b), 0x8000),
{
    to_i16(u16_le(a, b))
}

pub fn to_le16(x: u16) -> (r: [u8; 2])
    ensures
        r@ == bytes_le16(x),
{
    let r: [u8; 2] = [(x % 256) as u8, (x / 256) as u8];
    assert(r@ =~= bytes_le16(x));
    r
}

pub fn to_le32(x: u32) -> (r: [u8; 4])
    ensures
        r@ == bytes_le32(x),
{
    let r: [u8; 4] = [(x % 256) as u8, (x / 256 % 256) as u8, (x / 65536 % 256) as u8, (x / 16777216) as u8];
    assert(r@ =~= bytes_le32(x));
    r
}

pub fn to_be16(x: u16) -> (r: [u8; 2])
    ensures
        r@ == bytes_be16(x),
{
    let r: [u8; 2] = [(x / 256) as u8, (x % 256) as u8];
    assert(r@ =~= bytes_be16(x));
    r
}

pub fn to_be32(x: u32) -> (r: [u8; 4])
    ensures
        r@ == bytes_be32(x),
{
    let r: [u8; 4] = [(x / 16777216) as u8, (x / 65536 % 256) as u8, (x / 256 % 256) as u8, (x % 256) as u8];
    assert(r@ =~= bytes_be32(x));
    r
}

pub fn to_be24(x: u32) -> (r: [u8; 3])
    ensures
        r@ == bytes_be24(x),
{
    let r: [u8; 3] = [(x / 65536 % 256) as u8, (x / 256 % 256) as u8, (x % 256) as u8];
    assert(r@ =~= bytes_be24(x));
    r
}

/// One byte string after another.
pub fn joined(a: &[u8], b: &[u8]) -> (r: Vec<u8>)
    ensures
        r@ == a@ + b@,
{
    let mut r: Vec<u8> = vstd::slice::slice_to_vec(a);
    let mut i: usize = 0;
    while i < b.len()
        invariant
            i <= b@.len(),
            r@ == a@ + b@.take(i as int),
        decreases b@.len() - i,
    {
        r.push(b[i]);
        i = i + 1;
        assert(r@ =~= a@ + b@.take(i as int));
    }
    assert(b@.take(i as int) =~= b@);
    r
}

/// Copy the bytes of `from`, from `at` on, into `to`.
pub fn copy_from(from: &[u8], at: usize, to: &mut [u8])
    requires
        from@.len() == at + old(to)@.len(),
    ensures
        final(to)@ == from@.skip(at as int),
{
    let n: usize = to.len();
    let total: usize = from.len();
    let mut i: usize = 0;
    while i < n
        invariant
            i <= n,
            n == to@.len(),
            total == from@.len(),
            total == at + n,
            forall|j: int| 0 <= j < i ==> to@[j] == from@.skip(at as int)[j],
        decreases n - i,
    {
        to[i] = from[at + i];
        i = i + 1;
    }
    assert(to@ =~= from@.skip(at as int));
}

/// Taking a 16-bit number apart and putting it together again gives it
/// back.
pub proof fn le16_round_trip(x: u16)
    ensures
        le16(bytes_le16(x)[0], bytes_le16(x)[1]) == x,
        bytes_be16(x) == bytes_le16(x).reverse(),
{
    assert(bytes_be16(x) =~= bytes_le16(x).reverse());
}

/// Taking a 32-bit number apart and putting it together again gives it
/// back.
pub proof fn le32_round_trip(x: u32)
    ensures
        le32(bytes_le32(x)[0], bytes_le32(x)[1], bytes_le32(x)[2], bytes_le32(x)[3]) == x,
        bytes_be32(x) == bytes_le32(x).reverse(),
{
    assert(bytes_be32(x) =~= bytes_le32(x).reverse());
}

/// Two's complement is undone by [`signed`]: each 16-bit number stands
/// for exactly one signed one.
pub proof fn signed_injective(x: int, y: int, half: int)
    requires
        0 <= x < 2 * half,
        0 <= y < 2 * half,
        signed(x, half) == signed(y, half),
    ensures
        x == y,
{
}

} // verus!
