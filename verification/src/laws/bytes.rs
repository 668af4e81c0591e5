//! Byte order and integer arithmetic.

use vstd::prelude::*;
use crate::bytes::{bytes_be16, bytes_be24, bytes_be32, bytes_le16, bytes_le32, le16, le32, signed};
use crate::math::{clamped16, high_byte, low_byte, magnitude, toward_zero};

verus! {

/// A number put together from little-endian bytes has them as its digits
/// to the base 256, the first one lowest.
pub proof fn little_endian_digits(a: u8, b: u8, c: u8, d: u8)
    ensures
        le16(a, b) % 256 == a,
        le16(a, b) / 256 == b,
        le32(a, b, c, d) % 256 == a,
        le32(a, b, c, d) / 256 % 256 == b,
        le32(a, b, c, d) / 65536 % 256 == c,
        le32(a, b, c, d) / 16777216 == d,
{
}

/// The bytes of a number, each times its place value, add up to it.
pub proof fn bytes_by_place_value(x: u16, y: u32)
    ensures
        bytes_le16(x).len() == 2 && bytes_be16(x).len() == 2,
        bytes_le32(y).len() == 4 && bytes_be32(y).len() == 4 && bytes_be24(y).len() == 3,
        bytes_le16(x)[0] + 256 * bytes_le16(x)[1] == x,
        256 * bytes_be16(x)[0] + bytes_be16(x)[1] == x,
        bytes_le32(y)[0] + 256 * bytes_le32(y)[1] + 65536 * bytes_le32(y)[2] + 16777216 * bytes_le32(y)[3] == y,
        16777216 * bytes_be32(y)[0] + 65536 * bytes_be32(y)[1] + 256 * bytes_be32(y)[2] + bytes_be32(y)[3] == y,
        65536 * bytes_be24(y)[0] + 256 * bytes_be24(y)[1] + bytes_be24(y)[2] == y as int % 16777216,
{
}

/// A signed number is its two's complement up to a multiple of the
/// number of patterns, and within range.
pub proof fn signed_is_congruent(x: int, half: int)
    requires
        0 < half,
        0 <= x < 2 * half,
    ensures
        -half <= signed(x, half) < half,
        signed(x, half) == x || signed(x, half) == x - 2 * half,
        (x >= half) == (signed(x, half) < 0),
{
}

/// Rounding toward zero leaves a rest of the sign of the dividend that is
/// smaller than the divisor.
pub proof fn rounding_toward_zero(a: int, b: int)
    requires
        b > 0,
    ensures
        magnitude(a - b * toward_zero(a, b)) < b,
        a >= 0 ==> a - b * toward_zero(a, b) >= 0,
        a <= 0 ==> a - b * toward_zero(a, b) <= 0,
        magnitude(a) == a || magnitude(a) == -a,
        magnitude(a) >= 0,
{
    if a >= 0 {
        vstd::arithmetic::div_mod::lemma_fundamental_div_mod(a, b);
        vstd::arithmetic::div_mod::lemma_mod_bound(a, b);
    } else {
        vstd::arithmetic::div_mod::lemma_fundamental_div_mod(-a, b);
        vstd::arithmetic::div_mod::lemma_mod_bound(-a, b);
        assert(b * (-((-a) / b)) == -(b * ((-a) / b))) by (nonlinear_arith);
    }
}

/// A number held to 16 bits is the nearest one in range.
pub proof fn held_is_nearest(x: int, y: int)
    requires
        -32768 <= y <= 32767,
    ensures
        -32768 <= clamped16(x) <= 32767,
        magnitude(x - clamped16(x)) <= magnitude(x - y),
{
}

/// The two bytes of a signed number are its low 16 bits.
pub proof fn low_bytes_by_place_value(x: int)
    ensures
        low_byte(x) + 256 * high_byte(x) == x % 0x1_0000,
{
}

} // verus!
