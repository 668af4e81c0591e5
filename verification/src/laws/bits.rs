//! Bits by place value.

use vstd::prelude::*;

verus! {

/// The shifts of 1 and the complements of single bits, as numbers.
pub proof fn single_bits()
    ensures
        1u8 << 0 == 1 && 1u8 << 1 == 2 && 1u8 << 2 == 4 && 1u8 << 3 == 8,
        1u8 << 4 == 16 && 1u8 << 5 == 32 && 1u8 << 6 == 64 && 1u8 << 7 == 128,
        !0x01u8 == 0xFE && !0x02u8 == 0xFD && !0x04u8 == 0xFB && !0x08u8 == 0xF7,
        !0x10u8 == 0xEF && !0x20u8 == 0xDF && !0x40u8 == 0xBF && !0x80u8 == 0x7F,
{
    assert(1u8 << 0 == 1 && 1u8 << 1 == 2 && 1u8 << 2 == 4 && 1u8 << 3 == 8 && 1u8 << 4 == 16 && 1u8 << 5 == 32 && 1u8
        << 6 == 64 && 1u8 << 7 == 128 && !0x01u8 == 0xFE && !0x02u8 == 0xFD && !0x04u8 == 0xFB && !0x08u8 == 0xF7
        && !0x10u8 == 0xEF && !0x20u8 == 0xDF && !0x40u8 == 0xBF && !0x80u8 == 0x7F) by (bit_vector);
}

/// A test of one bit of a byte is a test of its digit to the base 2.
pub proof fn bits_by_place(v: u8)
    ensures
        (v & 0x01 != 0) == (v / 1 % 2 == 1),
        (v & 0x02 != 0) == (v / 2 % 2 == 1),
        (v & 0x04 != 0) == (v / 4 % 2 == 1),
        (v & 0x08 != 0) == (v / 8 % 2 == 1),
        (v & 0x10 != 0) == (v / 16 % 2 == 1),
        (v & 0x20 != 0) == (v / 32 % 2 == 1),
        (v & 0x40 != 0) == (v / 64 % 2 == 1),
        (v & 0x80 != 0) == (v / 128 % 2 == 1),
        (v >> 1) & 0x03 == v / 2 % 4,
        (v >> 3) & 0x03 == v / 8 % 4,
        v >> 5 == v / 32,
{
    assert((v & 0x01 != 0) == (v / 1 % 2 == 1) && (v & 0x02 != 0) == (v / 2 % 2 == 1) && (v & 0x04 != 0) == (v / 4 % 2
        == 1) && (v & 0x08 != 0) == (v / 8 % 2 == 1) && (v & 0x10 != 0) == (v / 16 % 2 == 1) && (v & 0x20 != 0) == (v / 32
        % 2 == 1) && (v & 0x40 != 0) == (v / 64 % 2 == 1) && (v & 0x80 != 0) == (v / 128 % 2 == 1) && (v >> 1u8) & 0x03
        == v / 2 % 4 && (v >> 3u8) & 0x03 == v / 8 % 4 && v >> 5u8 == v / 32) by (bit_vector);
}

/// Setting bits sets them, clearing clears them, and all others stay.
pub proof fn bits_are_changed(v: u8, mask: u8)
    ensures
        (v | mask) & mask == mask,
        (v | mask) & !mask == v & !mask,
        (v & !mask) & mask == 0,
        (v & !mask) & !mask == v & !mask,
        ((v & !mask) | mask) & mask == mask,
        ((v & !mask) | mask) & !mask == v & !mask,
        (v & !mask) | 0 == v & !mask,
{
    assert((v | mask) & mask == mask && (v | mask) & !mask == v & !mask && (v & !mask) & mask == 0 && (v & !mask) & !mask
        == v & !mask && ((v & !mask) | mask) & mask == mask && ((v & !mask) | mask) & !mask == v & !mask && (v & !mask)
        | 0u8 == v & !mask) by (bit_vector);
}

/// The low twelve bits, and bit 12, of a 16-bit number.
pub proof fn twelve_bits(x: u16)
    ensures
        x & 0x0FFF == x % 4096,
        x < 4096 ==> x & !0x1000u16 == x,
        0x1000u16 | (x & 0x0FFF) == 4096 + x % 4096,
{
    assert(x & 0x0FFF == x % 4096 && (x < 4096 ==> x & !0x1000u16 == x) && 0x1000u16 | (x & 0x0FFF) == 4096 + x % 4096)
        by (bit_vector);
}

} // verus!
