//! Integer arithmetic shared by the drivers.

use vstd::prelude::*;

verus! {

/// `a / b` rounded toward zero, for a positive `b`.
pub open spec fn toward_zero(a: int, b: int) -> int {
    if a >= 0 { a / b } else { -((-a) / b) }
}

/// `x` held within the range of a 16-bit signed number.
pub open spec fn clamped16(x: int) -> int {
    if x < -32768 {
        -32768
    } else if x > 32767 {
        32767
    } else {
        x
    }
}

/// `|x|`.
pub open spec fn magnitude(x: int) -> int {
    if x < 0 { -x } else { x }
}

/// `a / b` rounded toward zero.
pub fn div_toward_zero(a: i64, b: i64) -> (r: i64)
    requires
        b > 0,
        a > i64::MIN,
    ensures
        r == toward_zero(a as int, b as int),
        magnitude(r as int) <= magnitude(a as int),
{
    proof {
        let m = magnitude(a as int);
        assert(0 <= m / (b as int) <= m) by (nonlinear_arith)
            requires
                m >= 0,
                b > 0,
        ;
    }
    if a >= 0 {
        a / b
    } else {
        -((-a) / b)
    }
}

/// The low 16 bits of a signed number.
pub fn low16(x: i64) -> (r: u16)
    requires
        -0x1_0000_0000 <= x <= 0x1_0000_0000,
    ensures
        r == x as int % 0x1_0000,
{
    ((x + 0x1_0000_0000) % 0x1_0000) as u16
}

/// `x` held within the range of a 16-bit signed number.
pub fn clamp16(x: i64) -> (r: i16)
    ensures
        r == clamped16(x as int),
{
    if x < -32768 {
        -32768
    } else if x > 32767 {
        32767
    } else {
        x as i16
    }
}

/// The bytes of the low 16 bits of a signed number, low one first.
pub open spec fn low_byte(x: int) -> u8 {
    (x % 0x1_0000 % 256) as u8
}

pub open spec fn high_byte(x: int) -> u8 {
    (x % 0x1_0000 / 256) as u8
}

} // verus!
