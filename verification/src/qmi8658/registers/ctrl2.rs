//! CTRL2 bit masks and field values.

use vstd::prelude::*;

verus! {

/// Enable accelerometer self-test.
pub const SELF_TEST: u8 = 0x80;
/// Shift for aFS[2:0] (full-scale range) field in bits 6:4.
pub const FS_SHIFT: u8 = 4;
/// Mask for aFS[2:0] field (3 bits, pre-shift).
pub const FS_MASK: u8 = 0b111;

} // verus!
