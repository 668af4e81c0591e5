//! CTRL5 bit masks and field values.

use vstd::prelude::*;

verus! {

/// Shift for gLPF_MODE[1:0] field in bits 6:5.
pub const GLPF_MODE_SHIFT: u8 = 5;
/// Enable gyroscope low-pass filter.
pub const GLPF_EN: u8 = 1 << 4;
/// Shift for aLPF_MODE[1:0] field in bits 2:1.
pub const ALPF_MODE_SHIFT: u8 = 1;
/// Enable accelerometer low-pass filter.
pub const ALPF_EN: u8 = 1 << 0;

} // verus!
