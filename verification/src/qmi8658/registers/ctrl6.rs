//! CTRL6 bit masks and field values.

use vstd::prelude::*;

verus! {

/// Enable Motion on Demand (requires sEN=1 in CTRL7).
pub const SMOD: u8 = 0x80;
/// Mask for sODR[2:0] (AttitudeEngine ODR) in bits 2:0.
pub const SODR_MASK: u8 = 0x07;

} // verus!
