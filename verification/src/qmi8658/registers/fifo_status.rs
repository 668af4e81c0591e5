//! FIFO_STATUS bit masks and field values.

use vstd::prelude::*;

verus! {

pub const FULL: u8 = 1 << 7;
pub const WATERMARK: u8 = 0x40;
pub const OVERFLOW: u8 = 1 << 5;
pub const NOT_EMPTY: u8 = 0x10;

} // verus!
