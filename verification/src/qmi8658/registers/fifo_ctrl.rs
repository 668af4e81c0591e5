//! FIFO_CTRL bit masks and field values.

use vstd::prelude::*;

verus! {

/// Put FIFO into read mode (set before reading, clear after).
/// Automatically set by CTRL9 command REQ_FIFO.
pub const RD_MODE: u8 = 0x80;
/// Shift for FIFO size field (bits 3:2).
pub const SIZE_SHIFT: u8 = 2;
/// Mask for FIFO size field (bits 3:2, pre-shift).
pub const SIZE_MASK: u8 = 0x03;
/// Mask for FIFO mode field (bits 1:0).
pub const MODE_MASK: u8 = 0x03;

} // verus!
