//! Interrupt Status (0x2D) bits/fields, Table 28. The two FIFO fields
//! are 2 bits wide: 0 none, 1 immediate, 2 latency, 3 watermark.

use vstd::prelude::*;

verus! {

pub const HOST_IRQ_ASSERTED: u8 = 0x01;
pub const WAKE_FIFO_SHIFT: u8 = 1;
pub const NONWAKE_FIFO_SHIFT: u8 = 3;
pub const FIFO_FIELD_MASK: u8 = 0b11;
pub const STATUS: u8 = 0x20; // sync status packet available
pub const DEBUG: u8 = 0x40; // async status/debug data available
pub const RESET_OR_FAULT: u8 = 0x80;

/// Any of the three output channels has data pending.
pub const ANY_DATA: u8 = 0b0111_1110;

} // verus!
