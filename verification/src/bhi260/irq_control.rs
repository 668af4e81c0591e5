//! Host Interrupt Control (0x07) bits, Table 20. All mask bits: 1
//! disables that interrupt source. Reset value 0 = active high, level,
//! push-pull, everything enabled.

use vstd::prelude::*;

verus! {

pub const MASK_WAKE_FIFO: u8 = 0x01;
pub const MASK_NONWAKE_FIFO: u8 = 0x02;
pub const MASK_STATUS_AVAILABLE: u8 = 0x04;
pub const MASK_DEBUG_AVAILABLE: u8 = 0x08;
pub const MASK_FAULT: u8 = 0x10;
pub const ACTIVE_LOW: u8 = 0x20;
pub const EDGE: u8 = 0x40; // 1 = 10 us pulse, 0 = level until drained
pub const OPEN_DRAIN: u8 = 0x80;

} // verus!
