//! FIFO Flush (0x0009) flush values, Table 47.

use vstd::prelude::*;

verus! {

pub const SEND_ALL: u8 = 0xFF;
pub const DISCARD_ALL: u8 = 0xFE;
pub const SEND_WAKE: u8 = 0xFD;
pub const SEND_NONWAKE: u8 = 0xFC;
pub const DISCARD_WAKE: u8 = 0xFB;
pub const DISCARD_NONWAKE: u8 = 0xFA;
pub const DISCARD_STATUS: u8 = 0xF9;

} // verus!
