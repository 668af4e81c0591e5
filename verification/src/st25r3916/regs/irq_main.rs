//! Main interrupt register bits (Table 62); the same layout is used
//! for its mask register.

use vstd::prelude::*;

verus! {

pub const OSC: u8 = 0x80;
pub const WATER_LEVEL: u8 = 0x40;
pub const RX_START: u8 = 0x20;
pub const RX_END: u8 = 0x10;
pub const TX_END: u8 = 0x08;
pub const COLLISION: u8 = 0x04;
pub const RX_RESTART: u8 = 0x02;

} // verus!
