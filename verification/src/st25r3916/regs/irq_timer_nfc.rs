//! Timer and NFC interrupt register bits (Table 63).

use vstd::prelude::*;

verus! {

pub const DCT: u8 = 0x80;
pub const NO_RESPONSE: u8 = 0x40;
pub const GP_TIMER: u8 = 0x20;
pub const FIELD_ON: u8 = 0x10;
pub const FIELD_OFF: u8 = 0x08;
pub const COLLISION_DURING_CA: u8 = 0x04;
pub const MIN_GUARD_TIME: u8 = 0x02;
pub const BIT_RATE_RECOGNIZED: u8 = 0x01;

} // verus!
