//! Error and wake-up interrupt register bits (Table 64).

use vstd::prelude::*;

verus! {

pub const CRC_ERROR: u8 = 0x80;
pub const PARITY_ERROR: u8 = 0x40;
pub const SOFT_FRAMING_ERROR: u8 = 0x20;
pub const HARD_FRAMING_ERROR: u8 = 0x10;
pub const WUP_TIMER: u8 = 0x08;
pub const WUP_AMPLITUDE: u8 = 0x04;
pub const WUP_PHASE: u8 = 0x02;
pub const WUP_CAPACITANCE: u8 = 0x01;

} // verus!
