//! Host Status (0x17) bits, Table 25.

use vstd::prelude::*;

verus! {

pub const POWER_STATE_SLEEPING: u8 = 0x01;
pub const HOST_PROTOCOL_SPI: u8 = 0x02;

} // verus!
