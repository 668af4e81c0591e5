//! ADC channel enable bits (REG 30h).

use vstd::prelude::*;

verus! {

pub const BAT_VOLT: u8 = 0x01;
pub const TS_PIN: u8 = 0x02;
pub const VBUS_VOLT: u8 = 0x04;
pub const VSYS_VOLT: u8 = 0x08;
pub const DIE_TEMP: u8 = 0x10;

} // verus!
