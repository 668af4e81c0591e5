//! Calibrate() block-selection bits (Table 13-18). OR together;
//! `ALL` is every block (~3.5 ms, STDBY_RC only).

use vstd::prelude::*;

verus! {

pub const RC64K: u8 = 0x01;
pub const RC13M: u8 = 0x02;
pub const PLL: u8 = 0x04;
pub const ADC_PULSE: u8 = 0x08;
pub const ADC_BULK_N: u8 = 0x10;
pub const ADC_BULK_P: u8 = 0x20;
pub const IMAGE: u8 = 0x40;
pub const ALL: u8 = 0x7F;

} // verus!
