//! IO configuration register 1 bits (Table 19).

use vstd::prelude::*;

verus! {

pub const SINGLE: u8 = 0x80;
pub const RFO2: u8 = 0x40;
/// out_cl<1:0> = 11 disables the MCU_CLK output entirely.
pub const OUT_CL1: u8 = 0x04;
pub const OUT_CL0: u8 = 0x02;
pub const LF_CLK_OFF: u8 = 0x01;

} // verus!
