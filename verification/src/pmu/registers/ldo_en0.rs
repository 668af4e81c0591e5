//! LDO enable bits (REG 90h).

use vstd::prelude::*;

verus! {

pub const ALDO1: u8 = 0x01;
pub const ALDO2: u8 = 0x02;
pub const ALDO3: u8 = 0x04;
pub const ALDO4: u8 = 0x08;
pub const BLDO1: u8 = 0x10;
pub const BLDO2: u8 = 0x20;
pub const CPUSLDO: u8 = 0x40;
pub const DLDO1: u8 = 0x80;

} // verus!
