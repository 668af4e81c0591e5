//! MIPI DCS command bytes.

use vstd::prelude::*;

verus! {

pub const SLPIN: u8 = 0x10;
pub const SLPOUT: u8 = 0x11;
pub const DISPOFF: u8 = 0x28;
pub const DISPON: u8 = 0x29;
pub const CASET: u8 = 0x2A;
pub const RASET: u8 = 0x2B;
pub const RAMWR: u8 = 0x2C;
pub const RAMWRC: u8 = 0x3C;
pub const MADCTL: u8 = 0x36;
pub const PIXFMT: u8 = 0x3A;
pub const BRIGHTNESS: u8 = 0x51;

} // verus!
