//! IO configuration register 2 bits (Table 20).

use vstd::prelude::*;

verus! {

/// MUST be set on 2.4-3.6 V supplies (ours) after every
/// power-up; the reset default assumes 5 V.
pub const SUP3V: u8 = 0x80;
pub const VSPD_OFF: u8 = 0x40;
pub const AAT_EN: u8 = 0x20;
pub const MISO_PD2: u8 = 0x10;
pub const MISO_PD1: u8 = 0x08;
pub const IO_DRV_LVL: u8 = 0x04;
pub const AM_REF_RF: u8 = 0x02;
pub const SLOW_UP: u8 = 0x01;

} // verus!
