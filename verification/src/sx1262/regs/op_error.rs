//! GetDeviceErrors bits (Table 13-86).

use vstd::prelude::*;

verus! {

pub const RC64K_CALIB_ERR: u16 = 0x0001;
pub const RC13M_CALIB_ERR: u16 = 0x0002;
pub const PLL_CALIB_ERR: u16 = 0x0004;
pub const ADC_CALIB_ERR: u16 = 0x0008;
pub const IMG_CALIB_ERR: u16 = 0x0010;
/// Expected (and harmless) at POR / cold-start wake on TCXO
/// designs - the chip tried its crystal path before DIO3 was
/// configured. Clear with ClearDeviceErrors (section 13.3.6).
pub const XOSC_START_ERR: u16 = 0x0020;
pub const PLL_LOCK_ERR: u16 = 0x0040;
pub const PA_RAMP_ERR: u16 = 0x0100;

} // verus!
