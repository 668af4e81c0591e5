//! Register space B addresses (Table 18); access via the
//! [`super::cmd::SPACE_B_ACCESS`] prefix.

use vstd::prelude::*;

verus! {

pub const EMD_SUP_CONF: u8 = 0x05;
pub const SUBC_START_TIME: u8 = 0x06;
pub const P2P_RX_CONF: u8 = 0x0B;
pub const CORR_CONF1: u8 = 0x0C;
pub const CORR_CONF2: u8 = 0x0D;
pub const SQUELCH_TIMER: u8 = 0x0F;
pub const FIELD_ON_GT: u8 = 0x15;
pub const AUX_MOD: u8 = 0x28;
pub const TX_DRIVER_TIMING: u8 = 0x29;
pub const RES_AM_MOD: u8 = 0x2A;
pub const TX_DRIVER_TIMING_DISPLAY: u8 = 0x2B;
pub const REGULATOR_RESULT: u8 = 0x2C;
pub const OVERSHOOT_CONF1: u8 = 0x30;
pub const OVERSHOOT_CONF2: u8 = 0x31;
pub const UNDERSHOOT_CONF1: u8 = 0x32;
pub const UNDERSHOOT_CONF2: u8 = 0x33;

} // verus!
