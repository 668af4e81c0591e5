//! Auxiliary display register bits (Table 98).

use vstd::prelude::*;

verus! {

pub const A_CHA: u8 = 0x80;
pub const EFD_O: u8 = 0x40;
pub const TX_ON: u8 = 0x20;
/// Crystal oscillator running and stable.
pub const OSC_OK: u8 = 0x10;
pub const RX_ON: u8 = 0x08;
pub const RX_ACT: u8 = 0x04;
pub const EN_PEER: u8 = 0x02;
pub const EN_AC: u8 = 0x01;

} // verus!
