//! Operation control register bits (Table 21).

use vstd::prelude::*;

verus! {

/// Ready mode: oscillator + regulators on.
pub const EN: u8 = 0x80;
pub const RX_EN: u8 = 0x40;
pub const RX_CHN: u8 = 0x20;
pub const RX_MAN: u8 = 0x10;
pub const TX_EN: u8 = 0x08;
pub const WU: u8 = 0x04;
/// External field detector bits: 01 collision-avoidance
/// threshold, 10 peer-detection, 11 automatic.
pub const EN_FD_C1: u8 = 0x02;
pub const EN_FD_C0: u8 = 0x01;

} // verus!
