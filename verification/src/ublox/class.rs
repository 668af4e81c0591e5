//! UBX message class ids used by this driver.

use vstd::prelude::*;

verus! {

/// Navigation results (NAV-PVT et al).
pub const NAV: u8 = 0x01;
/// Receiver manager (RXM-PMREQ et al).
pub const RXM: u8 = 0x02;
/// Acknowledgements for CFG-class writes.
pub const ACK: u8 = 0x05;
/// Configuration (VALSET/VALGET/RST).
pub const CFG: u8 = 0x06;
/// Monitoring (MON-VER et al).
pub const MON: u8 = 0x0a;

} // verus!
