//! UBX message ids within their class.

use vstd::prelude::*;

verus! {

/// NAV-PVT - position/velocity/time solution (92-byte payload).
pub const NAV_PVT: u8 = 0x07;
/// RXM-PMREQ - power management request (16-byte payload).
pub const RXM_PMREQ: u8 = 0x41;
/// ACK-NAK.
pub const ACK_NAK: u8 = 0x00;
/// ACK-ACK.
pub const ACK_ACK: u8 = 0x01;
/// CFG-VALSET - set configuration items.
pub const CFG_VALSET: u8 = 0x8a;
/// CFG-VALGET - get configuration items.
pub const CFG_VALGET: u8 = 0x8b;
/// MON-VER - receiver/software version (poll).
pub const MON_VER: u8 = 0x04;

} // verus!
