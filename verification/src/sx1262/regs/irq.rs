//! IRQ register bits (Table 13-29).

use vstd::prelude::*;

verus! {

pub const TX_DONE: u16 = 0x0001;
pub const RX_DONE: u16 = 0x0002;
pub const PREAMBLE_DETECTED: u16 = 0x0004;
/// FSK only.
pub const SYNC_WORD_VALID: u16 = 0x0008;
/// LoRa only.
pub const HEADER_VALID: u16 = 0x0010;
/// LoRa only.
pub const HEADER_ERR: u16 = 0x0020;
pub const CRC_ERR: u16 = 0x0040;
/// LoRa only.
pub const CAD_DONE: u16 = 0x0080;
/// LoRa only.
pub const CAD_DETECTED: u16 = 0x0100;
pub const TIMEOUT: u16 = 0x0200;
/// LR-FHSS only.
pub const LR_FHSS_HOP: u16 = 0x4000;
pub const ALL: u16 = 0x43FF;

} // verus!
