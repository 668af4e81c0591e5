//! Register addresses (Table 12-1, plus the section-8.6 DIO control
//! block and the section-9.6 RX-gain retention trio).

use vstd::prelude::*;

verus! {

/// FSK sync word bytes 0..=7 (Table 13-55).
pub const FSK_SYNC_WORD_0: u16 = 0x06C0;
/// FSK node address (Table 13-57).
pub const FSK_NODE_ADDRESS: u16 = 0x06CD;
/// FSK broadcast address (Table 13-58).
pub const FSK_BROADCAST_ADDRESS: u16 = 0x06CE;
/// FSK whitening initial value MSB/LSB (Table 13-65). Only the
/// LSB may be user-modified - the 7 MSB of the MSB register are
/// fixed.
pub const FSK_WHITENING_INITIAL_MSB: u16 = 0x06B8;
pub const FSK_WHITENING_INITIAL_LSB: u16 = 0x06B9;
/// FSK CRC initial value / polynomial (Tables 13-62/13-63).
pub const FSK_CRC_INITIAL_MSB: u16 = 0x06BC;
pub const FSK_CRC_INITIAL_LSB: u16 = 0x06BD;
pub const FSK_CRC_POLYNOMIAL_MSB: u16 = 0x06BE;
pub const FSK_CRC_POLYNOMIAL_LSB: u16 = 0x06BF;
/// IQ polarity setup; bit 2 is the inverted-IQ errata knob
/// (section 15.4).
pub const IQ_POLARITY: u16 = 0x0736;
/// LoRa sync word MSB/LSB. 0x3444 = public network, 0x1424 =
/// private network (Table 12-1).
pub const LORA_SYNC_WORD_MSB: u16 = 0x0740;
pub const LORA_SYNC_WORD_LSB: u16 = 0x0741;
/// Coding rate extracted from the last received explicit header
/// (bits 6:4).
pub const LORA_CODING_RATE_RX: u16 = 0x0749;
/// CRC-present flag extracted from the last received explicit
/// header (bit 4).
pub const LORA_CRC_CONFIG_RX: u16 = 0x076B;
/// 4 bytes of hardware entropy (Table 12-1; sample while RX).
pub const RANDOM_NUMBER_0: u16 = 0x0819;
/// TX modulation quality; bit 2 is the BW500 errata knob
/// (section 15.1).
pub const TX_MODULATION: u16 = 0x0889;
/// RX gain: 0x94 power-saving (reset default), 0x96 boosted
/// (section 9.6).
pub const RX_GAIN: u16 = 0x08AC;
/// RX-gain retention setup trio - programs the retention memory
/// so the boosted gain survives warm-start sleep (section 9.6:
/// 0x029F=0x01, 0x02A0=0x08, 0x02A1=0xAC).
pub const RETENTION_LIST_0: u16 = 0x029F;
pub const RETENTION_LIST_1: u16 = 0x02A0;
pub const RETENTION_LIST_2: u16 = 0x02A1;
/// PA clamp threshold; bits 4:1 are the antenna-mismatch errata
/// knob (section 15.2, SX1262 only).
pub const TX_CLAMP_CONFIG: u16 = 0x08D8;
/// Over-current protection in 2.5 mA steps. Reset default 0x38
/// (140 mA) on the SX1262, 0x18 (60 mA) on the SX1261.
pub const OCP_CONFIGURATION: u16 = 0x08E7;
/// RTC control - the implicit-header timeout errata stops the
/// counter here (section 15.3).
pub const RTC_CONTROL: u16 = 0x0902;
/// XTAL trim capacitors; only writable in STDBY_XOSC.
pub const XTA_TRIM: u16 = 0x0911;
pub const XTB_TRIM: u16 = 0x0912;
/// Non-standard DIO3 control block (section 8.6).
pub const DIO_OUTPUT_ENABLE: u16 = 0x0580;
pub const DIO_INPUT_ENABLE: u16 = 0x0583;
pub const DIO_PULL_UP: u16 = 0x0584;
pub const DIO_PULL_DOWN: u16 = 0x0585;
pub const DIO3_OUTPUT_VOLTAGE: u16 = 0x0920;
/// Event mask - the implicit-header timeout errata clears the
/// latched event here (section 15.3).
pub const EVENT_MASK: u16 = 0x0944;

} // verus!
