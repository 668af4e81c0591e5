//! SPI mode-bit patterns for the first byte of a transaction
//! (Table 11). Register addresses OR into the low six bits.

use vstd::prelude::*;

verus! {

/// Register write: `00` + address.
pub const REG_WRITE: u8 = 0x00;
/// Register read: `01` + address.
pub const REG_READ: u8 = 0x40;
/// FIFO load: one fixed byte, then 1..=512 payload bytes.
pub const FIFO_LOAD: u8 = 0x80;
/// FIFO read: one fixed byte, then data clocks out.
pub const FIFO_READ: u8 = 0x9F;
/// Passive-target memory loads (A-config / F-config / TSN).
pub const PT_LOAD_A_CONFIG: u8 = 0xA0;
pub const PT_LOAD_F_CONFIG: u8 = 0xA8;
pub const PT_LOAD_TSN: u8 = 0xAC;
/// Passive-target memory read; a zero byte must follow before
/// data clocks out (Table 11 note).
pub const PT_READ: u8 = 0xBF;

} // verus!
