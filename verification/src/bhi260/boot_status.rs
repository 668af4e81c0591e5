//! Boot Status (0x25) bits, Table 27.

use vstd::prelude::*;

verus! {

pub const FLASH_DETECTED: u8 = 0x01;
pub const FLASH_VERIFY_DONE: u8 = 0x02;
pub const FLASH_VERIFY_ERROR: u8 = 0x04;
pub const NO_FLASH: u8 = 0x08;
/// Set when the bootloader (or booted firmware) accepts host
/// commands. Clears during upload-to-boot transitions.
pub const HOST_INTERFACE_READY: u8 = 0x10;
pub const FIRMWARE_VERIFY_DONE: u8 = 0x20;
pub const FIRMWARE_VERIFY_ERROR: u8 = 0x40;
/// 1 = firmware halted (bootloader still in charge).
pub const FIRMWARE_IDLE: u8 = 0x80;

} // verus!
