//! Host interface commands (Table 31), written to channel 0 as
//! `[id u16 le][content len u16 le][content..]`, zero-padded to a
//! multiple of 4 bytes (padding included in the length field).

use vstd::prelude::*;

verus! {

pub const DOWNLOAD_POST_MORTEM: u16 = 0x0001;
/// Bootloader: firmware upload. Length field = 32-bit WORD count of
/// the whole image (unique among commands - everything else counts
/// bytes).
pub const UPLOAD_TO_PROGRAM_RAM: u16 = 0x0002;
pub const BOOT_PROGRAM_RAM: u16 = 0x0003;
pub const ERASE_FLASH: u16 = 0x0004;
pub const WRITE_FLASH: u16 = 0x0005;
pub const BOOT_FLASH: u16 = 0x0006;
pub const SET_INJECTION_MODE: u16 = 0x0007;
pub const INJECT_SENSOR_DATA: u16 = 0x0008;
pub const FIFO_FLUSH: u16 = 0x0009;
pub const SOFT_PASSTHROUGH: u16 = 0x000A;
pub const REQUEST_SELF_TEST: u16 = 0x000B;
pub const REQUEST_FOC: u16 = 0x000C;
pub const CONFIGURE_SENSOR: u16 = 0x000D;
pub const CHANGE_DYNAMIC_RANGE: u16 = 0x000E;
pub const SET_CHANGE_SENSITIVITY: u16 = 0x000F;
pub const DEBUG_TEST: u16 = 0x0010;
pub const DUT_CONTINUE: u16 = 0x0011;
pub const DUT_START_TEST: u16 = 0x0012;
pub const CONTROL_FIFO_FORMAT: u16 = 0x0015;
pub const RAISE_HOST_INTERFACE_SPEED: u16 = 0x0017;
/// Parameter write = 0x0000 | param id, parameter read = 0x1000 |
/// param id (Section 13.3.1).
pub const PARAM_READ_FLAG: u16 = 0x1000;

} // verus!
