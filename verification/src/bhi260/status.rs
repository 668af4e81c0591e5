//! Status packet codes on the status/debug FIFO (channel 3).

use vstd::prelude::*;

verus! {

pub const CRASH_DUMP: u16 = 0x0003;
pub const INJECTED_SENSOR_CONFIG_REQUEST: u16 = 0x0004;
pub const SOFT_PASSTHROUGH_RESULTS: u16 = 0x0005;
pub const SELF_TEST_RESULTS: u16 = 0x0006;
pub const FOC_RESULTS: u16 = 0x0007;
pub const FLASH_ERASE_COMPLETE: u16 = 0x000A;
pub const FLASH_WRITE_COMPLETE: u16 = 0x000B;
pub const TIMESTAMP_EVENT: u16 = 0x000D;
/// Table 86; contents: [cmd u16][error u8][reserved].
pub const COMMAND_ERROR: u16 = 0x000F;

} // verus!
