//! Meta event types (byte 1 of a meta event, Table 99).

use vstd::prelude::*;

verus! {

pub const FLUSH_COMPLETE: u8 = 1;
pub const SAMPLE_RATE_CHANGED: u8 = 2;
pub const POWER_MODE_CHANGED: u8 = 3;
pub const SYSTEM_ERROR: u8 = 4; // status FIFO
pub const ALGORITHM_EVENTS: u8 = 5;
pub const SENSOR_STATUS: u8 = 6;
pub const SENSOR_ERROR: u8 = 11; // status FIFO
pub const FIFO_OVERFLOW: u8 = 12;
pub const DYNAMIC_RANGE_CHANGED: u8 = 13;
pub const FIFO_WATERMARK: u8 = 14;
pub const INITIALIZED: u8 = 16; // bytes 2-3 = RAM version
pub const TRANSFER_CAUSE: u8 = 17;
pub const SW_FRAMEWORK: u8 = 18;
pub const RESET: u8 = 19; // byte 3 = reset cause (Table 101)
pub const SPACER: u8 = 20;

} // verus!
