//! Host Interface Control (0x06) bits, Table 19.

use vstd::prelude::*;

verus! {

pub const ABORT_CH0: u8 = 0x01;
pub const ABORT_CH1: u8 = 0x02;
pub const ABORT_CH2: u8 = 0x04;
pub const ABORT_CH3: u8 = 0x08;
/// Host power status: 1 = suspended (only wake-up sensors raise the
/// host interrupt), 0 = awake (either FIFO may).
pub const AP_SUSPENDED: u8 = 0x10;
/// Route Timestamp Event Request responses to the Host Interrupt
/// Timestamp registers instead of a status packet.
pub const TIMESTAMP_EVENT_REQUEST: u8 = 0x40;
/// Status/debug FIFO mode: 0 = synchronous (command responses
/// only), 1 = asynchronous (FIFO-formatted, includes debug/errors).
pub const ASYNC_STATUS_CHANNEL: u8 = 0x80;

} // verus!
