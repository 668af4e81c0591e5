//! STATUSINT bit masks and field values.

use vstd::prelude::*;

verus! {

/// CTRL9 command execution complete (bit 7, silicon rev 0x7C+).
pub const CMD_DONE: u8 = 0x80;
/// Sensor data locked for reading (syncSmpl mode) / mirrors INT1 otherwise.
pub const LOCKED: u8 = 1 << 1;
/// Sensor data available (syncSmpl mode) / mirrors INT2 otherwise.
pub const AVAIL: u8 = 1 << 0;

} // verus!
