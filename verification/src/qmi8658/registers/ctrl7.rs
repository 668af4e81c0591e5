//! CTRL7 bit masks and field values.

use vstd::prelude::*;

verus! {

/// Enable synchronised sample mode.
pub const SYNC_SMPL: u8 = 0x80;
/// High-speed internal clock.
pub const SYS_HS: u8 = 1 << 6;
/// Gyroscope snooze mode (drive only, no sensing).
pub const GYRO_SNZ: u8 = 1 << 4;
/// Enable AttitudeEngine.
pub const AE_EN: u8 = 1 << 3;
/// Enable magnetometer.
pub const MAG_EN: u8 = 1 << 2;
/// Enable gyroscope.
pub const GYRO_EN: u8 = 1 << 1;
/// Enable accelerometer.
pub const ACCEL_EN: u8 = 1 << 0;

} // verus!
