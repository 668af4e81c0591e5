//! STATUS0 bit masks and field values.

use vstd::prelude::*;

verus! {

/// New AttitudeEngine data available.
pub const AE_READY: u8 = 1 << 3;
/// New magnetometer data available.
pub const MAG_READY: u8 = 1 << 2;
/// New gyroscope data available.
pub const GYRO_READY: u8 = 1 << 1;
/// New accelerometer data available.
pub const ACCEL_READY: u8 = 0x01;

} // verus!
