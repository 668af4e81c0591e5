//! CMD bit masks and field values.

use vstd::prelude::*;

verus! {

/// No operation / acknowledgement (end of CTRL9 protocol).
pub const NOP: u8 = 0x00;
/// Apply gyroscope bias from CAL1-CAL3 registers.
pub const GYRO_BIAS: u8 = 0x01;
/// Request Motion on Demand SDI data (requires AE + sMoD enabled).
pub const REQ_SDI: u8 = 0x03;
/// Reset FIFO.
pub const RST_FIFO: u8 = 0x04;
/// Request FIFO data read.
pub const REQ_FIFO: u8 = 0x05;
/// I2C master write/read (for external magnetometer).
pub const I2CM_WRITE: u8 = 0x06;
/// Write Wake-on-Motion threshold and interrupt configuration.
pub const WRITE_WOM_SETTING: u8 = 0x08;
/// Apply accelerometer delta-offset from CAL1-CAL3 registers.
pub const ACCEL_HOST_DELTA_OFFSET: u8 = 0x09;
/// Apply gyroscope delta-offset from CAL1-CAL3 registers.
pub const GYRO_HOST_DELTA_OFFSET: u8 = 0x0A;
/// Copy USID and firmware version to output registers.
pub const COPY_USID: u8 = 0x10;
/// Configure IO pull-up resistors.
pub const SET_RPU: u8 = 0x11;

} // verus!
