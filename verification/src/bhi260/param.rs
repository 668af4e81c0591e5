//! Parameter IDs (Table 61/62 and Sections 13.3.3-13.3.9).

use vstd::prelude::*;

verus! {

// System parameters
pub const META_EVENT_CTRL_NONWAKE: u16 = 0x0101;
pub const META_EVENT_CTRL_WAKE: u16 = 0x0102;
pub const FIFO_CONTROL: u16 = 0x0103; // watermarks (rw) + sizes (ro)
pub const FIRMWARE_VERSION: u16 = 0x0104;
pub const TIMESTAMPS: u16 = 0x0105; // 3x 40-bit, 1/64000 s units
pub const FRAMEWORK_STATUS: u16 = 0x0106;
/// 256-bit bitmap of compiled-in virtual sensors, bit = sensor ID.
pub const VIRT_SENSORS_PRESENT: u16 = 0x011F;
/// 64-bit bitmap of present physical sensors (BSX input IDs).
pub const PHYS_SENSORS_PRESENT: u16 = 0x0120;
/// Physical Sensor Information: 0x0120 + physical sensor ID (write form =
/// orientation matrix), so the accelerometer, id 1, is at 0x0121. The
/// chip rejects any other mapping with a command error.
pub const PHYS_SENSOR_INFO_BASE: u16 = 0x0120;
// BSX algorithm parameters
pub const BSX_CALIB_ACCEL: u16 = 0x0201;
pub const BSX_CALIB_GYRO: u16 = 0x0203;
pub const BSX_CALIB_MAG: u16 = 0x0205;
pub const BSX_SIC_MATRIX: u16 = 0x027D;
pub const BSX_VERSION: u16 = 0x027E;
/// Virtual Sensor Information base: 0x0300 + virtual sensor ID
/// (Table 74, 28 bytes, read-only).
pub const VIRT_SENSOR_INFO_BASE: u16 = 0x0300;
/// Virtual Sensor Configuration base: 0x0500 + virtual sensor ID
/// (Table 75, 12 bytes, read-only).
pub const VIRT_SENSOR_CONF_BASE: u16 = 0x0500;

} // verus!
