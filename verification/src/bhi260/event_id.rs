//! FIFO Event IDs (Table 88). Where a sensor exists in both FIFOs the
//! non-wake-up and wake-up variants have distinct IDs; `_WU` marks the
//! wake-up one.

use vstd::prelude::*;

verus! {

// Quaternion+ format (11 bytes)
pub const ROTATION_VECTOR: u8 = 34;
pub const ROTATION_VECTOR_WU: u8 = 35;
pub const GAME_ROTATION_VECTOR: u8 = 37;
pub const GAME_ROTATION_VECTOR_WU: u8 = 38;
pub const GEO_ROTATION_VECTOR: u8 = 40;
pub const GEO_ROTATION_VECTOR_WU: u8 = 41;
// Euler format (7 bytes)
pub const ORIENTATION: u8 = 43;
pub const ORIENTATION_WU: u8 = 44;
// 3D vector format (7 bytes)
pub const ACCEL_PASSTHROUGH: u8 = 1;
pub const ACCEL_RAW: u8 = 3;
pub const ACCEL_CORRECTED: u8 = 4;
pub const ACCEL_OFFSET: u8 = 5;
pub const ACCEL_CORRECTED_WU: u8 = 6;
pub const ACCEL_RAW_WU: u8 = 7;
pub const GYRO_PASSTHROUGH: u8 = 10;
pub const GYRO_RAW: u8 = 12;
pub const GYRO_CORRECTED: u8 = 13;
pub const GYRO_OFFSET: u8 = 14;
pub const GYRO_CORRECTED_WU: u8 = 15;
pub const GYRO_RAW_WU: u8 = 16;
pub const MAG_PASSTHROUGH: u8 = 19;
pub const MAG_RAW: u8 = 21;
pub const MAG_CORRECTED: u8 = 22;
pub const MAG_OFFSET: u8 = 23;
pub const MAG_CORRECTED_WU: u8 = 24;
pub const MAG_RAW_WU: u8 = 25;
pub const GRAVITY: u8 = 28;
pub const GRAVITY_WU: u8 = 29;
pub const LINEAR_ACCEL: u8 = 31;
pub const LINEAR_ACCEL_WU: u8 = 32;
pub const ACCEL_OFFSET_WU: u8 = 91;
pub const GYRO_OFFSET_WU: u8 = 92;
pub const MAG_OFFSET_WU: u8 = 93;
// Scalar formats
pub const LIGHT: u8 = 146; // u16, 10000 lux / 216
pub const LIGHT_WU: u8 = 148;
pub const PROXIMITY: u8 = 147; // u8, 0 far / 1 near
pub const PROXIMITY_WU: u8 = 149;
pub const HUMIDITY: u8 = 130; // u8, 1 %RH
pub const HUMIDITY_WU: u8 = 134;
pub const STEP_COUNTER: u8 = 52; // u32, 1 step
pub const STEP_COUNTER_WU: u8 = 53;
pub const AUX_STEP_COUNTER: u8 = 136;
pub const AUX_STEP_COUNTER_WU: u8 = 139;
pub const TEMPERATURE: u8 = 128; // i16, degC / 100
pub const TEMPERATURE_WU: u8 = 132;
pub const BAROMETER: u8 = 129; // u24, 1/128 Pa
pub const BAROMETER_WU: u8 = 133;
pub const GAS: u8 = 131; // u32, Ohms
pub const GAS_WU: u8 = 135;
// Payload-less events (1 byte)
pub const TILT_DETECTOR_WU: u8 = 48;
pub const STEP_DETECTOR: u8 = 50;
pub const SIGNIFICANT_MOTION_WU: u8 = 55;
pub const WAKE_GESTURE_WU: u8 = 57;
pub const GLANCE_GESTURE_WU: u8 = 59;
pub const PICKUP_GESTURE_WU: u8 = 61;
pub const WRIST_TILT_GESTURE_WU: u8 = 67;
pub const STATIONARY_DETECT_WU: u8 = 75;
pub const MOTION_DETECT_WU: u8 = 77;
pub const STEP_DETECTOR_WU: u8 = 94;
pub const AUX_STEP_DETECTOR: u8 = 137;
pub const AUX_SIGNIFICANT_MOTION: u8 = 138;
pub const AUX_STEP_DETECTOR_WU: u8 = 140;
pub const AUX_SIGNIFICANT_MOTION_WU: u8 = 141;
pub const AUX_ANY_MOTION: u8 = 142;
pub const AUX_ANY_MOTION_WU: u8 = 143;
// Structured formats
pub const ACTIVITY: u8 = 63; // u16 activity-change bitmap
pub const DEVICE_ORIENTATION: u8 = 69; // u8 portrait/landscape
pub const DEVICE_ORIENTATION_WU: u8 = 70;
pub const CAMERA_SHUTTER: u8 = 144;
pub const GPS: u8 = 145;
pub const SELF_LEARNING_AI: u8 = 112;
pub const PDR_WU: u8 = 113;
pub const SWIM: u8 = 114;
// Stream structure events
pub const DEBUG_DATA: u8 = 250;
pub const TS_SMALL_DELTA: u8 = 251; // u8 delta
pub const TS_SMALL_DELTA_WU: u8 = 245;
pub const TS_LARGE_DELTA: u8 = 252; // u16 delta
pub const TS_LARGE_DELTA_WU: u8 = 246;
pub const TS_FULL: u8 = 253; // u40 absolute
pub const TS_FULL_WU: u8 = 247;
pub const META_EVENT: u8 = 254;
pub const META_EVENT_WU: u8 = 248;
pub const FILLER: u8 = 255;
pub const PADDING: u8 = 0;

} // verus!
