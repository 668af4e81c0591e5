//! Physical sensor IDs (BSX input IDs, Section 13.3.2.6).

use vstd::prelude::*;

verus! {

pub const ACCEL: u8 = 1;
pub const GYRO: u8 = 3;
pub const MAG: u8 = 5;
pub const TEMP_GYRO: u8 = 7;
pub const ANY_MOTION: u8 = 9;
pub const PRESSURE: u8 = 11;
pub const POSITION: u8 = 13;
pub const HUMIDITY: u8 = 15;
pub const TEMPERATURE: u8 = 17;
pub const GAS_RESISTOR: u8 = 19;
pub const STEP_COUNTER: u8 = 32;
pub const STEP_DETECTOR: u8 = 33;
pub const SIGNIFICANT_MOTION: u8 = 34;
pub const PHYS_ANY_MOTION: u8 = 35;
pub const EXT_CAMERA_INPUT: u8 = 36;
pub const GPS: u8 = 48;
pub const LIGHT: u8 = 49;
pub const PROXIMITY: u8 = 50;

} // verus!
