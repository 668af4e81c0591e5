//! CTRL1 bit masks and field values.

use vstd::prelude::*;

verus! {

/// Address auto-increment for sequential register reads (SPI and I2C).
pub const AUTO_INCREMENT: u8 = 0x40;
/// SPI read data big-endian (default 1 - set in reset value 0x20).
pub const SPI_BIG_ENDIAN: u8 = 0x20;
/// Disable internal 2 MHz oscillator (keep 0 for normal operation).
pub const SENSOR_DISABLE: u8 = 0x01;

} // verus!
