//! Public data types for the QMI8658C IMU driver.

use vstd::prelude::*;

pub use crate::imu::ImuData;

verus! {

/// Error type for IMU operations.
#[derive(Debug, Clone, Copy, PartialEq, Eq)]
pub enum Error<E> {
    /// An I2C transaction failed.
    I2c(E),
    /// WHO_AM_I register did not return the expected chip ID (0x05).
    DeviceNotFound,
    /// A CTRL9 command did not signal completion within the retry limit.
    Timeout,
}

/// Accelerometer full-scale range (CTRL2 bits 6:4 = aFS[2:0]).
#[derive(Debug, Clone, Copy, PartialEq, Eq, Structural)]
pub enum AccelScale {
    /// ±2 g  - sensitivity 16384 LSB/g.
    G2,
    /// ±4 g  - sensitivity 8192 LSB/g.
    G4,
    /// ±8 g  - sensitivity 4096 LSB/g.
    G8,
    /// ±16 g - sensitivity 2048 LSB/g.
    G16,
}

impl AccelScale {
    /// The range in g.
    pub open spec fn range_g(self) -> int {
        match self {
            AccelScale::G2 => 2,
            AccelScale::G4 => 4,
            AccelScale::G8 => 8,
            AccelScale::G16 => 16,
        }
    }

    /// The value of the aFS field.
    pub open spec fn code(self) -> int {
        match self {
            AccelScale::G2 => 0,
            AccelScale::G4 => 1,
            AccelScale::G8 => 2,
            AccelScale::G16 => 3,
        }
    }

    /// Sensitivity in LSB per g for this range: full scale is 32768.
    ///
    /// Divide a raw accelerometer reading by this value to get
    /// acceleration in g.
    pub fn lsb_per_g(self) -> (r: u16)
        ensures
            r == 32768int / self.range_g(),
    {
        match self {
            AccelScale::G2 => 16384,
            AccelScale::G4 => 8192,
            AccelScale::G8 => 4096,
            AccelScale::G16 => 2048,
        }
    }

    /// Register bit value for CTRL2 bits 6:4.
    pub fn ctrl2_bits(self) -> (r: u8)
        ensures
            r == self.code(),
            r < 8,
    {
        match self {
            AccelScale::G2 => 0b000,
            AccelScale::G4 => 0b001,
            AccelScale::G8 => 0b010,
            AccelScale::G16 => 0b011,
        }
    }
}

/// Gyroscope full-scale range (CTRL3 bits 6:4 = gFS[2:0]).
#[derive(Debug, Clone, Copy, PartialEq, Eq, Structural)]
pub enum GyroScale {
    /// ±16 dps   - sensitivity 2048 LSB/dps.
    Dps16,
    /// ±32 dps   - sensitivity 1024 LSB/dps.
    Dps32,
    /// ±64 dps   - sensitivity 512 LSB/dps.
    Dps64,
    /// ±128 dps  - sensitivity 256 LSB/dps.
    Dps128,
    /// ±256 dps  - sensitivity 128 LSB/dps.
    Dps256,
    /// ±512 dps  - sensitivity 64 LSB/dps.
    Dps512,
    /// ±1024 dps - sensitivity 32 LSB/dps.
    Dps1024,
    /// ±2048 dps - sensitivity 16 LSB/dps.
    Dps2048,
}

impl GyroScale {
    /// The range in degrees per second.
    pub open spec fn range_dps(self) -> int {
        match self {
            GyroScale::Dps16 => 16,
            GyroScale::Dps32 => 32,
            GyroScale::Dps64 => 64,
            GyroScale::Dps128 => 128,
            GyroScale::Dps256 => 256,
            GyroScale::Dps512 => 512,
            GyroScale::Dps1024 => 1024,
            GyroScale::Dps2048 => 2048,
        }
    }

    /// The value of the gFS field.
    pub open spec fn code(self) -> int {
        match self {
            GyroScale::Dps16 => 0,
            GyroScale::Dps32 => 1,
            GyroScale::Dps64 => 2,
            GyroScale::Dps128 => 3,
            GyroScale::Dps256 => 4,
            GyroScale::Dps512 => 5,
            GyroScale::Dps1024 => 6,
            GyroScale::Dps2048 => 7,
        }
    }

    /// Sensitivity in LSB per dps for this range: full scale is 32768.
    ///
    /// Divide a raw gyroscope reading by this value to get angular rate
    /// in dps.
    pub fn lsb_per_dps(self) -> (r: u16)
        ensures
            r == 32768int / self.range_dps(),
            r > 0,
    {
        match self {
            GyroScale::Dps16 => 2048,
            GyroScale::Dps32 => 1024,
            GyroScale::Dps64 => 512,
            GyroScale::Dps128 => 256,
            GyroScale::Dps256 => 128,
            GyroScale::Dps512 => 64,
            GyroScale::Dps1024 => 32,
            GyroScale::Dps2048 => 16,
        }
    }

    /// Register bit value for CTRL3 bits 6:4.
    pub fn ctrl3_bits(self) -> (r: u8)
        ensures
            r == self.code(),
            r < 8,
    {
        match self {
            GyroScale::Dps16 => 0b000,
            GyroScale::Dps32 => 0b001,
            GyroScale::Dps64 => 0b010,
            GyroScale::Dps128 => 0b011,
            GyroScale::Dps256 => 0b100,
            GyroScale::Dps512 => 0b101,
            GyroScale::Dps1024 => 0b110,
            GyroScale::Dps2048 => 0b111,
        }
    }
}

/// Output data rate for accelerometer and gyroscope (bits 3:0 of CTRL2 /
/// CTRL3), Normal mode, 100% duty cycle.
///
/// The low-power rates are accel-only and are listed in [`AccelLpOdr`].
#[derive(Debug, Clone, Copy, PartialEq, Eq, Structural)]
pub enum Odr {
    /// 8000 Hz.
    Hz8000,
    /// 4000 Hz.
    Hz4000,
    /// 2000 Hz.
    Hz2000,
    /// 1000 Hz.
    Hz1000,
    /// 500 Hz.
    Hz500,
    /// 250 Hz.
    Hz250,
    /// 125 Hz.
    Hz125,
    /// 62.5 Hz.
    Hz62_5,
    /// 31.25 Hz.
    Hz31_25,
}

impl Odr {
    /// The value of the ODR field.
    pub open spec fn code(self) -> u8 {
        match self {
            Odr::Hz8000 => 0,
            Odr::Hz4000 => 1,
            Odr::Hz2000 => 2,
            Odr::Hz1000 => 3,
            Odr::Hz500 => 4,
            Odr::Hz250 => 5,
            Odr::Hz125 => 6,
            Odr::Hz62_5 => 7,
            Odr::Hz31_25 => 8,
        }
    }

    /// Register bit value for bits 3:0 of CTRL2 or CTRL3.
    pub fn bits(self) -> (r: u8)
        ensures
            r == self.code(),
            r < 16,
    {
        match self {
            Odr::Hz8000 => 0b0000,
            Odr::Hz4000 => 0b0001,
            Odr::Hz2000 => 0b0010,
            Odr::Hz1000 => 0b0011,
            Odr::Hz500 => 0b0100,
            Odr::Hz250 => 0b0101,
            Odr::Hz125 => 0b0110,
            Odr::Hz62_5 => 0b0111,
            Odr::Hz31_25 => 0b1000,
        }
    }
}

/// Low-pass filter bandwidth mode (CTRL5 bits 6:5 for gyro, bits 2:1 for
/// accel). The cutoff frequency is a percentage of the configured ODR.
#[derive(Debug, Clone, Copy, PartialEq, Eq, Structural)]
pub enum LpfMode {
    /// 2.62% of ODR.
    Mode0,
    /// 3.59% of ODR.
    Mode1,
    /// 5.32% of ODR.
    Mode2,
    /// 14.0% of ODR.
    Mode3,
}

impl LpfMode {
    /// The value of the mode field.
    pub open spec fn code(self) -> int {
        match self {
            LpfMode::Mode0 => 0,
            LpfMode::Mode1 => 1,
            LpfMode::Mode2 => 2,
            LpfMode::Mode3 => 3,
        }
    }

    pub fn bits(self) -> (r: u8)
        ensures
            r == self.code(),
            r < 4,
    {
        match self {
            LpfMode::Mode0 => 0b00,
            LpfMode::Mode1 => 0b01,
            LpfMode::Mode2 => 0b10,
            LpfMode::Mode3 => 0b11,
        }
    }
}

/// Accelerometer low-power output data rates (CTRL2 bits 3:0, codes
/// 0x0C-0x0F). Only valid for the accelerometer.
#[derive(Debug, Clone, Copy, PartialEq, Eq, Structural)]
pub enum AccelLpOdr {
    /// 128 Hz, 100% duty cycle.
    Hz128,
    /// 21 Hz, 58% duty cycle.
    Hz21,
    /// 11 Hz, 31% duty cycle.
    Hz11,
    /// 3 Hz, 8.5% duty cycle.
    Hz3,
}

impl AccelLpOdr {
    /// Register bit value for bits 3:0 of CTRL2.
    pub fn bits(self) -> (r: u8)
        ensures
            r == (match self {
                AccelLpOdr::Hz128 => 0x0Cu8,
                AccelLpOdr::Hz21 => 0x0D,
                AccelLpOdr::Hz11 => 0x0E,
                AccelLpOdr::Hz3 => 0x0F,
            }),
    {
        match self {
            AccelLpOdr::Hz128 => 0x0C,
            AccelLpOdr::Hz21 => 0x0D,
            AccelLpOdr::Hz11 => 0x0E,
            AccelLpOdr::Hz3 => 0x0F,
        }
    }
}

/// FIFO operating mode (FIFO_CTRL bits 1:0).
#[derive(Debug, Clone, Copy, PartialEq, Eq, Structural)]
pub enum FifoMode {
    /// FIFO disabled. Sensor data goes directly to output registers.
    Bypass,
    /// FIFO mode. Stops collecting when full.
    Fifo,
    /// Streaming mode. Circular buffer, oldest data discarded when full.
    Streaming,
}

impl FifoMode {
    pub open spec fn code(self) -> int {
        match self {
            FifoMode::Bypass => 0,
            FifoMode::Fifo => 1,
            FifoMode::Streaming => 2,
        }
    }

    pub fn bits(self) -> (r: u8)
        ensures
            r == self.code(),
            r < 4,
    {
        match self {
            FifoMode::Bypass => 0,
            FifoMode::Fifo => 1,
            FifoMode::Streaming => 2,
        }
    }
}

/// FIFO size in samples per enabled sensor (FIFO_CTRL bits 3:2).
#[derive(Debug, Clone, Copy, PartialEq, Eq, Structural)]
pub enum FifoSize {
    /// 16 samples per enabled sensor.
    Samples16,
    /// 32 samples per enabled sensor.
    Samples32,
    /// 64 samples per enabled sensor.
    Samples64,
    /// 128 samples per enabled sensor (max 2 sensors).
    Samples128,
}

impl FifoSize {
    pub open spec fn code(self) -> int {
        match self {
            FifoSize::Samples16 => 0,
            FifoSize::Samples32 => 1,
            FifoSize::Samples64 => 2,
            FifoSize::Samples128 => 3,
        }
    }

    pub fn bits(self) -> (r: u8)
        ensures
            r == self.code(),
            r < 4,
    {
        match self {
            FifoSize::Samples16 => 0,
            FifoSize::Samples32 => 1,
            FifoSize::Samples64 => 2,
            FifoSize::Samples128 => 3,
        }
    }
}

/// FIFO status flags from FIFO_STATUS register (0x16).
#[derive(Debug, Clone, Copy, Default)]
pub struct FifoStatus {
    /// FIFO is full.
    pub full: bool,
    /// Watermark level reached.
    pub watermark: bool,
    /// Overflow occurred (write attempted while full).
    pub overflow: bool,
    /// FIFO contains data.
    pub not_empty: bool,
    /// Total FIFO sample count in bytes (10-bit value).
    pub sample_count: u16,
}

/// AttitudeEngine output data rate (CTRL6 bits 2:0).
#[derive(Debug, Clone, Copy, PartialEq, Eq, Structural)]
pub enum AeOdr {
    Hz1,
    Hz2,
    Hz4,
    Hz8,
    Hz16,
    Hz32,
    Hz64,
}

impl AeOdr {
    pub open spec fn code(self) -> u8 {
        match self {
            AeOdr::Hz1 => 0,
            AeOdr::Hz2 => 1,
            AeOdr::Hz4 => 2,
            AeOdr::Hz8 => 3,
            AeOdr::Hz16 => 4,
            AeOdr::Hz32 => 5,
            AeOdr::Hz64 => 6,
        }
    }

    pub fn bits(self) -> (r: u8)
        ensures
            r == self.code(),
    {
        match self {
            AeOdr::Hz1 => 0,
            AeOdr::Hz2 => 1,
            AeOdr::Hz4 => 2,
            AeOdr::Hz8 => 3,
            AeOdr::Hz16 => 4,
            AeOdr::Hz32 => 5,
            AeOdr::Hz64 => 6,
        }
    }
}

/// AttitudeEngine quaternion increment output.
///
/// The quaternion represents the incremental rotation since the last
/// sample. Divide each component by 2^14 to get the actual value.
#[derive(Debug, Clone, Copy, Default)]
pub struct Quaternion {
    pub dqw: i16,
    pub dqx: i16,
    pub dqy: i16,
    pub dqz: i16,
}

/// AttitudeEngine velocity increment output: the incremental velocity
/// change since the last sample.
#[derive(Debug, Clone, Copy, Default)]
pub struct VelocityIncrement {
    pub dvx: i16,
    pub dvy: i16,
    pub dvz: i16,
}

/// Wake-on-Motion interrupt pin selection.
#[derive(Debug, Clone, Copy, PartialEq, Eq, Structural)]
pub enum WomInterrupt {
    /// INT1, initial value low.
    Int1Low,
    /// INT1, initial value high.
    Int1High,
    /// INT2, initial value low.
    Int2Low,
    /// INT2, initial value high.
    Int2High,
}

impl WomInterrupt {
    pub open spec fn code(self) -> int {
        match self {
            WomInterrupt::Int1Low => 0b00,
            WomInterrupt::Int1High => 0b10,
            WomInterrupt::Int2Low => 0b01,
            WomInterrupt::Int2High => 0b11,
        }
    }

    pub fn bits(self) -> (r: u8)
        ensures
            r == self.code(),
            r < 4,
    {
        match self {
            WomInterrupt::Int1Low => 0b00,
            WomInterrupt::Int1High => 0b10,
            WomInterrupt::Int2Low => 0b01,
            WomInterrupt::Int2High => 0b11,
        }
    }
}

/// Wake-on-Motion configuration.
///
/// Written to CAL1_L and CAL1_H, then CTRL9 command 0x08 is issued.
#[derive(Debug, Clone, Copy)]
pub struct WomConfig {
    /// Threshold in mg (1 mg/LSB). 0 disables WoM.
    pub threshold_mg: u8,
    /// Which interrupt pin to use and its initial value.
    pub interrupt: WomInterrupt,
    /// Blanking time in number of accelerometer samples (0-63). Ignores
    /// this many samples after WoM is enabled to avoid spurious wakeups
    /// from startup transients.
    pub blanking_samples: u8,
}

impl ImuData {
    /// Temperature rounded to the nearest whole degree Celsius.
    ///
    /// The QMI8658C encodes temperature as a signed 16-bit value with
    /// 1/256 °C resolution. Halves round up, and from 127.5 °C on the
    /// result is held at 127.
    pub fn temp_celsius(&self) -> (r: i8)
        ensures
            r == (if self.temp_raw as int + 128 >= 128 * 256 {
                127
            } else {
                (self.temp_raw as int + 128) / 256
            }),
    {
        // Shifted to where the division rounds down.
        let shifted: i32 = self.temp_raw as i32 + 128 + 32768;
        let whole: i32 = shifted / 256 - 128;
        if whole > 127 {
            127
        } else {
            whole as i8
        }
    }
}

/// Accelerometer self-test result.
///
/// Values are in milli-g. A functional sensor produces an absolute
/// response greater than 200 mg on every axis.
#[derive(Debug, Clone, Copy)]
pub struct AccelSelfTestResult {
    pub x_mg: i32,
    pub y_mg: i32,
    pub z_mg: i32,
    pub passed: bool,
}

/// Gyroscope self-test result.
///
/// Values are in degrees per second. A functional sensor produces an
/// absolute response greater than 300 dps on every axis.
#[derive(Debug, Clone, Copy)]
pub struct GyroSelfTestResult {
    pub x_dps: i32,
    pub y_dps: i32,
    pub z_dps: i32,
    pub passed: bool,
}

} // verus!
