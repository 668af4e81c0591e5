//! Value types of the PCF85063A driver.

use vstd::prelude::*;

verus! {

/// RTC driver error.
#[derive(Debug, Clone, Copy, PartialEq, Eq)]
pub enum Error<E> {
    /// I2C bus error.
    I2c(E),
    /// A value is out of the range the chip accepts.
    InvalidValue,
    /// The requested mode conflicts with one that is active.
    InvalidMode,
}

/// A date and time.
#[derive(Debug, Clone, Copy, PartialEq, Eq, Structural)]
pub struct DateTime {
    /// 2000-2099.
    pub year: u16,
    /// 1-12.
    pub month: u8,
    /// 1-31.
    pub day: u8,
    /// 0 = Sunday ... 6 = Saturday.
    pub weekday: u8,
    /// 0-23.
    pub hour: u8,
    /// 0-59.
    pub minute: u8,
    /// 0-59.
    pub second: u8,
}

impl DateTime {
    /// Every field is within the range of the chip's counters.
    pub open spec fn in_range(self) -> bool {
        &&& 2000 <= self.year <= 2099
        &&& 1 <= self.month <= 12
        &&& 1 <= self.day <= 31
        &&& self.weekday <= 6
        &&& self.hour <= 23
        &&& self.minute <= 59
        &&& self.second <= 59
    }
}

/// An alarm. Only fields that are `Some` are compared.
#[derive(Debug, Clone, Copy, PartialEq, Eq, Structural)]
pub struct Alarm {
    pub second: Option<u8>,
    pub minute: Option<u8>,
    pub hour: Option<u8>,
    pub day: Option<u8>,
    /// 0 = Sunday ... 6 = Saturday.
    pub weekday: Option<u8>,
}

impl Alarm {
    /// Every compared field is within the range of the chip's counters.
    pub open spec fn in_range(self) -> bool {
        &&& self.second matches Some(v) ==> v <= 59
        &&& self.minute matches Some(v) ==> v <= 59
        &&& self.hour matches Some(v) ==> v <= 23
        &&& self.day matches Some(v) ==> 1 <= v <= 31
        &&& self.weekday matches Some(v) ==> v <= 6
    }
}

/// A snapshot of the interrupt and flag bits of Control_2.
#[derive(Debug, Clone, Copy, PartialEq, Eq, Structural)]
pub struct RtcStatus {
    /// AF - alarm matched since last clear.
    pub alarm_flag: bool,
    /// AIE - alarm interrupt enabled.
    pub alarm_ie: bool,
    /// TF - timer expired since last clear.
    pub timer_flag: bool,
    /// MI - minute interrupt enabled.
    pub minute_ie: bool,
    /// HMI - half-minute interrupt enabled.
    pub half_min_ie: bool,
}

/// Clock of the countdown timer (TCF field).
#[derive(Debug, Clone, Copy, PartialEq, Eq, Structural)]
pub enum TimerClock {
    /// 4096 Hz: 244 us to 62.256 ms.
    Hz4096,
    /// 64 Hz: 15.625 ms to 3.984 s.
    Hz64,
    /// 1 Hz: 1 s to 255 s.
    Hz1,
    /// 1/60 Hz: 60 s to 4 h 15 min.
    Per60,
}

impl TimerClock {
    /// The value of the TCF field.
    pub open spec fn code(self) -> u8 {
        match self {
            TimerClock::Hz4096 => 0,
            TimerClock::Hz64 => 1,
            TimerClock::Hz1 => 2,
            TimerClock::Per60 => 3,
        }
    }

    /// The value of the TCF field.
    pub fn bits(self) -> (r: u8)
        ensures
            r == self.code(),
    {
        match self {
            TimerClock::Hz4096 => 0,
            TimerClock::Hz64 => 1,
            TimerClock::Hz1 => 2,
            TimerClock::Per60 => 3,
        }
    }
}

/// How the timer drives the INT# pin.
#[derive(Debug, Clone, Copy, PartialEq, Eq, Structural)]
pub enum TimerOutput {
    /// INT# is held low as long as TF is set.
    Interrupt,
    /// INT# pulses briefly on each expiry.
    Pulse,
}

/// Frequency of the CLKOUT pin (COF field).
#[derive(Debug, Clone, Copy, PartialEq, Eq, Structural)]
pub enum ClkoutFreq {
    Hz32768,
    Hz16384,
    Hz8192,
    Hz4096,
    Hz2048,
    Hz1024,
    Hz1,
    /// High-impedance.
    Off,
}

impl ClkoutFreq {
    /// The value of the COF field.
    pub open spec fn code(self) -> u8 {
        match self {
            ClkoutFreq::Hz32768 => 0,
            ClkoutFreq::Hz16384 => 1,
            ClkoutFreq::Hz8192 => 2,
            ClkoutFreq::Hz4096 => 3,
            ClkoutFreq::Hz2048 => 4,
            ClkoutFreq::Hz1024 => 5,
            ClkoutFreq::Hz1 => 6,
            ClkoutFreq::Off => 7,
        }
    }

    /// The value of the COF field.
    pub fn bits(self) -> (r: u8)
        ensures
            r == self.code(),
    {
        match self {
            ClkoutFreq::Hz32768 => 0,
            ClkoutFreq::Hz16384 => 1,
            ClkoutFreq::Hz8192 => 2,
            ClkoutFreq::Hz4096 => 3,
            ClkoutFreq::Hz2048 => 4,
            ClkoutFreq::Hz1024 => 5,
            ClkoutFreq::Hz1 => 6,
            ClkoutFreq::Off => 7,
        }
    }
}

/// Correction interval of the offset calibration.
#[derive(Debug, Clone, Copy, PartialEq, Eq, Structural)]
pub enum OffsetMode {
    /// Every two hours, 4.340 ppm per step.
    Normal,
    /// Every minute, 4.069 ppm per step. Incompatible with the minute and
    /// half-minute interrupts.
    Coarse,
}

} // verus!
