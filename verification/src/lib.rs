pub mod bhi260;
pub mod bus;
pub mod bytes;
pub mod chip;
pub mod display;
pub mod es7210;
pub mod es8311;
pub mod firmware;
pub mod imu;
pub mod laws;
pub mod math;
pub mod pmu;
pub mod qmi8658;
pub mod rerun;
pub mod rtc;
pub mod st25r3916;
pub mod sx1262;
pub mod ublox;
