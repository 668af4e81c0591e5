//! What the operations are for, in numbers: laws that say of all inputs
//! what a result has to satisfy, by place values, bit numbers and register
//! numbers.

pub mod bhi260;
pub mod bits;
pub mod boards;
pub mod bytes;
pub mod chip;
pub mod codecs;
pub mod display;
pub mod fifo;
pub mod hub;
pub mod numbers;
pub mod pmu;
pub mod pmu_types;
pub mod qmi8658;
pub mod rtc;
pub mod st25r3916;
pub mod sx1262;
pub mod ublox;
pub mod wear;
