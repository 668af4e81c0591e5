//! Direct commands (Table 13). The `11` mode prefix is part of the
//! code. Commands marked "chaining" in the table may be followed by
//! further SPI modes within the same chip-select frame.

use vstd::prelude::*;

verus! {

pub const SET_DEFAULT: u8 = 0xC1;
pub const STOP_ALL_ACTIVITIES: u8 = 0xC2;
pub const TRANSMIT_WITH_CRC: u8 = 0xC4;
pub const TRANSMIT_WITHOUT_CRC: u8 = 0xC5;
pub const TRANSMIT_REQA: u8 = 0xC6;
pub const TRANSMIT_WUPA: u8 = 0xC7;
pub const NFC_INITIAL_FIELD_ON: u8 = 0xC8;
pub const NFC_RESPONSE_FIELD_ON: u8 = 0xC9;
pub const GO_TO_SENSE: u8 = 0xCD;
pub const GO_TO_SLEEP: u8 = 0xCE;
pub const MASK_RECEIVE_DATA: u8 = 0xD0;
pub const UNMASK_RECEIVE_DATA: u8 = 0xD1;
pub const CHANGE_AM_MODULATION_STATE: u8 = 0xD2;
pub const MEASURE_AMPLITUDE: u8 = 0xD3;
pub const RESET_RX_GAIN: u8 = 0xD5;
pub const ADJUST_REGULATORS: u8 = 0xD6;
pub const CALIBRATE_DRIVER_TIMING: u8 = 0xD8;
pub const MEASURE_PHASE: u8 = 0xD9;
pub const CLEAR_RSSI: u8 = 0xDA;
pub const CLEAR_FIFO: u8 = 0xDB;
pub const ENTER_TRANSPARENT_MODE: u8 = 0xDC;
pub const CALIBRATE_CAPACITIVE_SENSOR: u8 = 0xDD;
pub const MEASURE_CAPACITANCE: u8 = 0xDE;
pub const MEASURE_POWER_SUPPLY: u8 = 0xDF;
pub const START_GP_TIMER: u8 = 0xE0;
pub const START_WAKEUP_TIMER: u8 = 0xE1;
pub const START_MASK_RECEIVE_TIMER: u8 = 0xE2;
pub const START_NO_RESPONSE_TIMER: u8 = 0xE3;
pub const START_PPON2_TIMER: u8 = 0xE4;
pub const STOP_NO_RESPONSE_TIMER: u8 = 0xE8;
/// Space-B register access prefix (chained within a frame).
pub const SPACE_B_ACCESS: u8 = 0xFB;
/// Test-register access prefix; first byte of the mandatory
/// power-on overheat-protection frame (section 4.1).
pub const TEST_ACCESS: u8 = 0xFC;

} // verus!
