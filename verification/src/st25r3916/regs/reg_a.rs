//! Register space A addresses (Table 17).

use vstd::prelude::*;

verus! {

pub const IO_CONF1: u8 = 0x00;
pub const IO_CONF2: u8 = 0x01;
pub const OP_CONTROL: u8 = 0x02;
pub const MODE: u8 = 0x03;
pub const BIT_RATE: u8 = 0x04;
pub const ISO14443A_NFC: u8 = 0x05;
pub const ISO14443B_1: u8 = 0x06;
pub const ISO14443B_FELICA: u8 = 0x07;
pub const PASSIVE_TARGET: u8 = 0x08;
pub const STREAM_MODE: u8 = 0x09;
pub const AUX: u8 = 0x0A;
pub const RX_CONF1: u8 = 0x0B;
pub const RX_CONF2: u8 = 0x0C;
pub const RX_CONF3: u8 = 0x0D;
pub const RX_CONF4: u8 = 0x0E;
pub const MASK_RX_TIMER: u8 = 0x0F;
pub const NO_RESPONSE_TIMER_1: u8 = 0x10;
pub const NO_RESPONSE_TIMER_2: u8 = 0x11;
pub const TIMER_EMV_CONTROL: u8 = 0x12;
pub const GPT_1: u8 = 0x13;
pub const GPT_2: u8 = 0x14;
pub const PPON2: u8 = 0x15;
pub const IRQ_MASK_MAIN: u8 = 0x16;
pub const IRQ_MASK_TIMER_NFC: u8 = 0x17;
pub const IRQ_MASK_ERROR_WUP: u8 = 0x18;
pub const IRQ_MASK_TARGET: u8 = 0x19;
pub const IRQ_MAIN: u8 = 0x1A;
pub const IRQ_TIMER_NFC: u8 = 0x1B;
pub const IRQ_ERROR_WUP: u8 = 0x1C;
pub const IRQ_TARGET: u8 = 0x1D;
pub const FIFO_STATUS_1: u8 = 0x1E;
pub const FIFO_STATUS_2: u8 = 0x1F;
pub const COLLISION_STATUS: u8 = 0x20;
pub const PASSIVE_TARGET_STATUS: u8 = 0x21;
pub const NUM_TX_BYTES_1: u8 = 0x22;
pub const NUM_TX_BYTES_2: u8 = 0x23;
pub const BIT_RATE_DETECTION: u8 = 0x24;
pub const AD_RESULT: u8 = 0x25;
pub const ANT_TUNE_A: u8 = 0x26;
pub const ANT_TUNE_B: u8 = 0x27;
pub const TX_DRIVER: u8 = 0x28;
pub const PT_MOD: u8 = 0x29;
pub const FIELD_THRESHOLD_ACT: u8 = 0x2A;
pub const FIELD_THRESHOLD_DEACT: u8 = 0x2B;
pub const REGULATOR_CONTROL: u8 = 0x2C;
pub const RSSI_RESULT: u8 = 0x2D;
pub const GAIN_RED_STATE: u8 = 0x2E;
pub const CAP_SENSOR_CONTROL: u8 = 0x2F;
pub const CAP_SENSOR_RESULT: u8 = 0x30;
pub const AUX_DISPLAY: u8 = 0x31;
pub const WUP_TIMER_CONTROL: u8 = 0x32;
pub const AMPLITUDE_MEASURE_CONF: u8 = 0x33;
pub const AMPLITUDE_MEASURE_REF: u8 = 0x34;
pub const AMPLITUDE_MEASURE_AA_RESULT: u8 = 0x35;
pub const AMPLITUDE_MEASURE_RESULT: u8 = 0x36;
pub const PHASE_MEASURE_CONF: u8 = 0x37;
pub const PHASE_MEASURE_REF: u8 = 0x38;
pub const PHASE_MEASURE_AA_RESULT: u8 = 0x39;
pub const PHASE_MEASURE_RESULT: u8 = 0x3A;
pub const CAPACITANCE_MEASURE_CONF: u8 = 0x3B;
pub const CAPACITANCE_MEASURE_REF: u8 = 0x3C;
pub const CAPACITANCE_MEASURE_AA_RESULT: u8 = 0x3D;
pub const CAPACITANCE_MEASURE_RESULT: u8 = 0x3E;
pub const IC_IDENTITY: u8 = 0x3F;

} // verus!
