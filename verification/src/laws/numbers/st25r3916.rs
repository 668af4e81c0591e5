//! The numbers of the reader chip.

use vstd::prelude::*;
use crate::st25r3916::regs::aux_display;
use crate::st25r3916::regs::cmd;
use crate::st25r3916::regs::fifo_status2;
use crate::st25r3916::regs::io_conf1;
use crate::st25r3916::regs::io_conf2;
use crate::st25r3916::regs::irq_error_wup;
use crate::st25r3916::regs::irq_main;
use crate::st25r3916::regs::irq_timer_nfc;
use crate::st25r3916::regs::op_control;
use crate::st25r3916::regs::reg_a;
use crate::st25r3916::regs::reg_b;
use crate::st25r3916::regs::regulator_control;
use crate::st25r3916::regs::spi_mode;
use crate::st25r3916::regs;

verus! {

/// The values in `st25r3916::regs::aux_display`.
pub proof fn aux_display_numbers()
    ensures
        aux_display::A_CHA == 0x80 && aux_display::EFD_O == 0x40 && aux_display::TX_ON == 0x20,
        aux_display::OSC_OK == 0x10 && aux_display::RX_ON == 0x08 && aux_display::RX_ACT == 0x04,
        aux_display::EN_PEER == 0x02 && aux_display::EN_AC == 0x01,
{
}

/// Command numbers.
pub proof fn cmd_numbers()
    ensures
        cmd::SET_DEFAULT == 0xC1 && cmd::STOP_ALL_ACTIVITIES == 0xC2 && cmd::TRANSMIT_WITH_CRC == 0xC4,
        cmd::TRANSMIT_WITHOUT_CRC == 0xC5 && cmd::TRANSMIT_REQA == 0xC6 && cmd::TRANSMIT_WUPA == 0xC7,
        cmd::NFC_INITIAL_FIELD_ON == 0xC8 && cmd::NFC_RESPONSE_FIELD_ON == 0xC9 && cmd::GO_TO_SENSE == 0xCD,
        cmd::GO_TO_SLEEP == 0xCE && cmd::MASK_RECEIVE_DATA == 0xD0 && cmd::UNMASK_RECEIVE_DATA == 0xD1,
        cmd::CHANGE_AM_MODULATION_STATE == 0xD2 && cmd::MEASURE_AMPLITUDE == 0xD3 && cmd::RESET_RX_GAIN == 0xD5,
        cmd::ADJUST_REGULATORS == 0xD6 && cmd::CALIBRATE_DRIVER_TIMING == 0xD8 && cmd::MEASURE_PHASE == 0xD9,
        cmd::CLEAR_RSSI == 0xDA && cmd::CLEAR_FIFO == 0xDB && cmd::ENTER_TRANSPARENT_MODE == 0xDC,
        cmd::CALIBRATE_CAPACITIVE_SENSOR == 0xDD && cmd::MEASURE_CAPACITANCE == 0xDE,
        cmd::MEASURE_POWER_SUPPLY == 0xDF && cmd::START_GP_TIMER == 0xE0 && cmd::START_WAKEUP_TIMER == 0xE1,
        cmd::START_MASK_RECEIVE_TIMER == 0xE2 && cmd::START_NO_RESPONSE_TIMER == 0xE3,
        cmd::START_PPON2_TIMER == 0xE4 && cmd::STOP_NO_RESPONSE_TIMER == 0xE8 && cmd::SPACE_B_ACCESS == 0xFB,
        cmd::TEST_ACCESS == 0xFC,
{
}

/// The values in `st25r3916::regs::fifo_status2`.
pub proof fn fifo_status2_numbers()
    ensures
        fifo_status2::UNDERFLOW == 0x20 && fifo_status2::OVERFLOW == 0x10,
{
}

/// The values in `st25r3916::regs::io_conf1`.
pub proof fn io_conf1_numbers()
    ensures
        io_conf1::SINGLE == 0x80 && io_conf1::RFO2 == 0x40 && io_conf1::OUT_CL1 == 0x04,
        io_conf1::OUT_CL0 == 0x02 && io_conf1::LF_CLK_OFF == 0x01,
{
}

/// The values in `st25r3916::regs::io_conf2`.
pub proof fn io_conf2_numbers()
    ensures
        io_conf2::SUP3V == 0x80 && io_conf2::VSPD_OFF == 0x40 && io_conf2::AAT_EN == 0x20,
        io_conf2::MISO_PD2 == 0x10 && io_conf2::MISO_PD1 == 0x08 && io_conf2::IO_DRV_LVL == 0x04,
        io_conf2::AM_REF_RF == 0x02 && io_conf2::SLOW_UP == 0x01,
{
}

/// The values in `st25r3916::regs::irq_error_wup`.
pub proof fn irq_error_wup_numbers()
    ensures
        irq_error_wup::CRC_ERROR == 0x80 && irq_error_wup::PARITY_ERROR == 0x40,
        irq_error_wup::SOFT_FRAMING_ERROR == 0x20 && irq_error_wup::HARD_FRAMING_ERROR == 0x10,
        irq_error_wup::WUP_TIMER == 0x08 && irq_error_wup::WUP_AMPLITUDE == 0x04,
        irq_error_wup::WUP_PHASE == 0x02 && irq_error_wup::WUP_CAPACITANCE == 0x01,
{
}

/// The values in `st25r3916::regs::irq_main`.
pub proof fn irq_main_numbers()
    ensures
        irq_main::OSC == 0x80 && irq_main::WATER_LEVEL == 0x40 && irq_main::RX_START == 0x20,
        irq_main::RX_END == 0x10 && irq_main::TX_END == 0x08 && irq_main::COLLISION == 0x04,
        irq_main::RX_RESTART == 0x02,
{
}

/// The values in `st25r3916::regs::irq_timer_nfc`.
pub proof fn irq_timer_nfc_numbers()
    ensures
        irq_timer_nfc::DCT == 0x80 && irq_timer_nfc::NO_RESPONSE == 0x40 && irq_timer_nfc::GP_TIMER == 0x20,
        irq_timer_nfc::FIELD_ON == 0x10 && irq_timer_nfc::FIELD_OFF == 0x08,
        irq_timer_nfc::COLLISION_DURING_CA == 0x04 && irq_timer_nfc::MIN_GUARD_TIME == 0x02,
        irq_timer_nfc::BIT_RATE_RECOGNIZED == 0x01,
{
}

/// The values in `st25r3916::regs`.
pub proof fn regs_numbers()
    ensures
        regs::IC_TYPE_ST25R3916 == 0b00101 && regs::FIFO_SIZE == 512,
{
}

/// The values in `st25r3916::regs::op_control`.
pub proof fn op_control_numbers()
    ensures
        op_control::EN == 0x80 && op_control::RX_EN == 0x40 && op_control::RX_CHN == 0x20,
        op_control::RX_MAN == 0x10 && op_control::TX_EN == 0x08 && op_control::WU == 0x04,
        op_control::EN_FD_C1 == 0x02 && op_control::EN_FD_C0 == 0x01,
{
}

/// Register numbers of the first space.
pub proof fn reg_a_numbers()
    ensures
        reg_a::IO_CONF1 == 0x00 && reg_a::IO_CONF2 == 0x01 && reg_a::OP_CONTROL == 0x02 && reg_a::MODE == 0x03,
        reg_a::BIT_RATE == 0x04 && reg_a::ISO14443A_NFC == 0x05 && reg_a::ISO14443B_1 == 0x06,
        reg_a::ISO14443B_FELICA == 0x07 && reg_a::PASSIVE_TARGET == 0x08 && reg_a::STREAM_MODE == 0x09,
        reg_a::AUX == 0x0A && reg_a::RX_CONF1 == 0x0B && reg_a::RX_CONF2 == 0x0C && reg_a::RX_CONF3 == 0x0D,
        reg_a::RX_CONF4 == 0x0E && reg_a::MASK_RX_TIMER == 0x0F && reg_a::NO_RESPONSE_TIMER_1 == 0x10,
        reg_a::NO_RESPONSE_TIMER_2 == 0x11 && reg_a::TIMER_EMV_CONTROL == 0x12 && reg_a::GPT_1 == 0x13,
        reg_a::GPT_2 == 0x14 && reg_a::PPON2 == 0x15 && reg_a::IRQ_MASK_MAIN == 0x16,
        reg_a::IRQ_MASK_TIMER_NFC == 0x17 && reg_a::IRQ_MASK_ERROR_WUP == 0x18 && reg_a::IRQ_MASK_TARGET == 0x19,
        reg_a::IRQ_MAIN == 0x1A && reg_a::IRQ_TIMER_NFC == 0x1B && reg_a::IRQ_ERROR_WUP == 0x1C,
        reg_a::IRQ_TARGET == 0x1D && reg_a::FIFO_STATUS_1 == 0x1E && reg_a::FIFO_STATUS_2 == 0x1F,
        reg_a::COLLISION_STATUS == 0x20 && reg_a::PASSIVE_TARGET_STATUS == 0x21 && reg_a::NUM_TX_BYTES_1 == 0x22,
        reg_a::NUM_TX_BYTES_2 == 0x23 && reg_a::BIT_RATE_DETECTION == 0x24 && reg_a::AD_RESULT == 0x25,
        reg_a::ANT_TUNE_A == 0x26 && reg_a::ANT_TUNE_B == 0x27 && reg_a::TX_DRIVER == 0x28,
        reg_a::PT_MOD == 0x29 && reg_a::FIELD_THRESHOLD_ACT == 0x2A && reg_a::FIELD_THRESHOLD_DEACT == 0x2B,
        reg_a::REGULATOR_CONTROL == 0x2C && reg_a::RSSI_RESULT == 0x2D && reg_a::GAIN_RED_STATE == 0x2E,
        reg_a::CAP_SENSOR_CONTROL == 0x2F && reg_a::CAP_SENSOR_RESULT == 0x30 && reg_a::AUX_DISPLAY == 0x31,
        reg_a::WUP_TIMER_CONTROL == 0x32 && reg_a::AMPLITUDE_MEASURE_CONF == 0x33,
        reg_a::AMPLITUDE_MEASURE_REF == 0x34 && reg_a::AMPLITUDE_MEASURE_AA_RESULT == 0x35,
        reg_a::AMPLITUDE_MEASURE_RESULT == 0x36 && reg_a::PHASE_MEASURE_CONF == 0x37,
        reg_a::PHASE_MEASURE_REF == 0x38 && reg_a::PHASE_MEASURE_AA_RESULT == 0x39,
        reg_a::PHASE_MEASURE_RESULT == 0x3A && reg_a::CAPACITANCE_MEASURE_CONF == 0x3B,
        reg_a::CAPACITANCE_MEASURE_REF == 0x3C && reg_a::CAPACITANCE_MEASURE_AA_RESULT == 0x3D,
        reg_a::CAPACITANCE_MEASURE_RESULT == 0x3E && reg_a::IC_IDENTITY == 0x3F,
{
}

/// Register numbers of the second space.
pub proof fn reg_b_numbers()
    ensures
        reg_b::EMD_SUP_CONF == 0x05 && reg_b::SUBC_START_TIME == 0x06 && reg_b::P2P_RX_CONF == 0x0B,
        reg_b::CORR_CONF1 == 0x0C && reg_b::CORR_CONF2 == 0x0D && reg_b::SQUELCH_TIMER == 0x0F,
        reg_b::FIELD_ON_GT == 0x15 && reg_b::AUX_MOD == 0x28 && reg_b::TX_DRIVER_TIMING == 0x29,
        reg_b::RES_AM_MOD == 0x2A && reg_b::TX_DRIVER_TIMING_DISPLAY == 0x2B && reg_b::REGULATOR_RESULT == 0x2C,
        reg_b::OVERSHOOT_CONF1 == 0x30 && reg_b::OVERSHOOT_CONF2 == 0x31 && reg_b::UNDERSHOOT_CONF1 == 0x32,
        reg_b::UNDERSHOOT_CONF2 == 0x33,
{
}

/// The values in `st25r3916::regs::regulator_control`.
pub proof fn regulator_control_numbers()
    ensures
        regulator_control::REG_S == 0x80,
{
}

/// The values in `st25r3916::regs::spi_mode`.
pub proof fn spi_mode_numbers()
    ensures
        spi_mode::REG_WRITE == 0x00 && spi_mode::REG_READ == 0x40 && spi_mode::FIFO_LOAD == 0x80,
        spi_mode::FIFO_READ == 0x9F && spi_mode::PT_LOAD_A_CONFIG == 0xA0 && spi_mode::PT_LOAD_F_CONFIG == 0xA8,
        spi_mode::PT_LOAD_TSN == 0xAC && spi_mode::PT_READ == 0xBF,
{
}

} // verus!
