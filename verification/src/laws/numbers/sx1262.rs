//! The numbers of the radio.

use vstd::prelude::*;
use crate::sx1262::regs::calibrate;
use crate::sx1262::regs::image_band;
use crate::sx1262::regs::irq;
use crate::sx1262::regs::lora_sync_word;
use crate::sx1262::regs::op_error;
use crate::sx1262::regs::opcode;
use crate::sx1262::regs::reg;
use crate::sx1262::regs;
use crate::sx1262;

verus! {

/// The values in `sx1262`.
pub proof fn numbers()
    ensures
        sx1262::BUSY_SPIN_BUDGET == 2_000_000 && sx1262::TIMEOUT_SINGLE == 0x000000,
        sx1262::RX_CONTINUOUS == 0xFF_FFFF,
{
}

/// The values in `sx1262::regs::calibrate`.
pub proof fn calibrate_numbers()
    ensures
        calibrate::RC64K == 0x01 && calibrate::RC13M == 0x02 && calibrate::PLL == 0x04,
        calibrate::ADC_PULSE == 0x08 && calibrate::ADC_BULK_N == 0x10 && calibrate::ADC_BULK_P == 0x20,
        calibrate::IMAGE == 0x40 && calibrate::ALL == 0x7F,
{
}

/// The values in `sx1262::regs::image_band`.
pub proof fn image_band_numbers()
    ensures
        image_band::MHZ_430_440 == (0x6Bu8, 0x6Fu8) && image_band::MHZ_470_510 == (0x75u8, 0x81u8),
        image_band::MHZ_779_787 == (0xC1u8, 0xC5u8) && image_band::MHZ_863_870 == (0xD7u8, 0xDBu8),
        image_band::MHZ_902_928 == (0xE1u8, 0xE9u8),
{
}

/// The values in `sx1262::regs::irq`.
pub proof fn irq_numbers()
    ensures
        irq::TX_DONE == 0x0001 && irq::RX_DONE == 0x0002 && irq::PREAMBLE_DETECTED == 0x0004,
        irq::SYNC_WORD_VALID == 0x0008 && irq::HEADER_VALID == 0x0010 && irq::HEADER_ERR == 0x0020,
        irq::CRC_ERR == 0x0040 && irq::CAD_DONE == 0x0080 && irq::CAD_DETECTED == 0x0100,
        irq::TIMEOUT == 0x0200 && irq::LR_FHSS_HOP == 0x4000 && irq::ALL == 0x43FF,
{
}

/// The values in `sx1262::regs::lora_sync_word`.
pub proof fn lora_sync_word_numbers()
    ensures
        lora_sync_word::PUBLIC == 0x3444 && lora_sync_word::PRIVATE == 0x1424,
{
}

/// The values in `sx1262::regs`.
pub proof fn regs_numbers()
    ensures
        regs::F_XTAL_HZ == 32_000_000 && regs::TIMER_STEPS_PER_MS == 64,
{
}

/// The values in `sx1262::regs::op_error`.
pub proof fn op_error_numbers()
    ensures
        op_error::RC64K_CALIB_ERR == 0x0001 && op_error::RC13M_CALIB_ERR == 0x0002,
        op_error::PLL_CALIB_ERR == 0x0004 && op_error::ADC_CALIB_ERR == 0x0008,
        op_error::IMG_CALIB_ERR == 0x0010 && op_error::XOSC_START_ERR == 0x0020,
        op_error::PLL_LOCK_ERR == 0x0040 && op_error::PA_RAMP_ERR == 0x0100,
{
}

/// Operation codes.
pub proof fn opcode_numbers()
    ensures
        opcode::SET_SLEEP == 0x84 && opcode::SET_STANDBY == 0x80 && opcode::SET_FS == 0xC1,
        opcode::SET_TX == 0x83 && opcode::SET_RX == 0x82 && opcode::STOP_TIMER_ON_PREAMBLE == 0x9F,
        opcode::SET_RX_DUTY_CYCLE == 0x94 && opcode::SET_CAD == 0xC5 && opcode::SET_TX_CONTINUOUS_WAVE == 0xD1,
        opcode::SET_TX_INFINITE_PREAMBLE == 0xD2 && opcode::SET_REGULATOR_MODE == 0x96,
        opcode::CALIBRATE == 0x89 && opcode::CALIBRATE_IMAGE == 0x98 && opcode::SET_PA_CONFIG == 0x95,
        opcode::SET_RX_TX_FALLBACK_MODE == 0x93 && opcode::WRITE_REGISTER == 0x0D,
        opcode::READ_REGISTER == 0x1D && opcode::WRITE_BUFFER == 0x0E && opcode::READ_BUFFER == 0x1E,
        opcode::SET_DIO_IRQ_PARAMS == 0x08 && opcode::GET_IRQ_STATUS == 0x12 && opcode::CLEAR_IRQ_STATUS == 0x02,
        opcode::SET_DIO2_AS_RF_SWITCH_CTRL == 0x9D && opcode::SET_DIO3_AS_TCXO_CTRL == 0x97,
        opcode::SET_RF_FREQUENCY == 0x86 && opcode::SET_PACKET_TYPE == 0x8A && opcode::GET_PACKET_TYPE == 0x11,
        opcode::SET_TX_PARAMS == 0x8E && opcode::SET_MODULATION_PARAMS == 0x8B,
        opcode::SET_PACKET_PARAMS == 0x8C && opcode::SET_CAD_PARAMS == 0x88,
        opcode::SET_BUFFER_BASE_ADDRESS == 0x8F && opcode::SET_LORA_SYMB_NUM_TIMEOUT == 0xA0,
        opcode::GET_STATUS == 0xC0 && opcode::GET_RSSI_INST == 0x15 && opcode::GET_RX_BUFFER_STATUS == 0x13,
        opcode::GET_PACKET_STATUS == 0x14 && opcode::GET_DEVICE_ERRORS == 0x17,
        opcode::CLEAR_DEVICE_ERRORS == 0x07 && opcode::GET_STATS == 0x10 && opcode::RESET_STATS == 0x00,
{
}

/// Register numbers.
pub proof fn reg_numbers()
    ensures
        reg::FSK_SYNC_WORD_0 == 0x06C0 && reg::FSK_NODE_ADDRESS == 0x06CD,
        reg::FSK_BROADCAST_ADDRESS == 0x06CE && reg::FSK_WHITENING_INITIAL_MSB == 0x06B8,
        reg::FSK_WHITENING_INITIAL_LSB == 0x06B9 && reg::FSK_CRC_INITIAL_MSB == 0x06BC,
        reg::FSK_CRC_INITIAL_LSB == 0x06BD && reg::FSK_CRC_POLYNOMIAL_MSB == 0x06BE,
        reg::FSK_CRC_POLYNOMIAL_LSB == 0x06BF && reg::IQ_POLARITY == 0x0736 && reg::LORA_SYNC_WORD_MSB == 0x0740,
        reg::LORA_SYNC_WORD_LSB == 0x0741 && reg::LORA_CODING_RATE_RX == 0x0749,
        reg::LORA_CRC_CONFIG_RX == 0x076B && reg::RANDOM_NUMBER_0 == 0x0819 && reg::TX_MODULATION == 0x0889,
        reg::RX_GAIN == 0x08AC && reg::RETENTION_LIST_0 == 0x029F && reg::RETENTION_LIST_1 == 0x02A0,
        reg::RETENTION_LIST_2 == 0x02A1 && reg::TX_CLAMP_CONFIG == 0x08D8 && reg::OCP_CONFIGURATION == 0x08E7,
        reg::RTC_CONTROL == 0x0902 && reg::XTA_TRIM == 0x0911 && reg::XTB_TRIM == 0x0912,
        reg::DIO_OUTPUT_ENABLE == 0x0580 && reg::DIO_INPUT_ENABLE == 0x0583 && reg::DIO_PULL_UP == 0x0584,
        reg::DIO_PULL_DOWN == 0x0585 && reg::DIO3_OUTPUT_VOLTAGE == 0x0920 && reg::EVENT_MASK == 0x0944,
{
}

} // verus!
