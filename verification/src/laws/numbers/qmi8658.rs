//! The numbers of the plain motion sensor.

use vstd::prelude::*;
use crate::laws::bits::single_bits;
use crate::qmi8658::registers::cmd;
use crate::qmi8658::registers::ctrl1;
use crate::qmi8658::registers::ctrl2;
use crate::qmi8658::registers::ctrl3;
use crate::qmi8658::registers::ctrl5;
use crate::qmi8658::registers::ctrl6;
use crate::qmi8658::registers::ctrl7;
use crate::qmi8658::registers::ctrl8;
use crate::qmi8658::registers::fifo_ctrl;
use crate::qmi8658::registers::fifo_status;
use crate::qmi8658::registers::status0;
use crate::qmi8658::registers::status1;
use crate::qmi8658::registers::statusint;
use crate::qmi8658::registers;
use crate::qmi8658;

verus! {

/// The values in `qmi8658`.
pub proof fn numbers()
    ensures
        qmi8658::ADDR == 0x6B && qmi8658::READY_POLLS == 1000 && qmi8658::SELF_TEST_POLLS == 5000,
{
}

/// Command numbers.
pub proof fn cmd_numbers()
    ensures
        cmd::NOP == 0x00 && cmd::GYRO_BIAS == 0x01 && cmd::REQ_SDI == 0x03 && cmd::RST_FIFO == 0x04,
        cmd::REQ_FIFO == 0x05 && cmd::I2CM_WRITE == 0x06 && cmd::WRITE_WOM_SETTING == 0x08,
        cmd::ACCEL_HOST_DELTA_OFFSET == 0x09 && cmd::GYRO_HOST_DELTA_OFFSET == 0x0A && cmd::COPY_USID == 0x10,
        cmd::SET_RPU == 0x11,
{
}

/// The values in `qmi8658::registers::ctrl1`.
pub proof fn ctrl1_numbers()
    ensures
        ctrl1::AUTO_INCREMENT == 0x40 && ctrl1::SPI_BIG_ENDIAN == 0x20 && ctrl1::SENSOR_DISABLE == 0x01,
{
}

/// The values in `qmi8658::registers::ctrl2`.
pub proof fn ctrl2_numbers()
    ensures
        ctrl2::SELF_TEST == 0x80 && ctrl2::FS_SHIFT == 4 && ctrl2::FS_MASK == 0b111,
{
}

/// The values in `qmi8658::registers::ctrl3`.
pub proof fn ctrl3_numbers()
    ensures
        ctrl3::SELF_TEST == 0x80 && ctrl3::FS_SHIFT == 4 && ctrl3::FS_MASK == 0b111,
{
}

/// The values in `qmi8658::registers::ctrl5`.
pub proof fn ctrl5_numbers()
    ensures
        ctrl5::GLPF_MODE_SHIFT == 5 && ctrl5::ALPF_MODE_SHIFT == 1 && ctrl5::GLPF_EN == 16,
        ctrl5::ALPF_EN == 1,
{
    single_bits();
}

/// The values in `qmi8658::registers::ctrl6`.
pub proof fn ctrl6_numbers()
    ensures
        ctrl6::SMOD == 0x80 && ctrl6::SODR_MASK == 0x07,
{
}

/// The values in `qmi8658::registers::ctrl7`.
pub proof fn ctrl7_numbers()
    ensures
        ctrl7::SYNC_SMPL == 0x80 && ctrl7::SYS_HS == 64 && ctrl7::GYRO_SNZ == 16 && ctrl7::AE_EN == 8,
        ctrl7::MAG_EN == 4 && ctrl7::GYRO_EN == 2 && ctrl7::ACCEL_EN == 1,
{
    single_bits();
}

/// The values in `qmi8658::registers::ctrl8`.
pub proof fn ctrl8_numbers()
    ensures
        ctrl8::CTRL9_HANDSHAKE_STATUSINT == 0x80 && ctrl8::MOTION_INT_ON_INT1 == 0x40,
{
}

/// The values in `qmi8658::registers::fifo_ctrl`.
pub proof fn fifo_ctrl_numbers()
    ensures
        fifo_ctrl::RD_MODE == 0x80 && fifo_ctrl::SIZE_SHIFT == 2 && fifo_ctrl::SIZE_MASK == 0x03,
        fifo_ctrl::MODE_MASK == 0x03,
{
}

/// The values in `qmi8658::registers::fifo_status`.
pub proof fn fifo_status_numbers()
    ensures
        fifo_status::WATERMARK == 0x40 && fifo_status::NOT_EMPTY == 0x10 && fifo_status::FULL == 128,
        fifo_status::OVERFLOW == 32,
{
    single_bits();
}

/// Register numbers.
pub proof fn registers_numbers()
    ensures
        registers::WHO_AM_I == 0x00 && registers::REVISION_ID == 0x01 && registers::CHIP_ID == 0x05,
        registers::CTRL1 == 0x02 && registers::CTRL2 == 0x03 && registers::CTRL3 == 0x04,
        registers::CTRL4 == 0x05 && registers::CTRL5 == 0x06 && registers::CTRL6 == 0x07,
        registers::CTRL7 == 0x08 && registers::CTRL8 == 0x09 && registers::CTRL9 == 0x0A,
        registers::CAL1_L == 0x0B && registers::CAL1_H == 0x0C && registers::CAL2_L == 0x0D,
        registers::CAL2_H == 0x0E && registers::CAL3_L == 0x0F && registers::CAL3_H == 0x10,
        registers::CAL4_L == 0x11 && registers::CAL4_H == 0x12 && registers::FIFO_WTM_TH == 0x13,
        registers::FIFO_CTRL == 0x14 && registers::FIFO_SMPL_CNT == 0x15 && registers::FIFO_STATUS == 0x16,
        registers::FIFO_DATA == 0x17 && registers::I2CM_STATUS == 0x2C && registers::STATUSINT == 0x2D,
        registers::STATUS0 == 0x2E && registers::STATUS1 == 0x2F && registers::TIMESTAMP_LOW == 0x30,
        registers::TIMESTAMP_MID == 0x31 && registers::TIMESTAMP_HIGH == 0x32 && registers::TEMP_L == 0x33,
        registers::TEMP_H == 0x34 && registers::AX_L == 0x35 && registers::AX_H == 0x36,
        registers::AY_L == 0x37 && registers::AY_H == 0x38 && registers::AZ_L == 0x39 && registers::AZ_H == 0x3A,
        registers::GX_L == 0x3B && registers::GX_H == 0x3C && registers::GY_L == 0x3D && registers::GY_H == 0x3E,
        registers::GZ_L == 0x3F && registers::GZ_H == 0x40 && registers::MX_L == 0x41 && registers::MX_H == 0x42,
        registers::MY_L == 0x43 && registers::MY_H == 0x44 && registers::MZ_L == 0x45 && registers::MZ_H == 0x46,
        registers::DQW_L == 0x49 && registers::DQW_H == 0x4A && registers::DQX_L == 0x4B,
        registers::DQX_H == 0x4C && registers::DQY_L == 0x4D && registers::DQY_H == 0x4E,
        registers::DQZ_L == 0x4F && registers::DQZ_H == 0x50 && registers::DVX_L == 0x51,
        registers::DVX_H == 0x52 && registers::DVY_L == 0x53 && registers::DVY_H == 0x54,
        registers::DVZ_L == 0x55 && registers::DVZ_H == 0x56 && registers::AE_REG1 == 0x57,
        registers::AE_REG2 == 0x58 && registers::RESET == 0x60 && registers::RESET_VALUE == 0xB0,
{
}

/// The values in `qmi8658::registers::status0`.
pub proof fn status0_numbers()
    ensures
        status0::ACCEL_READY == 0x01 && status0::AE_READY == 8 && status0::MAG_READY == 4,
        status0::GYRO_READY == 2,
{
    single_bits();
}

/// The values in `qmi8658::registers::status1`.
pub proof fn status1_numbers()
    ensures
        status1::CMD_DONE == 0x01 && status1::WOM == 0x04,
{
}

/// The values in `qmi8658::registers::statusint`.
pub proof fn statusint_numbers()
    ensures
        statusint::CMD_DONE == 0x80 && statusint::LOCKED == 2 && statusint::AVAIL == 1,
{
    single_bits();
}

} // verus!
