//! The numbers of the sensor hub.

use vstd::prelude::*;
use crate::bhi260::boot_status;
use crate::bhi260::chip_control;
use crate::bhi260::cmd;
use crate::bhi260::event_id;
use crate::bhi260::fifo;
use crate::bhi260::flush;
use crate::bhi260::hif_control;
use crate::bhi260::host_status;
use crate::bhi260::int_status;
use crate::bhi260::irq_control;
use crate::bhi260::meta;
use crate::bhi260::param;
use crate::bhi260::phys;
use crate::bhi260::reg;
use crate::bhi260::status;
use crate::bhi260;

verus! {

/// The values in `bhi260::boot_status`.
pub proof fn boot_status_numbers()
    ensures
        boot_status::FLASH_DETECTED == 0x01 && boot_status::FLASH_VERIFY_DONE == 0x02,
        boot_status::FLASH_VERIFY_ERROR == 0x04 && boot_status::NO_FLASH == 0x08,
        boot_status::HOST_INTERFACE_READY == 0x10 && boot_status::FIRMWARE_VERIFY_DONE == 0x20,
        boot_status::FIRMWARE_VERIFY_ERROR == 0x40 && boot_status::FIRMWARE_IDLE == 0x80,
{
}

/// The values in `bhi260::chip_control`.
pub proof fn chip_control_numbers()
    ensures
        chip_control::CPU_TURBO_DISABLE == 0x01 && chip_control::CLEAR_ERROR_REGS == 0x02,
{
}

/// Command numbers.
pub proof fn cmd_numbers()
    ensures
        cmd::DOWNLOAD_POST_MORTEM == 0x0001 && cmd::UPLOAD_TO_PROGRAM_RAM == 0x0002,
        cmd::BOOT_PROGRAM_RAM == 0x0003 && cmd::ERASE_FLASH == 0x0004 && cmd::WRITE_FLASH == 0x0005,
        cmd::BOOT_FLASH == 0x0006 && cmd::SET_INJECTION_MODE == 0x0007 && cmd::INJECT_SENSOR_DATA == 0x0008,
        cmd::FIFO_FLUSH == 0x0009 && cmd::SOFT_PASSTHROUGH == 0x000A && cmd::REQUEST_SELF_TEST == 0x000B,
        cmd::REQUEST_FOC == 0x000C && cmd::CONFIGURE_SENSOR == 0x000D && cmd::CHANGE_DYNAMIC_RANGE == 0x000E,
        cmd::SET_CHANGE_SENSITIVITY == 0x000F && cmd::DEBUG_TEST == 0x0010 && cmd::DUT_CONTINUE == 0x0011,
        cmd::DUT_START_TEST == 0x0012 && cmd::CONTROL_FIFO_FORMAT == 0x0015,
        cmd::RAISE_HOST_INTERFACE_SPEED == 0x0017 && cmd::PARAM_READ_FLAG == 0x1000,
{
}

/// Event numbers.
pub proof fn event_id_numbers()
    ensures
        event_id::ROTATION_VECTOR == 34 && event_id::ROTATION_VECTOR_WU == 35,
        event_id::GAME_ROTATION_VECTOR == 37 && event_id::GAME_ROTATION_VECTOR_WU == 38,
        event_id::GEO_ROTATION_VECTOR == 40 && event_id::GEO_ROTATION_VECTOR_WU == 41,
        event_id::ORIENTATION == 43 && event_id::ORIENTATION_WU == 44 && event_id::ACCEL_PASSTHROUGH == 1,
        event_id::ACCEL_RAW == 3 && event_id::ACCEL_CORRECTED == 4 && event_id::ACCEL_OFFSET == 5,
        event_id::ACCEL_CORRECTED_WU == 6 && event_id::ACCEL_RAW_WU == 7 && event_id::GYRO_PASSTHROUGH == 10,
        event_id::GYRO_RAW == 12 && event_id::GYRO_CORRECTED == 13 && event_id::GYRO_OFFSET == 14,
        event_id::GYRO_CORRECTED_WU == 15 && event_id::GYRO_RAW_WU == 16 && event_id::MAG_PASSTHROUGH == 19,
        event_id::MAG_RAW == 21 && event_id::MAG_CORRECTED == 22 && event_id::MAG_OFFSET == 23,
        event_id::MAG_CORRECTED_WU == 24 && event_id::MAG_RAW_WU == 25 && event_id::GRAVITY == 28,
        event_id::GRAVITY_WU == 29 && event_id::LINEAR_ACCEL == 31 && event_id::LINEAR_ACCEL_WU == 32,
        event_id::ACCEL_OFFSET_WU == 91 && event_id::GYRO_OFFSET_WU == 92 && event_id::MAG_OFFSET_WU == 93,
        event_id::LIGHT == 146 && event_id::LIGHT_WU == 148 && event_id::PROXIMITY == 147,
        event_id::PROXIMITY_WU == 149 && event_id::HUMIDITY == 130 && event_id::HUMIDITY_WU == 134,
        event_id::STEP_COUNTER == 52 && event_id::STEP_COUNTER_WU == 53 && event_id::AUX_STEP_COUNTER == 136,
        event_id::AUX_STEP_COUNTER_WU == 139 && event_id::TEMPERATURE == 128 && event_id::TEMPERATURE_WU == 132,
        event_id::BAROMETER == 129 && event_id::BAROMETER_WU == 133 && event_id::GAS == 131,
        event_id::GAS_WU == 135 && event_id::TILT_DETECTOR_WU == 48 && event_id::STEP_DETECTOR == 50,
        event_id::SIGNIFICANT_MOTION_WU == 55 && event_id::WAKE_GESTURE_WU == 57,
        event_id::GLANCE_GESTURE_WU == 59 && event_id::PICKUP_GESTURE_WU == 61,
        event_id::WRIST_TILT_GESTURE_WU == 67 && event_id::STATIONARY_DETECT_WU == 75,
        event_id::MOTION_DETECT_WU == 77 && event_id::STEP_DETECTOR_WU == 94,
        event_id::AUX_STEP_DETECTOR == 137 && event_id::AUX_SIGNIFICANT_MOTION == 138,
        event_id::AUX_STEP_DETECTOR_WU == 140 && event_id::AUX_SIGNIFICANT_MOTION_WU == 141,
        event_id::AUX_ANY_MOTION == 142 && event_id::AUX_ANY_MOTION_WU == 143 && event_id::ACTIVITY == 63,
        event_id::DEVICE_ORIENTATION == 69 && event_id::DEVICE_ORIENTATION_WU == 70,
        event_id::CAMERA_SHUTTER == 144 && event_id::GPS == 145 && event_id::SELF_LEARNING_AI == 112,
        event_id::PDR_WU == 113 && event_id::SWIM == 114 && event_id::DEBUG_DATA == 250,
        event_id::TS_SMALL_DELTA == 251 && event_id::TS_SMALL_DELTA_WU == 245 && event_id::TS_LARGE_DELTA == 252,
        event_id::TS_LARGE_DELTA_WU == 246 && event_id::TS_FULL == 253 && event_id::TS_FULL_WU == 247,
        event_id::META_EVENT == 254 && event_id::META_EVENT_WU == 248 && event_id::FILLER == 255,
        event_id::PADDING == 0,
{
}

/// The values in `bhi260::fifo`.
pub proof fn fifo_numbers()
    ensures
        fifo::TIMESTAMP_WRAP == 0x100_0000_0000,
{
}

/// The values in `bhi260::flush`.
pub proof fn flush_numbers()
    ensures
        flush::SEND_ALL == 0xFF && flush::DISCARD_ALL == 0xFE && flush::SEND_WAKE == 0xFD,
        flush::SEND_NONWAKE == 0xFC && flush::DISCARD_WAKE == 0xFB && flush::DISCARD_NONWAKE == 0xFA,
        flush::DISCARD_STATUS == 0xF9,
{
}

/// The values in `bhi260::hif_control`.
pub proof fn hif_control_numbers()
    ensures
        hif_control::ABORT_CH0 == 0x01 && hif_control::ABORT_CH1 == 0x02 && hif_control::ABORT_CH2 == 0x04,
        hif_control::ABORT_CH3 == 0x08 && hif_control::AP_SUSPENDED == 0x10,
        hif_control::TIMESTAMP_EVENT_REQUEST == 0x40 && hif_control::ASYNC_STATUS_CHANNEL == 0x80,
{
}

/// The values in `bhi260::host_status`.
pub proof fn host_status_numbers()
    ensures
        host_status::POWER_STATE_SLEEPING == 0x01 && host_status::HOST_PROTOCOL_SPI == 0x02,
{
}

/// The values in `bhi260::int_status`.
pub proof fn int_status_numbers()
    ensures
        int_status::HOST_IRQ_ASSERTED == 0x01 && int_status::WAKE_FIFO_SHIFT == 1,
        int_status::NONWAKE_FIFO_SHIFT == 3 && int_status::FIFO_FIELD_MASK == 0b11 && int_status::STATUS == 0x20,
        int_status::DEBUG == 0x40 && int_status::RESET_OR_FAULT == 0x80 && int_status::ANY_DATA == 0b0111_1110,
{
}

/// The values in `bhi260::irq_control`.
pub proof fn irq_control_numbers()
    ensures
        irq_control::MASK_WAKE_FIFO == 0x01 && irq_control::MASK_NONWAKE_FIFO == 0x02,
        irq_control::MASK_STATUS_AVAILABLE == 0x04 && irq_control::MASK_DEBUG_AVAILABLE == 0x08,
        irq_control::MASK_FAULT == 0x10 && irq_control::ACTIVE_LOW == 0x20 && irq_control::EDGE == 0x40,
        irq_control::OPEN_DRAIN == 0x80,
{
}

/// The values in `bhi260::meta`.
pub proof fn meta_numbers()
    ensures
        meta::FLUSH_COMPLETE == 1 && meta::SAMPLE_RATE_CHANGED == 2 && meta::POWER_MODE_CHANGED == 3,
        meta::SYSTEM_ERROR == 4 && meta::ALGORITHM_EVENTS == 5 && meta::SENSOR_STATUS == 6,
        meta::SENSOR_ERROR == 11 && meta::FIFO_OVERFLOW == 12 && meta::DYNAMIC_RANGE_CHANGED == 13,
        meta::FIFO_WATERMARK == 14 && meta::INITIALIZED == 16 && meta::TRANSFER_CAUSE == 17,
        meta::SW_FRAMEWORK == 18 && meta::RESET == 19 && meta::SPACER == 20,
{
}

/// The values in `bhi260`.
pub proof fn numbers()
    ensures
        bhi260::ADDR == 0x28 && bhi260::PRODUCT_ID == 0x89 && bhi260::ROM_VERSION == 0x142E,
        bhi260::UPLOAD_CHUNK == 256 && bhi260::MAX_PARAM_BYTES == 68 && bhi260::STATUS_SPINS == 500,
{
}

/// The values in `bhi260::param`.
pub proof fn param_numbers()
    ensures
        param::META_EVENT_CTRL_NONWAKE == 0x0101 && param::META_EVENT_CTRL_WAKE == 0x0102,
        param::FIFO_CONTROL == 0x0103 && param::FIRMWARE_VERSION == 0x0104 && param::TIMESTAMPS == 0x0105,
        param::FRAMEWORK_STATUS == 0x0106 && param::VIRT_SENSORS_PRESENT == 0x011F,
        param::PHYS_SENSORS_PRESENT == 0x0120 && param::PHYS_SENSOR_INFO_BASE == 0x0120,
        param::BSX_CALIB_ACCEL == 0x0201 && param::BSX_CALIB_GYRO == 0x0203 && param::BSX_CALIB_MAG == 0x0205,
        param::BSX_SIC_MATRIX == 0x027D && param::BSX_VERSION == 0x027E,
        param::VIRT_SENSOR_INFO_BASE == 0x0300 && param::VIRT_SENSOR_CONF_BASE == 0x0500,
{
}

/// The values in `bhi260::phys`.
pub proof fn phys_numbers()
    ensures
        phys::ACCEL == 1 && phys::GYRO == 3 && phys::MAG == 5 && phys::TEMP_GYRO == 7 && phys::ANY_MOTION == 9,
        phys::PRESSURE == 11 && phys::POSITION == 13 && phys::HUMIDITY == 15 && phys::TEMPERATURE == 17,
        phys::GAS_RESISTOR == 19 && phys::STEP_COUNTER == 32 && phys::STEP_DETECTOR == 33,
        phys::SIGNIFICANT_MOTION == 34 && phys::PHYS_ANY_MOTION == 35 && phys::EXT_CAMERA_INPUT == 36,
        phys::GPS == 48 && phys::LIGHT == 49 && phys::PROXIMITY == 50,
{
}

/// Register numbers.
pub proof fn reg_numbers()
    ensures
        reg::CHANNEL_CMD == 0x00 && reg::CHANNEL_WAKE_FIFO == 0x01 && reg::CHANNEL_NONWAKE_FIFO == 0x02,
        reg::CHANNEL_STATUS_FIFO == 0x03 && reg::CHIP_CONTROL == 0x05 && reg::HOST_INTERFACE_CTRL == 0x06,
        reg::HOST_INTERRUPT_CTRL == 0x07 && reg::RESET_REQUEST == 0x14 && reg::TIMESTAMP_EVENT_REQUEST == 0x15,
        reg::HOST_CONTROL == 0x16 && reg::HOST_STATUS == 0x17 && reg::HOST_CRC == 0x18,
        reg::PRODUCT_ID == 0x1C && reg::REVISION_ID == 0x1D && reg::ROM_VERSION == 0x1E,
        reg::KERNEL_VERSION == 0x20 && reg::USER_VERSION == 0x22 && reg::FEATURE_STATUS == 0x24,
        reg::BOOT_STATUS == 0x25 && reg::HOST_INTERRUPT_TIMESTAMP == 0x26 && reg::CHIP_ID == 0x2B,
        reg::INTERRUPT_STATUS == 0x2D && reg::ERROR_VALUE == 0x2E && reg::ERROR_AUX == 0x2F,
        reg::DEBUG_VALUE == 0x30 && reg::DEBUG_STATE == 0x31,
{
}

/// The values in `bhi260::status`.
pub proof fn status_numbers()
    ensures
        status::CRASH_DUMP == 0x0003 && status::INJECTED_SENSOR_CONFIG_REQUEST == 0x0004,
        status::SOFT_PASSTHROUGH_RESULTS == 0x0005 && status::SELF_TEST_RESULTS == 0x0006,
        status::FOC_RESULTS == 0x0007 && status::FLASH_ERASE_COMPLETE == 0x000A,
        status::FLASH_WRITE_COMPLETE == 0x000B && status::TIMESTAMP_EVENT == 0x000D,
        status::COMMAND_ERROR == 0x000F,
{
}

} // verus!
