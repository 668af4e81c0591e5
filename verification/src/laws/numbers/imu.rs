//! The numbers of the motion front end.

use vstd::prelude::*;
use crate::imu::bhi260_imu;
use crate::imu::qmi_imu;
use crate::imu::wear;

verus! {

/// The values in `imu::bhi260_imu`.
pub proof fn bhi260_imu_numbers()
    ensures
        bhi260_imu::NORM_ACCEL_RANGE_G == 8 && bhi260_imu::NORM_GYRO_RANGE_DPS == 256,
        bhi260_imu::RATE_OFF == 0 && bhi260_imu::AWAKE_RATE_HZ == 0x41C8_0000,
        bhi260_imu::WOM_RATE_HZ == 0x41C8_0000 && bhi260_imu::STEP_RATE_HZ == 0x41C8_0000,
        bhi260_imu::REQ_ACCEL_RANGE_G == 8 && bhi260_imu::REQ_GYRO_RANGE_DPS == 250,
        bhi260_imu::BOOTLOADER_TRIES == 50 && bhi260_imu::VERIFY_TRIES == 100 && bhi260_imu::FW_BOOT_TRIES == 50,
        bhi260_imu::DISCOVER_TRIES == 20 && bhi260_imu::RANGE_TRIES == 20 && bhi260_imu::QUIESCE_POLLS == 200,
        bhi260_imu::EMPTY_POLLS == 200,
{
}

/// The values in `imu::qmi_imu`.
pub proof fn qmi_imu_numbers()
    ensures
        qmi_imu::QMI_WOM_THRESHOLD_MG == 80 && qmi_imu::QMI_WOM_BLANKING_SAMPLES == 63,
        qmi_imu::QMI_GYRO_BIAS_SAMPLES == 64 && qmi_imu::QMI_ST_SETTLE_POLLS == 25,
{
}

/// The values in `imu::wear`.
pub proof fn wear_numbers()
    ensures
        wear::WEAR_DWELL_SAMPLES == 12,
{
}

} // verus!
