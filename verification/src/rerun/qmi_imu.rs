//! The plain motion sensor behind the common interface, run again on more replies.

use vstd::prelude::*;
use crate::bus::Session;
use crate::imu::qmi_imu;
use crate::imu::Qmi;
use crate::imu::SelfTestKind;
use crate::rerun::{paired, rerun, rerunning};

verus! {

broadcast use rerunning;

/// [`qmi_imu::boot`] can be run again.
pub broadcast proof fn boot_reruns(s: Session, t: Session, q: Qmi)
    ensures
        #![trigger qmi_imu::boot(s, q), qmi_imu::boot(t, q)]
        rerun(s, paired(qmi_imu::boot(s, q)), t, paired(qmi_imu::boot(t, q))),
{
    broadcast use {
        crate::rerun::qmi8658::estimating_reruns,
        crate::rerun::qmi8658::initialising_reruns,
        crate::rerun::qmi8658::reading_pair_reruns,
        crate::rerun::qmi8658::writing_reruns,
    };

}

/// [`qmi_imu::entering`] can be run again.
pub broadcast proof fn entering_reruns(s: Session, t: Session, addr: u8)
    ensures
        #![trigger qmi_imu::entering(s, addr), qmi_imu::entering(t, addr)]
        rerun(s, (qmi_imu::entering(s, addr), ()), t, (qmi_imu::entering(t, addr), ())),
{
    broadcast use {
        crate::rerun::qmi8658::rate_change_reruns,
        crate::rerun::qmi8658::switching_reruns,
        crate::rerun::qmi8658::wom_check_reruns,
        crate::rerun::qmi8658::wom_config_reruns,
        crate::rerun::qmi8658::writing_reruns,
    };

}

/// [`qmi_imu::exiting`] can be run again.
pub broadcast proof fn exiting_reruns(s: Session, t: Session, addr: u8)
    ensures
        #![trigger qmi_imu::exiting(s, addr), qmi_imu::exiting(t, addr)]
        rerun(s, (qmi_imu::exiting(s, addr), ()), t, (qmi_imu::exiting(t, addr), ())),
{
    broadcast use {
        crate::rerun::qmi8658::initialising_reruns,
        crate::rerun::qmi8658::wom_check_reruns,
        crate::rerun::qmi8658::wom_config_reruns,
    };

}

/// [`qmi_imu::testing`] can be run again.
pub broadcast proof fn testing_reruns(s: Session, t: Session, addr: u8, kind: SelfTestKind)
    ensures
        #![trigger qmi_imu::testing(s, addr, kind), qmi_imu::testing(t, addr, kind)]
        rerun(s, qmi_imu::testing(s, addr, kind), t, qmi_imu::testing(t, addr, kind)),
{
    broadcast use {
        crate::rerun::qmi8658::accel_testing_reruns,
        crate::rerun::qmi8658::gyro_testing_reruns,
        crate::rerun::qmi8658::initialising_reruns,
    };

}

/// [`qmi_imu::polling`] can be run again.
pub broadcast proof fn polling_reruns(s: Session, t: Session, q: Qmi)
    ensures
        #![trigger qmi_imu::polling(s, q), qmi_imu::polling(t, q)]
        rerun(s, paired(qmi_imu::polling(s, q)), t, paired(qmi_imu::polling(t, q))),
{
    broadcast use testing_reruns;

}

} // verus!
