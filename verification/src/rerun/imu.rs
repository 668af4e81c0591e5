//! The motion sensors, run again on more replies.

use vstd::prelude::*;
use crate::bus::Session;
use crate::imu;
use crate::imu::Imu;
use crate::imu::SelfTestKind;
use crate::rerun::{paired, rerun, rerunning};

verus! {

broadcast use rerunning;

/// [`imu::boot`] can be run again.
pub broadcast proof fn boot_reruns(s: Session, t: Session, imu: Imu, firmware: Seq<u8>)
    ensures
        #![trigger imu::boot(s, imu, firmware), imu::boot(t, imu, firmware)]
        rerun(s, paired(imu::boot(s, imu, firmware)), t, paired(imu::boot(t, imu, firmware))),
{
    broadcast use {crate::rerun::hub::boot_reruns, crate::rerun::qmi_imu::boot_reruns};

}

/// [`imu::sampling`] can be run again.
pub broadcast proof fn sampling_reruns(s: Session, t: Session, imu: Imu)
    ensures
        #![trigger imu::sampling(s, imu), imu::sampling(t, imu)]
        rerun(s, paired(imu::sampling(s, imu)), t, paired(imu::sampling(t, imu))),
{
    broadcast use {crate::rerun::hub::sampling_reruns, crate::rerun::qmi8658::sampling_reruns};

}

/// [`imu::entering`] can be run again.
pub broadcast proof fn entering_reruns(s: Session, t: Session, imu: Imu)
    ensures
        #![trigger imu::entering(s, imu), imu::entering(t, imu)]
        rerun(s, imu::entering(s, imu), t, imu::entering(t, imu)),
{
    broadcast use {crate::rerun::hub::entering_reruns, crate::rerun::qmi_imu::entering_reruns};

}

/// [`imu::wom_checking`] can be run again.
pub broadcast proof fn wom_checking_reruns(s: Session, t: Session, imu: Imu)
    ensures
        #![trigger imu::wom_checking(s, imu), imu::wom_checking(t, imu)]
        rerun(s, paired(imu::wom_checking(s, imu)), t, paired(imu::wom_checking(t, imu))),
{
    broadcast use {crate::rerun::hub::wom_checking_reruns, crate::rerun::qmi8658::wom_check_reruns};

}

/// [`imu::exiting`] can be run again.
pub broadcast proof fn exiting_reruns(s: Session, t: Session, imu: Imu)
    ensures
        #![trigger imu::exiting(s, imu), imu::exiting(t, imu)]
        rerun(s, imu::exiting(s, imu), t, imu::exiting(t, imu)),
{
    broadcast use {crate::rerun::hub::exiting_reruns, crate::rerun::qmi_imu::exiting_reruns};

}

/// [`imu::test_starting`] can be run again.
pub broadcast proof fn test_starting_reruns(s: Session, t: Session, imu: Imu, kind: SelfTestKind)
    ensures
        #![trigger imu::test_starting(s, imu, kind), imu::test_starting(t, imu, kind)]
        rerun(s, paired(imu::test_starting(s, imu, kind)), t, paired(imu::test_starting(t, imu, kind))),
{
    broadcast use crate::rerun::hub::test_starting_reruns;

}

/// [`imu::polling`] can be run again.
pub broadcast proof fn polling_reruns(s: Session, t: Session, imu: Imu)
    ensures
        #![trigger imu::polling(s, imu), imu::polling(t, imu)]
        rerun(s, paired(imu::polling(s, imu)), t, paired(imu::polling(t, imu))),
{
    broadcast use {crate::rerun::hub::polling_reruns, crate::rerun::qmi_imu::polling_reruns};

}

/// [`imu::aborting`] can be run again.
pub broadcast proof fn aborting_reruns(s: Session, t: Session, imu: Imu)
    ensures
        #![trigger imu::aborting(s, imu), imu::aborting(t, imu)]
        rerun(s, imu::aborting(s, imu), t, imu::aborting(t, imu)),
{
    broadcast use crate::rerun::hub::aborting_reruns;

}

} // verus!
