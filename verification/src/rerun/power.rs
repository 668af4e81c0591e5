//! The power bring-up, run again on more replies.

use vstd::prelude::*;
use crate::bus::Session;
use crate::firmware::power;
use crate::rerun::{rerun, rerunning};

verus! {

broadcast use rerunning;

/// [`power::profile_setting`] can be run again.
pub broadcast proof fn profile_setting_reruns(s: Session, t: Session, addr: u8)
    ensures
        #![trigger power::profile_setting(s, addr), power::profile_setting(t, addr)]
        rerun(s, power::profile_setting(s, addr), t, power::profile_setting(t, addr)),
{
    broadcast use crate::rerun::pmu::updating_reruns;

}

/// [`power::profile_reading`] can be run again.
pub broadcast proof fn profile_reading_reruns(s: Session, t: Session, addr: u8)
    ensures
        #![trigger power::profile_reading(s, addr), power::profile_reading(t, addr)]
        rerun(s, power::profile_reading(s, addr), t, power::profile_reading(t, addr)),
{
    broadcast use crate::rerun::pmu::reading_reruns;

}

/// [`power::power_setup`] can be run again.
pub broadcast proof fn power_setup_reruns(s: Session, t: Session)
    ensures
        #![trigger power::power_setup(s), power::power_setup(t)]
        rerun(s, power::power_setup(s), t, power::power_setup(t)),
{
    broadcast use {
        crate::rerun::pmu::initialising_reruns,
        profile_reading_reruns,
        profile_setting_reruns,
    };

}

/// [`power::c6_setup`] can be run again.
pub broadcast proof fn c6_setup_reruns(s: Session, t: Session)
    ensures
        #![trigger power::c6_setup(s), power::c6_setup(t)]
        rerun(s, power::c6_setup(s), t, power::c6_setup(t)),
{
    broadcast use {
        crate::rerun::pmu::device_check_reruns,
        crate::rerun::pmu::monitor_setup_reruns,
        crate::rerun::pmu::writing_reruns,
        profile_reading_reruns,
        profile_setting_reruns,
    };

}

} // verus!
