//! The power driver, run again on more replies.

use vstd::prelude::*;
use crate::bus::Session;
use crate::pmu;
use crate::rerun::{rerun, rerunning};

verus! {

broadcast use rerunning;

/// [`pmu::reading`] can be run again.
pub broadcast proof fn reading_reruns(s: Session, t: Session, addr: u8, r: u8)
    ensures
        #![trigger pmu::reading(s, addr, r), pmu::reading(t, addr, r)]
        rerun(s, pmu::reading(s, addr, r), t, pmu::reading(t, addr, r)),
{
}

/// [`pmu::writing`] can be run again.
pub broadcast proof fn writing_reruns(s: Session, t: Session, addr: u8, r: u8, val: u8)
    ensures
        #![trigger pmu::writing(s, addr, r, val), pmu::writing(t, addr, r, val)]
        rerun(s, pmu::writing(s, addr, r, val), t, pmu::writing(t, addr, r, val)),
{
}

/// [`pmu::updating`] can be run again.
pub broadcast proof fn updating_reruns(s: Session, t: Session, addr: u8, r: u8, clear: u8, set: u8)
    ensures
        #![trigger pmu::updating(s, addr, r, clear, set), pmu::updating(t, addr, r, clear, set)]
        rerun(s, pmu::updating(s, addr, r, clear, set), t, pmu::updating(t, addr, r, clear, set)),
{
}

/// [`pmu::switching`] can be run again.
pub broadcast proof fn switching_reruns(s: Session, t: Session, addr: u8, r: u8, mask: u8, on: bool)
    ensures
        #![trigger pmu::switching(s, addr, r, mask, on), pmu::switching(t, addr, r, mask, on)]
        rerun(s, pmu::switching(s, addr, r, mask, on), t, pmu::switching(t, addr, r, mask, on)),
{
    broadcast use updating_reruns;

}

/// [`pmu::decoding`] can be run again.
pub broadcast proof fn decoding_reruns<T>(s: Session, t: Session, addr: u8, r: u8, meaning: spec_fn(u8) -> T)
    ensures
        #![trigger pmu::decoding(s, addr, r, meaning), pmu::decoding(t, addr, r, meaning)]
        rerun(s, pmu::decoding(s, addr, r, meaning), t, pmu::decoding(t, addr, r, meaning)),
{
    broadcast use reading_reruns;

}

/// [`pmu::sampling`] can be run again.
pub broadcast proof fn sampling_reruns(s: Session, t: Session, addr: u8, high: u8, low: u8)
    ensures
        #![trigger pmu::sampling(s, addr, high, low), pmu::sampling(t, addr, high, low)]
        rerun(s, pmu::sampling(s, addr, high, low), t, pmu::sampling(t, addr, high, low)),
{
    broadcast use reading_reruns;

}

/// [`pmu::ldo_setting`] can be run again.
pub broadcast proof fn ldo_setting_reruns(s: Session, t: Session, addr: u8, r: u8, mv: u16)
    ensures
        #![trigger pmu::ldo_setting(s, addr, r, mv), pmu::ldo_setting(t, addr, r, mv)]
        rerun(s, pmu::ldo_setting(s, addr, r, mv), t, pmu::ldo_setting(t, addr, r, mv)),
{
    broadcast use writing_reruns;

}

/// [`pmu::device_check`] can be run again.
pub broadcast proof fn device_check_reruns(s: Session, t: Session, addr: u8)
    ensures
        #![trigger pmu::device_check(s, addr), pmu::device_check(t, addr)]
        rerun(s, pmu::device_check(s, addr), t, pmu::device_check(t, addr)),
{
    broadcast use reading_reruns;

}

/// [`pmu::monitor_setup`] can be run again.
pub broadcast proof fn monitor_setup_reruns(s: Session, t: Session, addr: u8)
    ensures
        #![trigger pmu::monitor_setup(s, addr), pmu::monitor_setup(t, addr)]
        rerun(s, pmu::monitor_setup(s, addr), t, pmu::monitor_setup(t, addr)),
{
    broadcast use switching_reruns;

}

/// [`pmu::boot_voltages`] can be run again.
pub broadcast proof fn boot_voltages_reruns(s: Session, t: Session, addr: u8)
    ensures
        #![trigger pmu::boot_voltages(s, addr), pmu::boot_voltages(t, addr)]
        rerun(s, pmu::boot_voltages(s, addr), t, pmu::boot_voltages(t, addr)),
{
    broadcast use ldo_setting_reruns;

}

/// [`pmu::initialising`] can be run again.
pub broadcast proof fn initialising_reruns(s: Session, t: Session, addr: u8)
    ensures
        #![trigger pmu::initialising(s, addr), pmu::initialising(t, addr)]
        rerun(s, pmu::initialising(s, addr), t, pmu::initialising(t, addr)),
{
    broadcast use {boot_voltages_reruns, device_check_reruns, monitor_setup_reruns, writing_reruns};

}

/// [`pmu::writing_three`] can be run again.
pub broadcast proof fn writing_three_reruns(
    s: Session,
    t: Session,
    addr: u8,
    a: (u8, u8),
    b: (u8, u8),
    c: (u8, u8),
)
    ensures
        #![trigger pmu::writing_three(s, addr, a, b, c), pmu::writing_three(t, addr, a, b, c)]
        rerun(s, pmu::writing_three(s, addr, a, b, c), t, pmu::writing_three(t, addr, a, b, c)),
{
    broadcast use writing_reruns;

}

/// [`pmu::interrupts_reading`] can be run again.
pub broadcast proof fn interrupts_reading_reruns(s: Session, t: Session, addr: u8)
    ensures
        #![trigger pmu::interrupts_reading(s, addr), pmu::interrupts_reading(t, addr)]
        rerun(s, pmu::interrupts_reading(s, addr), t, pmu::interrupts_reading(t, addr)),
{
    broadcast use reading_reruns;

}

} // verus!
