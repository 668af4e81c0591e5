//! The clock driver, run again on more replies.

use vstd::prelude::*;
use crate::bus::Session;
use crate::rtc;
use crate::rtc::types::Alarm;
use crate::rtc::types::DateTime;
use crate::rtc::types::OffsetMode;
use crate::rtc::types::TimerClock;
use crate::rtc::types::TimerOutput;
use crate::rerun::{rerun, rerunning};

verus! {

broadcast use rerunning;

/// [`rtc::reading`] can be run again.
pub broadcast proof fn reading_reruns(s: Session, t: Session, addr: u8, r: u8)
    ensures
        #![trigger rtc::reading(s, addr, r), rtc::reading(t, addr, r)]
        rerun(s, rtc::reading(s, addr, r), t, rtc::reading(t, addr, r)),
{
}

/// [`rtc::writing`] can be run again.
pub broadcast proof fn writing_reruns(s: Session, t: Session, addr: u8, r: u8, val: u8)
    ensures
        #![trigger rtc::writing(s, addr, r, val), rtc::writing(t, addr, r, val)]
        rerun(s, rtc::writing(s, addr, r, val), t, rtc::writing(t, addr, r, val)),
{
}

/// [`rtc::ctrl2_change`] can be run again.
pub broadcast proof fn ctrl2_change_reruns(s: Session, t: Session, addr: u8, f: spec_fn(u8) -> u8)
    ensures
        #![trigger rtc::ctrl2_change(s, addr, f), rtc::ctrl2_change(t, addr, f)]
        rerun(s, rtc::ctrl2_change(s, addr, f), t, rtc::ctrl2_change(t, addr, f)),
{
    broadcast use {reading_reruns, writing_reruns};

}

/// [`rtc::testing`] can be run again.
pub broadcast proof fn testing_reruns(s: Session, t: Session, addr: u8, r: u8, mask: u8)
    ensures
        #![trigger rtc::testing(s, addr, r, mask), rtc::testing(t, addr, r, mask)]
        rerun(s, rtc::testing(s, addr, r, mask), t, rtc::testing(t, addr, r, mask)),
{
    broadcast use reading_reruns;

}

/// [`rtc::normal_mode_check`] can be run again.
pub broadcast proof fn normal_mode_check_reruns(s: Session, t: Session, addr: u8)
    ensures
        #![trigger rtc::normal_mode_check(s, addr), rtc::normal_mode_check(t, addr)]
        rerun(s, rtc::normal_mode_check(s, addr), t, rtc::normal_mode_check(t, addr)),
{
    broadcast use testing_reruns;

}

/// [`rtc::initialising`] can be run again.
pub broadcast proof fn initialising_reruns(s: Session, t: Session, addr: u8, stopped: bool)
    ensures
        #![trigger rtc::initialising(s, addr, stopped), rtc::initialising(t, addr, stopped)]
        rerun(s, rtc::initialising(s, addr, stopped), t, rtc::initialising(t, addr, stopped)),
{
    broadcast use {hygiene_reruns, reading_reruns, writing_reruns};

}

/// [`rtc::bringing_up`] can be run again.
pub broadcast proof fn bringing_up_reruns(s: Session, t: Session, addr: u8)
    ensures
        #![trigger rtc::bringing_up(s, addr), rtc::bringing_up(t, addr)]
        rerun(s, rtc::bringing_up(s, addr), t, rtc::bringing_up(t, addr)),
{
    broadcast use {initialising_reruns, testing_reruns};

}

/// [`rtc::hygiene`] can be run again.
pub broadcast proof fn hygiene_reruns(s: Session, t: Session, addr: u8, stopped: bool)
    ensures
        #![trigger rtc::hygiene(s, addr, stopped), rtc::hygiene(t, addr, stopped)]
        rerun(s, rtc::hygiene(s, addr, stopped), t, rtc::hygiene(t, addr, stopped)),
{
    broadcast use {reading_reruns, writing_reruns};

}

/// [`rtc::time_setting`] can be run again.
pub broadcast proof fn time_setting_reruns(s: Session, t: Session, addr: u8, dt: DateTime)
    ensures
        #![trigger rtc::time_setting(s, addr, dt), rtc::time_setting(t, addr, dt)]
        rerun(s, rtc::time_setting(s, addr, dt), t, rtc::time_setting(t, addr, dt)),
{
    broadcast use {reading_reruns, writing_reruns};

}

/// [`rtc::time_reading`] can be run again.
pub broadcast proof fn time_reading_reruns(s: Session, t: Session, addr: u8)
    ensures
        #![trigger rtc::time_reading(s, addr), rtc::time_reading(t, addr)]
        rerun(s, rtc::time_reading(s, addr), t, rtc::time_reading(t, addr)),
{
}

/// [`rtc::alarm_setting`] can be run again.
pub broadcast proof fn alarm_setting_reruns(s: Session, t: Session, addr: u8, a: Alarm)
    ensures
        #![trigger rtc::alarm_setting(s, addr, a), rtc::alarm_setting(t, addr, a)]
        rerun(s, rtc::alarm_setting(s, addr, a), t, rtc::alarm_setting(t, addr, a)),
{
    broadcast use ctrl2_change_reruns;

}

/// [`rtc::alarm_reading`] can be run again.
pub broadcast proof fn alarm_reading_reruns(s: Session, t: Session, addr: u8)
    ensures
        #![trigger rtc::alarm_reading(s, addr), rtc::alarm_reading(t, addr)]
        rerun(s, rtc::alarm_reading(s, addr), t, rtc::alarm_reading(t, addr)),
{
}

/// [`rtc::timer_setting`] can be run again.
pub broadcast proof fn timer_setting_reruns(
    s: Session,
    t: Session,
    addr: u8,
    value: u8,
    clock: TimerClock,
    output: TimerOutput,
)
    ensures
        #![trigger rtc::timer_setting(s, addr, value, clock, output),
            rtc::timer_setting(t, addr, value, clock, output)]
        rerun(
            s,
            rtc::timer_setting(s, addr, value, clock, output),
            t,
            rtc::timer_setting(t, addr, value, clock, output),
        ),
{
    broadcast use {ctrl2_change_reruns, writing_reruns};

}

/// [`rtc::offset_setting`] can be run again.
pub broadcast proof fn offset_setting_reruns(s: Session, t: Session, addr: u8, mode: OffsetMode, offset: i8)
    ensures
        #![trigger rtc::offset_setting(s, addr, mode, offset), rtc::offset_setting(t, addr, mode, offset)]
        rerun(s, rtc::offset_setting(s, addr, mode, offset), t, rtc::offset_setting(t, addr, mode, offset)),
{
    broadcast use {testing_reruns, writing_reruns};

}

} // verus!
