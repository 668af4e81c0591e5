//! The plain motion-sensor driver, run again on more replies.

use vstd::prelude::*;
use crate::bus::Session;
use crate::qmi8658;
use crate::qmi8658::Config;
use crate::qmi8658::Odr;
use crate::rerun::{rerun, rerunning};

verus! {

broadcast use rerunning;

/// [`qmi8658::reading`] can be run again.
pub broadcast proof fn reading_reruns(s: Session, t: Session, addr: u8, r: u8)
    ensures
        #![trigger qmi8658::reading(s, addr, r), qmi8658::reading(t, addr, r)]
        rerun(s, qmi8658::reading(s, addr, r), t, qmi8658::reading(t, addr, r)),
{
}

/// [`qmi8658::writing`] can be run again.
pub broadcast proof fn writing_reruns(s: Session, t: Session, addr: u8, r: u8, val: u8)
    ensures
        #![trigger qmi8658::writing(s, addr, r, val), qmi8658::writing(t, addr, r, val)]
        rerun(s, qmi8658::writing(s, addr, r, val), t, qmi8658::writing(t, addr, r, val)),
{
}

/// [`qmi8658::updating`] can be run again.
pub broadcast proof fn updating_reruns(s: Session, t: Session, addr: u8, r: u8, clear: u8, set: u8)
    ensures
        #![trigger qmi8658::updating(s, addr, r, clear, set), qmi8658::updating(t, addr, r, clear, set)]
        rerun(s, qmi8658::updating(s, addr, r, clear, set), t, qmi8658::updating(t, addr, r, clear, set)),
{
}

/// [`qmi8658::switching`] can be run again.
pub broadcast proof fn switching_reruns(s: Session, t: Session, addr: u8, r: u8, mask: u8, on: bool)
    ensures
        #![trigger qmi8658::switching(s, addr, r, mask, on), qmi8658::switching(t, addr, r, mask, on)]
        rerun(s, qmi8658::switching(s, addr, r, mask, on), t, qmi8658::switching(t, addr, r, mask, on)),
{
    broadcast use {reading_reruns, writing_reruns};

}

/// [`qmi8658::polling`] can be run again.
pub broadcast proof fn polling_reruns(
    s: Session,
    t: Session,
    addr: u8,
    r: u8,
    mask: u8,
    want: bool,
    tries: nat,
)
    ensures
        #![trigger qmi8658::polling(s, addr, r, mask, want, tries),
            qmi8658::polling(t, addr, r, mask, want, tries)]
        rerun(
            s,
            qmi8658::polling(s, addr, r, mask, want, tries),
            t,
            qmi8658::polling(t, addr, r, mask, want, tries),
        ),
    decreases tries,
{
    broadcast use reading_reruns;

    if tries > 0 {
        polling_reruns(s.read_reg(addr, r).0, t.read_reg(addr, r).0, addr, r, mask, want, (tries - 1) as nat);
    }
}

/// [`qmi8658::ctrl9`] can be run again.
pub broadcast proof fn ctrl9_reruns(s: Session, t: Session, addr: u8, command: u8)
    ensures
        #![trigger qmi8658::ctrl9(s, addr, command), qmi8658::ctrl9(t, addr, command)]
        rerun(s, qmi8658::ctrl9(s, addr, command), t, qmi8658::ctrl9(t, addr, command)),
{
    broadcast use {polling_reruns, writing_reruns};

}

/// [`qmi8658::initialising`] can be run again.
pub broadcast proof fn initialising_reruns(s: Session, t: Session, addr: u8, config: Config)
    ensures
        #![trigger qmi8658::initialising(s, addr, config), qmi8658::initialising(t, addr, config)]
        rerun(s, qmi8658::initialising(s, addr, config), t, qmi8658::initialising(t, addr, config)),
{
    broadcast use {crate::rerun::programs_rerun, reading_reruns};

}

/// [`qmi8658::sampling`] can be run again.
pub broadcast proof fn sampling_reruns(s: Session, t: Session, addr: u8, bias: (i16, i16, i16))
    ensures
        #![trigger qmi8658::sampling(s, addr, bias), qmi8658::sampling(t, addr, bias)]
        rerun(s, qmi8658::sampling(s, addr, bias), t, qmi8658::sampling(t, addr, bias)),
{
}

/// [`qmi8658::summing`] can be run again.
pub broadcast proof fn summing_reruns(s: Session, t: Session, addr: u8, n: nat, x: int, y: int, z: int)
    ensures
        #![trigger qmi8658::summing(s, addr, n, x, y, z), qmi8658::summing(t, addr, n, x, y, z)]
        rerun(s, qmi8658::summing(s, addr, n, x, y, z), t, qmi8658::summing(t, addr, n, x, y, z)),
    decreases n,
{
    broadcast use polling_reruns;

    if n > 0 {
        let s1 = qmi8658::polling(
            s,
            addr,
            qmi8658::registers::STATUS0,
            qmi8658::registers::status0::GYRO_READY,
            true,
            qmi8658::READY_POLLS as nat,
        ).0;
        let t1 = qmi8658::polling(
            t,
            addr,
            qmi8658::registers::STATUS0,
            qmi8658::registers::status0::GYRO_READY,
            true,
            qmi8658::READY_POLLS as nat,
        ).0;
        let (s2, a) = s1.read_regs(addr, qmi8658::registers::GX_L, 6);
        let (t2, b) = t1.read_regs(addr, qmi8658::registers::GX_L, 6);
        if a is Ok {
            let v = a->Ok_0;
            summing_reruns(
                s2,
                t2,
                addr,
                (n - 1) as nat,
                x + qmi8658::axis(v, 0),
                y + qmi8658::axis(v, 2),
                z + qmi8658::axis(v, 4),
            );
        }
        if b is Ok {
            let v = b->Ok_0;
            summing_reruns(
                t2,
                t2,
                addr,
                (n - 1) as nat,
                x + qmi8658::axis(v, 0),
                y + qmi8658::axis(v, 2),
                z + qmi8658::axis(v, 4),
            );
        }
    }
}

/// [`qmi8658::estimating`] can be run again.
pub broadcast proof fn estimating_reruns(s: Session, t: Session, addr: u8, n: nat)
    ensures
        #![trigger qmi8658::estimating(s, addr, n), qmi8658::estimating(t, addr, n)]
        rerun(s, qmi8658::estimating(s, addr, n), t, qmi8658::estimating(t, addr, n)),
{
    broadcast use summing_reruns;

}

/// [`qmi8658::applying`] can be run again.
pub broadcast proof fn applying_reruns(
    s: Session,
    t: Session,
    addr: u8,
    dx: int,
    dy: int,
    dz: int,
    command: u8,
)
    ensures
        #![trigger qmi8658::applying(s, addr, dx, dy, dz, command),
            qmi8658::applying(t, addr, dx, dy, dz, command)]
        rerun(
            s,
            qmi8658::applying(s, addr, dx, dy, dz, command),
            t,
            qmi8658::applying(t, addr, dx, dy, dz, command),
        ),
{
    broadcast use {crate::rerun::programs_rerun, ctrl9_reruns};

}

/// [`qmi8658::testing`] can be run again.
pub broadcast proof fn testing_reruns(s: Session, t: Session, addr: u8, ctrl: u8)
    ensures
        #![trigger qmi8658::testing(s, addr, ctrl), qmi8658::testing(t, addr, ctrl)]
        rerun(s, qmi8658::testing(s, addr, ctrl), t, qmi8658::testing(t, addr, ctrl)),
{
    broadcast use {reading_reruns, test_stages_reruns, writing_reruns};

}

/// [`qmi8658::test_stages`] can be run again.
pub broadcast proof fn test_stages_reruns(s: Session, t: Session, addr: u8, ctrl: u8, c: u8)
    ensures
        #![trigger qmi8658::test_stages(s, addr, ctrl, c), qmi8658::test_stages(t, addr, ctrl, c)]
        rerun(s, qmi8658::test_stages(s, addr, ctrl, c), t, qmi8658::test_stages(t, addr, ctrl, c)),
{
    broadcast use {polling_reruns, writing_reruns};

}

/// [`qmi8658::accel_testing`] can be run again.
pub broadcast proof fn accel_testing_reruns(s: Session, t: Session, addr: u8)
    ensures
        #![trigger qmi8658::accel_testing(s, addr), qmi8658::accel_testing(t, addr)]
        rerun(s, qmi8658::accel_testing(s, addr), t, qmi8658::accel_testing(t, addr)),
{
    broadcast use testing_reruns;

}

/// [`qmi8658::gyro_testing`] can be run again.
pub broadcast proof fn gyro_testing_reruns(s: Session, t: Session, addr: u8)
    ensures
        #![trigger qmi8658::gyro_testing(s, addr), qmi8658::gyro_testing(t, addr)]
        rerun(s, qmi8658::gyro_testing(s, addr), t, qmi8658::gyro_testing(t, addr)),
{
    broadcast use testing_reruns;

}

/// [`qmi8658::wom_config`] can be run again.
pub broadcast proof fn wom_config_reruns(s: Session, t: Session, addr: u8, low: u8, high: u8)
    ensures
        #![trigger qmi8658::wom_config(s, addr, low, high), qmi8658::wom_config(t, addr, low, high)]
        rerun(s, qmi8658::wom_config(s, addr, low, high), t, qmi8658::wom_config(t, addr, low, high)),
{
    broadcast use {crate::rerun::programs_rerun, ctrl9_reruns};

}

/// [`qmi8658::wom_check`] can be run again.
pub broadcast proof fn wom_check_reruns(s: Session, t: Session, addr: u8)
    ensures
        #![trigger qmi8658::wom_check(s, addr), qmi8658::wom_check(t, addr)]
        rerun(s, qmi8658::wom_check(s, addr), t, qmi8658::wom_check(t, addr)),
{
    broadcast use reading_reruns;

}

/// [`qmi8658::reading_pair`] can be run again.
pub broadcast proof fn reading_pair_reruns(s: Session, t: Session, addr: u8, r1: u8, r2: u8)
    ensures
        #![trigger qmi8658::reading_pair(s, addr, r1, r2), qmi8658::reading_pair(t, addr, r1, r2)]
        rerun(s, qmi8658::reading_pair(s, addr, r1, r2), t, qmi8658::reading_pair(t, addr, r1, r2)),
{
    broadcast use reading_reruns;

}

/// [`qmi8658::usid_reading`] can be run again.
pub broadcast proof fn usid_reading_reruns(s: Session, t: Session, addr: u8)
    ensures
        #![trigger qmi8658::usid_reading(s, addr), qmi8658::usid_reading(t, addr)]
        rerun(s, qmi8658::usid_reading(s, addr), t, qmi8658::usid_reading(t, addr)),
{
    broadcast use {ctrl9_reruns, reading_pair_reruns, reading_reruns};

}

/// [`qmi8658::rate_change`] can be run again.
pub broadcast proof fn rate_change_reruns(s: Session, t: Session, addr: u8, r: u8, odr: Odr)
    ensures
        #![trigger qmi8658::rate_change(s, addr, r, odr), qmi8658::rate_change(t, addr, r, odr)]
        rerun(s, qmi8658::rate_change(s, addr, r, odr), t, qmi8658::rate_change(t, addr, r, odr)),
{
    broadcast use {reading_reruns, writing_reruns};

}

} // verus!
