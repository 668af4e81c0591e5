//! The wrist pose, and the plain motion sensor behind the front end.

use vstd::prelude::*;
use crate::bus::Session;
use crate::chip::{read_gives_the_register, written_register_is_held, Registers};
use crate::imu::qmi_imu::{boot, entering, exiting, polling, sleep_setting, testing};
use crate::imu::wear::{intent_of, Sample};
use crate::imu::{BootStep, Qmi, QmiPhase, SelfTestKind, Wear, WearCalibration, WristIntent};
use crate::laws::chip::{program_is_held, programmed, put};
use crate::laws::qmi8658::{
    ctrl9_handshake, initialised_sensor, rate_is_replaced, switched_bits, wake_event_by_bit, wake_on_motion_is_loaded,
};
use crate::qmi8658;
use crate::qmi8658::{initialising, rate_change, switching, wom_check, wom_config, wom_high, writing, Config, Odr};

verus! {

// ---- Pose -------------------------------------------------------------------

/// The component of a sample along the viewing axis.
pub open spec fn component(cal: WearCalibration, a: Sample) -> int {
    cal.axis[0] * a.x + cal.axis[1] * a.y + cal.axis[2] * a.z
}

/// One sample, by its component along the axis: at or above the entry
/// threshold it speaks for the cone; otherwise, at or below the exit
/// threshold, against it; otherwise it changes nothing. Eleven in a row
/// against the pose are counted, the twelfth turns it.
pub proof fn sample_by_component(w: Wear, a: Sample)
    requires
        w.valid(),
    ensures
        ({
            let c = component(w.cal, a);
            let inside = c >= w.cal.enter_lsb;
            let outside = !inside && c <= w.cal.exit_lsb;
            let t = w.fed(a);
            &&& !inside && !outside ==> t == w
            &&& inside && w.in_view || outside && !w.in_view ==> t == (Wear { streak: 0, ..w })
            &&& (inside && !w.in_view || outside && w.in_view) && w.streak < 11 ==> t == (Wear {
                streak: w.streak + 1,
                ..w
            })
            &&& inside && !w.in_view && w.streak == 11 ==> t == (Wear {
                cal: w.cal,
                in_view: true,
                streak: 0,
                pending: Some(WristIntent::Raised),
            })
            &&& outside && w.in_view && w.streak == 11 ==> t == (Wear {
                cal: w.cal,
                in_view: false,
                streak: 0,
                pending: Some(WristIntent::Lowered),
            })
        }),
{
}

/// Twelve samples in the cone in a row raise a settled lowered wrist, and
/// fewer do not.
pub proof fn twelve_samples_raise(w: Wear, samples: Seq<Sample>)
    requires
        w.streak == 0,
        !w.in_view,
        samples.len() <= 12,
        forall|i: int| 0 <= i < samples.len() ==> component(w.cal, #[trigger] samples[i]) >= w.cal.enter_lsb,
    ensures
        samples.len() < 12 ==> w.fed_all(samples) == (Wear { streak: samples.len() as int, ..w }),
        samples.len() == 12 ==> w.fed_all(samples).in_view && w.fed_all(samples).pending == Some(WristIntent::Raised),
    decreases samples.len(),
{
    if samples.len() > 0 {
        assert forall|i: int| 0 <= i < samples.drop_last().len() implies component(
            w.cal,
            #[trigger] samples.drop_last()[i],
        ) >= w.cal.enter_lsb by {
            assert(samples.drop_last()[i] == samples[i]);
        }
        twelve_samples_raise(w, samples.drop_last());
        assert(component(w.cal, samples[samples.len() - 1]) >= w.cal.enter_lsb);
        sample_by_component(w.fed_all(samples.drop_last()), samples.last());
    }
}

/// Twelve samples outside the cone in a row lower a settled raised wrist,
/// and fewer do not.
pub proof fn twelve_samples_lower(w: Wear, samples: Seq<Sample>)
    requires
        w.streak == 0,
        w.in_view,
        samples.len() <= 12,
        w.cal.exit_lsb < w.cal.enter_lsb,
        forall|i: int| 0 <= i < samples.len() ==> component(w.cal, #[trigger] samples[i]) <= w.cal.exit_lsb,
    ensures
        samples.len() < 12 ==> w.fed_all(samples) == (Wear { streak: samples.len() as int, ..w }),
        samples.len() == 12 ==> !w.fed_all(samples).in_view && w.fed_all(samples).pending == Some(WristIntent::Lowered),
    decreases samples.len(),
{
    if samples.len() > 0 {
        assert forall|i: int| 0 <= i < samples.drop_last().len() implies component(
            w.cal,
            #[trigger] samples.drop_last()[i],
        ) <= w.cal.exit_lsb by {
            assert(samples.drop_last()[i] == samples[i]);
        }
        twelve_samples_lower(w, samples.drop_last());
        assert(component(w.cal, samples[samples.len() - 1]) <= w.cal.exit_lsb);
        sample_by_component(w.fed_all(samples.drop_last()), samples.last());
    }
}

/// A settled pose has its own intent, and a pose forgotten is lowered with
/// nothing pending.
pub proof fn intents_by_side(cal: WearCalibration)
    ensures
        intent_of(true) is Raised && intent_of(false) is Lowered,
        !Wear::fresh(cal).in_view && Wear::fresh(cal).streak == 0 && Wear::fresh(cal).pending is None,
        Wear::fresh(cal).cal == cal,
{
}

// ---- The plain motion sensor ------------------------------------------------

/// The standard configuration on a chip: 8 g (code 2) and 256 dps (code 4)
/// at 125 Hz (code 6), the gyroscope's filter in mode 1 and the
/// accelerometer's off.
pub proof fn standard_configuration(regs: Registers, addr: u8, s: Session)
    requires
        regs.answers(addr, initialising(s, addr, Config::standard()).0),
        regs.now(addr, s).at(0) == 5,
    ensures
        initialising(s, addr, Config::standard()).1 is Ok,
        ({
            let now = regs.now(addr, initialising(s, addr, Config::standard()).0);
            &&& now.at(0x02) == 0x60
            &&& now.at(0x03) == 0x26
            &&& now.at(0x04) == 0x46
            &&& now.at(0x06) == 0x30
            &&& now.at(0x08) == 0x03
            &&& now.at(0x09) == 0x80
        }),
{
    initialised_sensor(regs, addr, s, Config::standard());
    crate::laws::qmi8658::filters_by_bit(Config::standard().gyro_lpf, Config::standard().accel_lpf);
}

/// The bring-up, step by step: B0h to register 60h and 20 ms; then, on a
/// chip that answers as 5, the configuration and 250 ms, on any other a
/// failure; then the bias, whatever comes of it.
pub proof fn sensor_bring_up(regs: Registers, s: Session, q: Qmi)
    requires
        !s.stalled(),
        regs.answers(q.addr, boot(s, q).0),
    ensures
        q.phase is Reset ==> boot(s, q).0.sent == s.sent.push(put(q.addr, 0x60, 0xB0)) && boot(s, q).1 == (Qmi {
            phase: QmiPhase::Init,
            ..q
        }) && boot(s, q).2 == (BootStep::Pending { delay_ms: 20 }),
        q.phase is Init && initialising(s, q.addr, Config::standard()).1 is Ok ==> boot(s, q).1 == (Qmi {
            phase: QmiPhase::Bias,
            ..q
        }) && boot(s, q).2 == (BootStep::Pending { delay_ms: 250 }),
        q.phase is Init && initialising(s, q.addr, Config::standard()).1 is Err ==> boot(s, q).1 == (Qmi {
            phase: QmiPhase::Failed("QMI8658 not found"),
            ..q
        }) && boot(s, q).2 == BootStep::Failed("QMI8658 not found"),
        q.phase is Bias ==> boot(s, q).1.phase is Ready && boot(s, q).2 is Ready && boot(s, q).1.addr == q.addr && boot(
            s,
            q,
        ).1.st == q.st,
        q.phase is Bias && qmi8658::estimating(s, q.addr, 64).1 is Ok ==> boot(s, q).1.bias == qmi8658::estimating(
            s,
            q.addr,
            64,
        ).1->Ok_0,
        q.phase is Bias && qmi8658::estimating(s, q.addr, 64).1 is Err ==> boot(s, q).1.bias == q.bias,
{
}

/// Asleep, the chip has its accelerometer alone on, at 31.25 Hz, and wakes
/// on 80 mg, on pin 1, after 63 samples.
#[verifier::rlimit(40)]
pub proof fn sensor_asleep(regs: Registers, addr: u8, s: Session)
    requires
        !s.stalled(),
        regs.answers(addr, entering(s, addr)),
        regs.now(addr, s).at(0x2D) & 0x80 != 0,
    ensures
        ({
            let now = regs.now(addr, entering(s, addr));
            &&& now.at(0x08) == 1
            &&& now.at(0x03) as int % 16 == 8
            &&& now.at(0x0B) == 80
            &&& now.at(0x0C) == 63
        }),
{
    let t = entering(s, addr);
    crate::laws::numbers::qmi8658::ctrl7_numbers();
    let (s1, r1) = writing(s, addr, 0x08, 0x00);
    if r1 is Err {
        assert(t == s1);
        written_register_is_held(regs, addr, s, 0x08, 0);
    } else {
        let (s2, _) = rate_change(s1, addr, 0x03, Odr::Hz31_25);
        assert(wom_high(sleep_setting()) == 63) by {
            crate::laws::qmi8658::wake_register_by_bit(sleep_setting());
            crate::laws::qmi8658::modes_by_number(
                qmi8658::types::LpfMode::Mode0,
                qmi8658::types::FifoMode::Bypass,
                sleep_setting().interrupt,
            );
        }
        let (s3, r3) = wom_config(s2, addr, 80, 63);
        let (s4, r4) = switching(s3, addr, 0x08, 1, true);
        if r3 is Err {
            assert(t == s3);
        } else if r4 is Err {
            assert(t == s4);
        } else {
            assert(t == wom_check(s4, addr).0);
            assert(t == s4.read_reg(addr, 0x2F).0);
            read_gives_the_register(regs, addr, s4, 0x2F);
        }
        if r3 is Ok {
            switched_bits(regs, addr, s3, 0x08, 1, true);
            switch_is_answered(regs, addr, s3, 0x08, 1, true);
        }
        wake_on_motion_is_kept(regs, addr, s2, 80, 63);
        rate_is_answered(regs, addr, s1, 0x03, Odr::Hz31_25);
        rate_is_replaced(regs, addr, s1, 0x03, Odr::Hz31_25);
        written_register_is_held(regs, addr, s, 0x08, 0);
        wake_on_motion_is_loaded(regs, addr, s2, 80, 63);
        let v = regs.now(addr, s3).at(0x08);
        let x = regs.now(addr, s4).at(0x08);
        assert(v == 0 && x & 1 == 1 && x & !1u8 == v & !1u8 ==> x == 1) by (bit_vector);
    }
}

proof fn switch_is_answered(regs: Registers, addr: u8, s: Session, r: u8, mask: u8, on: bool)
    requires
        regs.answers(addr, switching(s, addr, r, mask, on).0),
    ensures
        regs.answers(addr, s),
{
    let (s1, e) = s.read_reg(addr, r);
    if e is Ok {
        let v = e->Ok_0;
        let val: u8 = if on { v | mask } else { v & !mask };
        assert(switching(s, addr, r, mask, on).0 == s1.write_reg(addr, r, val).0);
        written_register_is_held(regs, addr, s1, r, val);
    }
    read_gives_the_register(regs, addr, s, r);
}

proof fn rate_is_answered(regs: Registers, addr: u8, s: Session, r: u8, odr: Odr)
    requires
        regs.answers(addr, rate_change(s, addr, r, odr).0),
    ensures
        regs.answers(addr, s),
{
    let (s1, e) = s.read_reg(addr, r);
    if e is Ok {
        let val = (e->Ok_0 & 0xF0) | odr.code();
        assert(rate_change(s, addr, r, odr).0 == s1.write_reg(addr, r, val).0);
        written_register_is_held(regs, addr, s1, r, val);
    }
    read_gives_the_register(regs, addr, s, r);
}

/// A wake setting stands in 0Bh and 0Ch, and changes no other register but
/// the command register, which ends at 0.
pub proof fn wake_on_motion_is_kept(regs: Registers, addr: u8, s: Session, low: u8, high: u8)
    requires
        regs.answers(addr, wom_config(s, addr, low, high).0),
    ensures
        regs.answers(addr, s),
        regs.now(addr, s).at(0x2D) & 0x80 != 0 ==> ({
            let now = regs.now(addr, wom_config(s, addr, low, high).0);
            &&& now.at(0x0B) == low
            &&& now.at(0x0C) == high
            &&& now.at(0x0A) == 0
            &&& forall|r: int| r != 0x0A && r != 0x0B && r != 0x0C ==> #[trigger] now.at(r) == regs.now(addr, s).at(r)
        }),
{
    let t = wom_config(s, addr, low, high).0;
    let ops = seq![
        crate::bus::Op::Put { reg: 0x0B, val: low },
        crate::bus::Op::Put { reg: 0x0C, val: high },
    ];
    let (s1, e1) = s.run(addr, ops);
    if e1 is Err {
        assert(t == s1);
        program_is_held(regs, addr, s, ops);
    } else {
        assert(t == qmi8658::ctrl9(s1, addr, 8).0);
        crate::laws::qmi8658::handshake_is_answered(regs, addr, s1, 8);
        program_is_held(regs, addr, s, ops);
        reveal_with_fuel(programmed, 3);
        assert forall|r: int| #[trigger] regs.now(addr, s1).at(r) == (if r == 0x0B {
            low
        } else if r == 0x0C {
            high
        } else {
            regs.now(addr, s).at(r)
        }) by {
            assert(regs.now(addr, s1).at(r) == programmed(ops, r, regs.now(addr, s).at(r)));
        }
        if regs.now(addr, s).at(0x2D) & 0x80 != 0 {
            assert(regs.now(addr, s1).at(0x2D) == regs.now(addr, s).at(0x2D));
            ctrl9_handshake(regs, addr, s1, 8);
        }
    }
}

/// Awake again, the chip has no wake setting and the standard
/// configuration.
pub proof fn sensor_awake(regs: Registers, addr: u8, s: Session)
    requires
        !s.stalled(),
        regs.answers(addr, exiting(s, addr)),
        regs.now(addr, s).at(0x2D) & 0x80 != 0,
        regs.now(addr, s).at(0) == 5,
    ensures
        ({
            let now = regs.now(addr, exiting(s, addr));
            &&& now.at(0x03) == 0x26
            &&& now.at(0x04) == 0x46
            &&& now.at(0x06) == 0x30
            &&& now.at(0x08) == 0x03
        }),
{
    let (s1, _) = wom_check(s, addr);
    let (s2, _) = wom_config(s1, addr, 0, 0);
    let t = exiting(s, addr);
    assert(t == initialising(s2, addr, Config::standard()).0);
    crate::laws::qmi8658::start_is_answered(regs, addr, s2, Config::standard());
    wake_on_motion_is_kept(regs, addr, s1, 0, 0);
    wake_event_by_bit(regs, addr, s);
    read_gives_the_register(regs, addr, s, 0x2F);
    standard_configuration(regs, addr, s2);
}

/// A self-test waits through 25 polls with nothing on the bus; the next
/// one runs it and puts the standard configuration back.
pub proof fn sensor_test_waits(s: Session, q: Qmi, kind: SelfTestKind, n: u8)
    requires
        q.st == Some((kind, n)),
    ensures
        n < 25 ==> polling(s, q).0 == s && polling(s, q).1 == (Qmi { st: Some((kind, (n + 1) as u8)), ..q }) && polling(
            s,
            q,
        ).2 is Pending,
        n >= 25 ==> polling(s, q).1 == (Qmi { st: None, ..q }) && polling(s, q).2 !is Pending && (polling(s, q).0, polling(
            s,
            q,
        ).2) == testing(s, q.addr, kind),
        kind is Accel ==> testing(s, q.addr, kind).0 == initialising(
            qmi8658::accel_testing(s, q.addr).0,
            q.addr,
            Config::standard(),
        ).0,
        kind is Gyro ==> testing(s, q.addr, kind).0 == initialising(
            qmi8658::gyro_testing(s, q.addr).0,
            q.addr,
            Config::standard(),
        ).0,
{
}

} // verus!
