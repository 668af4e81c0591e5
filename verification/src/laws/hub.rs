//! The sensor hub behind the motion front end.

use vstd::prelude::*;
use crate::bhi260;
use crate::bhi260::{commanding, fifo_reading, param_reading, present, sensor_config, status_check, suspending, Error};
use crate::bus::{Fault, Req, Session};
use crate::imu::bhi260_imu::{
    absorbed, acknowledging, arming, awaiting, clearing, concluding, configuring, configuring_each, draining,
    entering, exiting, offered, one_shot, quiescing, quieting, ranges_reading, rearming, rescaled, restoring,
    sampling, silencing, step_pick, stepping, streaming, tested_sensor, transient, wake_pending, wake_set, watching,
    Phase, StState,
};
use crate::imu::bhi260_imu;
use crate::imu::wear::Sample;
use crate::imu::{BootStep, Hub, ImuData, Progress, SelfTestKind, Wear};
use crate::laws::bhi260::{commands_on_the_wire, sensor_configuration};
use crate::laws::bits::bits_by_place;
use crate::laws::bytes::rounding_toward_zero;
use crate::laws::chip::{extends, extends_on, fault_free, get, put, requests_extend};
use crate::laws::fifo::signed16_at;
use crate::math::{magnitude, toward_zero};

verus! {

// ---- Samples ----------------------------------------------------------------

/// A sample is scaled by the ratio of the ranges, to less than one unit
/// toward zero, and held to 16 bits where that does not fit.
pub proof fn scaling(raw: i16, from: int, to: int)
    requires
        0 <= from,
        0 < to,
    ensures
        ({
            let v = rescaled(raw, from, to);
            &&& magnitude(raw * from) < to * 32767 ==> magnitude(raw * from - to * v) < to && (raw >= 0 ==> 0 <= v && to * v
                <= raw * from) && (raw <= 0 ==> v <= 0 && raw * from <= to * v)
            &&& raw * from >= to * 32767 ==> v == 32767
            &&& raw * from <= -to * 32768 ==> v == -32768
        }),
{
    let p = raw * from;
    let q = toward_zero(p, to);
    rounding_toward_zero(p, to);
    assert(raw >= 0 ==> p >= 0) by (nonlinear_arith)
        requires
            p == raw * from,
            0 <= from,
    ;
    assert(raw <= 0 ==> p <= 0) by (nonlinear_arith)
        requires
            p == raw * from,
            0 <= from,
    ;
    assert(p >= 0 ==> q >= 0) by (nonlinear_arith)
        requires
            0 < to,
            p >= 0 ==> p - to * q >= 0 && p - to * q < to,
    ;
    assert(p <= 0 ==> q <= 0) by (nonlinear_arith)
        requires
            0 < to,
            p <= 0 ==> p - to * q <= 0 && p - to * q > -to,
    ;
    assert(p >= to * 32767 ==> q >= 32767) by (nonlinear_arith)
        requires
            0 < to,
            p - to * q < to,
    ;
    assert(p <= -to * 32768 ==> q <= -32768) by (nonlinear_arith)
        requires
            0 < to,
            p - to * q > -to,
    ;
    assert(-to * 32767 < p && p < to * 32767 ==> -32767 <= q && q <= 32767) by (nonlinear_arith)
        requires
            0 < to,
            -to < p - to * q,
            p - to * q < to,
    ;
}

/// Event 1 is an acceleration, brought from its range to 8 g, and is fed to
/// the pose; event 10 a turn rate, brought to 256 dps; 52, 53, 136 and 139
/// are step totals. Each changes its own part of the sample, and no other
/// event changes anything.
pub proof fn events_by_number(h: Hub, id: u8, p: Seq<u8>, x: i16, y: i16, z: i16)
    requires
        p.len() >= 6,
        signed16_at(p, 0, x),
        signed16_at(p, 2, y),
        signed16_at(p, 4, z),
    ensures
        ({
            let t = absorbed(h, id, p);
            &&& id == 1 ==> ({
                let (ax, ay, az) = (
                    rescaled(x, h.accel_range, 8),
                    rescaled(y, h.accel_range, 8),
                    rescaled(z, h.accel_range, 8),
                );
                t == (Hub {
                    last: ImuData { accel_x: ax, accel_y: ay, accel_z: az, ..h.last },
                    wear: h.wear.fed(Sample { x: ax, y: ay, z: az }),
                    ..h
                })
            })
            &&& id == 10 ==> t == (Hub {
                last: ImuData {
                    gyro_x: rescaled(x, h.gyro_range, 256),
                    gyro_y: rescaled(y, h.gyro_range, 256),
                    gyro_z: rescaled(z, h.gyro_range, 256),
                    ..h.last
                },
                ..h
            })
            &&& id == 52 || id == 53 || id == 136 || id == 139 ==> t == (Hub {
                last: ImuData { steps: t.last.steps, ..h.last },
                ..h
            }) && (t.last.steps matches Some(n) && n == p[0] + 256 * p[1] + 65536 * p[2] + 16777216 * p[3])
            &&& id != 1 && id != 10 && id != 52 && id != 53 && id != 136 && id != 139 ==> t == h
        }),
{
}

/// Two hundred empty polls in a row, with no self-test running, bring the
/// sensors back; a poll with data, or a self-test, starts the count anew.
pub proof fn empty_polls_are_counted(s: Session, h: Hub, n: int)
    requires
        h.empty < 65535,
        0 <= n,
    ensures
        n > 0 || h.st is Some ==> watching(s, h, n) == (s, Hub { empty: 0, ..h }),
        n == 0 && h.st is None && h.empty < 199 ==> watching(s, h, n) == (s, Hub { empty: (h.empty + 1) as u16, ..h }),
        n == 0 && h.st is None && h.empty >= 199 ==> watching(s, h, n).1 == (Hub { empty: 0, ..h }),
{
}

// ---- Codes ------------------------------------------------------------------

/// Which error codes are benign, which sensors fire once, and where the
/// wake-up FIFO shows.
pub proof fn codes_by_number(code: u8, id: u8, st: u8)
    ensures
        transient(code) == (0x75 <= code <= 0x77),
        one_shot(id) == (id == 55 || id == 57 || id == 59 || id == 61),
        wake_pending(st) == (st as int / 2 % 4 != 0),
        tested_sensor(SelfTestKind::Accel) == 1 && tested_sensor(SelfTestKind::Gyro) == 3,
{
    bits_by_place(st);
}

proof fn offered_by_presence(map: Seq<u8>, ids: Seq<u8>, id: u8)
    ensures
        offered(map, ids).contains(id) == (ids.contains(id) && present(map, id)),
    decreases ids.len(),
{
    reveal_with_fuel(Seq::filter, 2);
    if ids.len() > 0 {
        let rest = ids.drop_last();
        offered_by_presence(map, rest, id);
        let before = offered(map, rest);
        let last = ids.last();
        assert(ids =~= rest.push(last));
        if present(map, last) {
            assert(offered(map, ids) == before.push(last));
            assert(before.push(last).contains(id) == (before.contains(id) || id == last)) by {
                if before.contains(id) {
                    let k = choose|k: int| 0 <= k < before.len() && before[k] == id;
                    assert(before.push(last)[k] == id);
                }
                if id == last {
                    assert(before.push(last)[before.len() as int] == id);
                }
            }
        } else {
            assert(offered(map, ids) == before);
        }
        assert(ids.contains(id) == (rest.contains(id) || id == last)) by {
            if rest.contains(id) {
                let k = choose|k: int| 0 <= k < rest.len() && rest[k] == id;
                assert(ids[k] == id);
            }
            if id == last {
                assert(ids[ids.len() - 1] == id);
            }
        }
    } else {
        assert(offered(map, ids) =~= Seq::empty());
    }
}

/// The wake sensors in use are those of 57, 67, 61, 59, 77 and 143 that the
/// firmware has; 55 stands in where it has none of them. The step counter
/// is 52, or else 136.
pub proof fn sensors_are_picked(map: Seq<u8>, id: u8)
    ensures
        ({
            let preferred = id == 57 || id == 67 || id == 61 || id == 59 || id == 77 || id == 143;
            let some = present(map, 57) || present(map, 67) || present(map, 61) || present(map, 59) || present(map, 77)
                || present(map, 143);
            wake_set(map).contains(id) == (preferred && present(map, id) || id == 55 && !some && present(map, 55))
        }),
        step_pick(map) == (if present(map, 52) {
            Some(52u8)
        } else if present(map, 136) {
            Some(136u8)
        } else {
            None
        }),
{
    let ids = bhi260_imu::WOM_PREFERRED@;
    assert(ids =~= seq![57u8, 67, 61, 59, 77, 143]);
    let own = offered(map, ids);
    assert(ids[0] == 57 && ids[1] == 67 && ids[2] == 61 && ids[3] == 59 && ids[4] == 77 && ids[5] == 143);
    offered_by_presence(map, ids, id);
    offered_by_presence(map, ids, 57);
    offered_by_presence(map, ids, 67);
    offered_by_presence(map, ids, 61);
    offered_by_presence(map, ids, 59);
    offered_by_presence(map, ids, 77);
    offered_by_presence(map, ids, 143);
    if own.len() > 0 {
        offered_by_presence(map, ids, own[0]);
        assert(own.contains(own[0]));
        assert(ids.contains(own[0]));
    }
    assert(seq![55u8].contains(id) == (id == 55)) by {
        assert(seq![55u8][0] == 55);
    }
    assert(seq![55u8][0] == 55);
}

// ---- Sensors on the wire ----------------------------------------------------

/// What a request sets: the sensor and its rate, where it is a sensor
/// configuration.
pub open spec fn setting_of(q: Req) -> Seq<(u8, int)> {
    match q {
        Req::Write { addr, out } => if out.len() == 13 && out[0] == 0 && out[1] + 256 * out[2] == 13 {
            seq![(out[5], out[6] + 256 * out[7] + 65536 * out[8] + 16777216 * out[9])]
        } else {
            Seq::empty()
        },
        _ => Seq::empty(),
    }
}

/// The sensor settings among the requests, in order.
pub open spec fn settings(sent: Seq<Req>) -> Seq<(u8, int)>
    decreases sent.len(),
{
    if sent.len() == 0 {
        Seq::empty()
    } else {
        settings(sent.drop_last()) + setting_of(sent.last())
    }
}

/// The sensors `ids` from the `i`-th on, at a rate.
pub open spec fn each_at(ids: Seq<u8>, i: int, rate: int) -> Seq<(u8, int)> {
    Seq::new((ids.len() - i) as nat, |k: int| (ids[i + k], rate))
}

/// The step counter, if there is one, at a rate.
pub open spec fn step_at(step: Option<u8>, rate: int) -> Seq<(u8, int)> {
    match step {
        Some(id) => seq![(id, rate)],
        None => Seq::empty(),
    }
}

/// 25 Hz as an IEEE 754 single.
pub open spec fn hz25() -> int {
    0x41C8_0000
}

proof fn setting_is_sent(s: Session, addr: u8, id: u8, rate: u32)
    requires
        !s.stalled(),
    ensures
        settings(sensor_config(s, addr, id, rate, 0).0.sent) == settings(s.sent).push((id, rate as int)),
        extends(s, sensor_config(s, addr, id, rate, 0).0),
{
    let t = sensor_config(s, addr, id, rate, 0).0;
    sensor_configuration(s, addr, id, rate, 0);
    let content = seq![id] + crate::bytes::bytes_le32(rate) + crate::bytes::bytes_le32(0).take(3);
    commands_on_the_wire(s, addr, 13, content);
    assert(t.sent.drop_last() =~= s.sent);
    assert(settings(t.sent) =~= settings(s.sent).push((id, rate as int)));
    requests_extend(s, t.sent.last());
}

/// Both streaming sensors, the accelerometer (1) first, then the gyroscope
/// (10), are set to the rate.
pub proof fn streams_are_set(s: Session, addr: u8, rate: u32)
    requires
        streaming(s, addr, rate).1 is Ok,
    ensures
        settings(streaming(s, addr, rate).0.sent) == settings(s.sent) + seq![(1u8, rate as int), (10u8, rate as int)],
{
    setting_is_sent(s, addr, 1, rate);
    let s1 = sensor_config(s, addr, 1, rate, 0).0;
    setting_is_sent(s1, addr, 10, rate);
    assert(settings(streaming(s, addr, rate).0.sent) =~= settings(s.sent) + seq![
        (1u8, rate as int),
        (10u8, rate as int),
    ]);
}

/// The sensors of a list are set to the rate one after the other.
pub proof fn each_is_set(s: Session, addr: u8, ids: Seq<u8>, i: int, rate: u32)
    requires
        0 <= i <= ids.len(),
        configuring(s, addr, ids, i, rate).1 is Ok,
    ensures
        settings(configuring(s, addr, ids, i, rate).0.sent) == settings(s.sent) + each_at(ids, i, rate as int),
    decreases ids.len() - i,
{
    if i < ids.len() {
        setting_is_sent(s, addr, ids[i], rate);
        let s1 = sensor_config(s, addr, ids[i], rate, 0).0;
        each_is_set(s1, addr, ids, i + 1, rate);
        assert(settings(s.sent).push((ids[i], rate as int)) + each_at(ids, i + 1, rate as int) =~= settings(s.sent)
            + each_at(ids, i, rate as int));
    } else {
        assert(settings(s.sent) + each_at(ids, i, rate as int) =~= settings(s.sent));
    }
}

proof fn step_is_set(s: Session, addr: u8, step: Option<u8>, rate: u32)
    requires
        stepping(s, addr, step, rate).1 is Ok,
    ensures
        settings(stepping(s, addr, step, rate).0.sent) == settings(s.sent) + step_at(step, rate as int),
{
    match step {
        Some(id) => {
            setting_is_sent(s, addr, id, rate);
            assert(settings(s.sent).push((id, rate as int)) =~= settings(s.sent) + seq![(id, rate as int)]);
        },
        None => {
            assert(settings(s.sent) + step_at(step, rate as int) =~= settings(s.sent));
        },
    }
}

/// For a self-test everything is turned off: the stream, the wake sensors,
/// the step counter.
pub proof fn everything_is_quieted(s: Session, h: Hub)
    requires
        quieting(s, h).1 is Ok,
    ensures
        settings(quieting(s, h).0.sent) == settings(s.sent) + seq![(1u8, 0int), (10u8, 0int)] + each_at(h.wake, 0, 0)
            + step_at(h.step, 0),
{
    let (s1, r1) = streaming(s, h.addr, 0);
    let (s2, r2) = configuring(s1, h.addr, h.wake, 0, 0);
    assert(r1 is Ok && r2 is Ok);
    streams_are_set(s, h.addr, 0);
    each_is_set(s1, h.addr, h.wake, 0, 0);
    step_is_set(s2, h.addr, h.step, 0);
}

proof fn other_requests_set_nothing(s: Session, q: Req)
    requires
        setting_of(q) == Seq::<(u8, int)>::empty(),
    ensures
        settings(s.after(q).sent) == settings(s.sent),
        extends(s, s.after(q)),
{
    requests_extend(s, q);
    if !s.stalled() {
        assert(s.sent.push(q).drop_last() =~= s.sent);
        assert(settings(s.sent) + Seq::<(u8, int)>::empty() =~= settings(s.sent));
    }
}

/// A check of the error register sets no sensor: it reads 2Eh, and writes 2
/// to 05h where that holds a code.
pub proof fn errors_are_acknowledged(s: Session, addr: u8)
    requires
        !s.stalled(),
    ensures
        settings(acknowledging(s, addr).sent) == settings(s.sent),
        extends(s, acknowledging(s, addr)),
        s.read_reg(addr, 0x2E).1 matches Ok(code) && code != 0 ==> acknowledging(s, addr).sent == s.sent.push(
            get(addr, 0x2E, 1),
        ).push(put(addr, 0x05, 2)),
        s.read_reg(addr, 0x2E).1 == Ok::<u8, Fault>(0) ==> acknowledging(s, addr).sent == s.sent.push(get(addr, 0x2E, 1)),
{
    let s1 = s.after(get(addr, 0x2E, 1));
    other_requests_set_nothing(s, get(addr, 0x2E, 1));
    other_requests_set_nothing(s1, put(addr, 0x05, 2));
    extends_on(s, s1, s1.after(put(addr, 0x05, 2)));
}

/// The running set comes back in order: wake sensors, step counter, stream,
/// all at 25 Hz.
pub proof fn everything_is_restored(s: Session, h: Hub)
    requires
        fault_free(s),
        !restoring(s, h).stalled(),
    ensures
        settings(restoring(s, h).sent) == settings(s.sent) + each_at(h.wake, 0, hz25()) + step_at(h.step, hz25()) + seq![
            (1u8, hz25()),
            (10u8, hz25()),
        ],
{
    let rate = 0x41C8_0000u32;
    let t = restoring(s, h);
    let (s1, r1) = configuring(s, h.addr, h.wake, 0, rate);
    configuring_fails_by_stalling(s, h.addr, h.wake, 0, rate);
    assert(r1 is Ok);
    each_is_set(s, h.addr, h.wake, 0, rate);
    let (s2, r2) = stepping(s1, h.addr, h.step, rate);
    configuring_keeps_replies(s, h.addr, h.wake, 0, rate);
    step_fails_by_stalling(s1, h.addr, h.step, rate);
    assert(r2 is Ok);
    step_is_set(s1, h.addr, h.step, rate);
    let (s3, r3) = streaming(s2, h.addr, rate);
    streams_fail_by_stalling(s2, h.addr, rate);
    assert(r3 is Ok);
    streams_are_set(s2, h.addr, rate);
    assert(t == acknowledging(s3, h.addr));
    if s3.stalled() {
        assert(t == s3);
    } else {
        errors_are_acknowledged(s3, h.addr);
    }
}

proof fn setting_fails_by_stalling(s: Session, addr: u8, id: u8, rate: u32)
    requires
        fault_free(s),
    ensures
        sensor_config(s, addr, id, rate, 0).1 is Err ==> sensor_config(s, addr, id, rate, 0).0.stalled(),
        sensor_config(s, addr, id, rate, 0).0.replies == s.replies,
        s.stalled() ==> sensor_config(s, addr, id, rate, 0).1 is Err && sensor_config(s, addr, id, rate, 0).0 == s,
{
    let content = seq![id] + crate::bytes::bytes_le32(rate) + crate::bytes::bytes_le32(0).take(3);
    assert(content.len() == 8);
}

proof fn configuring_fails_by_stalling(s: Session, addr: u8, ids: Seq<u8>, i: int, rate: u32)
    requires
        0 <= i <= ids.len(),
        fault_free(s),
    ensures
        configuring(s, addr, ids, i, rate).1 is Err ==> configuring(s, addr, ids, i, rate).0.stalled(),
    decreases ids.len() - i,
{
    if i < ids.len() {
        setting_fails_by_stalling(s, addr, ids[i], rate);
        let s1 = sensor_config(s, addr, ids[i], rate, 0).0;
        configuring_fails_by_stalling(s1, addr, ids, i + 1, rate);
    }
}

proof fn configuring_keeps_replies(s: Session, addr: u8, ids: Seq<u8>, i: int, rate: u32)
    requires
        0 <= i <= ids.len(),
        fault_free(s),
    ensures
        configuring(s, addr, ids, i, rate).0.replies == s.replies,
    decreases ids.len() - i,
{
    if i < ids.len() {
        setting_fails_by_stalling(s, addr, ids[i], rate);
        let s1 = sensor_config(s, addr, ids[i], rate, 0).0;
        configuring_keeps_replies(s1, addr, ids, i + 1, rate);
    }
}

proof fn step_fails_by_stalling(s: Session, addr: u8, step: Option<u8>, rate: u32)
    requires
        fault_free(s),
    ensures
        stepping(s, addr, step, rate).1 is Err ==> stepping(s, addr, step, rate).0.stalled(),
        stepping(s, addr, step, rate).0.replies == s.replies,
{
    if let Some(id) = step {
        setting_fails_by_stalling(s, addr, id, rate);
    }
}

proof fn streams_fail_by_stalling(s: Session, addr: u8, rate: u32)
    requires
        fault_free(s),
    ensures
        streaming(s, addr, rate).1 is Err ==> streaming(s, addr, rate).0.stalled(),
        streaming(s, addr, rate).0.replies == s.replies,
        s.stalled() ==> streaming(s, addr, rate).0.stalled(),
{
    setting_fails_by_stalling(s, addr, 1, rate);
    setting_fails_by_stalling(sensor_config(s, addr, 1, rate, 0).0, addr, 10, rate);
}

// ---- Wake-up events ---------------------------------------------------------

/// The sensors that are armed again among drained events: those that fire
/// once, in order.
pub open spec fn rearmed(events: Seq<(u8, Seq<u8>)>) -> Seq<(u8, int)>
    decreases events.len(),
{
    if events.len() == 0 {
        Seq::empty()
    } else {
        (if one_shot(events[0].0) { seq![(events[0].0, hz25())] } else { Seq::empty() }) + rearmed(events.skip(1))
    }
}

/// Every sensor that fires once and did is armed again at 25 Hz, in order.
pub proof fn fired_sensors_are_rearmed(s: Session, addr: u8, events: Seq<(u8, Seq<u8>)>, hit: Option<u8>)
    requires
        fault_free(s),
        !rearming(s, addr, events, hit).0.stalled(),
    ensures
        !s.stalled(),
        settings(rearming(s, addr, events, hit).0.sent) == settings(s.sent) + rearmed(events),
    decreases events.len(),
{
    if events.len() > 0 {
        let id = events[0].0;
        let rest = events.skip(1);
        crate::laws::fifo::sizes_by_id(id);
        if one_shot(id) {
            let s1 = sensor_config(s, addr, id, 0x41C8_0000, 0).0;
            setting_fails_by_stalling(s, addr, id, 0x41C8_0000);
            fired_sensors_are_rearmed(s1, addr, rest, Some(id));
            setting_is_sent(s, addr, id, 0x41C8_0000);
            assert(settings(s.sent).push((id, hz25())) + rearmed(rest) =~= settings(s.sent) + (seq![(id, hz25())] + rearmed(
                rest,
            )));
        } else {
            fired_sensors_are_rearmed(
                s,
                addr,
                rest,
                if crate::bhi260::fifo::is_occurrence(id) { Some(id) } else { hit },
            );
            assert(Seq::<(u8, int)>::empty() + rearmed(rest) =~= rearmed(rest));
        }
    } else {
        assert(settings(s.sent) + rearmed(events) =~= settings(s.sent));
    }
}

// ---- Sleep ------------------------------------------------------------------

/// Waking ends with the stream back on at 25 Hz.
pub proof fn waking_ends_with_the_stream(s: Session, h: Hub)
    requires
        fault_free(s),
        h.phase is Ready,
        !exiting(s, h).0.stalled(),
    ensures
        ({
            let all = settings(exiting(s, h).0.sent);
            &&& all.len() >= 2
            &&& all[all.len() - 2] == (1u8, hz25())
            &&& all[all.len() - 1] == (10u8, hz25())
        }),
{
    let rate = 0x41C8_0000u32;
    let s1 = suspending(s, h.addr, false).0;
    let s2 = configuring_each(s1, h.addr, h.wake, 0, rate);
    let s3 = draining(s2, h.addr).0;
    suspending_keeps_replies(s, h.addr, false);
    each_keeps_replies(s1, h.addr, h.wake, 0, rate);
    draining_keeps_replies(s2, h.addr);
    assert(exiting(s, h).0 == streaming(s3, h.addr, rate).0);
    streams_fail_by_stalling(s3, h.addr, rate);
    streams_are_set(s3, h.addr, rate);
}

proof fn suspending_keeps_replies(s: Session, addr: u8, on: bool)
    ensures
        suspending(s, addr, on).0.replies == s.replies,
{
}

proof fn each_keeps_replies(s: Session, addr: u8, ids: Seq<u8>, i: int, rate: u32)
    requires
        0 <= i <= ids.len(),
    ensures
        configuring_each(s, addr, ids, i, rate).replies == s.replies,
    decreases ids.len() - i,
{
    if i < ids.len() {
        each_keeps_replies(sensor_config(s, addr, ids[i], rate, 0).0, addr, ids, i + 1, rate);
    }
}

proof fn hub_draining_keeps_replies(s: Session, addr: u8, channel: u8, left: nat, step: nat)
    ensures
        bhi260::draining(s, addr, channel, left, step).0.replies == s.replies,
    decreases left,
{
    if left > 0 && step > 0 {
        let n = if left < step { left } else { step };
        hub_draining_keeps_replies(s.read_regs(addr, channel, n).0, addr, channel, (left - n) as nat, step);
    }
}

proof fn fifo_keeps_replies(s: Session, addr: u8, channel: u8, buf: Seq<u8>)
    ensures
        fifo_reading(s, addr, channel, buf).0.replies == s.replies,
{
    let (s1, r1) = s.read_regs(addr, channel, 2);
    if let Ok(h) = r1 {
        let total = crate::bytes::le16(h[0], h[1]);
        let used = if total < buf.len() { total } else { buf.len() as int };
        let s2 = s1.read_regs(addr, channel, used as nat).0;
        hub_draining_keeps_replies(s2, addr, channel, (total - used) as nat, 32);
    }
}

proof fn rearming_keeps_replies(s: Session, addr: u8, events: Seq<(u8, Seq<u8>)>, hit: Option<u8>)
    ensures
        rearming(s, addr, events, hit).0.replies == s.replies,
    decreases events.len(),
{
    if events.len() > 0 {
        let id = events[0].0;
        rearming_keeps_replies(s, addr, events.skip(1), hit);
        rearming_keeps_replies(s, addr, events.skip(1), Some(id));
        rearming_keeps_replies(sensor_config(s, addr, id, 0x41C8_0000, 0).0, addr, events.skip(1), Some(id));
    }
}

proof fn draining_keeps_replies(s: Session, addr: u8)
    ensures
        draining(s, addr).0.replies == s.replies,
{
    let (s1, r1) = bhi260::reading(s, addr, 0x2D);
    fifo_keeps_replies(s1, addr, 0x01, bhi260::zeros(128));
    let (s2, buf, r2) = fifo_reading(s1, addr, 0x01, bhi260::zeros(128));
    if let Ok(n) = r2 {
        rearming_keeps_replies(s2, addr, bhi260::fifo::events(buf.take(n as int)), None);
    }
}

/// Going to sleep first turns the stream off and drops both FIFOs, wake-up
/// (FBh) and other (FAh).
pub proof fn stream_is_silenced(s: Session, addr: u8)
    requires
        silencing(s, addr).1 is Ok,
    ensures
        ({
            let t = silencing(s, addr).0;
            &&& t.sent.len() == s.sent.len() + 4
            &&& settings(t.sent) == settings(s.sent) + seq![(1u8, 0int), (10u8, 0int)]
            &&& t.sent[t.sent.len() - 2] matches Req::Write { addr: a, out } && a == addr && crate::laws::bhi260::command_bytes(
                out,
                9,
                seq![0xFBu8, 0u8, 0u8, 0u8],
            )
            &&& t.sent[t.sent.len() - 1] matches Req::Write { addr: a, out } && a == addr && crate::laws::bhi260::command_bytes(
                out,
                9,
                seq![0xFAu8, 0u8, 0u8, 0u8],
            )
        }),
{
    let (s1, r1) = streaming(s, addr, 0);
    streams_are_set(s, addr, 0);
    sensor_configuration(s, addr, 1, 0, 0);
    let sa = sensor_config(s, addr, 1, 0, 0).0;
    sensor_configuration(sa, addr, 10, 0, 0);
    let wake = seq![0xFBu8, 0u8, 0u8, 0u8];
    let other = seq![0xFAu8, 0u8, 0u8, 0u8];
    let (s2, r2) = commanding(s1, addr, 9, wake);
    commands_on_the_wire(s1, addr, 9, wake);
    commands_on_the_wire(s2, addr, 9, other);
    let t = silencing(s, addr).0;
    assert(t == commanding(s2, addr, 9, other).0);
    assert(s2.sent == s1.sent.push(s2.sent.last()));
    assert(t.sent == s2.sent.push(t.sent.last()));
    assert(setting_of(s2.sent.last()) =~= Seq::empty());
    assert(setting_of(t.sent.last()) =~= Seq::empty());
    other_requests_set_nothing(s1, s2.sent.last());
    other_requests_set_nothing(s2, t.sent.last());
}

/// The wake sensors are armed one after the other at 25 Hz.
pub proof fn wake_sensors_are_armed(s: Session, addr: u8, ids: Seq<u8>, i: int)
    requires
        0 <= i <= ids.len(),
        !s.stalled(),
        arming(s, addr, ids, i).1,
        !arming(s, addr, ids, i).0.stalled(),
    ensures
        settings(arming(s, addr, ids, i).0.sent) == settings(s.sent) + each_at(ids, i, hz25()),
    decreases ids.len() - i,
{
    if i < ids.len() {
        setting_is_sent(s, addr, ids[i], 0x41C8_0000);
        let s1 = sensor_config(s, addr, ids[i], 0x41C8_0000, 0).0;
        errors_are_acknowledged(s1, addr);
        let s2 = acknowledging(s1, addr);
        if s2.stalled() {
            stalled_arming(s2, addr, ids, i + 1);
        }
        wake_sensors_are_armed(s2, addr, ids, i + 1);
        assert(settings(s.sent).push((ids[i], hz25())) + each_at(ids, i + 1, hz25()) =~= settings(s.sent) + each_at(
            ids,
            i,
            hz25(),
        ));
    } else {
        assert(settings(s.sent) + each_at(ids, i, hz25()) =~= settings(s.sent));
    }
}

proof fn stalled_arming(s: Session, addr: u8, ids: Seq<u8>, i: int)
    requires
        0 <= i <= ids.len(),
        s.stalled(),
    ensures
        arming(s, addr, ids, i).0.stalled(),
    decreases ids.len() - i,
{
    if i < ids.len() {
        let content = seq![ids[i]] + crate::bytes::bytes_le32(0x41C8_0000) + crate::bytes::bytes_le32(0).take(3);
        assert(content.len() == 8);
    }
}

/// Asleep, the hub knows it: the last thing on the bus sets bit 4 of 06h,
/// over what that register held.
pub proof fn sleep_ends_with_the_suspend_bit(s: Session, h: Hub)
    requires
        fault_free(s),
        h.phase is Ready,
        !entering(s, h).0.stalled(),
    ensures
        ({
            let sent = entering(s, h).0.sent;
            &&& sent.len() >= 2
            &&& sent[sent.len() - 2] == get(h.addr, 0x06, 1)
            &&& sent[sent.len() - 1] matches Req::Write { addr, out } && addr == h.addr && out.len() == 2 && out[0] == 6
                && out[1] as int / 16 % 2 == 1
        }),
{
    let (s1, r1) = silencing(s, h.addr);
    silencing_fails_by_stalling(s, h.addr);
    let (s2, armed) = arming(s1, h.addr, h.wake, 0);
    arming_fails_by_stalling(s1, h.addr, h.wake, 0);
    assert(r1 is Ok && armed);
    let s3 = draining(s2, h.addr).0;
    draining_keeps_replies(s2, h.addr);
    let t = entering(s, h).0;
    assert(t == suspending(s3, h.addr, true).0);
    let (s4, e) = s3.read_reg(h.addr, 6);
    assert(e is Ok);
    let v = e->Ok_0;
    crate::laws::bits::bits_are_changed(v, 0x10);
    bits_by_place(v | 0x10);
    assert(t.sent == s3.sent.push(get(h.addr, 6, 1)).push(put(h.addr, 6, v | 0x10)));
    assert(0x10u8 != 0);
}

proof fn silencing_fails_by_stalling(s: Session, addr: u8)
    requires
        fault_free(s),
    ensures
        silencing(s, addr).1 is Err ==> silencing(s, addr).0.stalled(),
        silencing(s, addr).0.replies == s.replies,
{
    streams_fail_by_stalling(s, addr, 0);
}

proof fn arming_fails_by_stalling(s: Session, addr: u8, ids: Seq<u8>, i: int)
    requires
        0 <= i <= ids.len(),
        fault_free(s),
    ensures
        !arming(s, addr, ids, i).1 ==> arming(s, addr, ids, i).0.stalled(),
        arming(s, addr, ids, i).0.replies == s.replies,
    decreases ids.len() - i,
{
    if i < ids.len() {
        setting_fails_by_stalling(s, addr, ids[i], 0x41C8_0000);
        let s1 = sensor_config(s, addr, ids[i], 0x41C8_0000, 0).0;
        arming_fails_by_stalling(acknowledging(s1, addr), addr, ids, i + 1);
    }
}

// ---- Self-test --------------------------------------------------------------

/// A self-test is asked for once the sensor reports power-down or suspend,
/// 1 or 2 in bits 7:5 of byte 6 of its information, and given up after 200
/// polls.
pub proof fn test_is_requested_when_idle(s: Session, h: Hub, kind: SelfTestKind, polls: u8)
    ensures
        ({
            let phys: u8 = if kind is Accel { 1 } else { 3 };
            let (s1, info, r) = param_reading(s, h.addr, (0x120 + phys) as u16, bhi260::zeros(20));
            let idle = (r matches Ok(n) && n >= 20) && (info[6] as int / 32 == 1 || info[6] as int / 32 == 2);
            let (t, h1, p) = quiescing(s, h, kind, polls);
            &&& idle && !clearing(s1, h.addr).stalled() && p is Pending ==> h1.st == Some(StState::Waiting { phys }) && (
            t.sent.last() matches Req::Write { addr, out } && addr == h.addr && crate::laws::bhi260::command_bytes(
                out,
                11,
                seq![phys, 0u8, 0u8, 0u8],
            ))
            &&& !idle && polls < 200 ==> t == s1 && p is Pending && h1.st == Some(
                StState::Quiesce { kind, polls: (polls + 1) as u8 },
            )
            &&& !idle && polls >= 200 ==> p is Error && h1.st is None
        }),
{
    let phys: u8 = if kind is Accel { 1 } else { 3 };
    let (s1, info, r) = param_reading(s, h.addr, (0x120 + phys) as u16, bhi260::zeros(20));
    bits_by_place(info[6]);
    if !clearing(s1, h.addr).stalled() {
        commands_on_the_wire(clearing(s1, h.addr), h.addr, 11, seq![phys, 0u8, 0u8, 0u8]);
    }
}

/// A result packet (6) of the right sensor ends the test: status 0 is a
/// pass, 1 to 7 a failure, each with three 16-bit values; more is an error.
/// One of another sensor is passed over.
pub proof fn results_by_number(s: Session, h: Hub, phys: u8, x: i16, y: i16, z: i16)
    requires
        ({
            let (s1, p, r) = status_check(s, h.addr, bhi260::zeros(12));
            &&& r matches Ok(Some(found)) && found.0 == 6
            &&& p.len() == 12
            &&& signed16_at(p, 2, x) && signed16_at(p, 4, y) && signed16_at(p, 6, z)
        }),
    ensures
        ({
            let p = status_check(s, h.addr, bhi260::zeros(12)).1;
            let (t, h1, r) = awaiting(s, h, phys);
            &&& p[0] != phys ==> r is Pending && h1 == h
            &&& p[0] == phys && p[1] < 8 ==> h1.st is None && (r matches Progress::Done { passed, values } && passed == (p[1]
                == 0) && values.len() == 3 && values[0] == x && values[1] == y && values[2] == z)
            &&& p[0] == phys && p[1] >= 8 ==> r is Error && h1.st is None
        }),
{
}

// ---- Bring-up ---------------------------------------------------------------

/// The place of a phase in the bring-up, counted from the reset.
pub open spec fn place(phase: Phase) -> int {
    match phase {
        Phase::Reset => 0,
        Phase::WaitBootloader { tries } => 1,
        Phase::StartUpload => 2,
        Phase::Upload { offset } => 3,
        Phase::WaitVerify { tries } => 4,
        Phase::Boot => 5,
        Phase::WaitFirmware { tries } => 6,
        Phase::DrainInit => 7,
        Phase::Discover { tries } => 8,
        Phase::Enable => 9,
        Phase::Recycle { enabled } => if enabled { 11 } else { 10 },
        Phase::ReadRanges { tries } => 12,
        Phase::BootWom { entered } => if entered { 14 } else { 13 },
        Phase::Ready => 15,
        Phase::Failed(_) => 16,
    }
}

/// The delay in ms after a step that moves on to the phase of a place.
pub open spec fn delay_to(place: int) -> int {
    if place == 1 {
        2
    } else if place == 6 {
        20
    } else if place == 8 {
        50
    } else if place == 10 || place == 11 {
        100
    } else if place == 12 || place == 13 {
        50
    } else if place == 14 {
        3000
    } else {
        1
    }
}

/// The delay in ms between two tries in the phase of a place.
pub open spec fn delay_in(place: int) -> int {
    if place == 4 {
        5
    } else if place == 6 {
        10
    } else if place == 8 || place == 12 {
        50
    } else {
        1
    }
}

/// How often the phase of a place is tried again.
pub open spec fn retries(place: int) -> int {
    if place == 1 || place == 6 {
        50
    } else if place == 4 {
        100
    } else {
        20
    }
}

/// The tries of a phase that waits.
pub open spec fn tries_in(phase: Phase) -> int {
    match phase {
        Phase::WaitBootloader { tries } => tries as int,
        Phase::WaitVerify { tries } => tries as int,
        Phase::WaitFirmware { tries } => tries as int,
        Phase::Discover { tries } => tries as int,
        Phase::ReadRanges { tries } => tries as int,
        _ => -1,
    }
}

/// A step from one phase to another is in order: to the next phase, with its
/// first try, or in the same one with one try more, within its number of
/// retries, or on with the upload, or to failure; each with its delay.
#[verifier::opaque]
pub open spec fn in_order(from: Phase, to: Phase, step: BootStep) -> bool {
    let (before, now) = (place(from), place(to));
    &&& now == before + 1 || now == before || now == 16
    &&& now == before && before != 3 ==> tries_in(from) >= 0 && tries_in(to) == tries_in(from) + 1 <= retries(before) && step
        == (BootStep::Pending { delay_ms: delay_in(before) as u32 })
    &&& now == before + 1 && now < 15 ==> tries_in(to) <= 0 && step == (BootStep::Pending { delay_ms: delay_to(now) as u32 })
    &&& now == before + 1 && now == 3 ==> to == (Phase::Upload { offset: 0 })
    &&& now == before && before == 3 ==> step == (BootStep::Pending { delay_ms: 1 })
    &&& (step is Ready) == (now == 15)
    &&& (step is Failed) == (now == 16)
}

#[verifier::rlimit(50)]
proof fn early_steps_in_order(s: Session, h: Hub, firmware: Seq<u8>)
    requires
        place(h.phase) <= 4,
        h.within(firmware),
        firmware.len() <= usize::MAX,
    ensures
        in_order(h.phase, bhi260_imu::boot(s, h, firmware).1.phase, bhi260_imu::boot(s, h, firmware).2),
{
    reveal(in_order);
}

#[verifier::rlimit(50)]
proof fn middle_steps_in_order(s: Session, h: Hub, firmware: Seq<u8>)
    requires
        5 <= place(h.phase) <= 8,
    ensures
        in_order(h.phase, bhi260_imu::boot(s, h, firmware).1.phase, bhi260_imu::boot(s, h, firmware).2),
{
    reveal(in_order);
}

#[verifier::rlimit(50)]
proof fn late_steps_in_order(s: Session, h: Hub, firmware: Seq<u8>)
    requires
        9 <= place(h.phase) <= 14,
    ensures
        in_order(h.phase, bhi260_imu::boot(s, h, firmware).1.phase, bhi260_imu::boot(s, h, firmware).2),
{
    reveal(in_order);
}

/// Every bring-up step is in order, and no phase is left out.
pub proof fn bring_up_in_order(s: Session, h: Hub, firmware: Seq<u8>)
    requires
        h.phase !is Ready,
        h.phase !is Failed,
        h.within(firmware),
        firmware.len() <= usize::MAX,
    ensures
        in_order(h.phase, bhi260_imu::boot(s, h, firmware).1.phase, bhi260_imu::boot(s, h, firmware).2),
{
    if place(h.phase) <= 4 {
        early_steps_in_order(s, h, firmware);
    } else if place(h.phase) <= 8 {
        middle_steps_in_order(s, h, firmware);
    } else {
        late_steps_in_order(s, h, firmware);
    }
}

/// The ranges of the hub change only when they are read back, or, after 20
/// tries in vain, to 8 g and 250 dps.
pub proof fn ranges_are_read_or_assumed(s: Session, h: Hub, tries: u8)
    ensures
        ({
            let (t, h1, step) = ranges_reading(s, h, tries);
            &&& tries >= 20 && step is Pending ==> place(h1.phase) == 13
            &&& place(h1.phase) == 12 ==> h1.accel_range == h.accel_range && h1.gyro_range == h.gyro_range
            &&& place(h1.phase) == 13 ==> h1.accel_range == 8 && h1.gyro_range == 250 || h1.accel_range > 0 && h1.gyro_range
                > 0
            &&& h1 == (Hub { accel_range: h1.accel_range, gyro_range: h1.gyro_range, phase: h1.phase, ..h })
        }),
{
}

/// A hub before its bring-up: the plain address, no sensor picked, 8 g, 2000
/// dps, nothing pending.
pub proof fn fresh_hub(orientation: Seq<u8>, wear: crate::imu::WearCalibration)
    ensures
        ({
            let h = Hub::fresh(orientation, wear);
            &&& h.addr == 0x28 && h.phase is Reset && h.wake.len() == 0 && h.step is None && h.announce is None
            &&& h.accel_range == 8 && h.gyro_range == 2000 && h.st is None && h.empty == 0
            &&& h.orientation == orientation && h.wear == Wear::fresh(wear) && h.last == ImuData::blank()
            &&& h.last.accel_x == 0 && h.last.accel_y == 0 && h.last.accel_z == 0 && h.last.gyro_x == 0 && h.last.gyro_y == 0
                && h.last.gyro_z == 0 && h.last.temp_raw == 0 && h.last.steps is None
        }),
{
}

// ---- Commands of the bring-up -----------------------------------------------

/// The command of a request, with its padded content.
pub open spec fn command_of(q: Req) -> Seq<(int, Seq<u8>)> {
    match q {
        Req::Write { addr, out } => if out.len() >= 5 && out[0] == 0 {
            seq![(out[1] + 256 * out[2], out.skip(5))]
        } else {
            Seq::empty()
        },
        _ => Seq::empty(),
    }
}

/// The commands among the requests, in order.
pub open spec fn commands(sent: Seq<Req>) -> Seq<(int, Seq<u8>)>
    decreases sent.len(),
{
    if sent.len() == 0 {
        Seq::empty()
    } else {
        commands(sent.drop_last()) + command_of(sent.last())
    }
}

proof fn command_is_sent(s: Session, addr: u8, command: u16, content: Seq<u8>)
    requires
        commanding(s, addr, command, content).1 is Ok,
        content.len() % 4 == 0,
    ensures
        commands(commanding(s, addr, command, content).0.sent) == commands(s.sent).push((command as int, content)),
        content.len() <= 68,
{
    let t = commanding(s, addr, command, content).0;
    commands_on_the_wire(s, addr, command, content);
    assert(t.sent.drop_last() =~= s.sent);
    if let Req::Write { addr: a, out } = t.sent.last() {
        assert(crate::laws::bhi260::command_bytes(out, command as int, content));
        assert(out.skip(5) =~= content);
    }
    assert(commands(t.sent) =~= commands(s.sent).push((command as int, content)));
}

/// The stream is set up by seven commands: the mounting of both physical
/// sensors (121h, 123h), no meta events in the wake-up FIFO (102h), 8 g and
/// 250 dps (14), both streams on (13).
pub proof fn stream_setup_in_order(s: Session, h: Hub)
    requires
        h.orientation.len() == 5,
        bhi260_imu::stream_setup(s, h).1 is Ok,
    ensures
        ({
            let m = h.orientation + seq![0u8, 0u8, 0u8];
            let t = bhi260_imu::stream_setup(s, h).0;
            let all = commands(t.sent);
            let n = commands(s.sent).len() as int;
            &&& all.len() == n + 7
            &&& all[n] == (0x121int, m) && all[n + 1] == (0x123int, m)
            &&& all[n + 2] == (0x102int, bhi260::zeros(8))
            &&& all[n + 3] == (14int, seq![1u8, 8u8, 0u8, 0u8]) && all[n + 4] == (14int, seq![10u8, 250u8, 0u8, 0u8])
            &&& all[n + 5].0 == 13 && all[n + 6].0 == 13
            &&& settings(t.sent).len() >= 2
            &&& settings(t.sent)[settings(t.sent).len() - 2] == (1u8, hz25())
            &&& settings(t.sent)[settings(t.sent).len() - 1] == (10u8, hz25())
        }),
{
    let m = h.orientation + seq![0u8, 0u8, 0u8];
    crate::laws::bits::twelve_bits(0x121);
    crate::laws::bits::twelve_bits(0x123);
    crate::laws::bits::twelve_bits(0x102);
    let (s1, r1) = commanding(s, h.addr, 0x121, m);
    let (s2, r2) = commanding(s1, h.addr, 0x123, m);
    let (s3, r3) = commanding(s2, h.addr, 0x102, bhi260::zeros(8));
    crate::laws::bytes::bytes_by_place_value(8, 0);
    crate::laws::bytes::bytes_by_place_value(250, 0);
    let a = seq![1u8, 8u8, 0u8, 0u8];
    let g = seq![10u8, 250u8, 0u8, 0u8];
    assert(seq![1u8] + crate::bytes::bytes_le16(8) + seq![0u8] =~= a);
    assert(seq![10u8] + crate::bytes::bytes_le16(250) + seq![0u8] =~= g);
    let (s4, r4) = commanding(s3, h.addr, 14, a);
    let (s5, r5) = commanding(s4, h.addr, 14, g);
    let rate = 0x41C8_0000u32;
    assert(bhi260_imu::stream_setup(s, h) == streaming(s5, h.addr, rate));
    command_is_sent(s, h.addr, 0x121, m);
    command_is_sent(s1, h.addr, 0x123, m);
    command_is_sent(s2, h.addr, 0x102, bhi260::zeros(8));
    command_is_sent(s3, h.addr, 14, a);
    command_is_sent(s4, h.addr, 14, g);
    let s6 = sensor_config(s5, h.addr, 1, rate, 0).0;
    let c1 = seq![1u8] + crate::bytes::bytes_le32(rate) + crate::bytes::bytes_le32(0).take(3);
    let c2 = seq![10u8] + crate::bytes::bytes_le32(rate) + crate::bytes::bytes_le32(0).take(3);
    command_is_sent(s5, h.addr, 13, c1);
    command_is_sent(s6, h.addr, 13, c2);
    streams_are_set(s5, h.addr, rate);
}

/// The upload is announced after the identity was asked for (nine bytes
/// from 1Ch on) and the interrupt pin set up (0 to 07h).
pub proof fn upload_is_announced(s: Session, h: Hub, firmware: Seq<u8>)
    requires
        !s.stalled(),
        bhi260_imu::upload_starting(s, h, firmware).2 is Pending,
    ensures
        ({
            let (t, h1, step) = bhi260_imu::upload_starting(s, h, firmware);
            &&& h1.phase == (Phase::Upload { offset: 0 })
            &&& firmware.len() % 4 == 0 && firmware.len() <= 262140
            &&& t.sent.len() == s.sent.len() + 3
            &&& t.sent[s.sent.len() as int] == get(h.addr, 0x1C, 9)
            &&& t.sent[s.sent.len() as int + 1] == put(h.addr, 0x07, 0)
        }),
{
    let s1 = s.read_regs(h.addr, 0x1C, 9).0;
    let s2 = s1.write_reg(h.addr, 0x07, 0).0;
    crate::laws::bhi260::upload_starts(s2, h.addr, firmware.len() as int);
}

/// One chunk goes out as it stands in the image, from the offset on, 256
/// bytes or what is left.
pub proof fn chunk_goes_out(s: Session, h: Hub, firmware: Seq<u8>, offset: int)
    requires
        !s.stalled(),
        0 <= offset < firmware.len(),
        bhi260_imu::uploading(s, h, firmware, offset).2 is Pending,
    ensures
        ({
            let (t, h1, step) = bhi260_imu::uploading(s, h, firmware, offset);
            let end = if offset + 256 < firmware.len() { offset + 256 } else { firmware.len() as int };
            &&& t.sent == s.sent.push(Req::Write { addr: h.addr, out: seq![0u8] + firmware.subrange(offset, end) })
            &&& end == firmware.len() ==> h1.phase == (Phase::WaitVerify { tries: 0 })
            &&& end < firmware.len() ==> h1.phase == (Phase::Upload { offset: end as usize })
        }),
{
    crate::laws::bhi260::chunk_on_the_wire(s, h.addr, bhi260::chunk_of(firmware, offset));
}

/// The waits of the bring-up go by the boot status: ready is bit 4, and of
/// the image bit 6 is an error and bit 5 done.
pub proof fn waits_by_status(regs: crate::chip::Registers, s: Session, h: Hub, firmware: Seq<u8>)
    requires
        regs.answers(h.addr, s.read_reg(h.addr, 0x25).0.read_reg(h.addr, 0x2E).0),
    ensures
        ({
            let v = regs.now(h.addr, s).at(0x25) as int;
            let now = bhi260_imu::boot(s, h, firmware).1.phase;
            &&& h.phase matches Phase::WaitBootloader { tries } ==> (now is StartUpload <==> v / 16 % 2 == 1) && (now is Failed
                <==> v / 16 % 2 == 0 && tries >= 50)
            &&& h.phase matches Phase::WaitVerify { tries } ==> (now is Boot <==> v / 64 % 2 == 0 && v / 32 % 2 == 1) && (now
                is Failed <==> v / 64 % 2 == 1 || v / 32 % 2 == 0 && tries >= 100)
            &&& h.phase matches Phase::WaitFirmware { tries } ==> (now is DrainInit <==> v / 16 % 2 == 1) && (now is Failed
                <==> v / 16 % 2 == 0 && tries >= 50)
        }),
{
    crate::laws::bhi260::boot_status_by_bit(regs, h.addr, s);
}

/// The reset is 1 to 14h; the boot is command 3 with nothing to it.
pub proof fn reset_and_boot(s: Session, h: Hub, firmware: Seq<u8>)
    requires
        !s.stalled(),
    ensures
        h.phase is Reset ==> bhi260_imu::boot(s, h, firmware).0.sent == s.sent.push(put(h.addr, 0x14, 1)),
        h.phase is Boot ==> (bhi260_imu::boot(s, h, firmware).0.sent.last() matches Req::Write { addr, out } && addr == h.addr
            && crate::laws::bhi260::command_bytes(out, 3, Seq::empty())),
{
    commands_on_the_wire(s, h.addr, 3, Seq::empty());
}

/// After the boot an error code other than the benign ones ends the
/// bring-up.
pub proof fn errors_after_boot(s: Session, h: Hub)
    ensures
        ({
            let s1 = fifo_reading(s, h.addr, 0x01, bhi260::zeros(64)).0;
            let s2 = fifo_reading(s1, h.addr, 0x02, bhi260::zeros(64)).0;
            let now = bhi260_imu::init_draining(s, h).1.phase;
            &&& now is Discover || now is Failed
            &&& s2.read_reg(h.addr, 0x2E).1 is Err ==> now is Failed
            &&& s2.read_reg(h.addr, 0x2E).1 matches Ok(code) ==> (now is Discover <==> code == 0 || 0x75 <= code <= 0x77)
        }),
{
}

/// Discovery asks for parameter 11Fh and takes 32 bytes as the bitmap. It
/// needs sensors 1 and 10, and picks the others from it.
pub proof fn discovery_by_bitmap(s: Session, h: Hub, tries: u8)
    ensures
        ({
            let (s1, map, r) = param_reading(s, h.addr, 0x11F, bhi260::zeros(32));
            let there = r matches Ok(n) && n >= 32;
            let (t, h1, step) = bhi260_imu::discovering(s, h, tries);
            &&& there && present(map, 1) && present(map, 10) ==> h1 == (Hub {
                wake: wake_set(map),
                step: step_pick(map),
                phase: Phase::Enable,
                ..h
            }) && t == s1
            &&& there && !(present(map, 1) && present(map, 10)) ==> h1.phase is Failed && t == s1
            &&& !there && tries < 20 ==> h1.phase == (Phase::Discover { tries: (tries + 1) as u8 }) && t == s1
            &&& !there && tries >= 20 ==> h1.phase is Failed
        }),
{
}

/// A range is read back from parameter 500h and the sensor: bytes 10 and
/// 11, low byte first, where at least 12 came and it is not 0.
pub proof fn range_by_digits(s: Session, addr: u8, id: u8)
    ensures
        ({
            let (s1, buf, r) = param_reading(s, addr, (0x500 + id) as u16, bhi260::zeros(12));
            let range = buf[10] + 256 * buf[11];
            let got = bhi260_imu::range_reading(s, addr, id);
            &&& got.0 == s1
            &&& (r matches Ok(n) && n >= 12) && range > 0 ==> got.1 == Some(range)
            &&& !(r matches Ok(n) && n >= 12) || range == 0 ==> got.1 is None
        }),
{
}

/// The stream is turned off, and then on again.
pub proof fn streams_are_recycled(s: Session, h: Hub, enabled: bool)
    requires
        bhi260_imu::recycling(s, h, enabled).2 is Pending,
    ensures
        ({
            let rate = if enabled { hz25() } else { 0 };
            &&& settings(bhi260_imu::recycling(s, h, enabled).0.sent) == settings(s.sent) + seq![(1u8, rate), (10u8, rate)]
            &&& bhi260_imu::recycling(s, h, enabled).1.phase == (if enabled {
                Phase::ReadRanges { tries: 0 }
            } else {
                Phase::Recycle { enabled: true }
            })
        }),
{
    streams_are_set(s, h.addr, if enabled { 0x41C8_0000 } else { 0 });
}

/// The first sleep of the bring-up is entered and left as any other; once
/// left, the hub is ready with nothing to announce.
pub proof fn first_sleep(s: Session, h: Hub, entered: bool)
    ensures
        ({
            let ready = Hub { phase: Phase::Ready, ..h };
            let (t, h1, step) = bhi260_imu::sleep_cycling(s, h, entered);
            &&& entered ==> t == exiting(s, ready).0 && h1.phase is Ready && h1.announce is None && step is Ready
            &&& !entered ==> t == entering(s, ready).0 && h1.phase == (Phase::BootWom { entered: true })
        }),
{
}

// ---- Polls ------------------------------------------------------------------

/// Of drained events, the first that is no meta event (254 or 248) counts;
/// where all are, none does.
pub proof fn first_event_counts(events: Seq<(u8, Seq<u8>)>, k: int)
    requires
        0 <= k <= events.len(),
        forall|i: int| 0 <= i < k ==> (#[trigger] events[i]).0 == 254 || events[i].0 == 248,
    ensures
        k == events.len() ==> bhi260_imu::first_sensor_event(events) is None,
        k < events.len() && events[k].0 != 254 && events[k].0 != 248 ==> bhi260_imu::first_sensor_event(events) == Some(
            events[k].0,
        ),
    decreases k,
{
    if k > 0 {
        let rest = events.skip(1);
        assert(events[0].0 == 254 || events[0].0 == 248);
        assert forall|i: int| 0 <= i < k - 1 implies (#[trigger] rest[i]).0 == 254 || rest[i].0 == 248 by {
            assert(rest[i] == events[i + 1]);
        }
        first_event_counts(rest, k - 1);
        if k < events.len() {
            assert(rest[k - 1] == events[k]);
        }
    }
}

/// A check for a wake-up event looks at bits 2:1 of 2Dh, and where they are
/// 0 says no after that one read.
pub proof fn no_wake_without_the_bits(s: Session, h: Hub, st: u8)
    requires
        h.phase is Ready,
        s.read_reg(h.addr, 0x2D).1 == Ok::<u8, Fault>(st),
        st as int / 2 % 4 == 0,
    ensures
        bhi260_imu::wom_checking(s, h) == (s.after(get(h.addr, 0x2D, 1)), h, false),
        draining(s, h.addr) == (s.after(get(h.addr, 0x2D, 1)), None::<u8>),
{
    codes_by_number(0, 0, st);
}

/// A check that finds an event says so, and notes what to announce where
/// the event is an occurrence.
pub proof fn wake_is_announced(s: Session, h: Hub)
    requires
        h.phase is Ready,
    ensures
        ({
            let (t, h1, woke) = bhi260_imu::wom_checking(s, h);
            &&& h1 == (Hub { announce: h1.announce, ..h })
            &&& !woke ==> h1 == h
            &&& h1.announce != h.announce ==> (h1.announce matches Some(id) && crate::laws::fifo::occurrence_id(id))
        }),
{
    if let Some(id) = bhi260_imu::wom_checking(s, h).1.announce {
        crate::laws::fifo::formats_by_id(id);
    }
}

/// A stream out of sync is brought back by 4 and then 0 in 06h; one in sync
/// is left alone.
pub proof fn lost_streams_are_aborted(s: Session, addr: u8, lost: Option<u8>)
    requires
        !s.stalled(),
        fault_free(s),
        !bhi260_imu::resyncing(s, addr, lost).stalled(),
    ensures
        lost is None ==> bhi260_imu::resyncing(s, addr, lost) == s,
        lost is Some ==> bhi260_imu::resyncing(s, addr, lost).sent == s.sent.push(put(addr, 0x06, 4)).push(put(addr, 0x06, 0)),
{
}

/// Events are taken in one after the other.
pub proof fn events_are_taken_in_order(h: Hub, first: (u8, Seq<u8>), rest: Seq<(u8, Seq<u8>)>)
    ensures
        bhi260_imu::absorbed_all(h, Seq::empty()) == h,
        bhi260_imu::absorbed_all(h, seq![first] + rest) == bhi260_imu::absorbed_all(absorbed(h, first.0, first.1), rest),
{
    assert((seq![first] + rest).skip(1) =~= rest);
}

/// An awake poll hands out the sample that its events leave, and nothing is
/// left to announce.
pub proof fn polls_hand_out_the_sample(s: Session, h: Hub)
    requires
        h.phase is Ready,
    ensures
        sampling(s, h).2 matches Ok(d) ==> d == sampling(s, h).1.last,
        sampling(s, h).1.announce is None,
        sampling(s, h).1.wake == h.wake && sampling(s, h).1.step == h.step && sampling(s, h).1.phase is Ready,
        sampling(s, h).1.accel_range == h.accel_range && sampling(s, h).1.gyro_range == h.gyro_range,
        sampling(s, h).1.st == h.st,
{
    let h1 = Hub { announce: None, ..h };
    let s1 = draining(s, h.addr).0;
    let (s2, buf, r) = fifo_reading(s1, h.addr, 0x02, bhi260::zeros(512));
    if let Ok(n) = r {
        let h2 = watching(s2, h1, n as int).1;
        bhi260_imu::samples_change_nothing_else(h2, bhi260::fifo::events(buf.take(n as int)));
    }
}

/// A self-test starts only on a ready hub with none running, once
/// everything is quiet; otherwise the hub is as it was.
pub proof fn test_starts_when_quiet(s: Session, h: Hub, kind: SelfTestKind)
    ensures
        ({
            let (t, h1, ok) = bhi260_imu::test_starting(s, h, kind);
            &&& ok == (h.phase is Ready && h.st is None && quieting(s, h).1 is Ok)
            &&& ok ==> h1 == (Hub { st: Some(StState::Quiesce { kind, polls: 0 }), ..h }) && t == quieting(s, h).0
            &&& !ok ==> h1 == h
        }),
{
}

/// A self-test that is given up leaves none in flight; without one in
/// flight there is nothing to give up.
pub proof fn test_is_aborted(s: Session, h: Hub)
    ensures
        h.st is Some ==> bhi260_imu::aborting(s, h) == (restoring(s, h), Hub { st: None, ..h }),
        h.st is None ==> bhi260_imu::aborting(s, h) == (s, h),
        concluding(s, h).1.st is None && concluding(s, h).2 is Error && concluding(s, h).0 == restoring(s, h),
{
}

// ---- The common front end ---------------------------------------------------

/// Wrist intents come from the hub alone, once each.
pub proof fn intents_are_taken_once(imu: crate::imu::Imu)
    ensures
        imu is Qmi8658 ==> crate::imu::intent_taking(imu) == (imu, None::<crate::imu::WristIntent>),
        imu matches crate::imu::Imu::Bhi260(h) ==> crate::imu::intent_taking(imu).1 == h.wear.pending && crate::imu::intent_taking(
            crate::imu::intent_taking(imu).0,
        ).1 is None,
{
}

/// On the plain sensor a self-test is noted with no poll behind it and
/// nothing on the bus, and dropped in the same way; a wake event is bit 2
/// of 2Fh.
pub proof fn plain_sensor_front_end(regs: crate::chip::Registers, s: Session, q: crate::imu::Qmi, kind: SelfTestKind)
    requires
        regs.answers(q.addr, s.read_reg(q.addr, 0x2F).0),
    ensures
        ({
            let imu = crate::imu::Imu::Qmi8658(q);
            &&& crate::imu::test_starting(s, imu, kind) == (
                s,
                crate::imu::Imu::Qmi8658(crate::imu::Qmi { st: Some((kind, 0u8)), ..q }),
                true,
            )
            &&& crate::imu::aborting(s, imu) == (s, crate::imu::Imu::Qmi8658(crate::imu::Qmi { st: None, ..q }))
            &&& crate::imu::wom_checking(s, imu).1 == imu
            &&& crate::imu::wom_checking(s, imu).2 == (regs.now(q.addr, s).at(0x2F) as int / 4 % 2 == 1)
        }),
{
    crate::laws::qmi8658::wake_event_by_bit(regs, q.addr, s);
}

} // verus!
