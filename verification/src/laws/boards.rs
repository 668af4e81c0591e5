//! The boards: power, audio and display bring-up.

use vstd::prelude::*;
use crate::bus::{Fault, Session};
use crate::chip::{low_field_reads_back, read_gives_the_register, updated_register_is_held, written_register_is_held, Registers};
use crate::display::co5300::{dcs, Panel};
use crate::firmware::audio::{
    codec_successor, codec_traffic, due, started, AudioAction, AudioCommand, CodecStep, SessionMode,
};
use crate::firmware::display::{chunk, chunk_count, dark_boot, pipelined, settling, Boot, PipeAction, Transfer};
use crate::firmware::power::{c6_setup, power_setup, profile_reading, profile_setting, TouchWait};
use crate::laws::chip::put;
use crate::laws::pmu::{device_by_signature, initialised_chip, monitor_is_on};
use crate::pmu;
use crate::pmu::types::ChargeVoltage;

verus! {

// ---- Power ------------------------------------------------------------------

/// The registers hold the charge profile: 4.2 V in 64h, 100 mA in 62h, 25
/// mA with termination on in 63h, power-off at 3.2 V in 24h.
pub open spec fn profiled(now: Registers) -> bool {
    &&& now.at(0x64) as int % 8 == 3
    &&& now.at(0x62) as int % 32 == 4
    &&& now.at(0x63) as int % 32 == 17
    &&& 2600 + 100 * (now.at(0x24) as int % 8) == 3200
}

/// The profile is set on a chip that keeps its registers, and no register
/// but its four changes.
pub proof fn profile_is_held(regs: Registers, addr: u8, s: Session)
    requires
        regs.answers(addr, profile_setting(s, addr).0),
    ensures
        regs.answers(addr, s),
        profile_setting(s, addr).1 is Ok,
        profiled(regs.now(addr, profile_setting(s, addr).0)),
        forall|q: int|
            q != 0x64 && q != 0x62 && q != 0x63 && q != 0x24 ==> #[trigger] regs.now(addr, profile_setting(s, addr).0).at(q)
                == regs.now(addr, s).at(q),
{
    let t = profile_setting(s, addr).0;
    let (s1, e1) = pmu::updating(s, addr, 0x64, 0x07, 3);
    if e1 is Err {
        assert(t == s1);
    } else {
        let (s2, e2) = pmu::updating(s1, addr, 0x62, 0x1F, 4);
        if e2 is Err {
            assert(t == s2);
        } else {
            let (s3, e3) = pmu::updating(s2, addr, 0x63, 0x1F, 0x11);
            if e3 is Err {
                assert(t == s3);
            } else {
                assert(t == pmu::updating(s3, addr, 0x24, 0x07, 6).0);
                updated_register_is_held(regs, addr, s3, 0x24, 0x07, 6);
            }
            updated_register_is_held(regs, addr, s2, 0x63, 0x1F, 0x11);
        }
        updated_register_is_held(regs, addr, s1, 0x62, 0x1F, 4);
    }
    updated_register_is_held(regs, addr, s, 0x64, 0x07, 3);
    low_field_reads_back(regs.now(addr, s).at(0x64), 3);
    low_field_reads_back(regs.now(addr, s).at(0x62), 4);
    low_field_reads_back(regs.now(addr, s).at(0x63), 0x11);
    low_field_reads_back(regs.now(addr, s).at(0x24), 6);
}

/// A profile read back from a chip: the voltage by its code in 64h, the
/// current in 62h in steps of 25 mA up to 200 mA and of 100 mA above, the
/// termination in 63h in steps of 25 mA with bit 4 for whether it is on,
/// the power-off voltage in 24h in steps of 100 mV from 2600 mV.
pub proof fn profile_is_read_back(regs: Registers, addr: u8, s: Session)
    requires
        regs.answers(addr, profile_reading(s, addr).0),
    ensures
        regs.answers(addr, s),
        regs.now(addr, profile_reading(s, addr).0) == regs.now(addr, s),
        ({
            let now = regs.now(addr, s);
            let r = profile_reading(s, addr).1;
            let cc = now.at(0x62) as int % 32;
            &&& r.charge_voltage == ChargeVoltage::decoded(now.at(0x64) as int % 8)
            &&& cc <= 8 ==> r.charge_current_ma == Some((25 * cc) as u16)
            &&& 8 < cc <= 16 ==> r.charge_current_ma == Some((200 + 100 * (cc - 8)) as u16)
            &&& r.termination_ma == Some(
                ((25 * (now.at(0x63) as int % 16)) as u16, now.at(0x63) as int / 16 % 2 == 1),
            )
            &&& r.power_off_mv == Some((2600 + 100 * (now.at(0x24) as int % 8)) as u16)
        }),
{
    let (s1, _) = s.read_reg(addr, 0x64);
    let (s2, _) = s1.read_reg(addr, 0x62);
    let (s3, _) = s2.read_reg(addr, 0x63);
    assert(profile_reading(s, addr).0 == s3.read_reg(addr, 0x24).0);
    read_gives_the_register(regs, addr, s3, 0x24);
    read_gives_the_register(regs, addr, s2, 0x63);
    read_gives_the_register(regs, addr, s1, 0x62);
    read_gives_the_register(regs, addr, s, 0x64);
    crate::laws::pmu_types::steps_by_number((regs.now(addr, s).at(0x63) as int % 16) as u8);
}

/// The profile that was set is the one that is read back.
pub proof fn set_profile_reads_back(regs: Registers, addr: u8, s: Session)
    requires
        regs.answers(addr, profile_reading(profile_setting(s, addr).0, addr).0),
    ensures
        ({
            let r = profile_reading(profile_setting(s, addr).0, addr).1;
            &&& r.charge_voltage == Some(ChargeVoltage::V4_2)
            &&& r.charge_current_ma == Some(100u16)
            &&& r.termination_ma == Some((25u16, true))
            &&& r.power_off_mv == Some(3200u16)
        }),
{
    let t = profile_setting(s, addr).0;
    profile_is_read_back(regs, addr, t);
    profile_is_held(regs, addr, s);
}

/// The first board brought up: on the right chip at 34h the rails and the
/// profile stand, and the report is of what the chip holds; on another
/// there is no report.
pub proof fn first_board(regs: Registers, s: Session)
    requires
        regs.answers(0x34, power_setup(s).0),
    ensures
        ({
            let id = regs.now(0x34, s).at(3);
            let good = id as int / 64 == 1 && id as int % 16 == 0x0A;
            let now = regs.now(0x34, power_setup(s).0);
            &&& !good ==> power_setup(s).1 is None
            &&& power_setup(s).1 matches Some(report) ==> good && report.chip_id == id && report.profile_ok && profiled(now)
                && report.readback.charge_voltage == Some(ChargeVoltage::V4_2) && report.readback.charge_current_ma == Some(
                100u16,
            ) && report.readback.power_off_mv == Some(3200u16) && now.at(0x90) == 0x3F && now.at(0x30) == 0x1F
        }),
{
    let (s1, id) = pmu::initialising(s, 0x34);
    if id is Ok {
        let t = power_setup(s).0;
        assert(t == profile_reading(profile_setting(s1, 0x34).0, 0x34).0);
        set_profile_reads_back(regs, 0x34, s1);
        profile_is_read_back(regs, 0x34, profile_setting(s1, 0x34).0);
        profile_is_held(regs, 0x34, s1);
        initialised_chip(regs, 0x34, s);
        start_is_by_signature(regs, s);
    }
}

proof fn start_is_by_signature(regs: Registers, s: Session)
    requires
        regs.answers(0x34, pmu::initialising(s, 0x34).0),
        pmu::initialising(s, 0x34).1 is Ok,
    ensures
        ({
            let id = regs.now(0x34, s).at(3);
            id as int / 64 == 1 && id as int % 16 == 0x0A
        }),
{
    let t = pmu::initialising(s, 0x34).0;
    let (s1, e1) = pmu::device_check(s, 0x34);
    let (s2, e2) = pmu::boot_voltages(s1, 0x34);
    let (s3, e3) = s2.write_reg(0x34, 0x90, 0x3F);
    let (s4, e4) = s3.write_reg(0x34, 0x30, 0x1F);
    assert(t == pmu::monitor_setup(s4, 0x34).0);
    monitor_is_on(regs, 0x34, s4);
    written_register_is_held(regs, 0x34, s3, 0x30, 0x1F);
    written_register_is_held(regs, 0x34, s2, 0x90, 0x3F);
    crate::laws::pmu::boot_voltages_are_held(regs, 0x34, s1);
    device_by_signature(regs, 0x34, s);
}

/// The second board brought up: all ADC channels, the fuel gauge and the
/// profile stand, whatever the chip says of itself, and the report says
/// whether it is the right one. The rails are left alone.
pub proof fn second_board(regs: Registers, s: Session)
    requires
        regs.answers(0x34, c6_setup(s).0),
    ensures
        ({
            let (before, now) = (regs.now(0x34, s), regs.now(0x34, c6_setup(s).0));
            let id = before.at(3);
            let report = c6_setup(s).1;
            &&& report.chip_id == (if id as int / 64 == 1 && id as int % 16 == 0x0A { Some(id) } else { None })
            &&& report.adc_ok && report.monitor_ok && report.profile_ok
            &&& report.readback.charge_voltage == Some(ChargeVoltage::V4_2)
            &&& report.readback.termination_ma == Some((25u16, true))
            &&& profiled(now)
            &&& now.at(0x30) & 0xFE == 0x1Fu8 & 0xFE
            &&& now.at(0x18) & 0x08 == 0x08
            &&& forall|q: int| 0x80 <= q ==> #[trigger] now.at(q) == before.at(q)
        }),
{
    let (s1, id) = pmu::device_check(s, 0x34);
    let (s2, adc) = s1.write_reg(0x34, 0x30, 0x1F);
    let (s3, monitor) = pmu::monitor_setup(s2, 0x34);
    let (s4, set) = profile_setting(s3, 0x34);
    let t = c6_setup(s).0;
    assert(t == profile_reading(s4, 0x34).0);
    set_profile_reads_back(regs, 0x34, s3);
    profile_is_read_back(regs, 0x34, s4);
    profile_is_held(regs, 0x34, s3);
    monitor_is_on(regs, 0x34, s2);
    written_register_is_held(regs, 0x34, s1, 0x30, 0x1F);
    device_by_signature(regs, 0x34, s);
    assert(s1 == s.read_reg(0x34, 3).0);
    read_gives_the_register(regs, 0x34, s, 3);
}

/// The wait for the touch controller polls every 500 ms: an answer to poll
/// `k` is noted with its time, and without one the tenth is the last.
pub proof fn touch_polls(k: int)
    requires
        1 <= k <= 10,
    ensures
        ({
            let w = TouchWait::Polling { elapsed_ms: (500 * (k - 1)) as u32 };
            &&& w.at_poll()
            &&& w.polled(true) == (TouchWait::Awake { after_ms: (500 * k) as u32 })
            &&& k < 10 ==> w.polled(false) == (TouchWait::Polling { elapsed_ms: (500 * k) as u32 })
            &&& k == 10 ==> w.polled(false) == TouchWait::GaveUp
        }),
{
}

/// A wait that is over stays as it is.
pub proof fn touch_outcome_stays(w: TouchWait, acked: bool)
    requires
        w !is Polling,
    ensures
        w.polled(acked) == w,
{
}

// ---- Audio ------------------------------------------------------------------

/// Each command to start has its own session, each command to stop mutes,
/// and only with nothing pending is a command received.
pub proof fn commands_by_kind(c: AudioCommand)
    ensures
        due(None) == AudioAction::Receive,
        (due(Some(c)) == AudioAction::Run(SessionMode::Play)) == (c is PlayAlarm),
        (due(Some(c)) == AudioAction::Run(SessionMode::Capture)) == (c is StartCapture),
        (due(Some(c)) == AudioAction::Run(SessionMode::Tones)) == (c is PlayTones),
        (due(Some(c)) == AudioAction::Run(SessionMode::Loopback)) == (c is StartLoopback),
        (due(Some(c)) == AudioAction::Mute) == (c is StopAlarm || c is StopCapture || c is StopTones || c is StopLoopback),
        (started(c) is None) == (due(Some(c)) == AudioAction::Mute),
{
}

/// The place of a step in the codec bring-up.
pub open spec fn step_place(step: CodecStep) -> int {
    match step {
        CodecStep::DacReset => 0,
        CodecStep::DacConfigure => 1,
        CodecStep::DacVolume => 2,
        CodecStep::AdcReset => 3,
        CodecStep::AdcConfigure => 4,
        CodecStep::AdcFinalize => 5,
        CodecStep::AdcGain => 6,
        CodecStep::Done => 7,
    }
}

/// Steps that succeed follow each other in order, with 20 ms after the
/// first reset and 10 ms after the second and after its configuration. A
/// codec that cannot be reset still gets its volume; a converter that
/// cannot be reset or finalised ends the bring-up.
pub proof fn codec_steps_in_order(step: CodecStep, ok: bool)
    ensures
        ({
            let (next, ms) = codec_successor(step, ok);
            let p = step_place(step);
            &&& ok && p < 7 ==> step_place(next) == p + 1
            &&& p == 7 ==> next == step && ms == 0
            &&& !ok && p == 0 ==> step_place(next) == 2
            &&& !ok && (p == 1 || p == 2 || p == 4 || p == 6) ==> step_place(next) == p + 1
            &&& !ok && (p == 3 || p == 5) ==> step_place(next) == 7
            &&& ms == (if ok && p == 0 {
                20int
            } else if ok && p == 3 || p == 4 {
                10
            } else {
                0
            })
        }),
{
}

/// What the single-write steps write: the resets, the volume 8 dB below
/// full scale, the release, and the gain of both microphones.
pub proof fn codec_writes(s: Session)
    requires
        !s.stalled(),
    ensures
        codec_traffic(s, CodecStep::DacReset).0.sent == s.sent.push(put(0x18, 0x00, 0x1F)),
        codec_traffic(s, CodecStep::DacVolume).0.sent == s.sent.push(put(0x18, 0x32, 0xAF)),
        codec_traffic(s, CodecStep::AdcReset).0.sent == s.sent.push(put(0x40, 0x00, 0xFF)),
        codec_traffic(s, CodecStep::AdcFinalize).0.sent == s.sent.push(put(0x40, 0x00, 0x41)),
        codec_traffic(s, CodecStep::AdcGain).1 is Ok ==> codec_traffic(s, CodecStep::AdcGain).0.sent == s.sent.push(
            put(0x40, 0x43, 0x1A),
        ).push(put(0x40, 0x44, 0x1A)),
        codec_traffic(s, CodecStep::Done) == (s, Ok::<(), Fault>(())),
{
}

/// A configuration that succeeds is the table of the chip, then the volume
/// of 0 dB, or the release with the state machine held.
pub proof fn codec_tables(s: Session)
    ensures
        codec_traffic(s, CodecStep::DacConfigure).1 is Ok ==> codec_traffic(s, CodecStep::DacConfigure).0 == s.write_regs(
            0x18,
            crate::es8311::CONFIGURE@,
        ).0.after(put(0x18, 0x32, 0xBF)),
        codec_traffic(s, CodecStep::AdcConfigure).1 is Ok ==> codec_traffic(s, CodecStep::AdcConfigure).0 == s.write_regs(
            0x40,
            crate::es7210::CONFIGURE@,
        ).0.after(put(0x40, 0x00, 0x71)),
{
}

// ---- Display ----------------------------------------------------------------

/// Every chunk of a pixel write goes out on four wires with instruction
/// 32h; the first of a frame starts a memory write (2Ch), all others
/// continue it (3Ch). Chunks are full but for the last.
pub proof fn chunks_by_place(first: bool, len: int, capacity: int, i: int)
    requires
        0 < capacity <= usize::MAX,
        0 <= len <= usize::MAX,
        0 <= i,
        i * capacity < len,
    ensures
        ({
            let c = chunk(first, len, capacity, i);
            &&& c.wires is Quad && c.opcode == 0x32
            &&& c.address == (if first && i == 0 { 0x2C00int } else { 0x3C00 })
            &&& c.start == i * capacity
            &&& c.end - c.start == capacity || c.end == len && c.end - c.start < capacity
            &&& c.start < c.end <= len
        }),
{
    assert((i + 1) * capacity == i * capacity + capacity) by (nonlinear_arith);
    assert(0 <= i * capacity) by (nonlinear_arith)
        requires
            0 <= i,
            0 < capacity,
    ;
}

/// There are as many chunks as it takes, and not one more.
pub proof fn chunks_are_enough(len: int, capacity: int)
    requires
        0 < capacity,
        0 <= len,
    ensures
        len <= chunk_count(len, capacity) * capacity < len + capacity,
{
    vstd::arithmetic::div_mod::lemma_fundamental_div_mod(len + capacity - 1, capacity);
    vstd::arithmetic::div_mod::lemma_mod_bound(len + capacity - 1, capacity);
    vstd::arithmetic::mul::lemma_mul_is_commutative(capacity, chunk_count(len, capacity));
}

/// The transfers that actions start, in order.
pub open spec fn starts(actions: Seq<PipeAction>) -> Seq<Transfer>
    decreases actions.len(),
{
    if actions.len() == 0 {
        Seq::empty()
    } else {
        match actions.last() {
            PipeAction::Start(t) => starts(actions.drop_last()).push(t),
            PipeAction::Wait => starts(actions.drop_last()),
        }
    }
}

/// How often actions wait.
pub open spec fn waits(actions: Seq<PipeAction>) -> nat
    decreases actions.len(),
{
    if actions.len() == 0 {
        0
    } else {
        waits(actions.drop_last()) + if actions.last() is Wait { 1nat } else { 0 }
    }
}

/// Pipelining starts every transfer once and in order, and waits once for
/// each transfer that was under way before another: never for the last.
pub proof fn pipelining_starts_each_once(pending: bool, transfers: Seq<Transfer>)
    ensures
        starts(pipelined(pending, transfers)) == transfers,
        transfers.len() > 0 ==> waits(pipelined(pending, transfers)) == transfers.len() - 1 + (if pending { 1int } else { 0 }),
        transfers.len() == 0 ==> pipelined(pending, transfers).len() == 0,
    decreases transfers.len(),
{
    if transfers.len() > 0 {
        let before = pipelined(pending, transfers.drop_last());
        pipelining_starts_each_once(pending, transfers.drop_last());
        let settled = before + settling(pending || transfers.len() > 1);
        let all = pipelined(pending, transfers);
        assert(all =~= settled.push(PipeAction::Start(transfers.last())));
        assert(all.drop_last() =~= settled);
        if pending || transfers.len() > 1 {
            assert(settled.drop_last() =~= before);
            assert(settled.last() == PipeAction::Wait);
            assert(starts(settled) == starts(before) && waits(settled) == waits(before) + 1);
        } else {
            assert(settled =~= before);
        }
        assert(all.last() == PipeAction::Start(transfers.last()));
        assert(transfers.drop_last().push(transfers.last()) =~= transfers);
        assert(starts(all) =~= transfers);
    }
}

/// The dark bring-up: reset is high, low for 10 ms, and high for 120 ms;
/// then 16-bit pixels (3Ah, 55h), the brightness (51h) and, last, sleep-out
/// (11h) with 120 ms to follow. The panel is not lit (29h).
pub proof fn dark_boot_in_order(b: u8, i: int)
    requires
        0 <= i < dark_boot(b).len(),
    ensures
        ({
            let d = dark_boot(b);
            &&& d.len() == 14
            &&& d[0] == Boot::Panel(Panel::Reset(true)) && d[1] == Boot::WaitMs(10)
            &&& d[2] == Boot::Panel(Panel::Reset(false)) && d[3] == Boot::WaitMs(10)
            &&& d[4] == Boot::Panel(Panel::Reset(true)) && d[5] == Boot::WaitMs(120)
            &&& d[6] == Boot::Panel(dcs(0xC4, seq![0x80u8]))
            &&& d[7] == Boot::Panel(dcs(0x3A, seq![0x55u8]))
            &&& d[8] == Boot::Panel(dcs(0x35, seq![0x00u8]))
            &&& d[9] == Boot::Panel(dcs(0x53, seq![0x20u8]))
            &&& d[10] == Boot::Panel(dcs(0x51, seq![b]))
            &&& d[11] == Boot::Panel(dcs(0x63, seq![0xFFu8]))
            &&& d[12] == Boot::Panel(dcs(0x11, Seq::empty()))
            &&& d[13] == Boot::WaitMs(120)
            &&& d[i] != Boot::Panel(dcs(0x29, Seq::empty()))
        }),
{
}

} // verus!
