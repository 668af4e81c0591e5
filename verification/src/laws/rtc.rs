//! The clock.

use vstd::prelude::*;
use crate::bus::{Fault, Session};
use crate::chip::{read_gives_the_register, write_is_kept, written_register_is_held, Registers};
use crate::rtc::types::{Alarm, ClkoutFreq, DateTime, Error, OffsetMode, TimerClock, TimerOutput};
use crate::rtc::{
    alarm_bytes, alarm_of, alarm_reading, alarm_setting, bcd, bcd_value, bringing_up, ctrl2_change, normal_mode_check, offset_byte,
    offset_setting, running_ctrl1, testing, time_bytes, time_of, time_reading, time_setting, timer_mode, timer_setting,
};

verus! {

// ---- Register contents ------------------------------------------------------

/// A BCD byte has the tens of a two-digit number as its high half and the
/// ones as its low half.
pub proof fn bcd_by_digits(n: u8, b: u8)
    ensures
        n < 100 ==> bcd(n) as int / 16 == n as int / 10 && bcd(n) as int % 16 == n as int % 10,
        b as int / 16 < 10 && b as int % 16 < 10 ==> bcd_value(b) == 10 * (b as int / 16) + b as int % 16,
{
}

/// The decimal digits of `n` stand in `b`.
#[verifier::opaque]
pub open spec fn digits(b: u8, n: int) -> bool {
    b as int / 16 == n / 10 && b as int % 16 == n % 10
}

proof fn bcd_has_digits(n: u8)
    requires
        n < 100,
    ensures
        digits(bcd(n), n as int),
{
    reveal(digits);
    bcd_by_digits(n, 0);
}

proof fn digits_give(b: u8, n: int)
    requires
        0 <= n < 100,
        digits(b, n),
    ensures
        bcd_value(b) == n,
{
    reveal(digits);
}

/// The seven time registers: second, minute, hour, day, weekday, month
/// and year of the century, in decimal digits.
pub proof fn time_registers(dt: DateTime)
    requires
        dt.in_range(),
    ensures
        time_bytes(dt).len() == 7,
        digits(time_bytes(dt)[0], dt.second as int),
        digits(time_bytes(dt)[1], dt.minute as int),
        digits(time_bytes(dt)[2], dt.hour as int),
        digits(time_bytes(dt)[3], dt.day as int),
        time_bytes(dt)[4] == dt.weekday,
        digits(time_bytes(dt)[5], dt.month as int),
        digits(time_bytes(dt)[6], dt.year - 2000),
{
    bcd_has_digits(dt.second);
    bcd_has_digits(dt.minute);
    bcd_has_digits(dt.hour);
    bcd_has_digits(dt.day);
    bcd_has_digits(dt.month);
    bcd_has_digits((dt.year - 2000) as u8);
}

/// The date and time read from registers that hold decimal digits, with
/// whatever flags above them.
pub proof fn time_by_digits(b: Seq<u8>, dt: DateTime)
    requires
        b.len() == 7,
        dt.in_range(),
        digits((b[0] as int % 128) as u8, dt.second as int),
        digits((b[1] as int % 128) as u8, dt.minute as int),
        digits((b[2] as int % 64) as u8, dt.hour as int),
        digits((b[3] as int % 64) as u8, dt.day as int),
        b[4] as int % 8 == dt.weekday,
        digits((b[5] as int % 32) as u8, dt.month as int),
        digits(b[6], dt.year - 2000),
    ensures
        time_of(b) == dt,
{
    digits_give((b[0] as int % 128) as u8, dt.second as int);
    digits_give((b[1] as int % 128) as u8, dt.minute as int);
    digits_give((b[2] as int % 64) as u8, dt.hour as int);
    digits_give((b[3] as int % 64) as u8, dt.day as int);
    digits_give((b[5] as int % 32) as u8, dt.month as int);
    digits_give(b[6], dt.year - 2000);
}

/// An alarm register holds the digits of its field, or bit 7 where the
/// field is not compared; second, minute, hour, day and weekday in order.
pub proof fn alarm_registers(a: Alarm)
    requires
        a.in_range(),
    ensures
        alarm_bytes(a).len() == 5,
        a.second matches Some(n) ==> digits(alarm_bytes(a)[0], n as int) && alarm_bytes(a)[0] < 0x80,
        a.minute matches Some(n) ==> digits(alarm_bytes(a)[1], n as int) && alarm_bytes(a)[1] < 0x80,
        a.hour matches Some(n) ==> digits(alarm_bytes(a)[2], n as int) && alarm_bytes(a)[2] < 0x80,
        a.day matches Some(n) ==> digits(alarm_bytes(a)[3], n as int) && alarm_bytes(a)[3] < 0x80,
        a.weekday matches Some(n) ==> alarm_bytes(a)[4] == n,
        a.second is None ==> alarm_bytes(a)[0] >= 0x80,
        a.minute is None ==> alarm_bytes(a)[1] >= 0x80,
        a.hour is None ==> alarm_bytes(a)[2] >= 0x80,
        a.day is None ==> alarm_bytes(a)[3] >= 0x80,
        a.weekday is None ==> alarm_bytes(a)[4] >= 0x80,
{
    if let Some(n) = a.second {
        bcd_has_digits(n);
        crate::rtc::bcd_round_trip(n);
    }
    if let Some(n) = a.minute {
        bcd_has_digits(n);
        crate::rtc::bcd_round_trip(n);
    }
    if let Some(n) = a.hour {
        bcd_has_digits(n);
        crate::rtc::bcd_round_trip(n);
    }
    if let Some(n) = a.day {
        bcd_has_digits(n);
        crate::rtc::bcd_round_trip(n);
    }
}

/// An alarm field is read as compared exactly where bit 7 of its register
/// is clear.
pub proof fn alarm_enables_by_bit(b: Seq<u8>)
    requires
        b.len() == 5,
    ensures
        alarm_of(b).second is Some <==> b[0] < 0x80,
        alarm_of(b).minute is Some <==> b[1] < 0x80,
        alarm_of(b).hour is Some <==> b[2] < 0x80,
        alarm_of(b).day is Some <==> b[3] < 0x80,
        alarm_of(b).weekday is Some <==> b[4] < 0x80,
{
}

/// The calibration byte: the offset as seven bits of two's complement,
/// held to -64 ..= 63, and bit 7 for the coarse mode.
pub proof fn offset_by_bits(mode: OffsetMode, offset: i8)
    ensures
        (offset_byte(mode, offset) >= 0x80) == (mode is Coarse),
        -64 <= offset <= 63 ==> (offset_byte(mode, offset) as int % 128 - offset) % 128 == 0,
        offset < -64 ==> offset_byte(mode, offset) as int % 128 == 64,
        offset > 63 ==> offset_byte(mode, offset) as int % 128 == 63,
{
}

/// Timer periods per minute.
pub open spec fn ticks_per_minute(c: TimerClock) -> int {
    match c {
        TimerClock::Hz4096 => 245760,
        TimerClock::Hz64 => 3840,
        TimerClock::Hz1 => 60,
        TimerClock::Per60 => 1,
    }
}

/// The timer mode byte: bit 2 runs the timer, bit 1 lets it drive INT#,
/// bit 0 makes it pulse, and bits 4:3 hold the clock, each a slower one.
pub proof fn timer_mode_by_bits(clock: TimerClock, output: TimerOutput)
    ensures
        timer_mode(clock, output) as int / 4 % 2 == 1,
        timer_mode(clock, output) as int / 2 % 2 == 1,
        timer_mode(clock, output) as int % 2 == (if output is Pulse { 1int } else { 0 }),
        timer_mode(clock, output) as int / 8 == clock.code(),
        clock.code() <= 3,
        ticks_per_minute(clock) == (if clock.code() == 0 {
            245760int
        } else if clock.code() == 1 {
            3840
        } else if clock.code() == 2 {
            60
        } else {
            1
        }),
{
}

/// The CLKOUT frequency in Hz; 0 is off.
pub open spec fn hertz(f: ClkoutFreq) -> int {
    match f {
        ClkoutFreq::Hz32768 => 32768,
        ClkoutFreq::Hz16384 => 16384,
        ClkoutFreq::Hz8192 => 8192,
        ClkoutFreq::Hz4096 => 4096,
        ClkoutFreq::Hz2048 => 2048,
        ClkoutFreq::Hz1024 => 1024,
        ClkoutFreq::Hz1 => 1,
        ClkoutFreq::Off => 0,
    }
}

/// Each CLKOUT code up to 5 halves the frequency, from 32768 Hz on; 6 is
/// 1 Hz and 7 is off.
pub proof fn clkout_halves(f: ClkoutFreq, g: ClkoutFreq)
    ensures
        f.code() <= 7,
        f.code() == 0 <==> hertz(f) == 32768,
        g.code() == f.code() + 1 && g.code() <= 5 ==> hertz(f) == 2 * hertz(g),
        f.code() == 6 <==> hertz(f) == 1,
        f.code() == 7 <==> hertz(f) == 0,
{
}

/// Control_1 after initialisation: bits 5 (stop) and 1 (12-hour mode)
/// clear, bit 0 (capacitor) set, the others as they were.
pub proof fn running_control(v: u8)
    ensures
        running_ctrl1(v) & 0x20 == 0,
        running_ctrl1(v) & 0x02 == 0,
        running_ctrl1(v) & 0x01 == 0x01,
        running_ctrl1(v) & 0xDC == v & 0xDC,
{
    assert((v & !0x20u8 & !0x02u8 | 0x01u8) & 0x20u8 == 0 && (v & !0x20u8 & !0x02u8 | 0x01u8) & 0x02u8 == 0 && (v
        & !0x20u8 & !0x02u8 | 0x01u8) & 0x01u8 == 0x01 && (v & !0x20u8 & !0x02u8 | 0x01u8) & 0xDCu8 == v & 0xDC)
        by (bit_vector);
}

// ---- On a chip that keeps its registers -------------------------------------

/// A change of Control_2 (register 1) leaves there what the change makes
/// of it, and every other register alone.
pub proof fn control_change_is_kept(regs: Registers, addr: u8, s: Session, f: spec_fn(u8) -> u8)
    requires
        regs.answers(addr, ctrl2_change(s, addr, f).0),
    ensures
        regs.answers(addr, s),
        ctrl2_change(s, addr, f).1 is Ok,
        regs.now(addr, ctrl2_change(s, addr, f).0).at(1) == f(regs.now(addr, s).at(1)),
        forall|r: int| r != 1 ==> #[trigger] regs.now(addr, ctrl2_change(s, addr, f).0).at(r) == regs.now(addr, s).at(r),
{
    let t = ctrl2_change(s, addr, f).0;
    let (s1, e) = s.read_reg(addr, 1);
    if e is Err {
        assert(t == s1);
        read_gives_the_register(regs, addr, s, 1);
    } else {
        assert(t == s1.write_reg(addr, 1, f(e->Ok_0)).0);
        written_register_is_held(regs, addr, s1, 1, f(e->Ok_0));
        read_gives_the_register(regs, addr, s, 1);
    }
}

/// A timer that was set: register 0x10 holds the value, register 0x11
/// runs the timer, lets it drive INT#, pulses where asked and holds the
/// clock; the timer flag in register 1 is clear, its other bits are kept.
pub proof fn set_timer_runs(regs: Registers, addr: u8, s: Session, value: u8, clock: TimerClock, output: TimerOutput)
    requires
        value > 0,
        regs.answers(addr, timer_setting(s, addr, value, clock, output).0),
    ensures
        timer_setting(s, addr, value, clock, output).1 is Ok,
        ({
            let now = regs.now(addr, timer_setting(s, addr, value, clock, output).0);
            let mode = now.at(0x11) as int;
            &&& now.at(0x10) == value
            &&& mode / 4 % 2 == 1
            &&& mode / 2 % 2 == 1
            &&& mode % 2 == (if output is Pulse { 1int } else { 0 })
            &&& mode / 8 == clock.code()
            &&& now.at(1) & 0x08 == 0
            &&& now.at(1) & 0xF7 == regs.now(addr, s).at(1) & 0xF7
        }),
{
    let t = timer_setting(s, addr, value, clock, output).0;
    let f = |v: u8| v & !0x08u8;
    let mode = timer_mode(clock, output);
    timer_mode_by_bits(clock, output);
    let (s1, e1) = s.write_reg(addr, 0x10, value);
    if e1 is Err {
        assert(t == s1);
        written_register_is_held(regs, addr, s, 0x10, value);
    } else {
        let (s2, e2) = ctrl2_change(s1, addr, f);
        assert(ctrl2_change(s1, addr, |v: u8| v & !crate::rtc::CTRL2_TF) == ctrl2_change(s1, addr, f)) by {
            assert((|v: u8| v & !crate::rtc::CTRL2_TF) =~= f);
        }
        if e2 is Err {
            assert(t == s2);
            control_change_is_kept(regs, addr, s1, f);
        } else {
            assert(t == s2.write_reg(addr, 0x11, mode).0);
            written_register_is_held(regs, addr, s2, 0x11, mode);
            control_change_is_kept(regs, addr, s1, f);
            written_register_is_held(regs, addr, s, 0x10, value);
            let v = regs.now(addr, s).at(1);
            assert((v & !0x08u8) & 0x08 == 0 && (v & !0x08u8) & 0xF7 == v & 0xF7) by (bit_vector);
        }
    }
}

/// A timer value of 0 is refused, and nothing is sent.
pub proof fn no_timer_of_zero(s: Session, addr: u8, clock: TimerClock, output: TimerOutput)
    ensures
        timer_setting(s, addr, 0, clock, output) == (s, Err::<(), Error<Fault>>(Error::InvalidValue)),
{
}

/// An alarm that was armed: registers 0x0B to 0x0F hold it, and in
/// register 1 the interrupt (bit 7) is enabled and the flag (bit 6)
/// clear, with the other bits kept.
pub proof fn set_alarm_arms(regs: Registers, addr: u8, s: Session, a: Alarm)
    requires
        regs.answers(addr, alarm_setting(s, addr, a).0),
    ensures
        alarm_setting(s, addr, a).1 is Ok,
        ({
            let now = regs.now(addr, alarm_setting(s, addr, a).0);
            &&& forall|i: int| 0 <= i < 5 ==> #[trigger] now.at(0x0B + i) == alarm_bytes(a)[i]
            &&& now.at(1) & 0x80 == 0x80
            &&& now.at(1) & 0x40 == 0
            &&& now.at(1) & 0x3F == regs.now(addr, s).at(1) & 0x3F
        }),
{
    let t = alarm_setting(s, addr, a).0;
    let f = |v: u8| (v & !0x40u8) | 0x80u8;
    let out = seq![0x0Bu8] + alarm_bytes(a);
    let (s1, e1) = s.write(addr, out);
    if e1 is Err {
        assert(t == s1);
        write_is_kept(regs, addr, s, out);
    } else {
        assert((|v: u8| (v & !crate::rtc::CTRL2_AF) | crate::rtc::CTRL2_AIE) =~= f);
        assert(t == ctrl2_change(s1, addr, f).0);
        control_change_is_kept(regs, addr, s1, f);
        write_is_kept(regs, addr, s, out);
        let v = regs.now(addr, s).at(1);
        assert(((v & !0x40u8) | 0x80u8) & 0x80 == 0x80 && ((v & !0x40u8) | 0x80u8) & 0x40 == 0 && ((v & !0x40u8)
            | 0x80u8) & 0x3F == v & 0x3F) by (bit_vector);
        let now = regs.now(addr, t);
        assert forall|i: int| 0 <= i < 5 implies #[trigger] now.at(0x0B + i) == alarm_bytes(a)[i] by {
            assert(regs.now(addr, t).at(0x0B + i) == regs.now(addr, s1).at(0x0B + i));
        }
    }
}

/// A time that was set stands in registers 4 to 10, and the clock runs:
/// bit 5 of register 0 is clear, its other bits kept.
pub proof fn set_time_runs(regs: Registers, addr: u8, s: Session, dt: DateTime)
    requires
        regs.answers(addr, time_setting(s, addr, dt).0),
    ensures
        time_setting(s, addr, dt).1 is Ok,
        ({
            let now = regs.now(addr, time_setting(s, addr, dt).0);
            &&& forall|i: int| 0 <= i < 7 ==> #[trigger] now.at(4 + i) == time_bytes(dt)[i]
            &&& now.at(0) & 0x20 == 0
            &&& now.at(0) & 0xDF == regs.now(addr, s).at(0) & 0xDF
        }),
{
    let t = time_setting(s, addr, dt).0;
    let (s1, r1) = s.read_reg(addr, 0);
    if r1 is Err {
        assert(t == s1);
        read_gives_the_register(regs, addr, s, 0);
    } else {
        let v = r1->Ok_0;
        let (s2, r2) = s1.write_reg(addr, 0, v | 0x20);
        if r2 is Err {
            assert(t == s2);
            written_register_is_held(regs, addr, s1, 0, v | 0x20);
        } else {
            let out = seq![4u8] + time_bytes(dt);
            let (s3, r3) = s2.write(addr, out);
            if r3 is Err {
                assert(t == s3);
                write_is_kept(regs, addr, s2, out);
            } else {
                assert(t == s3.write_reg(addr, 0, v & !0x20u8).0);
                written_register_is_held(regs, addr, s3, 0, v & !0x20u8);
                write_is_kept(regs, addr, s2, out);
                written_register_is_held(regs, addr, s1, 0, v | 0x20);
                read_gives_the_register(regs, addr, s, 0);
                assert((v & !0x20u8) & 0x20 == 0 && (v & !0x20u8) & 0xDF == v & 0xDF) by (bit_vector);
                let now = regs.now(addr, t);
                assert forall|i: int| 0 <= i < 7 implies #[trigger] now.at(4 + i) == time_bytes(dt)[i] by {
                    assert(regs.now(addr, t).at(4 + i) == regs.now(addr, s3).at(4 + i));
                }
            }
        }
    }
}

/// The offset is written to register 2; in coarse mode only where neither
/// minute interrupt (bits 5 and 4 of register 1) is enabled, else it is
/// refused and nothing changes.
pub proof fn offset_and_minute_interrupts_exclude(regs: Registers, addr: u8, s: Session, mode: OffsetMode, offset: i8)
    requires
        regs.answers(addr, offset_setting(s, addr, mode, offset).0),
    ensures
        ({
            let (t, e) = offset_setting(s, addr, mode, offset);
            let enabled = regs.now(addr, s).at(1) & 0x30 != 0;
            if mode is Coarse && enabled {
                e == Err::<(), Error<Fault>>(Error::InvalidMode) && forall|r: int| #[trigger]
                    regs.now(addr, t).at(r) == regs.now(addr, s).at(r)
            } else {
                e is Ok && regs.now(addr, t).at(2) == offset_byte(mode, offset) && forall|r: int|
                    r != 2 ==> #[trigger] regs.now(addr, t).at(r) == regs.now(addr, s).at(r)
            }
        }),
{
    let t = offset_setting(s, addr, mode, offset).0;
    let b = offset_byte(mode, offset);
    if mode is Coarse {
        let (s1, e) = s.read_reg(addr, 1);
        assert(0x20u8 | 0x10u8 == 0x30u8) by (bit_vector);
        if e is Err {
            assert(t == s1);
            read_gives_the_register(regs, addr, s, 1);
        } else if e->Ok_0 & 0x30 != 0 {
            assert(t == s1);
            read_gives_the_register(regs, addr, s, 1);
        } else {
            assert(t == s1.write_reg(addr, 2, b).0);
            written_register_is_held(regs, addr, s1, 2, b);
            read_gives_the_register(regs, addr, s, 1);
        }
    } else {
        written_register_is_held(regs, addr, s, 2, b);
    }
}

/// The check before a minute interrupt: refused exactly where bit 7 of
/// register 2 is set.
pub proof fn minute_interrupts_need_normal_mode(regs: Registers, addr: u8, s: Session)
    requires
        regs.answers(addr, normal_mode_check(s, addr).0),
    ensures
        normal_mode_check(s, addr).1 == (if regs.now(addr, s).at(2) & 0x80 != 0 {
            Err::<(), Error<Fault>>(Error::InvalidMode)
        } else {
            Ok(())
        }),
{
    assert(normal_mode_check(s, addr).0 == s.read_reg(addr, 2).0);
    read_gives_the_register(regs, addr, s, 2);
}

/// A test of a register says whether any of the bits is set there.
pub proof fn tests_say_what_is_there(regs: Registers, addr: u8, s: Session, r: u8, mask: u8)
    requires
        regs.answers(addr, testing(s, addr, r, mask).0),
    ensures
        testing(s, addr, r, mask).1 == Ok::<bool, Error<Fault>>(regs.now(addr, s).at(r as int) & mask != 0),
{
    assert(testing(s, addr, r, mask).0 == s.read_reg(addr, r).0);
    read_gives_the_register(regs, addr, s, r);
}

/// The chip's address and the registers and bits that the contracts name.
pub proof fn register_map()
    ensures
        crate::rtc::DEFAULT_ADDRESS == 0x51,
        crate::rtc::REG_CTRL1 == 0 && crate::rtc::REG_CTRL2 == 1 && crate::rtc::REG_OFFSET == 2,
        crate::rtc::REG_RAM == 3 && crate::rtc::REG_SECONDS == 4 && crate::rtc::REG_ALARM_SECOND == 0x0B,
        crate::rtc::REG_TIMER_VALUE == 0x10 && crate::rtc::REG_TIMER_MODE == 0x11,
        crate::rtc::CTRL1_STOP == 0x20 && crate::rtc::CTRL1_12_24 == 0x02 && crate::rtc::CTRL1_CAP_SEL == 0x01,
        crate::rtc::CTRL1_RESET == 0x58,
        crate::rtc::CTRL2_AIE == 0x80 && crate::rtc::CTRL2_AF == 0x40 && crate::rtc::CTRL2_MI == 0x20,
        crate::rtc::CTRL2_HMI == 0x10 && crate::rtc::CTRL2_TF == 0x08 && crate::rtc::CTRL2_COF == 0x07,
        crate::rtc::OFFSET_MODE == 0x80 && crate::rtc::SECONDS_OS == 0x80 && crate::rtc::AEN == 0x80,
        crate::rtc::TIMER_TE == 0x04 && crate::rtc::TIMER_TIE == 0x02 && crate::rtc::TIMER_TI_TP == 0x01,
{
}

/// A clock brought up says whether it had stopped (bit 7 of register 4),
/// runs in 24 h mode with its 7 pF capacitor, and has no interrupt enabled
/// and no timer running. One that had not stopped keeps its other settings.
#[verifier::rlimit(60)]
pub proof fn clock_is_brought_up(regs: Registers, addr: u8, s: Session)
    requires
        regs.answers(addr, bringing_up(s, addr).0),
    ensures
        ({
            let (before, now) = (regs.now(addr, s), regs.now(addr, bringing_up(s, addr).0));
            &&& bringing_up(s, addr).1 == Ok::<bool, Error<Fault>>(before.at(4) >= 0x80)
            &&& now.at(0) & 0x20 == 0 && now.at(0) & 0x02 == 0 && now.at(0) & 0x01 == 0x01
            &&& before.at(4) < 0x80 ==> now.at(0) & 0xDC == before.at(0) & 0xDC
            &&& now.at(1) == 0
            &&& now.at(0x11) & 0x06 == 0 && now.at(0x11) & 0xF9 == before.at(0x11) & 0xF9
            &&& forall|r: int| r != 0 && r != 1 && r != 0x11 ==> #[trigger] now.at(r) == before.at(r)
        }),
{
    let t = bringing_up(s, addr).0;
    let (s1, e1) = s.read_reg(addr, 4);
    if e1 is Err {
        assert(t == s1);
        read_gives_the_register(regs, addr, s, 4);
    } else {
        let v = e1->Ok_0;
        crate::laws::bits::bits_by_place(v);
        let stopped = v & 0x80 != 0;
        assert(t == crate::rtc::initialising(s1, addr, stopped).0);
        start_is_kept(regs, addr, s1, stopped);
        read_gives_the_register(regs, addr, s, 4);
    }
}

proof fn start_is_kept(regs: Registers, addr: u8, s: Session, stopped: bool)
    requires
        regs.answers(addr, crate::rtc::initialising(s, addr, stopped).0),
    ensures
        regs.answers(addr, s),
        crate::rtc::initialising(s, addr, stopped).1 == Ok::<bool, Error<Fault>>(stopped),
        ({
            let (before, now) = (regs.now(addr, s), regs.now(addr, crate::rtc::initialising(s, addr, stopped).0));
            &&& now.at(0) & 0x20 == 0 && now.at(0) & 0x02 == 0 && now.at(0) & 0x01 == 0x01
            &&& !stopped ==> now.at(0) & 0xDC == before.at(0) & 0xDC
            &&& now.at(1) == 0
            &&& now.at(0x11) & 0x06 == 0 && now.at(0x11) & 0xF9 == before.at(0x11) & 0xF9
            &&& forall|r: int| r != 0 && r != 1 && r != 0x11 ==> #[trigger] now.at(r) == before.at(r)
        }),
{
    let t = crate::rtc::initialising(s, addr, stopped).0;
    let (s1, e1) = if stopped { s.write_reg(addr, 0, 0x58) } else { (s, Ok(())) };
    if e1 is Err {
        assert(t == s1);
        written_register_is_held(regs, addr, s, 0, 0x58);
    } else {
        let (s2, e2) = s1.read_reg(addr, 0);
        if e2 is Err {
            assert(t == s2);
            read_gives_the_register(regs, addr, s1, 0);
        } else {
            let v = e2->Ok_0;
            let w = running_ctrl1(v);
            running_control(v);
            let (s3, e3) = if w != v { s2.write_reg(addr, 0, w) } else { (s2, Ok(())) };
            if e3 is Err {
                assert(t == s3);
                written_register_is_held(regs, addr, s2, 0, w);
            } else {
                assert(t == crate::rtc::hygiene(s3, addr, stopped).0);
                timer_is_stopped(regs, addr, s3, stopped);
                if w != v {
                    written_register_is_held(regs, addr, s2, 0, w);
                }
            }
            read_gives_the_register(regs, addr, s1, 0);
        }
        if stopped {
            written_register_is_held(regs, addr, s, 0, 0x58);
        }
    }
}

proof fn timer_is_stopped(regs: Registers, addr: u8, s: Session, stopped: bool)
    requires
        regs.answers(addr, crate::rtc::hygiene(s, addr, stopped).0),
    ensures
        regs.answers(addr, s),
        crate::rtc::hygiene(s, addr, stopped).1 == Ok::<bool, Error<Fault>>(stopped),
        ({
            let (before, now) = (regs.now(addr, s), regs.now(addr, crate::rtc::hygiene(s, addr, stopped).0));
            &&& now.at(1) == 0
            &&& now.at(0x11) & 0x06 == 0 && now.at(0x11) & 0xF9 == before.at(0x11) & 0xF9
            &&& forall|r: int| r != 1 && r != 0x11 ==> #[trigger] now.at(r) == before.at(r)
        }),
{
    let t = crate::rtc::hygiene(s, addr, stopped).0;
    let (s1, e1) = s.write_reg(addr, 1, 0);
    if e1 is Err {
        assert(t == s1);
    } else {
        let (s2, e2) = s1.read_reg(addr, 0x11);
        assert(0x04u8 | 0x02u8 == 0x06u8 && !0x06u8 == 0xF9u8) by (bit_vector);
        if e2 is Err {
            assert(t == s2);
        } else {
            let m = e2->Ok_0;
            if m & 0x06 != 0 {
                assert(t == s2.write_reg(addr, 0x11, m & 0xF9).0);
                written_register_is_held(regs, addr, s2, 0x11, m & 0xF9);
                crate::laws::bits::bits_are_changed(m, 0x06);
            } else {
                assert(t == s2);
            }
        }
        read_gives_the_register(regs, addr, s1, 0x11);
    }
    written_register_is_held(regs, addr, s, 1, 0);
}

/// The time is read from registers 4 to 10, the alarm from 0Bh to 0Fh.
pub proof fn readings_by_register(regs: Registers, addr: u8, s: Session)
    ensures
        regs.answers(addr, time_reading(s, addr).0) ==> time_reading(s, addr).1 == Ok::<DateTime, Error<Fault>>(
            time_of(Seq::new(7, |j: int| regs.now(addr, s).at(4 + j))),
        ),
        regs.answers(addr, alarm_reading(s, addr).0) ==> alarm_reading(s, addr).1 == Ok::<Alarm, Error<Fault>>(
            alarm_of(Seq::new(5, |j: int| regs.now(addr, s).at(0x0B + j))),
        ),
{
    if regs.answers(addr, time_reading(s, addr).0) {
        assert(time_reading(s, addr).0 == s.read_regs(addr, 4, 7).0);
        crate::chip::read_gives_the_registers(regs, addr, s, 4, 7);
        assert(Seq::new(7, |j: int| regs.now(addr, s).at(4u8 + j)) =~= Seq::new(7, |j: int| regs.now(addr, s).at(4 + j)));
    }
    if regs.answers(addr, alarm_reading(s, addr).0) {
        assert(alarm_reading(s, addr).0 == s.read_regs(addr, 0x0B, 5).0);
        crate::chip::read_gives_the_registers(regs, addr, s, 0x0B, 5);
        assert(Seq::new(5, |j: int| regs.now(addr, s).at(0x0Bu8 + j)) =~= Seq::new(
            5,
            |j: int| regs.now(addr, s).at(0x0B + j),
        ));
    }
}

proof fn field_by_digits(b: u8, size: int, n: u8)
    requires
        b < size,
        size == 64 || size == 128,
        n < 100,
        digits(b, n as int),
    ensures
        crate::rtc::alarm_field(b, size) == Some(n),
{
    assert((b as int % size) as u8 == b);
    digits_give(b, n as int);
}

/// The fields of an alarm that are compared, by their digits.
pub proof fn alarm_by_digits(b: Seq<u8>, a: Alarm)
    requires
        b.len() == 5,
        a.second matches Some(n) && n < 60 && b[0] < 0x80 && digits(b[0], n as int),
        a.minute matches Some(n) && n < 60 && b[1] < 0x80 && digits(b[1], n as int),
        a.hour matches Some(n) && n < 24 && b[2] < 0x40 && digits(b[2], n as int),
        a.day matches Some(n) && n < 32 && b[3] < 0x40 && digits(b[3], n as int),
        a.weekday matches Some(n) && n < 7 && b[4] == n,
    ensures
        alarm_of(b) == a,
{
    field_by_digits(b[0], 128, a.second->0);
    field_by_digits(b[1], 128, a.minute->0);
    field_by_digits(b[2], 64, a.hour->0);
    field_by_digits(b[3], 64, a.day->0);
}

} // verus!
