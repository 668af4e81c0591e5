//! The plain motion sensor.

use vstd::prelude::*;
use crate::bus::{fit, Fault, Session};
use crate::chip::{read_gives_the_register, written_register_is_held, Registers};
use crate::laws::bits::{bits_are_changed, bits_by_place, single_bits};
use crate::laws::bytes::rounding_toward_zero;
use crate::laws::chip::{comes, get, program_is_held, programmed, put};
use crate::laws::fifo::signed16_at;
use crate::math::{magnitude, toward_zero};
use crate::qmi8658::types::{
    AccelScale, AeOdr, Error, FifoMode, FifoSize, GyroScale, LpfMode, Odr, WomConfig, WomInterrupt,
};
use crate::qmi8658::{
    accel_test_result, axis, ctrl9, estimating, filter_bits, gyro_test_result, init_ops, initialising, offset_ops,
    polling, rate_change, snapshot, summing, switching, test_dps, test_mg, testing, usid_reading, wom_check,
    wom_config, wom_high, Config,
};

verus! {

// ---- Settings by number -----------------------------------------------------

/// The full scale in g.
pub open spec fn full_scale_g(x: AccelScale) -> int {
    match x {
        AccelScale::G2 => 2,
        AccelScale::G4 => 4,
        AccelScale::G8 => 8,
        AccelScale::G16 => 16,
    }
}

/// The full scale in degrees per second.
pub open spec fn full_scale_dps(x: GyroScale) -> int {
    match x {
        GyroScale::Dps16 => 16,
        GyroScale::Dps32 => 32,
        GyroScale::Dps64 => 64,
        GyroScale::Dps128 => 128,
        GyroScale::Dps256 => 256,
        GyroScale::Dps512 => 512,
        GyroScale::Dps1024 => 1024,
        GyroScale::Dps2048 => 2048,
    }
}

/// The output data rate in hundredths of a Hz.
pub open spec fn rate_centihertz(x: Odr) -> int {
    match x {
        Odr::Hz8000 => 800000,
        Odr::Hz4000 => 400000,
        Odr::Hz2000 => 200000,
        Odr::Hz1000 => 100000,
        Odr::Hz500 => 50000,
        Odr::Hz250 => 25000,
        Odr::Hz125 => 12500,
        Odr::Hz62_5 => 6250,
        Odr::Hz31_25 => 3125,
    }
}

/// The rate of the attitude engine in Hz.
pub open spec fn attitude_hz(x: AeOdr) -> int {
    match x {
        AeOdr::Hz1 => 1,
        AeOdr::Hz2 => 2,
        AeOdr::Hz4 => 4,
        AeOdr::Hz8 => 8,
        AeOdr::Hz16 => 16,
        AeOdr::Hz32 => 32,
        AeOdr::Hz64 => 64,
    }
}

/// The number of samples the FIFO holds.
pub open spec fn samples(x: FifoSize) -> int {
    match x {
        FifoSize::Samples16 => 16,
        FifoSize::Samples32 => 32,
        FifoSize::Samples64 => 64,
        FifoSize::Samples128 => 128,
    }
}

/// Each scale code doubles the full scale, from 2 g and from 16 dps on.
pub proof fn scales_double(a: AccelScale, b: AccelScale, g: GyroScale, h: GyroScale)
    ensures
        a.range_g() == full_scale_g(a),
        g.range_dps() == full_scale_dps(g),
        0 <= a.code() <= 3 && 0 <= g.code() <= 7,
        (a.code() == 0) == (full_scale_g(a) == 2),
        (g.code() == 0) == (full_scale_dps(g) == 16),
        b.code() == a.code() + 1 ==> full_scale_g(b) == 2 * full_scale_g(a),
        h.code() == g.code() + 1 ==> full_scale_dps(h) == 2 * full_scale_dps(g),
{
}

/// Each rate code halves the output data rate, from 8000 Hz on.
pub proof fn rates_halve(a: Odr, b: Odr)
    ensures
        a.code() <= 8,
        (a.code() == 0) == (rate_centihertz(a) == 800000),
        b.code() == a.code() + 1 ==> rate_centihertz(a) == 2 * rate_centihertz(b),
{
}

/// Each code of the attitude engine doubles its rate, from 1 Hz on; each
/// code of the FIFO size doubles it, from 16 samples on.
pub proof fn sizes_double(a: AeOdr, b: AeOdr, f: FifoSize, g: FifoSize)
    ensures
        a.code() <= 6 && 0 <= f.code() <= 3,
        (a.code() == 0) == (attitude_hz(a) == 1),
        b.code() == a.code() + 1 ==> attitude_hz(b) == 2 * attitude_hz(a),
        (f.code() == 0) == (samples(f) == 16),
        g.code() == f.code() + 1 ==> samples(g) == 2 * samples(f),
{
}

/// The other codes: filter modes by their number, FIFO modes in order, and
/// the wake interrupt with bit 0 for the pin and bit 1 for its first
/// level.
pub proof fn modes_by_number(l: LpfMode, f: FifoMode, w: WomInterrupt)
    ensures
        (l is Mode0) == (l.code() == 0) && (l is Mode1) == (l.code() == 1) && (l is Mode2) == (l.code() == 2) && (l
            is Mode3) == (l.code() == 3),
        (f is Bypass) == (f.code() == 0) && (f is Fifo) == (f.code() == 1) && (f is Streaming) == (f.code() == 2),
        0 <= w.code() <= 3,
        (w.code() % 2 == 1) == (w is Int2Low || w is Int2High),
        (w.code() / 2 == 1) == (w is Int1High || w is Int2High),
{
}

/// The filter register: bit 4 and the mode in bits 6:5 for the gyroscope,
/// bit 0 and the mode in bits 2:1 for the accelerometer.
pub proof fn filters_by_bit(gyro: Option<LpfMode>, accel: Option<LpfMode>)
    ensures
        ({
            let v = filter_bits(gyro, accel) as int;
            &&& (v / 16 % 2 == 1) == (gyro is Some)
            &&& (v % 2 == 1) == (accel is Some)
            &&& gyro matches Some(m) ==> v / 32 == m.code()
            &&& gyro is None ==> v / 32 == 0
            &&& accel matches Some(m) ==> v / 2 % 4 == m.code()
            &&& v / 8 % 2 == 0
        }),
{
}

/// The second wake register: the interrupt in bits 7:6, the blanking time
/// in bits 5:0.
pub proof fn wake_register_by_bit(cfg: WomConfig)
    ensures
        wom_high(cfg) as int / 64 == cfg.interrupt.code(),
        wom_high(cfg) as int % 64 == cfg.blanking_samples as int % 64,
{
}

// ---- Samples ----------------------------------------------------------------

/// Where everything stands in a burst of 14 bytes: temperature, three
/// accelerations and three turn rates, two bytes each, low byte first; the
/// bias is taken off the turn rates, which are held to 16 bits.
pub proof fn snapshot_by_digits(b: Seq<u8>, bias: (i16, i16, i16), gx: i16, gy: i16, gz: i16)
    requires
        b.len() == 14,
        signed16_at(b, 8, gx),
        signed16_at(b, 10, gy),
        signed16_at(b, 12, gz),
    ensures
        ({
            let d = snapshot(b, bias);
            &&& signed16_at(b, 0, d.temp_raw)
            &&& signed16_at(b, 2, d.accel_x)
            &&& signed16_at(b, 4, d.accel_y)
            &&& signed16_at(b, 6, d.accel_z)
            &&& -32768 <= gx - bias.0 <= 32767 ==> d.gyro_x + bias.0 == gx
            &&& -32768 <= gy - bias.1 <= 32767 ==> d.gyro_y + bias.1 == gy
            &&& -32768 <= gz - bias.2 <= 32767 ==> d.gyro_z + bias.2 == gz
            &&& gx - bias.0 > 32767 ==> d.gyro_x == 32767
            &&& gx - bias.0 < -32768 ==> d.gyro_x == -32768
            &&& gy - bias.1 > 32767 ==> d.gyro_y == 32767
            &&& gy - bias.1 < -32768 ==> d.gyro_y == -32768
            &&& gz - bias.2 > 32767 ==> d.gyro_z == 32767
            &&& gz - bias.2 < -32768 ==> d.gyro_z == -32768
            &&& d.steps is None
        }),
{
}

/// A self-test burst gives three axes, the accelerometer's in 1/2048 g,
/// the gyroscope's in 1/16 dps, to less than a unit; it is passed where
/// all three exceed 200 mg, or 300 dps, in either direction.
pub proof fn self_tests_by_digits(b: Seq<u8>, x: i16, y: i16, z: i16)
    requires
        b.len() == 6,
        signed16_at(b, 0, x),
        signed16_at(b, 2, y),
        signed16_at(b, 4, z),
    ensures
        ({
            let a = accel_test_result(b);
            &&& magnitude(2048 * a.x_mg - 1000 * x) < 2048 && magnitude(a.x_mg as int) * 2048 <= 1000 * magnitude(x as int)
            &&& magnitude(2048 * a.y_mg - 1000 * y) < 2048 && magnitude(a.y_mg as int) * 2048 <= 1000 * magnitude(y as int)
            &&& magnitude(2048 * a.z_mg - 1000 * z) < 2048 && magnitude(a.z_mg as int) * 2048 <= 1000 * magnitude(z as int)
            &&& a.passed == ((a.x_mg > 200 || a.x_mg < -200) && (a.y_mg > 200 || a.y_mg < -200) && (a.z_mg > 200
                || a.z_mg < -200))
        }),
        ({
            let g = gyro_test_result(b);
            &&& magnitude(16 * g.x_dps - x) < 16 && magnitude(g.x_dps as int) * 16 <= magnitude(x as int)
            &&& magnitude(16 * g.y_dps - y) < 16 && magnitude(g.y_dps as int) * 16 <= magnitude(y as int)
            &&& magnitude(16 * g.z_dps - z) < 16 && magnitude(g.z_dps as int) * 16 <= magnitude(z as int)
            &&& g.passed == ((g.x_dps > 300 || g.x_dps < -300) && (g.y_dps > 300 || g.y_dps < -300) && (g.z_dps > 300
                || g.z_dps < -300))
        }),
{
    assert(axis(b, 0) == x && axis(b, 2) == y && axis(b, 4) == z);
    test_units(x as int);
    test_units(y as int);
    test_units(z as int);
}

proof fn test_units(raw: int)
    requires
        -32768 <= raw <= 32767,
    ensures
        magnitude(2048 * test_mg(raw) - 1000 * raw) < 2048,
        magnitude(test_mg(raw)) * 2048 <= 1000 * magnitude(raw),
        -16000 <= test_mg(raw) <= 16000,
        magnitude(16 * test_dps(raw) - raw) < 16,
        magnitude(test_dps(raw)) * 16 <= magnitude(raw),
        -2048 <= test_dps(raw) <= 2048,
{
    rounding_toward_zero(raw * 1000, 2048);
    rounding_toward_zero(raw, 16);
}

/// The two bytes of `d` from `o` on as a signed number.
pub open spec fn number_at(d: Seq<u8>, o: int) -> int {
    let n = d[o] + 256 * d[o + 1];
    if n < 32768 { n } else { n - 65536 }
}

/// The sum over the `n` samples that come after `s`, each behind a status
/// that says it is fresh: the numbers at offset `o`.
pub open spec fn sample_sum(s: Session, n: nat, o: int) -> int
    decreases n,
{
    if n == 0 {
        0
    } else {
        let m = s.sent.len();
        sample_sum(s, (n - 1) as nat, o) + match s.replies[m + 2 * n - 1] {
            crate::bus::Rep::Data(d) => number_at(d, o),
            crate::bus::Rep::Failed(_) => 0,
        }
    }
}

/// The replies to the `k`-th sample: a status with bit 1 set and six bytes
/// of data.
pub open spec fn sample_comes(s: Session, k: int) -> bool {
    exists|st: Seq<u8>, d: Seq<u8>|
        #![trigger comes(s, 2 * k, st), comes(s, 2 * k + 1, d)]
        comes(s, 2 * k, st) && comes(s, 2 * k + 1, d) && st.len() == 1 && d.len() == 6 && st[0] as int / 2 % 2 == 1
}

proof fn sample_is_added(s: Session, addr: u8, n: nat, x: int, y: int, z: int)
    requires
        !s.stalled(),
        n > 0,
        sample_comes(s, 0),
    ensures
        ({
            let s1 = s.after(get(addr, 0x2E, 1));
            let s2 = s1.after(get(addr, 0x3B, 6));
            &&& s2.sent.len() == s.sent.len() + 2 && s2.replies == s.replies && !s2.stalled()
            &&& s.replies[s.sent.len() as int + 1] matches crate::bus::Rep::Data(d) && summing(s, addr, n, x, y, z) == summing(
                s2,
                addr,
                (n - 1) as nat,
                x + number_at(d, 0),
                y + number_at(d, 2),
                z + number_at(d, 4),
            )
        }),
{
    let k0 = 0int;
    let (st, d) = choose|st: Seq<u8>, d: Seq<u8>|
        #![trigger comes(s, 2 * k0, st), comes(s, 2 * k0 + 1, d)]
        comes(s, 2 * k0, st) && comes(s, 2 * k0 + 1, d) && st.len() == 1 && d.len() == 6 && st[0] as int / 2 % 2 == 1;
    let v = st[0];
    bits_by_place(v);
    single_bits();
    reveal_with_fuel(polling, 2);
    assert(fit(d, 6) =~= d);
    assert(fit(st, 1) =~= st);
    let s1 = s.after(get(addr, 0x2E, 1));
    assert(polling(s, addr, 0x2E, 0x02, true, 1000) == (s1, Ok::<(), Error<Fault>>(())));
    assert(s1.read_regs(addr, 0x3B, 6).1 == Ok::<Seq<u8>, Fault>(d));
    assert(axis(d, 0) == number_at(d, 0) && axis(d, 2) == number_at(d, 2) && axis(d, 4) == number_at(d, 4));
}

proof fn sums_from_the_second(s: Session, s2: Session, n: nat, o: int)
    requires
        s2.sent.len() == s.sent.len() + 2,
        s2.replies == s.replies,
    ensures
        sample_sum(s, n + 1, o) == sample_sum(s2, n, o) + match s.replies[s.sent.len() as int + 1] {
            crate::bus::Rep::Data(d) => number_at(d, o),
            crate::bus::Rep::Failed(_) => 0,
        },
    decreases n,
{
    if n > 0 {
        sums_from_the_second(s, s2, (n - 1) as nat, o);
        assert(s.sent.len() + 2 * (n + 1) - 1 == s2.sent.len() + 2 * n - 1);
    } else {
        assert(sample_sum(s, 0, o) == 0);
        assert(s.sent.len() + 2 * (n + 1) - 1 == s.sent.len() + 1);
    }
}

/// The sums over `n` fresh samples are the sums of their numbers, axis by
/// axis.
pub proof fn samples_are_summed(s: Session, addr: u8, n: nat, x: int, y: int, z: int)
    requires
        !s.stalled(),
        forall|k: int| 0 <= k < n ==> #[trigger] sample_comes(s, k),
    ensures
        summing(s, addr, n, x, y, z).1 == Ok::<(int, int, int), Error<Fault>>(
            (x + sample_sum(s, n, 0), y + sample_sum(s, n, 2), z + sample_sum(s, n, 4)),
        ),
    decreases n,
{
    if n > 0 {
        assert(sample_comes(s, 0));
        sample_is_added(s, addr, n, x, y, z);
        let s1 = s.after(get(addr, 0x2E, 1));
        let s2 = s1.after(get(addr, 0x3B, 6));
        let m = (n - 1) as nat;
        assert forall|k: int| 0 <= k < m implies #[trigger] sample_comes(s2, k) by {
            assert(sample_comes(s, k + 1));
            let (st, d) = choose|st: Seq<u8>, d: Seq<u8>|
                #![trigger comes(s, 2 * (k + 1), st), comes(s, 2 * (k + 1) + 1, d)]
                comes(s, 2 * (k + 1), st) && comes(s, 2 * (k + 1) + 1, d) && st.len() == 1 && d.len() == 6
                    && st[0] as int / 2 % 2 == 1;
            assert(comes(s2, 2 * k, st) && comes(s2, 2 * k + 1, d));
        }
        if let crate::bus::Rep::Data(d) = s.replies[s.sent.len() as int + 1] {
            samples_are_summed(s2, addr, m, x + number_at(d, 0), y + number_at(d, 2), z + number_at(d, 4));
        }
        sums_from_the_second(s, s2, m, 0);
        sums_from_the_second(s, s2, m, 2);
        sums_from_the_second(s, s2, m, 4);
    }
}

/// The bias is, axis by axis, the mean of the samples: `n` times the bias
/// misses their sum by less than `n`, on the side of zero.
pub proof fn bias_is_the_mean(s: Session, addr: u8, n: nat)
    requires
        !s.stalled(),
        n > 0,
        forall|k: int| 0 <= k < n ==> #[trigger] sample_comes(s, k),
    ensures
        estimating(s, addr, n).1 matches Ok((bx, by, bz)) && bx == toward_zero(sample_sum(s, n, 0), n as int) as i16 && by
            == toward_zero(sample_sum(s, n, 2), n as int) as i16 && bz == toward_zero(sample_sum(s, n, 4), n as int) as i16,
        magnitude(sample_sum(s, n, 0) - n * toward_zero(sample_sum(s, n, 0), n as int)) < n,
        magnitude(sample_sum(s, n, 2) - n * toward_zero(sample_sum(s, n, 2), n as int)) < n,
        magnitude(sample_sum(s, n, 4) - n * toward_zero(sample_sum(s, n, 4), n as int)) < n,
{
    samples_are_summed(s, addr, n, 0, 0, 0);
    rounding_toward_zero(sample_sum(s, n, 0), n as int);
    rounding_toward_zero(sample_sum(s, n, 2), n as int);
    rounding_toward_zero(sample_sum(s, n, 4), n as int);
}

// ---- On a chip that keeps its registers -------------------------------------

/// A switch sets or clears its bits and keeps all others.
pub proof fn switched_bits(regs: Registers, addr: u8, s: Session, r: u8, mask: u8, on: bool)
    requires
        regs.answers(addr, switching(s, addr, r, mask, on).0),
    ensures
        switching(s, addr, r, mask, on).1 is Ok,
        ({
            let (before, after) = (regs.now(addr, s), regs.now(addr, switching(s, addr, r, mask, on).0));
            &&& after.at(r as int) & mask == (if on { mask } else { 0 })
            &&& after.at(r as int) & !mask == before.at(r as int) & !mask
            &&& forall|q: int| q != r ==> #[trigger] after.at(q) == before.at(q)
        }),
{
    let t = switching(s, addr, r, mask, on).0;
    let (s1, e) = s.read_reg(addr, r);
    if e is Err {
        assert(t == s1);
        read_gives_the_register(regs, addr, s, r);
    } else {
        let v = e->Ok_0;
        let val: u8 = if on { v | mask } else { v & !mask };
        assert(t == s1.write_reg(addr, r, val).0);
        written_register_is_held(regs, addr, s1, r, val);
        read_gives_the_register(regs, addr, s, r);
        bits_are_changed(v, mask);
    }
}

/// A rate change replaces the low half of its register by the rate code
/// and keeps the high half.
pub proof fn rate_is_replaced(regs: Registers, addr: u8, s: Session, r: u8, odr: Odr)
    requires
        regs.answers(addr, rate_change(s, addr, r, odr).0),
    ensures
        rate_change(s, addr, r, odr).1 is Ok,
        ({
            let (before, after) = (regs.now(addr, s), regs.now(addr, rate_change(s, addr, r, odr).0));
            &&& after.at(r as int) as int % 16 == odr.code()
            &&& after.at(r as int) as int / 16 == before.at(r as int) as int / 16
            &&& forall|q: int| q != r ==> #[trigger] after.at(q) == before.at(q)
        }),
{
    let t = rate_change(s, addr, r, odr).0;
    let (s1, e) = s.read_reg(addr, r);
    if e is Err {
        assert(t == s1);
        read_gives_the_register(regs, addr, s, r);
    } else {
        let (v, c) = (e->Ok_0, odr.code());
        assert(t == s1.write_reg(addr, r, (v & 0xF0) | c).0);
        written_register_is_held(regs, addr, s1, r, (v & 0xF0) | c);
        read_gives_the_register(regs, addr, s, r);
        assert(c < 16 ==> ((v & 0xF0) | c) % 16 == c && ((v & 0xF0) | c) / 16 == v / 16) by (bit_vector);
    }
}

/// A poll ends at once where the bits already are as wanted; where they
/// never are, it gives up after the tries.
pub proof fn poll_of_a_steady_register(regs: Registers, addr: u8, s: Session, r: u8, mask: u8, want: bool, tries: nat)
    requires
        regs.answers(addr, polling(s, addr, r, mask, want, tries).0),
    ensures
        regs.answers(addr, s),
        tries > 0 && (regs.now(addr, s).at(r as int) & mask != 0) == want ==> polling(s, addr, r, mask, want, tries) == (
            s.after(get(addr, r, 1)),
            Ok::<(), Error<Fault>>(()),
        ),
        (regs.now(addr, s).at(r as int) & mask != 0) != want ==> polling(s, addr, r, mask, want, tries).1 == Err::<
            (),
            Error<Fault>,
        >(Error::Timeout) && polling(s, addr, r, mask, want, tries).0.sent.len() == s.sent.len() + tries,
        regs.now(addr, polling(s, addr, r, mask, want, tries).0) == regs.now(addr, s),
    decreases tries,
{
    if tries > 0 {
        let (s1, e) = s.read_reg(addr, r);
        if e is Ok && (e->Ok_0 & mask != 0) != want {
            poll_of_a_steady_register(regs, addr, s1, r, mask, want, (tries - 1) as nat);
        }
        read_gives_the_register(regs, addr, s, r);
    }
}

/// A CTRL9 command on a chip that reports completion (bit 7 of 2Dh): the
/// command is written to 0Ah, completion is read, and 0 acknowledges it.
pub proof fn ctrl9_handshake(regs: Registers, addr: u8, s: Session, command: u8)
    requires
        regs.answers(addr, ctrl9(s, addr, command).0),
        regs.now(addr, s).at(0x2D) & 0x80 != 0,
    ensures
        regs.answers(addr, s),
        ctrl9(s, addr, command).1 is Ok,
        ctrl9(s, addr, command).0.sent == s.sent.push(put(addr, 0x0A, command)).push(get(addr, 0x2D, 1)).push(
            put(addr, 0x0A, 0),
        ),
        regs.now(addr, ctrl9(s, addr, command).0).at(0x0A) == 0,
        forall|q: int| q != 0x0A ==> #[trigger] regs.now(addr, ctrl9(s, addr, command).0).at(q) == regs.now(addr, s).at(q),
{
    let t = ctrl9(s, addr, command).0;
    let (s1, e1) = s.write_reg(addr, 0x0A, command);
    if e1 is Err {
        assert(t == s1);
        written_register_is_held(regs, addr, s, 0x0A, command);
    } else {
        let (s2, e2) = polling(s1, addr, 0x2D, 0x80, true, 1000);
        if e2 is Err {
            assert(t == s2);
            poll_of_a_steady_register(regs, addr, s1, 0x2D, 0x80, true, 1000);
            written_register_is_held(regs, addr, s, 0x0A, command);
        } else {
            assert(t == s2.write_reg(addr, 0x0A, 0).0);
            written_register_is_held(regs, addr, s2, 0x0A, 0);
            poll_of_a_steady_register(regs, addr, s1, 0x2D, 0x80, true, 1000);
            written_register_is_held(regs, addr, s, 0x0A, command);
        }
    }
}

/// An initialised sensor: auto-increment (02h), the handshake (09h), the
/// accelerometer's and the gyroscope's scale above their rate (03h, 04h),
/// the filters (06h) and both sensors on (08h). A chip that does not
/// identify itself as 5 is refused.
#[verifier::rlimit(40)]
pub proof fn initialised_sensor(regs: Registers, addr: u8, s: Session, config: Config)
    requires
        regs.answers(addr, initialising(s, addr, config).0),
    ensures
        regs.now(addr, s).at(0) != 5 ==> initialising(s, addr, config).1 == Err::<(), Error<Fault>>(
            Error::DeviceNotFound,
        ) && initialising(s, addr, config).0.sent.len() == s.sent.len() + 1,
        regs.now(addr, s).at(0) == 5 ==> initialising(s, addr, config).1 is Ok && ({
            let now = regs.now(addr, initialising(s, addr, config).0);
            &&& now.at(0x02) == 0x60
            &&& now.at(0x09) == 0x80
            &&& now.at(0x03) as int / 16 == config.accel_scale.code()
            &&& now.at(0x03) as int % 16 == config.accel_odr.code()
            &&& now.at(0x04) as int / 16 == config.gyro_scale.code()
            &&& now.at(0x04) as int % 16 == config.gyro_odr.code()
            &&& now.at(0x06) == filter_bits(config.gyro_lpf, config.accel_lpf)
            &&& now.at(0x08) == 0x03
        }),
{
    let t = initialising(s, addr, config).0;
    let (s1, e) = s.read_reg(addr, 0);
    if e is Err {
        assert(t == s1);
        read_gives_the_register(regs, addr, s, 0);
    } else if e->Ok_0 != 5 {
        assert(t == s1);
        read_gives_the_register(regs, addr, s, 0);
    } else {
        let ops = init_ops(config);
        assert(t == s1.run(addr, ops).0);
        program_is_held(regs, addr, s1, ops);
        read_gives_the_register(regs, addr, s, 0);
        let now = regs.now(addr, t);
        let was = regs.now(addr, s1);
        reveal_with_fuel(programmed, 7);
        scales_double(config.accel_scale, config.accel_scale, config.gyro_scale, config.gyro_scale);
        rates_halve(config.accel_odr, config.gyro_odr);
        rates_halve(config.gyro_odr, config.gyro_odr);
        assert(now.at(0x02) == programmed(ops, 0x02, was.at(0x02)));
        assert(now.at(0x09) == programmed(ops, 0x09, was.at(0x09)));
        assert(now.at(0x03) == programmed(ops, 0x03, was.at(0x03)));
        assert(now.at(0x04) == programmed(ops, 0x04, was.at(0x04)));
        assert(now.at(0x06) == programmed(ops, 0x06, was.at(0x06)));
        assert(now.at(0x08) == programmed(ops, 0x08, was.at(0x08)));
    }
}

pub proof fn start_is_answered(regs: Registers, addr: u8, s: Session, config: Config)
    requires
        regs.answers(addr, initialising(s, addr, config).0),
    ensures
        regs.answers(addr, s),
{
    let (s1, e) = s.read_reg(addr, 0);
    if e is Ok && e->Ok_0 == 5 {
        assert(initialising(s, addr, config).0 == s1.run(addr, init_ops(config)).0);
        program_is_held(regs, addr, s1, init_ops(config));
    }
    read_gives_the_register(regs, addr, s, 0);
}

/// Offsets stand in the calibration registers 0Bh to 10h, two bytes each,
/// low byte first.
#[verifier::rlimit(40)]
pub proof fn offsets_are_loaded(regs: Registers, addr: u8, s: Session, dx: int, dy: int, dz: int)
    requires
        regs.answers(addr, s.run(addr, offset_ops(dx, dy, dz)).0),
    ensures
        ({
            let now = regs.now(addr, s.run(addr, offset_ops(dx, dy, dz)).0);
            &&& now.at(0x0B) + 256 * now.at(0x0C) == dx % 65536
            &&& now.at(0x0D) + 256 * now.at(0x0E) == dy % 65536
            &&& now.at(0x0F) + 256 * now.at(0x10) == dz % 65536
        }),
{
    let ops = offset_ops(dx, dy, dz);
    program_is_held(regs, addr, s, ops);
    let now = regs.now(addr, s.run(addr, ops).0);
    let was = regs.now(addr, s);
    reveal_with_fuel(programmed, 7);
    assert(now.at(0x0B) == programmed(ops, 0x0B, was.at(0x0B)));
    assert(now.at(0x0C) == programmed(ops, 0x0C, was.at(0x0C)));
    assert(now.at(0x0D) == programmed(ops, 0x0D, was.at(0x0D)));
    assert(now.at(0x0E) == programmed(ops, 0x0E, was.at(0x0E)));
    assert(now.at(0x0F) == programmed(ops, 0x0F, was.at(0x0F)));
    assert(now.at(0x10) == programmed(ops, 0x10, was.at(0x10)));
}

/// Wake-on-motion: threshold and interrupt stand in 0Bh and 0Ch when
/// command 8 is given.
pub proof fn wake_on_motion_is_loaded(regs: Registers, addr: u8, s: Session, low: u8, high: u8)
    requires
        regs.answers(addr, wom_config(s, addr, low, high).0),
        regs.now(addr, s).at(0x2D) & 0x80 != 0,
    ensures
        wom_config(s, addr, low, high).1 is Ok,
        wom_config(s, addr, low, high).0.sent == s.sent.push(put(addr, 0x0B, low)).push(put(addr, 0x0C, high)).push(
            put(addr, 0x0A, 8),
        ).push(get(addr, 0x2D, 1)).push(put(addr, 0x0A, 0)),
{
    let t = wom_config(s, addr, low, high).0;
    let ops = seq![
        crate::bus::Op::Put { reg: 0x0B, val: low },
        crate::bus::Op::Put { reg: 0x0C, val: high },
    ];
    let (s1, e1) = s.run(addr, ops);
    reveal_with_fuel(Session::run, 3);
    if e1 is Err {
        assert(t == s1);
        program_is_held(regs, addr, s, ops);
    } else {
        assert(t == ctrl9(s1, addr, 8).0);
        if regs.answers(addr, s1) {
            program_is_held(regs, addr, s, ops);
            reveal_with_fuel(programmed, 3);
            assert(regs.now(addr, s1).at(0x2D) == programmed(ops, 0x2D, regs.now(addr, s).at(0x2D)));
            ctrl9_handshake(regs, addr, s1, 8);
        } else {
            handshake_is_answered(regs, addr, s1, 8);
        }
        assert(ops.skip(1)[0] == ops[1]);
        assert(ops.skip(1).skip(1) =~= Seq::empty());
    }
}

pub proof fn handshake_is_answered(regs: Registers, addr: u8, s: Session, command: u8)
    requires
        regs.answers(addr, ctrl9(s, addr, command).0),
    ensures
        regs.answers(addr, s),
{
    let t = ctrl9(s, addr, command).0;
    let (s1, e1) = s.write_reg(addr, 0x0A, command);
    if e1 is Ok {
        let (s2, e2) = polling(s1, addr, 0x2D, 0x80, true, 1000);
        if e2 is Ok {
            assert(t == s2.write_reg(addr, 0x0A, 0).0);
            written_register_is_held(regs, addr, s2, 0x0A, 0);
        }
        poll_of_a_steady_register(regs, addr, s1, 0x2D, 0x80, true, 1000);
    }
    written_register_is_held(regs, addr, s, 0x0A, command);
}

/// A wake event is bit 2 of register 2Fh.
pub proof fn wake_event_by_bit(regs: Registers, addr: u8, s: Session)
    requires
        regs.answers(addr, wom_check(s, addr).0),
    ensures
        wom_check(s, addr).1 == Ok::<bool, Error<Fault>>(regs.now(addr, s).at(0x2F) as int / 4 % 2 == 1),
{
    assert(wom_check(s, addr).0 == s.read_reg(addr, 0x2F).0);
    read_gives_the_register(regs, addr, s, 0x2F);
    bits_by_place(regs.now(addr, s).at(0x2F));
}

/// The course of a self-test that goes well: sensors off (08h), the
/// self-test bit set over what the control register held, completion
/// awaited, the bit cleared, the acknowledgement awaited, six bytes read
/// from 51h.
#[verifier::rlimit(60)]
pub proof fn self_test_course(s: Session, addr: u8, ctrl: u8, c: u8, b: Seq<u8>)
    requires
        !s.stalled(),
        comes(s, 0, Seq::empty()),
        comes(s, 1, seq![c]),
        comes(s, 2, Seq::empty()),
        comes(s, 3, seq![0x01u8]),
        comes(s, 4, Seq::empty()),
        comes(s, 5, seq![0x00u8]),
        comes(s, 6, b),
        b.len() == 6,
    ensures
        testing(s, addr, ctrl).1 == Ok::<Seq<u8>, Error<Fault>>(b),
        testing(s, addr, ctrl).0.sent == s.sent.push(put(addr, 0x08, 0)).push(get(addr, ctrl, 1)).push(
            put(addr, ctrl, c | 0x80),
        ).push(get(addr, 0x2D, 1)).push(put(addr, ctrl, c & 0x7F)).push(get(addr, 0x2D, 1)).push(get(addr, 0x51, 6)),
{
    single_bits();
    bits_by_place(0x01);
    bits_by_place(0x00);
    let s1 = s.after(put(addr, 0x08, 0));
    let s2 = s1.after(get(addr, ctrl, 1));
    let s3 = s2.after(put(addr, ctrl, c | 0x80));
    let s4 = s3.after(get(addr, 0x2D, 1));
    let s5 = s4.after(put(addr, ctrl, c & 0x7F));
    let s6 = s5.after(get(addr, 0x2D, 1));
    assert(s.write_reg(addr, 0x08, 0) == (s1, Ok::<(), Fault>(())));
    assert(s1.read_reg(addr, ctrl) == (s2, Ok::<u8, Fault>(c)));
    assert(s2.write_reg(addr, ctrl, c | 0x80) == (s3, Ok::<(), Fault>(())));
    reveal_with_fuel(polling, 2);
    assert(polling(s3, addr, 0x2D, 0x01, true, 5000) == (s4, Ok::<(), Error<Fault>>(())));
    assert(s4.write_reg(addr, ctrl, c & 0x7F) == (s5, Ok::<(), Fault>(())));
    assert(polling(s5, addr, 0x2D, 0x01, false, 5000) == (s6, Ok::<(), Error<Fault>>(())));
    assert(fit(b, 6) =~= b);
}

/// The sensor's identity: firmware version from 49h, 4Ah and 4Bh, then the
/// unique ID from 51h on, after command 10h.
pub proof fn usid_registers(regs: Registers, addr: u8, s: Session)
    requires
        !s.stalled(),
        regs.answers(addr, usid_reading(s, addr).0),
        regs.now(addr, s).at(0x2D) & 0x80 != 0,
        usid_reading(s, addr).1 is Ok,
    ensures
        usid_reading(s, addr).1 matches Ok((fw, id)) && fw.len() == 3 && id.len() == 6 && fw[0] == regs.now(addr, s).at(0x49)
            && fw[1] == regs.now(addr, s).at(0x4A) && fw[2] == regs.now(addr, s).at(0x4B) && (forall|i: int|
            0 <= i < 6 ==> #[trigger] id[i] == regs.now(addr, s).at(0x51 + i)),
{
    let t = usid_reading(s, addr).0;
    let (s1, e1) = ctrl9(s, addr, 0x10);
    let (s2, e2) = s1.read_reg(addr, 0x49);
    let (s3, e3) = s2.read_reg(addr, 0x4A);
    let (s4, e4) = s3.read_reg(addr, 0x4B);
    assert(e1 is Ok && e2 is Ok && e3 is Ok && e4 is Ok);
    assert(t == s4.read_regs(addr, 0x51, 6).0);
    crate::chip::read_gives_the_registers(regs, addr, s4, 0x51, 6);
    read_gives_the_register(regs, addr, s3, 0x4B);
    read_gives_the_register(regs, addr, s2, 0x4A);
    read_gives_the_register(regs, addr, s1, 0x49);
    ctrl9_handshake(regs, addr, s, 0x10);
}

/// The self-tests are those behind 03h, the accelerometer's, and 04h, the
/// gyroscope's.
pub proof fn self_tests_by_register(s: Session, addr: u8)
    ensures
        crate::qmi8658::accel_testing(s, addr).0 == testing(s, addr, 0x03).0,
        crate::qmi8658::gyro_testing(s, addr).0 == testing(s, addr, 0x04).0,
        testing(s, addr, 0x03).1 matches Ok(b) ==> crate::qmi8658::accel_testing(s, addr).1 == Ok::<
            crate::qmi8658::AccelSelfTestResult,
            Error<Fault>,
        >(accel_test_result(b)),
        testing(s, addr, 0x04).1 matches Ok(b) ==> crate::qmi8658::gyro_testing(s, addr).1 == Ok::<
            crate::qmi8658::GyroSelfTestResult,
            Error<Fault>,
        >(gyro_test_result(b)),
{
}

/// A snapshot is made of the 14 bytes that come from 33h on.
pub proof fn snapshot_is_read(s: Session, addr: u8, bias: (i16, i16, i16), b: Seq<u8>)
    requires
        !s.stalled(),
        comes(s, 0, b),
        b.len() == 14,
    ensures
        crate::qmi8658::sampling(s, addr, bias).0.sent == s.sent.push(get(addr, 0x33, 14)),
        crate::qmi8658::sampling(s, addr, bias).1 == Ok::<crate::imu::ImuData, Error<Fault>>(snapshot(b, bias)),
{
    assert(fit(b, 14) =~= b);
}

/// Offsets are loaded first and applied by the command after it.
pub proof fn offsets_are_applied(regs: Registers, addr: u8, s: Session, dx: int, dy: int, dz: int, command: u8)
    requires
        regs.answers(addr, crate::qmi8658::applying(s, addr, dx, dy, dz, command).0),
        regs.now(addr, s).at(0x2D) & 0x80 != 0,
    ensures
        crate::qmi8658::applying(s, addr, dx, dy, dz, command).1 is Ok,
        ({
            let sent = crate::qmi8658::applying(s, addr, dx, dy, dz, command).0.sent;
            let now = regs.now(addr, crate::qmi8658::applying(s, addr, dx, dy, dz, command).0);
            &&& sent.len() >= 3
            &&& sent[sent.len() - 3] == put(addr, 0x0A, command)
            &&& sent[sent.len() - 1] == put(addr, 0x0A, 0)
            &&& now.at(0x0B) + 256 * now.at(0x0C) == dx % 65536
            &&& now.at(0x0D) + 256 * now.at(0x0E) == dy % 65536
            &&& now.at(0x0F) + 256 * now.at(0x10) == dz % 65536
        }),
{
    let ops = offset_ops(dx, dy, dz);
    let (s1, e1) = s.run(addr, ops);
    let t = crate::qmi8658::applying(s, addr, dx, dy, dz, command).0;
    if e1 is Err {
        assert(t == s1);
        program_is_held(regs, addr, s, ops);
    } else {
        assert(t == ctrl9(s1, addr, command).0);
        handshake_is_answered(regs, addr, s1, command);
        program_is_held(regs, addr, s, ops);
        offsets_are_loaded(regs, addr, s, dx, dy, dz);
        reveal_with_fuel(programmed, 7);
        assert(regs.now(addr, s1).at(0x2D) == programmed(ops, 0x2D, regs.now(addr, s).at(0x2D)));
        ctrl9_handshake(regs, addr, s1, command);
    }
}

/// Two registers are read in the order named.
pub proof fn pairs_in_order(regs: Registers, addr: u8, s: Session, a: u8, b: u8)
    requires
        regs.answers(addr, crate::qmi8658::reading_pair(s, addr, a, b).0),
    ensures
        crate::qmi8658::reading_pair(s, addr, a, b).1 == Ok::<(u8, u8), Error<Fault>>(
            (regs.now(addr, s).at(a as int), regs.now(addr, s).at(b as int)),
        ),
{
    let t = crate::qmi8658::reading_pair(s, addr, a, b).0;
    let (s1, e1) = s.read_reg(addr, a);
    if e1 is Err {
        assert(t == s1);
    } else {
        assert(t == s1.read_reg(addr, b).0);
        read_gives_the_register(regs, addr, s1, b);
    }
    read_gives_the_register(regs, addr, s, a);
}

} // verus!
