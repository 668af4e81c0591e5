//! The radio.

use vstd::prelude::*;
use crate::bus::{fit, merged, Fault, Rep, Req, Session};
use crate::bytes::bytes_be16;
use crate::laws::chip::comes;
use crate::sx1262::{
    answering, commanding, gain_setting, gfsk_modulation_bytes, half_negated, image_band_of, iq_polarity,
    modulation_quality, rate_word, reading_after, register_read, register_update, register_write, step_word, truth,
    AddrComp, CadExitMode, CadSymbols, ChipMode, CmdStatus, Error, FallbackMode, GfskBw, GfskCrc, GfskModParams,
    GfskPulseShape, LoRaBw, LoRaCr, LoRaSf, PaPreset, PacketType, PreambleDetector, RampTime, RegulatorMode, StandbyClk,
    Status, TcxoVoltage,
};

verus! {

// ---- Settings by number -----------------------------------------------------

/// Settings that the chip tells apart by a number only.
pub proof fn settings_by_number(
    clk: StandbyClk,
    reg: RegulatorMode,
    fall: FallbackMode,
    t: PacketType,
    addr: AddrComp,
    crc: GfskCrc,
    exit: CadExitMode,
)
    ensures
        clk.code() <= 1 && (clk.code() == 1) == (clk is Xosc),
        reg.code() <= 1 && (reg.code() == 1) == (reg is DcDcLdo),
        (fall.code() == 0x20) == (fall is StandbyRc) && (fall.code() == 0x30) == (fall is StandbyXosc) && (fall.code()
            == 0x40) == (fall is Fs),
        (t.code() == 0) == (t is Gfsk) && (t.code() == 1) == (t is LoRa) && (t.code() == 3) == (t is LrFhss),
        (addr.code() == 0) == (addr is Off) && (addr.code() == 1) == (addr is Node) && (addr.code() == 2) == (addr
            is NodeAndBroadcast),
        exit.code() <= 1 && (exit.code() == 1) == (exit is CadRx),
        // Off is bit 0; otherwise bit 1 is two bytes and bit 2 inverted.
        (crc.code() % 2 == 1) == (crc is Off),
        crc.code() % 2 == 1 ==> crc.code() == 1,
        crc.code() % 2 == 0 ==> crc.code() < 8 && (crc.code() / 2 % 2 == 1) == (crc is TwoByte || crc is TwoByteInverted)
            && (crc.code() / 4 % 2 == 1) == (crc is OneByteInverted || crc is TwoByteInverted),
{
}

/// A ramp time in microseconds.
pub open spec fn ramp_us(x: RampTime) -> int {
    match x {
        RampTime::Us10 => 10,
        RampTime::Us20 => 20,
        RampTime::Us40 => 40,
        RampTime::Us80 => 80,
        RampTime::Us200 => 200,
        RampTime::Us800 => 800,
        RampTime::Us1700 => 1700,
        RampTime::Us3400 => 3400,
    }
}

/// An oscillator supply in millivolts.
pub open spec fn supply_mv(x: TcxoVoltage) -> int {
    match x {
        TcxoVoltage::V1_6 => 1600,
        TcxoVoltage::V1_7 => 1700,
        TcxoVoltage::V1_8 => 1800,
        TcxoVoltage::V2_2 => 2200,
        TcxoVoltage::V2_4 => 2400,
        TcxoVoltage::V2_7 => 2700,
        TcxoVoltage::V3_0 => 3000,
        TcxoVoltage::V3_3 => 3300,
    }
}

/// The eight ramp times and the eight supplies are numbered 0 to 7 in
/// rising order.
pub proof fn rising_settings(a: RampTime, b: RampTime, v: TcxoVoltage, w: TcxoVoltage)
    ensures
        a.code() <= 7 && v.code() <= 7,
        (a.code() < b.code()) == (ramp_us(a) < ramp_us(b)),
        (v.code() < w.code()) == (supply_mv(v) < supply_mv(w)),
{
}

/// A spreading factor as a number.
pub open spec fn factor(x: LoRaSf) -> int {
    match x {
        LoRaSf::Sf5 => 5,
        LoRaSf::Sf6 => 6,
        LoRaSf::Sf7 => 7,
        LoRaSf::Sf8 => 8,
        LoRaSf::Sf9 => 9,
        LoRaSf::Sf10 => 10,
        LoRaSf::Sf11 => 11,
        LoRaSf::Sf12 => 12,
    }
}

/// The number of coded bits for four of data.
pub open spec fn coded_bits(x: LoRaCr) -> int {
    match x {
        LoRaCr::Cr4_5 | LoRaCr::Cr4_5Li => 5,
        LoRaCr::Cr4_6 | LoRaCr::Cr4_6Li => 6,
        LoRaCr::Cr4_7 => 7,
        LoRaCr::Cr4_8 | LoRaCr::Cr4_8Li => 8,
    }
}

/// The LoRa bandwidth in units of 500/192 kHz.
pub open spec fn lora_width(x: LoRaBw) -> int {
    match x {
        LoRaBw::Khz7 => 3,
        LoRaBw::Khz10 => 4,
        LoRaBw::Khz15 => 6,
        LoRaBw::Khz20 => 8,
        LoRaBw::Khz31 => 12,
        LoRaBw::Khz41 => 16,
        LoRaBw::Khz62 => 24,
        LoRaBw::Khz125 => 48,
        LoRaBw::Khz250 => 96,
        LoRaBw::Khz500 => 192,
    }
}

/// LoRa modulation: the spreading factor is its own code; the coding rate
/// counts the bits over four, or, with the long interleaver, all of them
/// but one at the top; the bandwidth doubles with each code, from 500/64
/// kHz at 0 and from 500/48 kHz at 8 on.
pub proof fn lora_settings(sf: LoRaSf, cr: LoRaCr, a: LoRaBw, b: LoRaBw)
    ensures
        sf.code() == factor(sf),
        cr is Cr4_5 || cr is Cr4_6 || cr is Cr4_7 || cr is Cr4_8 ==> cr.code() == coded_bits(cr) - 4,
        cr is Cr4_5Li || cr is Cr4_6Li ==> cr.code() == coded_bits(cr),
        cr is Cr4_8Li ==> cr.code() == 7,
        a.code() <= 6 || 8 <= a.code() <= 10,
        a.code() == 0 ==> lora_width(a) == 3,
        a.code() == 8 ==> lora_width(a) == 4,
        b.code() == a.code() + 1 ==> lora_width(b) == 2 * lora_width(a),
        lora_width(a) % 3 == 0 ==> a.code() <= 6,
{
}

/// A GFSK receive bandwidth in tenths of a kHz.
pub open spec fn gfsk_width(x: GfskBw) -> int {
    match x {
        GfskBw::Khz4_8 => 48,
        GfskBw::Khz5_8 => 58,
        GfskBw::Khz7_3 => 73,
        GfskBw::Khz9_7 => 97,
        GfskBw::Khz11_7 => 117,
        GfskBw::Khz14_6 => 146,
        GfskBw::Khz19_5 => 195,
        GfskBw::Khz23_4 => 234,
        GfskBw::Khz29_3 => 293,
        GfskBw::Khz39_0 => 390,
        GfskBw::Khz46_9 => 469,
        GfskBw::Khz58_6 => 586,
        GfskBw::Khz78_2 => 782,
        GfskBw::Khz93_8 => 938,
        GfskBw::Khz117_3 => 1173,
        GfskBw::Khz156_2 => 1562,
        GfskBw::Khz187_2 => 1872,
        GfskBw::Khz234_3 => 2343,
        GfskBw::Khz312_0 => 3120,
        GfskBw::Khz373_6 => 3736,
        GfskBw::Khz467_0 => 4670,
    }
}

/// Two to the `n`, up to seven.
pub open spec fn power(n: int) -> int {
    if n == 1 {
        2
    } else if n == 2 {
        4
    } else if n == 3 {
        8
    } else if n == 4 {
        16
    } else if n == 5 {
        32
    } else if n == 6 {
        64
    } else if n == 7 {
        128
    } else {
        1
    }
}

/// A GFSK bandwidth code has a mantissa of 1 to 3 in bits 4:3 and an
/// exponent of 1 to 7 in bits 2:0; the bandwidth falls as (mantissa + 3)
/// times two to the exponent grows, their product being the same for all
/// to within one part in a hundred.
pub proof fn gfsk_widths(x: GfskBw)
    ensures
        1 <= x.code() / 8 <= 3,
        1 <= x.code() % 8 <= 7,
        36800 <= gfsk_width(x) * (x.code() / 8 + 3) * power(x.code() as int % 8) <= 37600,
{
}

/// The bits a preamble detector waits for.
pub open spec fn preamble_bits(x: PreambleDetector) -> int {
    match x {
        PreambleDetector::Off => 0,
        PreambleDetector::Bits8 => 8,
        PreambleDetector::Bits16 => 16,
        PreambleDetector::Bits24 => 24,
        PreambleDetector::Bits32 => 32,
    }
}

/// The symbols of a channel detection.
pub open spec fn symbols(x: CadSymbols) -> int {
    match x {
        CadSymbols::S1 => 1,
        CadSymbols::S2 => 2,
        CadSymbols::S4 => 4,
        CadSymbols::S8 => 8,
        CadSymbols::S16 => 16,
    }
}

/// Twice the bandwidth-time product of a pulse shape in tenths, 0 for
/// none.
pub open spec fn product(x: GfskPulseShape) -> int {
    match x {
        GfskPulseShape::Unshaped => 0,
        GfskPulseShape::GaussianBt0_3 => 3,
        GfskPulseShape::GaussianBt0_5 => 5,
        GfskPulseShape::GaussianBt0_7 => 7,
        GfskPulseShape::GaussianBt1 => 10,
    }
}

/// The detector is on with bit 2 set and counts its bytes from 1 in bits
/// 1:0; a detection takes two to the code symbols; pulse shapes are on
/// with bit 3 set and in rising order below it.
pub proof fn detectors_and_shapes(d: PreambleDetector, c: CadSymbols, p: GfskPulseShape, q: GfskPulseShape)
    ensures
        d.code() < 8,
        (d.code() / 4 == 1) == (preamble_bits(d) > 0),
        preamble_bits(d) > 0 ==> preamble_bits(d) == 8 * (d.code() % 4 + 1),
        preamble_bits(d) == 0 ==> d.code() == 0,
        c.code() <= 4,
        symbols(c) == (if c.code() == 0 { 1 } else { power(c.code() as int) }),
        product(p) == 0 ==> p.code() == 0,
        product(p) > 0 ==> 8 <= p.code() <= 11,
        (p.code() < q.code()) == (product(p) < product(q)),
{
}

/// An amplifier preset as a power in dBm.
pub open spec fn preset_dbm(x: PaPreset) -> int {
    match x {
        PaPreset::Dbm22 => 22,
        PaPreset::Dbm20 => 20,
        PaPreset::Dbm17 => 17,
        PaPreset::Dbm14 => 14,
    }
}

/// The operating points: the duty cycle from 2 to 4 and hpMax 2, 3, 5 or
/// 7, hpMax rising with the power and the duty cycle never falling.
pub proof fn operating_points(a: PaPreset, b: PaPreset)
    ensures
        2 <= a.point().0 <= 4,
        a.point().1 == 2 || a.point().1 == 3 || a.point().1 == 5 || a.point().1 == 7,
        (a.point().1 < b.point().1) == (preset_dbm(a) < preset_dbm(b)),
        (a.point().1 < b.point().1) ==> a.point().0 <= b.point().0,
        (a.point().0 == 2) == (preset_dbm(a) <= 17),
        (a.point().0 == 3) == (preset_dbm(a) == 20),
{
}

/// What a status byte says: the mode in bits 6:4, the outcome of the last
/// command in bits 3:1, each by its number; other numbers are kept.
pub proof fn status_by_bits(b: u8)
    ensures
        ({
            let st = Status::decoded(b);
            let (mode, code) = (b as int / 16 % 8, b as int / 2 % 8);
            &&& (st.chip_mode is StandbyRc) == (mode == 2)
            &&& (st.chip_mode is StandbyXosc) == (mode == 3)
            &&& (st.chip_mode is Fs) == (mode == 4)
            &&& (st.chip_mode is Rx) == (mode == 5)
            &&& (st.chip_mode is Tx) == (mode == 6)
            &&& (st.chip_mode is Unknown) == (mode < 2 || mode == 7)
            &&& st.chip_mode matches ChipMode::Unknown(m) ==> m == mode
            &&& (st.cmd is DataAvailable) == (code == 2)
            &&& (st.cmd is CmdTimeout) == (code == 3)
            &&& (st.cmd is ProcessingError) == (code == 4)
            &&& (st.cmd is ExecutionFailure) == (code == 5)
            &&& (st.cmd is TxDone) == (code == 6)
            &&& (st.cmd is Other) == (code < 2 || code == 7)
            &&& st.cmd matches CmdStatus::Other(c) ==> c == code
        }),
{
}

// ---- Words ------------------------------------------------------------------

/// A frequency word is the frequency in steps of 32 MHz over 2^25 to less
/// than a step, for all that fit in 32 bits.
pub proof fn frequency_word(hz: int)
    requires
        0 <= hz < 4_096_000_000,
    ensures
        step_word(hz) * 32_000_000 <= hz * 33_554_432 < (step_word(hz) + 1) * 32_000_000,
{
}

/// A bit rate word times the rate is 32 times 32 MHz to less than the
/// rate.
pub proof fn bit_rate_word(bps: int)
    requires
        0 < bps,
    ensures
        rate_word(bps) * bps <= 1_024_000_000 < (rate_word(bps) + 1) * bps,
{
    let q = 1_024_000_000int / bps;
    vstd::arithmetic::div_mod::lemma_fundamental_div_mod(1_024_000_000, bps);
    vstd::arithmetic::div_mod::lemma_mod_bound(1_024_000_000, bps);
    assert(0 <= q <= 1_024_000_000) by (nonlinear_arith)
        requires
            0 < bps,
            q == 1_024_000_000int / bps,
    ;
    assert(q * bps <= 1_024_000_000 < (q + 1) * bps) by (nonlinear_arith)
        requires
            1_024_000_000 == bps * q + 1_024_000_000int % bps,
            0 <= 1_024_000_000int % bps < bps,
    ;
}

/// A received power is the negative of half the byte, to less than 1 dBm.
pub proof fn power_by_halves(b: u8)
    ensures
        b - 1 <= -2 * half_negated(b) <= b,
        half_negated(b) <= 0,
        truth(true) == 1 && truth(false) == 0,
{
}

/// The image calibration bounds are those 4 MHz steps next to the range
/// that hold it, as long as 8 bits hold them.
pub proof fn image_bounds(low: int, high: int, step: int)
    requires
        0 <= low <= high <= 1020,
    ensures
        4 * step <= low ==> step <= image_band_of(low, high).0,
        4 * image_band_of(low, high).0 <= low,
        high <= 4 * step ==> image_band_of(low, high).1 <= step,
        high <= 4 * image_band_of(low, high).1,
{
}

/// The GFSK modulation command, byte by byte.
pub proof fn gfsk_modulation_layout(p: GfskModParams)
    requires
        62 <= p.bitrate_bps,
        p.fdev_hz < 16_000_000,
    ensures
        ({
            let b = gfsk_modulation_bytes(p);
            &&& b.len() == 9
            &&& b[0] == 0x8B
            &&& ({
                let br = 65536 * b[1] + 256 * b[2] + b[3];
                br * p.bitrate_bps <= 1_024_000_000 < (br + 1) * p.bitrate_bps
            })
            &&& b[4] == p.pulse_shape.code()
            &&& b[5] == p.rx_bw.code()
            &&& ({
                let fd = 65536 * b[6] + 256 * b[7] + b[8];
                fd * 32_000_000 <= p.fdev_hz * 33_554_432 < (fd + 1) * 32_000_000
            })
        }),
{
    bit_rate_word(p.bitrate_bps as int);
    frequency_word(p.fdev_hz as int);
    let r = rate_word(p.bitrate_bps as int) as int;
    assert(r < 16777216) by (nonlinear_arith)
        requires
            r * p.bitrate_bps <= 1_024_000_000,
            62 <= p.bitrate_bps,
            0 <= r,
    ;
    crate::laws::bytes::bytes_by_place_value(0, rate_word(p.bitrate_bps as int));
    crate::laws::bytes::bytes_by_place_value(0, step_word(p.fdev_hz as int));
}

// ---- Exchanges --------------------------------------------------------------

/// A wait for BUSY.
pub open spec fn wait() -> Req {
    Req::AwaitLow { polls: 2_000_000 }
}

/// A frame that reads nothing.
pub open spec fn sent_frame(out: Seq<u8>) -> Req {
    Req::Frame { out, len: 0 }
}

/// Every command waits for BUSY first. Where it goes low the frame goes
/// out; where it does not, or cannot be read, nothing does.
pub proof fn busy_comes_first(s: Session, bytes: Seq<u8>, code: u32)
    requires
        !s.stalled(),
    ensures
        comes(s, 0, seq![0u8]) ==> commanding(s, bytes).0.sent == s.sent.push(wait()).push(sent_frame(bytes)),
        comes(s, 0, seq![0u8]) && comes(s, 1, Seq::empty()) ==> commanding(s, bytes).1 == Ok::<(), Error<Fault>>(()),
        comes(s, 0, seq![1u8]) ==> commanding(s, bytes).1 == Err::<(), Error<Fault>>(Error::BusyTimeout) && commanding(
            s,
            bytes,
        ).0.sent == s.sent.push(wait()),
        s.sent.len() < s.replies.len() && s.replies[s.sent.len() as int] == Rep::Failed(code) ==> commanding(s, bytes).1
            == Err::<(), Error<Fault>>(Error::Pin) && commanding(s, bytes).0.sent == s.sent.push(wait()),
{
}

/// A read drops the status byte that comes first.
pub proof fn reads_drop_the_status(s: Session, head: Seq<u8>, d: Seq<u8>)
    requires
        !s.stalled(),
        comes(s, 0, seq![0u8]),
        comes(s, 1, d),
        d.len() > 0,
    ensures
        reading_after(s, head, (d.len() - 1) as nat).1 == Ok::<Seq<u8>, Error<Fault>>(d.skip(1)),
        reading_after(s, head, (d.len() - 1) as nat).0.sent == s.sent.push(wait()).push(
            Req::Frame { out: head, len: d.len() },
        ),
{
    assert(fit(d, d.len()) =~= d);
}

/// A read command gives the meaning of the bytes as they came.
pub proof fn answers_are_read<T>(s: Session, op: u8, d: Seq<u8>, meaning: spec_fn(Seq<u8>) -> T)
    requires
        !s.stalled(),
        comes(s, 0, seq![0u8]),
        comes(s, 1, d),
    ensures
        answering(s, op, d.len(), meaning).1 == Ok::<T, Error<Fault>>(meaning(d)),
        answering(s, op, d.len(), meaning).0.sent == s.sent.push(wait()).push(
            Req::Frame { out: seq![op], len: d.len() },
        ),
{
    assert(fit(d, d.len()) =~= d);
}

/// A register access: code, address high byte first, then the data.
pub proof fn register_frames(s: Session, addr: u16, data: Seq<u8>, n: nat)
    requires
        !s.stalled(),
        comes(s, 0, seq![0u8]),
    ensures
        ({
            let out = seq![0x0Du8, (addr / 256) as u8, (addr % 256) as u8] + data;
            register_write(s, addr, data).0.sent == s.sent.push(wait()).push(sent_frame(out))
        }),
        register_read(s, addr, n).0.sent == s.sent.push(wait()).push(
            Req::Frame { out: seq![0x1Du8, (addr / 256) as u8, (addr % 256) as u8], len: n + 1 },
        ),
{
    crate::laws::bytes::bytes_by_place_value(addr, 0);
    assert(bytes_be16(addr) =~= seq![(addr / 256) as u8, (addr % 256) as u8]);
    assert(seq![0x0Du8] + bytes_be16(addr) + data =~= seq![0x0Du8, (addr / 256) as u8, (addr % 256) as u8] + data);
    assert(seq![0x1Du8] + bytes_be16(addr) =~= seq![0x1Du8, (addr / 256) as u8, (addr % 256) as u8]);
}

/// The frame that writes one register.
pub open spec fn register_frame(addr: u16, val: u8) -> Req {
    sent_frame(seq![0x0Du8, (addr / 256) as u8, (addr % 256) as u8, val])
}

/// A read-modify-write keeps the bits it does not name: a register that
/// held `v` is written back with the `clear` bits cleared and the `set`
/// bits set.
pub proof fn registers_are_updated(s: Session, addr: u16, clear: u8, set: u8, v: u8)
    requires
        !s.stalled(),
        comes(s, 0, seq![0u8]),
        comes(s, 1, seq![0u8, v]),
        comes(s, 2, seq![0u8]),
        comes(s, 3, Seq::empty()),
    ensures
        register_update(s, addr, clear, set).1 is Ok,
        register_update(s, addr, clear, set).0.sent.len() == s.sent.len() + 4,
        register_update(s, addr, clear, set).0.sent.last() == register_frame(addr, merged(v, clear, set)),
{
    let d = seq![0u8, v];
    assert(fit(d, 2) =~= d);
    assert(d.skip(1)[0] == v);
    let w = merged(v, clear, set);
    register_frames(s, addr, Seq::empty(), 1);
    let (s1, r) = register_read(s, addr, 1);
    assert(r == Ok::<Seq<u8>, Error<Fault>>(d.skip(1))) by {
        reads_drop_the_status(s, seq![0x1Du8] + bytes_be16(addr), d);
    }
    assert(comes(s1, 0, seq![0u8]));
    register_frames(s1, addr, seq![w], 0);
    assert(seq![0x0Du8, (addr / 256) as u8, (addr % 256) as u8] + seq![w] =~= seq![
        0x0Du8,
        (addr / 256) as u8,
        (addr % 256) as u8,
        w,
    ]);
}

/// The modulation quality bit, bit 2 of 0889h, is 0 at 500 kHz and 1
/// otherwise, and the polarity bit, bit 2 of 0736h, is 0 for inverted IQ
/// and 1 otherwise; all other bits stay.
pub proof fn workaround_bits(s: Session, on: bool, v: u8)
    requires
        !s.stalled(),
        comes(s, 0, seq![0u8]),
        comes(s, 1, seq![0u8, v]),
        comes(s, 2, seq![0u8]),
        comes(s, 3, Seq::empty()),
    ensures
        ({
            let w: u8 = if on { v & 0xFB } else { v | 0x04 };
            &&& modulation_quality(s, on).0.sent.last() == register_frame(0x0889, w)
            &&& iq_polarity(s, on).0.sent.last() == register_frame(0x0736, w)
        }),
        modulation_quality(s, on).1 is Ok && iq_polarity(s, on).1 is Ok,
{
    assert(merged(v, 0x04, 0x00) == v & 0xFB && merged(v, 0x00, 0x04) == v | 0x04) by (bit_vector);
    registers_are_updated(s, 0x0889, 0x04, 0x00, v);
    registers_are_updated(s, 0x0889, 0x00, 0x04, v);
    registers_are_updated(s, 0x0736, 0x04, 0x00, v);
    registers_are_updated(s, 0x0736, 0x00, 0x04, v);
}

/// The receive gain register 08ACh gets 96h for boosted gain and 94h
/// otherwise; boosted gain is also entered in the retention list.
pub proof fn gain_frames(s: Session)
    requires
        !s.stalled(),
        comes(s, 0, seq![0u8]),
        comes(s, 1, Seq::empty()),
        comes(s, 2, seq![0u8]),
        comes(s, 3, Seq::empty()),
        comes(s, 4, seq![0u8]),
        comes(s, 5, Seq::empty()),
    ensures
        gain_setting(s, false).0.sent == s.sent.push(wait()).push(sent_frame(seq![0x0Du8, 0x08, 0xAC, 0x94])),
        gain_setting(s, true).0.sent == s.sent.push(wait()).push(sent_frame(seq![0x0Du8, 0x08, 0xAC, 0x96])).push(
            wait(),
        ).push(sent_frame(seq![0x0Du8, 0x02, 0x9F, 0x01])).push(wait()).push(
            sent_frame(seq![0x0Du8, 0x02, 0xA0, 0x08, 0xAC]),
        ),
        gain_setting(s, true).1 is Ok && gain_setting(s, false).1 is Ok,
{
    let s1 = register_write(s, 0x08AC, seq![0x96u8]).0;
    let s2 = register_write(s1, 0x029F, seq![0x01u8]).0;
    register_frames(s, 0x08AC, seq![0x94u8], 0);
    register_frames(s, 0x08AC, seq![0x96u8], 0);
    assert(seq![0x0Du8, 0x08, 0xAC] + seq![0x94u8] =~= seq![0x0Du8, 0x08, 0xAC, 0x94]);
    assert(seq![0x0Du8, 0x08, 0xAC] + seq![0x96u8] =~= seq![0x0Du8, 0x08, 0xAC, 0x96]);
    assert(comes(s1, 0, seq![0u8]));
    register_frames(s1, 0x029F, seq![0x01u8], 0);
    assert(seq![0x0Du8, 0x02, 0x9F] + seq![0x01u8] =~= seq![0x0Du8, 0x02, 0x9F, 0x01]);
    assert(comes(s2, 0, seq![0u8]));
    register_frames(s2, 0x02A0, seq![0x08u8, 0xACu8], 0);
    assert(seq![0x0Du8, 0x02, 0xA0] + seq![0x08u8, 0xACu8] =~= seq![0x0Du8, 0x02, 0xA0, 0x08, 0xAC]);
}

} // verus!
