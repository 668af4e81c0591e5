//! Semtech SX1261/2 sub-GHz LoRa/(G)FSK transceiver driver.
//!
//! Datasheet-complete command layer over the chip's SPI opcode interface:
//! operating modes, DIO/IRQ routing, TCXO control, LoRa and GFSK
//! modulation/packet configuration, CAD, buffer access,
//! status/statistics, and the four known-limitation workarounds (data
//! sheet rev 2.2, chapter 15). Policy - init sequences, IRQ handling,
//! band plans - belongs to the caller; this layer only speaks chip verbs.
//!
//! Every method runs on a session whose SPI frames are framed by the
//! chip select of this radio. The driver asks for BUSY low before every
//! transaction, as required by section 8.3.1 - commands are rejected
//! while the state machine is working, and in Sleep mode BUSY is held
//! high until a falling NSS edge wakes the chip (see [`Sx1262::wake`]).
//!
//! The longest legitimate BUSY windows are the 3.5 ms cold-start wake /
//! full calibration (Table 8-2, 13-17), plus the caller-chosen TCXO
//! startup delay. The poll budget is sized far above that; a
//! `BusyTimeout` therefore means a wiring / power / reset-state problem,
//! not a slow chip.

use vstd::prelude::*;
use crate::bus::{chain, merged, Bus, Fault, Req, Session};
use crate::bytes::{
    bytes_be16, bytes_be24, bytes_be32, copy_from, joined, le16, le32, signed, to_be16, to_be24, to_be32, to_i8, u16_le,
    u32_le,
};

pub mod regs;
pub mod types;

pub use types::{
    StandbyClk, SleepConfig, RegulatorMode, FallbackMode, PacketType, RampTime,
    PaPreset, TcxoVoltage, LoRaSf, LoRaBw, LoRaCr, LoRaModParams,
    LoRaPacketParams, GfskPulseShape, GfskBw, GfskModParams, PreambleDetector, AddrComp,
    GfskCrc, GfskPacketParams, CadSymbols, CadExitMode, CadParams, ChipMode,
    CmdStatus, Status, LoRaPacketStatus, GfskPacketStatus, Stats,
};
use regs::{opcode, reg};

verus! {

/// BUSY poll budget. Each poll is one pin read (tens of ns at watch-class
/// clock rates), so the budget comfortably covers the several-ms worst
/// cases documented in the module docs.
pub const BUSY_SPIN_BUDGET: u32 = 2_000_000;

/// RX/TX timeout special values (Tables 13-7 / 13-9).
pub const TIMEOUT_SINGLE: u32 = 0x000000;

pub const RX_CONTINUOUS: u32 = 0xFF_FFFF;

/// Errors surfaced by the command layer.
#[derive(Debug, Clone, Copy, PartialEq, Eq)]
pub enum Error<E> {
    /// SPI transaction failed.
    Spi(E),
    /// BUSY pin read failed.
    Pin,
    /// BUSY never released within [`BUSY_SPIN_BUDGET`] - the chip is
    /// unpowered, held in reset, or the BUSY wiring is wrong.
    BusyTimeout,
}

/// What to do after one read of the BUSY pin.
#[derive(Debug, Clone, Copy, PartialEq, Eq, Structural)]
pub enum BusyStep {
    /// BUSY is low: the chip takes commands.
    Released,
    /// Read again; so many reads are left.
    Again { left: u32 },
    /// The pin could not be read.
    Pin,
    /// The reads are used up.
    Timeout,
}

/// One step of a BUSY wait with `left` reads left, this one counted:
/// `low` is what the read gave, `None` if it failed.
pub fn busy_step(left: u32, low: Option<bool>) -> (r: BusyStep)
    ensures
        r == (match low {
            None => BusyStep::Pin,
            Some(b) => if b {
                BusyStep::Released
            } else if left > 1 {
                BusyStep::Again { left: (left - 1) as u32 }
            } else {
                BusyStep::Timeout
            },
        }),
{
    match low {
        None => BusyStep::Pin,
        Some(true) => BusyStep::Released,
        Some(false) => if left > 1 {
            BusyStep::Again { left: left - 1 }
        } else {
            BusyStep::Timeout
        },
    }
}

// ---- Conversion helpers -----------------------------------------------------

/// Milliseconds to 15.625 us timer steps, saturating at the 24-bit
/// ceiling (~262 s). Used by TX/RX timeouts, the TCXO startup delay and
/// the duty-cycle periods.
pub fn ms_to_steps(ms: u32) -> (r: u32)
    ensures
        r == (if ms * regs::TIMER_STEPS_PER_MS < 0xFF_FFFE { ms * regs::TIMER_STEPS_PER_MS } else { 0xFF_FFFE }),
        r < RX_CONTINUOUS,
{
    if ms < 0x4_0000 && ms * regs::TIMER_STEPS_PER_MS < 0xFF_FFFE {
        ms * regs::TIMER_STEPS_PER_MS
    } else {
        0xFF_FFFE
    }
}

/// A frequency in Hz in units of `F_XTAL / 2^25`, rounded down, in 32
/// bits.
pub open spec fn step_word(hz: int) -> u32 {
    (hz * 0x200_0000 / (regs::F_XTAL_HZ as int) % 0x1_0000_0000) as u32
}

/// The GFSK bit rate word: `32 * F_XTAL / bitrate`, rounded down.
pub open spec fn rate_word(bps: int) -> u32 {
    (32 * regs::F_XTAL_HZ / bps) as u32
}

/// RF frequency in Hz to the 32-bit PLL word: `RfFreq = freq * 2^25 /
/// F_XTAL` (section 13.4.1).
pub fn hz_to_pll_steps(freq_hz: u32) -> (r: u32)
    ensures
        r == step_word(freq_hz as int),
{
    (freq_hz as u64 * 0x200_0000 / regs::F_XTAL_HZ as u64 % 0x1_0000_0000) as u32
}

/// GFSK bit rate in b/s to the 24-bit `br` word: `br = 32 * F_XTAL /
/// bitrate` (Table 13-43).
pub fn bitrate_to_br(bitrate_bps: u32) -> (r: u32)
    requires
        bitrate_bps > 0,
    ensures
        r == rate_word(bitrate_bps as int),
{
    assert(0 <= 1_024_000_000int / bitrate_bps as int <= 1_024_000_000) by (nonlinear_arith)
        requires
            bitrate_bps > 0,
    ;
    (32u64 * regs::F_XTAL_HZ as u64 / bitrate_bps as u64) as u32
}

/// GFSK frequency deviation in Hz to the 24-bit `fdev` word: `fdev =
/// deviation * 2^25 / F_XTAL` (Table 13-46).
pub fn fdev_to_steps(fdev_hz: u32) -> (r: u32)
    ensures
        r == step_word(fdev_hz as int),
{
    hz_to_pll_steps(fdev_hz)
}

/// A MHz range on the 4 MHz grid: the lower end rounded down, the upper
/// one up, each in 8 bits.
pub open spec fn image_band_of(freq1_mhz: int, freq2_mhz: int) -> (u8, u8) {
    ((freq1_mhz / 4 % 256) as u8, ((freq2_mhz + 3) / 4 % 256) as u8)
}

/// The image calibration parameters of a MHz range, using the 4 MHz-step
/// floor/ceil encoding of section 9.2.1.
pub fn image_steps(freq1_mhz: u16, freq2_mhz: u16) -> (r: (u8, u8))
    requires
        freq2_mhz <= 0xFFFC,
    ensures
        r == image_band_of(freq1_mhz as int, freq2_mhz as int),
{
    ((freq1_mhz / 4 % 256) as u8, ((freq2_mhz + 3) / 4 % 256) as u8)
}

/// The tuned frequency is never above the one asked for, and less than
/// one PLL step (F_XTAL / 2^25, under 1 Hz) below it.
pub proof fn tuning_is_within_a_step(hz: int)
    requires
        0 <= hz <= 4_095_999_999,
    ensures
        step_word(hz) * regs::F_XTAL_HZ <= hz * 0x200_0000 < (step_word(hz) + 1) * regs::F_XTAL_HZ,
{
}

/// An image calibration range covers the MHz range it was made from, for
/// every frequency the 8-bit grid can hold.
pub proof fn image_range_covers(freq1_mhz: int, freq2_mhz: int)
    requires
        0 <= freq1_mhz <= freq2_mhz <= 1020,
    ensures
        image_band_of(freq1_mhz, freq2_mhz).0 * 4 <= freq1_mhz,
        freq2_mhz <= image_band_of(freq1_mhz, freq2_mhz).1 * 4,
        freq1_mhz - image_band_of(freq1_mhz, freq2_mhz).0 * 4 < 4,
        image_band_of(freq1_mhz, freq2_mhz).1 * 4 - freq2_mhz < 4,
{
}

/// 1 for true, 0 for false.
pub open spec fn truth(b: bool) -> u8 {
    if b { 1 } else { 0 }
}

fn truth_byte(b: bool) -> (r: u8)
    ensures
        r == truth(b),
{
    if b {
        1
    } else {
        0
    }
}

/// An RSSI byte in dBm: half of it, rounded down, negated.
pub open spec fn half_negated(b: u8) -> i16 {
    (-(b as int / 2)) as i16
}

fn dbm(b: u8) -> (r: i16)
    ensures
        r == half_negated(b),
{
    -((b / 2) as i16)
}

// ---- What the driver puts on the bus ----------------------------------------

/// A transfer's outcome as an outcome of the driver.
pub open spec fn on_spi<T>(run: (Session, Result<T, Fault>)) -> (Session, Result<T, Error<Fault>>) {
    (run.0, match run.1 {
        Ok(v) => Ok(v),
        Err(f) => Err(Error::Spi(f)),
    })
}

/// A wait for BUSY low.
pub open spec fn busy_waiting(s: Session) -> (Session, Result<(), Error<Fault>>) {
    (s.after(Req::AwaitLow { polls: BUSY_SPIN_BUDGET }), match s.answer(1) {
        Ok(d) => if d[0] == 0 { Ok(()) } else { Err(Error::BusyTimeout) },
        Err(Fault::Failed(_)) => Err(Error::Pin),
        Err(Fault::Pending) => Err(Error::Spi(Fault::Pending)),
    })
}

/// A write-only command.
pub open spec fn commanding(s: Session, bytes: Seq<u8>) -> (Session, Result<(), Error<Fault>>) {
    chain(busy_waiting(s), |s1: Session, u: ()| on_spi(s1.frame_out(bytes)))
}

/// A read command, and what its `n` bytes, status first, stand for.
pub open spec fn answering<T>(s: Session, op: u8, n: nat, meaning: spec_fn(Seq<u8>) -> T) -> (
    Session,
    Result<T, Error<Fault>>,
) {
    chain(
        busy_waiting(s),
        |s1: Session, u: ()|
            chain(on_spi(s1.frame(seq![op], n)), |s2: Session, b: Seq<u8>| (s2, Ok(meaning(b)))),
    )
}

/// A read of `n` bytes after `head`; the status byte that comes first is
/// dropped.
pub open spec fn reading_after(s: Session, head: Seq<u8>, n: nat) -> (Session, Result<Seq<u8>, Error<Fault>>) {
    chain(
        busy_waiting(s),
        |s1: Session, u: ()|
            chain(on_spi(s1.frame(head, n + 1)), |s2: Session, b: Seq<u8>| (s2, Ok(b.skip(1)))),
    )
}

/// A write of consecutive registers.
pub open spec fn register_write(s: Session, addr: u16, data: Seq<u8>) -> (Session, Result<(), Error<Fault>>) {
    commanding(s, seq![opcode::WRITE_REGISTER] + bytes_be16(addr) + data)
}

/// A read of consecutive registers.
pub open spec fn register_read(s: Session, addr: u16, n: nat) -> (Session, Result<Seq<u8>, Error<Fault>>) {
    reading_after(s, seq![opcode::READ_REGISTER] + bytes_be16(addr), n)
}

/// A read-modify-write of one register.
pub open spec fn register_update(s: Session, addr: u16, clear: u8, set: u8) -> (Session, Result<(), Error<Fault>>) {
    chain(
        register_read(s, addr, 1),
        |s1: Session, v: Seq<u8>| register_write(s1, addr, seq![merged(v[0], clear, set)]),
    )
}

/// The modulation quality bit: cleared at 500 kHz LoRa, set otherwise.
pub open spec fn modulation_quality(s: Session, wide: bool) -> (Session, Result<(), Error<Fault>>) {
    if wide {
        register_update(s, reg::TX_MODULATION, 0x04, 0x00)
    } else {
        register_update(s, reg::TX_MODULATION, 0x00, 0x04)
    }
}

/// The IQ polarity bit: cleared for inverted IQ, set for standard.
pub open spec fn iq_polarity(s: Session, inverted: bool) -> (Session, Result<(), Error<Fault>>) {
    if inverted {
        register_update(s, reg::IQ_POLARITY, 0x04, 0x00)
    } else {
        register_update(s, reg::IQ_POLARITY, 0x00, 0x04)
    }
}

/// The bytes of a GFSK modulation command.
pub open spec fn gfsk_modulation_bytes(p: GfskModParams) -> Seq<u8> {
    seq![opcode::SET_MODULATION_PARAMS] + bytes_be24(rate_word(p.bitrate_bps as int)) + seq![
        p.pulse_shape.code(),
        p.rx_bw.code(),
    ] + bytes_be24(step_word(p.fdev_hz as int))
}

/// The RX gain set; boosted gain also goes to the retention memory.
pub open spec fn gain_setting(s: Session, boosted: bool) -> (Session, Result<(), Error<Fault>>) {
    if boosted {
        chain(
            register_write(s, reg::RX_GAIN, seq![0x96u8]),
            |s1: Session, u1: ()|
                chain(
                    register_write(s1, reg::RETENTION_LIST_0, seq![0x01u8]),
                    |s2: Session, u2: ()| register_write(s2, reg::RETENTION_LIST_1, seq![0x08u8, 0xACu8]),
                ),
        )
    } else {
        register_write(s, reg::RX_GAIN, seq![0x94u8])
    }
}

// ---- The driver -------------------------------------------------------------

/// SX1261/2 command-layer driver. Stateless: the session is borrowed per
/// call, so the radio can live on a shared bus owned elsewhere.
#[derive(Debug, Clone, Copy)]
pub struct Sx1262;

/// A fault as an error of the driver.
fn spi_err<T>(r: Result<T, Fault>) -> (e: Result<T, Error<Fault>>)
    ensures
        match r {
            Ok(v) => e == Ok::<T, Error<Fault>>(v),
            Err(f) => e == Err::<T, Error<Fault>>(Error::Spi(f)),
        },
{
    match r {
        Ok(v) => Ok(v),
        Err(f) => Err(Error::Spi(f)),
    }
}

impl Sx1262 {
    pub fn new() -> (r: Sx1262)
        ensures
            r == Sx1262,
    {
        Sx1262
    }

    // ---- Plumbing -----------------------------------------------------------

    /// Wait until BUSY releases. Every command entry point calls this
    /// first (section 8.3.1: a command sent while BUSY is high is ignored
    /// or corrupts state).
    fn wait_busy(&self, spi: &mut Bus) -> (e: Result<(), Error<Fault>>)
        ensures
            (final(spi)@, e) == busy_waiting(old(spi)@),
    {
        match spi.await_low(BUSY_SPIN_BUDGET) {
            Ok(true) => Ok(()),
            Ok(false) => Err(Error::BusyTimeout),
            Err(Fault::Failed(_)) => Err(Error::Pin),
            Err(Fault::Pending) => Err(Error::Spi(Fault::Pending)),
        }
    }

    /// Write-only command: opcode + parameters in one transaction.
    fn command(&self, spi: &mut Bus, bytes: &[u8]) -> (e: Result<(), Error<Fault>>)
        ensures
            (final(spi)@, e) == commanding(old(spi)@, bytes@),
    {
        self.wait_busy(spi)?;
        spi_err(spi.frame_out(bytes))
    }

    /// Read command: opcode out, then `n` bytes clocked in. Per the
    /// transaction tables the first byte read back is the status byte.
    fn read_command(&self, spi: &mut Bus, op: u8, n: usize) -> (e: Result<Vec<u8>, Error<Fault>>)
        ensures
            ({
                let (s, r) = answering(old(spi)@, op, n as nat, |b: Seq<u8>| b);
                &&& final(spi)@ == s
                &&& match r {
                    Ok(b) => e matches Ok(v) && v@ == b && b.len() == n,
                    Err(x) => e == Err::<Vec<u8>, Error<Fault>>(x),
                }
            }),
    {
        self.wait_busy(spi)?;
        let bytes: [u8; 1] = [op];
        assert(bytes@ =~= seq![op]);
        spi_err(spi.frame(&bytes, n))
    }

    /// Read into `data` what comes after `head` and the status byte.
    fn read_after(&self, spi: &mut Bus, head: &[u8], data: &mut [u8]) -> (e: Result<(), Error<Fault>>)
        requires
            old(data)@.len() < usize::MAX,
        ensures
            ({
                let (s, r) = reading_after(old(spi)@, head@, old(data)@.len());
                &&& final(spi)@ == s
                &&& match r {
                    Ok(d) => e == Ok::<(), Error<Fault>>(()) && final(data)@ == d,
                    Err(x) => e == Err::<(), Error<Fault>>(x) && final(data)@ == old(data)@,
                }
            }),
    {
        self.wait_busy(spi)?;
        let n: usize = data.len();
        let v: Vec<u8> = spi_err(spi.frame(head, n + 1))?;
        copy_from(&v, 1, data);
        Ok(())
    }

    /// Write one register.
    fn write_byte(&self, spi: &mut Bus, addr: u16, value: u8) -> (e: Result<(), Error<Fault>>)
        ensures
            (final(spi)@, e) == register_write(old(spi)@, addr, seq![value]),
    {
        let bytes: [u8; 1] = [value];
        assert(bytes@ =~= seq![value]);
        self.write_register(spi, addr, &bytes)
    }

    // ---- Reset / wake ------------------------------------------------------

    /// Wake the chip from Sleep mode: any NSS falling edge starts the
    /// wake-up (section 9.3), so a harmless GetStatus is clocked out
    /// WITHOUT the usual BUSY pre-check (BUSY is held high for the whole
    /// sleep). Then wait for the boot to finish - 340 us warm, 3.5 ms cold
    /// (Table 8-2).
    pub fn wake(&self, spi: &mut Bus) -> (e: Result<(), Error<Fault>>)
        ensures
            (final(spi)@, e) == chain(
                on_spi(old(spi)@.frame(seq![opcode::GET_STATUS], 1)),
                |s: Session, b: Seq<u8>| busy_waiting(s),
            ),
    {
        let bytes: [u8; 1] = [opcode::GET_STATUS];
        assert(bytes@ =~= seq![opcode::GET_STATUS]);
        spi_err(spi.frame(&bytes, 1))?;
        self.wait_busy(spi)
    }

    // ---- Operational modes -------------------------------------------------

    /// Enter SLEEP (section 13.1.1; STDBY only). After the NSS rising edge
    /// the chip is unresponsive for ~500 us while it saves state and
    /// powers down - do not talk to it (the next BUSY wait does NOT cover
    /// this: BUSY stays high for the whole sleep, so the next contact must
    /// be [`Sx1262::wake`]).
    pub fn set_sleep(&self, spi: &mut Bus, cfg: SleepConfig) -> (e: Result<(), Error<Fault>>)
        ensures
            (final(spi)@, e) == commanding(
                old(spi)@,
                seq![opcode::SET_SLEEP, (4 * truth(cfg.warm_start) + truth(cfg.rtc_wake)) as u8],
            ),
    {
        let b: u8 = 4 * truth_byte(cfg.warm_start) + truth_byte(cfg.rtc_wake);
        let bytes: [u8; 2] = [opcode::SET_SLEEP, b];
        assert(bytes@ =~= seq![opcode::SET_SLEEP, b]);
        self.command(spi, &bytes)
    }

    pub fn set_standby(&self, spi: &mut Bus, clk: StandbyClk) -> (e: Result<(), Error<Fault>>)
        ensures
            (final(spi)@, e) == commanding(old(spi)@, seq![opcode::SET_STANDBY, clk.code()]),
    {
        let bytes: [u8; 2] = [opcode::SET_STANDBY, clk.bits()];
        assert(bytes@ =~= seq![opcode::SET_STANDBY, clk.code()]);
        self.command(spi, &bytes)
    }

    pub fn set_fs(&self, spi: &mut Bus) -> (e: Result<(), Error<Fault>>)
        ensures
            (final(spi)@, e) == commanding(old(spi)@, seq![opcode::SET_FS]),
    {
        let bytes: [u8; 1] = [opcode::SET_FS];
        assert(bytes@ =~= seq![opcode::SET_FS]);
        self.command(spi, &bytes)
    }

    /// Enter TX. `timeout_steps` of 15.625 us each; [`TIMEOUT_SINGLE`]
    /// disables the timeout (section 13.1.4).
    pub fn set_tx(&self, spi: &mut Bus, timeout_steps: u32) -> (e: Result<(), Error<Fault>>)
        ensures
            (final(spi)@, e) == commanding(old(spi)@, seq![opcode::SET_TX] + bytes_be24(timeout_steps)),
    {
        let b1: [u8; 3] = to_be24(timeout_steps);
        let bytes: [u8; 4] = [opcode::SET_TX, b1[0], b1[1], b1[2]];
        assert(bytes@ =~= seq![opcode::SET_TX] + bytes_be24(timeout_steps));
        self.command(spi, &bytes)
    }

    /// Enter RX. [`TIMEOUT_SINGLE`] = single reception, no timeout;
    /// [`RX_CONTINUOUS`] = stay in RX across packets; anything else is a
    /// timeout in 15.625 us steps (section 13.1.5).
    pub fn set_rx(&self, spi: &mut Bus, timeout_steps: u32) -> (e: Result<(), Error<Fault>>)
        ensures
            (final(spi)@, e) == commanding(old(spi)@, seq![opcode::SET_RX] + bytes_be24(timeout_steps)),
    {
        let b1: [u8; 3] = to_be24(timeout_steps);
        let bytes: [u8; 4] = [opcode::SET_RX, b1[0], b1[1], b1[2]];
        assert(bytes@ =~= seq![opcode::SET_RX] + bytes_be24(timeout_steps));
        self.command(spi, &bytes)
    }

    /// Stop the RX timeout on preamble detection instead of sync word /
    /// header detection (section 13.1.6).
    pub fn stop_timer_on_preamble(&self, spi: &mut Bus, enable: bool) -> (e: Result<(), Error<Fault>>)
        ensures
            (final(spi)@, e) == commanding(old(spi)@, seq![opcode::STOP_TIMER_ON_PREAMBLE, truth(enable)]),
    {
        let bytes: [u8; 2] = [opcode::STOP_TIMER_ON_PREAMBLE, truth_byte(enable)];
        assert(bytes@ =~= seq![opcode::STOP_TIMER_ON_PREAMBLE, truth(enable)]);
        self.command(spi, &bytes)
    }

    /// Listen mode: loop RX for `rx_steps` then sleep for `sleep_steps`,
    /// both in 15.625 us units (section 13.1.7). Exit via packet reception
    /// or SetStandby during an RX window.
    pub fn set_rx_duty_cycle(&self, spi: &mut Bus, rx_steps: u32, sleep_steps: u32) -> (e: Result<(), Error<Fault>>)
        ensures
            (final(spi)@, e) == commanding(old(spi)@, seq![opcode::SET_RX_DUTY_CYCLE] + bytes_be24(rx_steps) + bytes_be24(sleep_steps)),
    {
        let b1: [u8; 3] = to_be24(rx_steps);
        let b2: [u8; 3] = to_be24(sleep_steps);
        let bytes: [u8; 7] = [opcode::SET_RX_DUTY_CYCLE, b1[0], b1[1], b1[2], b2[0], b2[1], b2[2]];
        assert(bytes@ =~= seq![opcode::SET_RX_DUTY_CYCLE] + bytes_be24(rx_steps) + bytes_be24(sleep_steps));
        self.command(spi, &bytes)
    }

    /// Run one channel-activity detection with the parameters from
    /// [`Sx1262::set_cad_params`] (LoRa only, section 13.1.8).
    pub fn set_cad(&self, spi: &mut Bus) -> (e: Result<(), Error<Fault>>)
        ensures
            (final(spi)@, e) == commanding(old(spi)@, seq![opcode::SET_CAD]),
    {
        let bytes: [u8; 1] = [opcode::SET_CAD];
        assert(bytes@ =~= seq![opcode::SET_CAD]);
        self.command(spi, &bytes)
    }

    /// Test mode: unmodulated carrier at the configured frequency and
    /// power (section 13.1.9).
    pub fn set_tx_continuous_wave(&self, spi: &mut Bus) -> (e: Result<(), Error<Fault>>)
        ensures
            (final(spi)@, e) == commanding(old(spi)@, seq![opcode::SET_TX_CONTINUOUS_WAVE]),
    {
        let bytes: [u8; 1] = [opcode::SET_TX_CONTINUOUS_WAVE];
        assert(bytes@ =~= seq![opcode::SET_TX_CONTINUOUS_WAVE]);
        self.command(spi, &bytes)
    }

    /// Test mode: endless preamble (section 13.1.10).
    pub fn set_tx_infinite_preamble(&self, spi: &mut Bus) -> (e: Result<(), Error<Fault>>)
        ensures
            (final(spi)@, e) == commanding(old(spi)@, seq![opcode::SET_TX_INFINITE_PREAMBLE]),
    {
        let bytes: [u8; 1] = [opcode::SET_TX_INFINITE_PREAMBLE];
        assert(bytes@ =~= seq![opcode::SET_TX_INFINITE_PREAMBLE]);
        self.command(spi, &bytes)
    }

    /// Select LDO-only or DC-DC+LDO regulation (section 13.1.11).
    /// Hardware-dependent - only enable DC-DC on designs that fit the
    /// inductor.
    pub fn set_regulator_mode(&self, spi: &mut Bus, mode: RegulatorMode) -> (e: Result<(), Error<Fault>>)
        ensures
            (final(spi)@, e) == commanding(old(spi)@, seq![opcode::SET_REGULATOR_MODE, mode.code()]),
    {
        let bytes: [u8; 2] = [opcode::SET_REGULATOR_MODE, mode.bits()];
        assert(bytes@ =~= seq![opcode::SET_REGULATOR_MODE, mode.code()]);
        self.command(spi, &bytes)
    }

    /// Calibrate the blocks in `mask` (see [`regs::calibrate`]; STDBY_RC
    /// only, BUSY high for the ~3.5 ms of a full run).
    pub fn calibrate(&self, spi: &mut Bus, mask: u8) -> (e: Result<(), Error<Fault>>)
        ensures
            (final(spi)@, e) == commanding(old(spi)@, seq![opcode::CALIBRATE, mask]),
    {
        let bytes: [u8; 2] = [opcode::CALIBRATE, mask];
        assert(bytes@ =~= seq![opcode::CALIBRATE, mask]);
        self.command(spi, &bytes)
    }

    /// Image calibration for a band preset from [`regs::image_band`]
    /// (section 13.1.13).
    pub fn calibrate_image(&self, spi: &mut Bus, band: (u8, u8)) -> (e: Result<(), Error<Fault>>)
        ensures
            (final(spi)@, e) == commanding(old(spi)@, seq![opcode::CALIBRATE_IMAGE, band.0, band.1]),
    {
        let bytes: [u8; 3] = [opcode::CALIBRATE_IMAGE, band.0, band.1];
        assert(bytes@ =~= seq![opcode::CALIBRATE_IMAGE, band.0, band.1]);
        self.command(spi, &bytes)
    }

    /// Image calibration for an arbitrary MHz range, using the 4 MHz-step
    /// floor/ceil encoding of section 9.2.1.
    pub fn calibrate_image_mhz(&self, spi: &mut Bus, freq1_mhz: u16, freq2_mhz: u16) -> (e: Result<
        (),
        Error<Fault>,
    >)
        requires
            freq2_mhz <= 0xFFFC,
        ensures
            (final(spi)@, e) == commanding(
                old(spi)@,
                seq![
                    opcode::CALIBRATE_IMAGE,
                    image_band_of(freq1_mhz as int, freq2_mhz as int).0,
                    image_band_of(freq1_mhz as int, freq2_mhz as int).1,
                ],
            ),
    {
        self.calibrate_image(spi, image_steps(freq1_mhz, freq2_mhz))
    }

    /// Raw SetPaConfig (section 13.1.14) - prefer
    /// [`Sx1262::set_pa_preset`] unless a non-tabulated operating point is
    /// genuinely needed.
    pub fn set_pa_config(&self, spi: &mut Bus, pa_duty_cycle: u8, hp_max: u8, device_sel: u8, pa_lut: u8) -> (e: Result<(), Error<Fault>>)
        ensures
            (final(spi)@, e) == commanding(old(spi)@, seq![opcode::SET_PA_CONFIG, pa_duty_cycle, hp_max, device_sel, pa_lut]),
    {
        let bytes: [u8; 5] = [opcode::SET_PA_CONFIG, pa_duty_cycle, hp_max, device_sel, pa_lut];
        assert(bytes@ =~= seq![opcode::SET_PA_CONFIG, pa_duty_cycle, hp_max, device_sel, pa_lut]);
        self.command(spi, &bytes)
    }

    /// SX1262 PA operating point from the optimal-settings table.
    pub fn set_pa_preset(&self, spi: &mut Bus, preset: PaPreset) -> (e: Result<(), Error<Fault>>)
        ensures
            (final(spi)@, e) == commanding(
                old(spi)@,
                seq![opcode::SET_PA_CONFIG, preset.point().0, preset.point().1, 0x00u8, 0x01u8],
            ),
    {
        let (duty, hpmax): (u8, u8) = preset.duty_hpmax();
        self.set_pa_config(spi, duty, hpmax, 0x00, 0x01)
    }

    /// Mode entered after TxDone / RxDone (section 13.1.15).
    pub fn set_rx_tx_fallback_mode(&self, spi: &mut Bus, mode: FallbackMode) -> (e: Result<(), Error<Fault>>)
        ensures
            (final(spi)@, e) == commanding(old(spi)@, seq![opcode::SET_RX_TX_FALLBACK_MODE, mode.code()]),
    {
        let bytes: [u8; 2] = [opcode::SET_RX_TX_FALLBACK_MODE, mode.bits()];
        assert(bytes@ =~= seq![opcode::SET_RX_TX_FALLBACK_MODE, mode.code()]);
        self.command(spi, &bytes)
    }

    // ---- Registers and buffer ----------------------------------------------

    /// Write `data` to consecutive registers starting at `addr` (section
    /// 13.2.1).
    pub fn write_register(&self, spi: &mut Bus, addr: u16, data: &[u8]) -> (e: Result<(), Error<Fault>>)
        ensures
            (final(spi)@, e) == register_write(old(spi)@, addr, data@),
    {
        let a: [u8; 2] = to_be16(addr);
        let head: [u8; 3] = [opcode::WRITE_REGISTER, a[0], a[1]];
        assert(head@ =~= seq![opcode::WRITE_REGISTER] + bytes_be16(addr));
        let bytes: Vec<u8> = joined(&head, data);
        self.command(spi, &bytes)
    }

    /// Read consecutive registers starting at `addr` into `data` (section
    /// 13.2.2 - one NOP/status byte precedes the data).
    pub fn read_register(&self, spi: &mut Bus, addr: u16, data: &mut [u8]) -> (e: Result<(), Error<Fault>>)
        requires
            old(data)@.len() < usize::MAX,
        ensures
            ({
                let (s, r) = register_read(old(spi)@, addr, old(data)@.len());
                &&& final(spi)@ == s
                &&& match r {
                    Ok(d) => e == Ok::<(), Error<Fault>>(()) && final(data)@ == d,
                    Err(x) => e == Err::<(), Error<Fault>>(x) && final(data)@ == old(data)@,
                }
            }),
    {
        let a: [u8; 2] = to_be16(addr);
        let head: [u8; 3] = [opcode::READ_REGISTER, a[0], a[1]];
        assert(head@ =~= seq![opcode::READ_REGISTER] + bytes_be16(addr));
        self.read_after(spi, &head, data)
    }

    /// Read-modify-write one register byte: clear `clear` bits, then set
    /// `set` bits.
    pub fn update_register(&self, spi: &mut Bus, addr: u16, clear: u8, set: u8) -> (e: Result<(), Error<Fault>>)
        ensures
            (final(spi)@, e) == register_update(old(spi)@, addr, clear, set),
    {
        let mut v: [u8; 1] = [0];
        self.read_register(spi, addr, &mut v)?;
        let new: [u8; 1] = [(v[0] & !clear) | set];
        assert(new@ =~= seq![merged(v@[0], clear, set)]);
        self.write_register(spi, addr, &new)
    }

    /// Write TX payload into the 256-byte data buffer at `offset` (section
    /// 13.2.3; the address wraps at 256).
    pub fn write_buffer(&self, spi: &mut Bus, offset: u8, data: &[u8]) -> (e: Result<(), Error<Fault>>)
        ensures
            (final(spi)@, e) == commanding(old(spi)@, seq![opcode::WRITE_BUFFER, offset] + data@),
    {
        let head: [u8; 2] = [opcode::WRITE_BUFFER, offset];
        assert(head@ =~= seq![opcode::WRITE_BUFFER, offset]);
        let bytes: Vec<u8> = joined(&head, data);
        self.command(spi, &bytes)
    }

    /// Read received payload from the data buffer at `offset` (section
    /// 13.2.4 - one NOP/status byte precedes the data).
    pub fn read_buffer(&self, spi: &mut Bus, offset: u8, data: &mut [u8]) -> (e: Result<(), Error<Fault>>)
        requires
            old(data)@.len() < usize::MAX,
        ensures
            ({
                let (s, r) = reading_after(old(spi)@, seq![opcode::READ_BUFFER, offset], old(data)@.len());
                &&& final(spi)@ == s
                &&& match r {
                    Ok(d) => e == Ok::<(), Error<Fault>>(()) && final(data)@ == d,
                    Err(x) => e == Err::<(), Error<Fault>>(x) && final(data)@ == old(data)@,
                }
            }),
    {
        let head: [u8; 2] = [opcode::READ_BUFFER, offset];
        assert(head@ =~= seq![opcode::READ_BUFFER, offset]);
        self.read_after(spi, &head, data)
    }

    // ---- DIO / IRQ ---------------------------------------------------------

    /// Route IRQ sources (see [`regs::irq`]) to the DIO pins (section
    /// 13.3.1). A source fires a DIO only when present in both `irq_mask`
    /// and that DIO's mask; DIOs claimed by the RF switch or TCXO never
    /// fire.
    pub fn set_dio_irq_params(&self, spi: &mut Bus, irq_mask: u16, dio1_mask: u16, dio2_mask: u16, dio3_mask: u16) -> (e: Result<(), Error<Fault>>)
        ensures
            (final(spi)@, e) == commanding(old(spi)@, seq![opcode::SET_DIO_IRQ_PARAMS] + bytes_be16(irq_mask) + bytes_be16(dio1_mask) + bytes_be16(dio2_mask) + bytes_be16(dio3_mask)),
    {
        let b1: [u8; 2] = to_be16(irq_mask);
        let b2: [u8; 2] = to_be16(dio1_mask);
        let b3: [u8; 2] = to_be16(dio2_mask);
        let b4: [u8; 2] = to_be16(dio3_mask);
        let bytes: [u8; 9] = [opcode::SET_DIO_IRQ_PARAMS, b1[0], b1[1], b2[0], b2[1], b3[0], b3[1], b4[0], b4[1]];
        assert(bytes@ =~= seq![opcode::SET_DIO_IRQ_PARAMS] + bytes_be16(irq_mask) + bytes_be16(dio1_mask) + bytes_be16(dio2_mask) + bytes_be16(dio3_mask));
        self.command(spi, &bytes)
    }

    /// Currently latched IRQ flags (section 13.3.3).
    pub fn irq_status(&self, spi: &mut Bus) -> (e: Result<u16, Error<Fault>>)
        ensures
            (final(spi)@, e) == answering(
                old(spi)@,
                opcode::GET_IRQ_STATUS,
                3,
                |b: Seq<u8>| le16(b[2], b[1]) as u16,
            ),
    {
        let b: Vec<u8> = self.read_command(spi, opcode::GET_IRQ_STATUS, 3)?;
        Ok(u16_le(b[2], b[1]))
    }

    /// Clear the IRQ flags in `mask` (section 13.3.4).
    pub fn clear_irq(&self, spi: &mut Bus, mask: u16) -> (e: Result<(), Error<Fault>>)
        ensures
            (final(spi)@, e) == commanding(old(spi)@, seq![opcode::CLEAR_IRQ_STATUS] + bytes_be16(mask)),
    {
        let b1: [u8; 2] = to_be16(mask);
        let bytes: [u8; 3] = [opcode::CLEAR_IRQ_STATUS, b1[0], b1[1]];
        assert(bytes@ =~= seq![opcode::CLEAR_IRQ_STATUS] + bytes_be16(mask));
        self.command(spi, &bytes)
    }

    /// Hand DIO2 to the internal state machine as a TX/RX antenna switch
    /// control: high during TX, low otherwise (section 13.3.5).
    pub fn set_dio2_rf_switch(&self, spi: &mut Bus, enable: bool) -> (e: Result<(), Error<Fault>>)
        ensures
            (final(spi)@, e) == commanding(old(spi)@, seq![opcode::SET_DIO2_AS_RF_SWITCH_CTRL, truth(enable)]),
    {
        let bytes: [u8; 2] = [opcode::SET_DIO2_AS_RF_SWITCH_CTRL, truth_byte(enable)];
        assert(bytes@ =~= seq![opcode::SET_DIO2_AS_RF_SWITCH_CTRL, truth(enable)]);
        self.command(spi, &bytes)
    }

    /// Hand DIO3 to the state machine as the TCXO supply (section 13.3.6).
    /// `delay_steps` (15.625 us units) gates the 32 MHz clock while the
    /// oscillator stabilizes. At POR or cold-start wake the chip has
    /// already tried its crystal path, so XOSC_START_ERR is latched
    /// afterwards by design - clear it via [`Sx1262::clear_device_errors`]
    /// and recalibrate.
    pub fn set_dio3_tcxo(&self, spi: &mut Bus, voltage: TcxoVoltage, delay_steps: u32) -> (e: Result<(), Error<Fault>>)
        ensures
            (final(spi)@, e) == commanding(old(spi)@, seq![opcode::SET_DIO3_AS_TCXO_CTRL, voltage.code()] + bytes_be24(delay_steps)),
    {
        let b1: [u8; 3] = to_be24(delay_steps);
        let bytes: [u8; 5] = [opcode::SET_DIO3_AS_TCXO_CTRL, voltage.bits(), b1[0], b1[1], b1[2]];
        assert(bytes@ =~= seq![opcode::SET_DIO3_AS_TCXO_CTRL, voltage.code()] + bytes_be24(delay_steps));
        self.command(spi, &bytes)
    }

    // ---- RF, modulation, packet --------------------------------------------

    /// Carrier frequency in Hz (section 13.4.1).
    pub fn set_rf_frequency_hz(&self, spi: &mut Bus, freq_hz: u32) -> (e: Result<(), Error<Fault>>)
        ensures
            (final(spi)@, e) == commanding(
                old(spi)@,
                seq![opcode::SET_RF_FREQUENCY] + bytes_be32(step_word(freq_hz as int)),
            ),
    {
        let f: [u8; 4] = to_be32(hz_to_pll_steps(freq_hz));
        let bytes: [u8; 5] = [opcode::SET_RF_FREQUENCY, f[0], f[1], f[2], f[3]];
        assert(bytes@ =~= seq![opcode::SET_RF_FREQUENCY] + bytes_be32(step_word(freq_hz as int)));
        self.command(spi, &bytes)
    }

    /// Select the modem. Must be the FIRST radio-configuration command
    /// (section 14.5); switching drops the other modem's parameters and
    /// requires STDBY_RC.
    pub fn set_packet_type(&self, spi: &mut Bus, t: PacketType) -> (e: Result<(), Error<Fault>>)
        ensures
            (final(spi)@, e) == commanding(old(spi)@, seq![opcode::SET_PACKET_TYPE, t.code()]),
    {
        let bytes: [u8; 2] = [opcode::SET_PACKET_TYPE, t.bits()];
        assert(bytes@ =~= seq![opcode::SET_PACKET_TYPE, t.code()]);
        self.command(spi, &bytes)
    }

    /// Currently selected modem, raw (Table 13-38 values).
    pub fn packet_type(&self, spi: &mut Bus) -> (e: Result<u8, Error<Fault>>)
        ensures
            (final(spi)@, e) == answering(
                old(spi)@,
                opcode::GET_PACKET_TYPE,
                2,
                |b: Seq<u8>| b[1],
            ),
    {
        let b: Vec<u8> = self.read_command(spi, opcode::GET_PACKET_TYPE, 2)?;
        Ok(b[1])
    }

    /// TX power in dBm and PA ramp time (section 13.4.4). Range -9..=+22
    /// dBm with the high-power PA (SX1262); the PA config preset decides
    /// how much of that range is efficient.
    pub fn set_tx_params(&self, spi: &mut Bus, power_dbm: i8, ramp: RampTime) -> (e: Result<(), Error<Fault>>)
        ensures
            (final(spi)@, e) == commanding(old(spi)@, seq![opcode::SET_TX_PARAMS, (power_dbm as int % 256) as u8, ramp.code()]),
    {
        let bytes: [u8; 3] = [opcode::SET_TX_PARAMS, ((power_dbm as i16 + 256) % 256) as u8, ramp.bits()];
        assert(bytes@ =~= seq![opcode::SET_TX_PARAMS, (power_dbm as int % 256) as u8, ramp.code()]);
        self.command(spi, &bytes)
    }

    /// LoRa modulation parameters (section 13.4.5.2). Also applies the
    /// section 15.1 modulation-quality workaround: TxModulation bit 2 must
    /// be 0 at BW500 and 1 at every other LoRa bandwidth.
    pub fn set_lora_modulation(&self, spi: &mut Bus, p: LoRaModParams) -> (e: Result<(), Error<Fault>>)
        ensures
            (final(spi)@, e) == chain(
                commanding(old(spi)@, seq![opcode::SET_MODULATION_PARAMS, p.sf.code(), p.bw.code(), p.cr.code(), truth(p.low_data_rate_opt)]),
                |s: Session, u: ()| modulation_quality(s, p.bw == LoRaBw::Khz500),
            ),
    {
        let bytes: [u8; 5] = [opcode::SET_MODULATION_PARAMS, p.sf.bits(), p.bw.bits(), p.cr.bits(), truth_byte(p.low_data_rate_opt)];
        assert(bytes@ =~= seq![opcode::SET_MODULATION_PARAMS, p.sf.code(), p.bw.code(), p.cr.code(), truth(p.low_data_rate_opt)]);
        self.command(spi, &bytes)?;
        if p.bw == LoRaBw::Khz500 {
            self.update_register(spi, reg::TX_MODULATION, 0x04, 0x00)
        } else {
            self.update_register(spi, reg::TX_MODULATION, 0x00, 0x04)
        }
    }

    /// GFSK modulation parameters (section 13.4.5.1). Also applies the
    /// section 15.1 workaround (TxModulation bit 2 = 1 for any (G)FSK
    /// configuration).
    pub fn set_gfsk_modulation(&self, spi: &mut Bus, p: GfskModParams) -> (e: Result<(), Error<Fault>>)
        requires
            p.bitrate_bps > 0,
        ensures
            (final(spi)@, e) == chain(
                commanding(old(spi)@, gfsk_modulation_bytes(p)),
                |s: Session, u: ()| modulation_quality(s, false),
            ),
    {
        let br: [u8; 3] = to_be24(bitrate_to_br(p.bitrate_bps));
        let fd: [u8; 3] = to_be24(fdev_to_steps(p.fdev_hz));
        let bytes: [u8; 9] = [
            opcode::SET_MODULATION_PARAMS,
            br[0],
            br[1],
            br[2],
            p.pulse_shape.bits(),
            p.rx_bw.bits(),
            fd[0],
            fd[1],
            fd[2],
        ];
        assert(bytes@ =~= gfsk_modulation_bytes(p));
        self.command(spi, &bytes)?;
        self.update_register(spi, reg::TX_MODULATION, 0x00, 0x04)
    }

    /// LoRa packet parameters (section 13.4.6.2). Also applies the section
    /// 15.4 inverted-IQ workaround (IQ polarity register bit 2: cleared
    /// for inverted IQ, set for standard).
    pub fn set_lora_packet_params(&self, spi: &mut Bus, p: LoRaPacketParams) -> (e: Result<(), Error<Fault>>)
        ensures
            (final(spi)@, e) == chain(
                commanding(old(spi)@, seq![opcode::SET_PACKET_PARAMS] + bytes_be16(p.preamble_symbols) + seq![truth(p.implicit_header), p.payload_len, truth(p.crc_on), truth(p.invert_iq)]),
                |s: Session, u: ()| iq_polarity(s, p.invert_iq),
            ),
    {
        let b1: [u8; 2] = to_be16(p.preamble_symbols);
        let bytes: [u8; 7] = [opcode::SET_PACKET_PARAMS, b1[0], b1[1], truth_byte(p.implicit_header), p.payload_len, truth_byte(p.crc_on), truth_byte(p.invert_iq)];
        assert(bytes@ =~= seq![opcode::SET_PACKET_PARAMS] + bytes_be16(p.preamble_symbols) + seq![truth(p.implicit_header), p.payload_len, truth(p.crc_on), truth(p.invert_iq)]);
        self.command(spi, &bytes)?;
        if p.invert_iq {
            self.update_register(spi, reg::IQ_POLARITY, 0x04, 0x00)
        } else {
            self.update_register(spi, reg::IQ_POLARITY, 0x00, 0x04)
        }
    }

    /// GFSK packet parameters (section 13.4.6.1).
    pub fn set_gfsk_packet_params(&self, spi: &mut Bus, p: GfskPacketParams) -> (e: Result<(), Error<Fault>>)
        ensures
            (final(spi)@, e) == commanding(old(spi)@, seq![opcode::SET_PACKET_PARAMS] + bytes_be16(p.preamble_bits) + seq![p.detector.code(), p.sync_word_bits, p.addr_comp.code(), truth(p.variable_len), p.payload_len, p.crc.code(), truth(p.whitening)]),
    {
        let b1: [u8; 2] = to_be16(p.preamble_bits);
        let bytes: [u8; 10] = [opcode::SET_PACKET_PARAMS, b1[0], b1[1], p.detector.bits(), p.sync_word_bits, p.addr_comp.bits(), truth_byte(p.variable_len), p.payload_len, p.crc.bits(), truth_byte(p.whitening)];
        assert(bytes@ =~= seq![opcode::SET_PACKET_PARAMS] + bytes_be16(p.preamble_bits) + seq![p.detector.code(), p.sync_word_bits, p.addr_comp.code(), truth(p.variable_len), p.payload_len, p.crc.code(), truth(p.whitening)]);
        self.command(spi, &bytes)
    }

    /// CAD parameters (section 13.4.7).
    pub fn set_cad_params(&self, spi: &mut Bus, p: CadParams) -> (e: Result<(), Error<Fault>>)
        ensures
            (final(spi)@, e) == commanding(old(spi)@, seq![opcode::SET_CAD_PARAMS, p.symbols.code(), p.det_peak, p.det_min, p.exit_mode.code()] + bytes_be24(p.timeout_steps)),
    {
        let b1: [u8; 3] = to_be24(p.timeout_steps);
        let bytes: [u8; 8] = [opcode::SET_CAD_PARAMS, p.symbols.bits(), p.det_peak, p.det_min, p.exit_mode.bits(), b1[0], b1[1], b1[2]];
        assert(bytes@ =~= seq![opcode::SET_CAD_PARAMS, p.symbols.code(), p.det_peak, p.det_min, p.exit_mode.code()] + bytes_be24(p.timeout_steps));
        self.command(spi, &bytes)
    }

    /// TX and RX base addresses inside the 256-byte data buffer (section
    /// 13.4.8).
    pub fn set_buffer_base(&self, spi: &mut Bus, tx_base: u8, rx_base: u8) -> (e: Result<(), Error<Fault>>)
        ensures
            (final(spi)@, e) == commanding(old(spi)@, seq![opcode::SET_BUFFER_BASE_ADDRESS, tx_base, rx_base]),
    {
        let bytes: [u8; 3] = [opcode::SET_BUFFER_BASE_ADDRESS, tx_base, rx_base];
        assert(bytes@ =~= seq![opcode::SET_BUFFER_BASE_ADDRESS, tx_base, rx_base]);
        self.command(spi, &bytes)
    }

    /// Number of LoRa symbols required to validate a lock before RxDone
    /// can fire (section 13.4.9; 0 = first symbol wins).
    pub fn set_lora_symb_num_timeout(&self, spi: &mut Bus, symb_num: u8) -> (e: Result<(), Error<Fault>>)
        ensures
            (final(spi)@, e) == commanding(old(spi)@, seq![opcode::SET_LORA_SYMB_NUM_TIMEOUT, symb_num]),
    {
        let bytes: [u8; 2] = [opcode::SET_LORA_SYMB_NUM_TIMEOUT, symb_num];
        assert(bytes@ =~= seq![opcode::SET_LORA_SYMB_NUM_TIMEOUT, symb_num]);
        self.command(spi, &bytes)
    }

    // ---- Status ------------------------------------------------------------

    /// Decoded chip status (section 13.5.1).
    pub fn status(&self, spi: &mut Bus) -> (e: Result<Status, Error<Fault>>)
        ensures
            (final(spi)@, e) == answering(
                old(spi)@,
                opcode::GET_STATUS,
                1,
                |b: Seq<u8>| Status::decoded(b[0]),
            ),
    {
        let b: Vec<u8> = self.read_command(spi, opcode::GET_STATUS, 1)?;
        Ok(Status::from_byte(b[0]))
    }

    /// Length and start offset of the last received payload (section
    /// 13.5.2).
    pub fn rx_buffer_status(&self, spi: &mut Bus) -> (e: Result<(u8, u8), Error<Fault>>)
        ensures
            (final(spi)@, e) == answering(
                old(spi)@,
                opcode::GET_RX_BUFFER_STATUS,
                3,
                |b: Seq<u8>| (b[1], b[2]),
            ),
    {
        let b: Vec<u8> = self.read_command(spi, opcode::GET_RX_BUFFER_STATUS, 3)?;
        Ok((b[1], b[2]))
    }

    /// LoRa metrics of the last packet (section 13.5.3).
    pub fn lora_packet_status(&self, spi: &mut Bus) -> (e: Result<LoRaPacketStatus, Error<Fault>>)
        ensures
            (final(spi)@, e) == answering(
                old(spi)@,
                opcode::GET_PACKET_STATUS,
                4,
                |b: Seq<u8>| LoRaPacketStatus {
                    rssi_pkt_dbm: half_negated(b[1]),
                    snr_pkt_db_x4: signed(b[2] as int, 0x80) as i8,
                    signal_rssi_dbm: half_negated(b[3]),
                },
            ),
    {
        let b: Vec<u8> = self.read_command(spi, opcode::GET_PACKET_STATUS, 4)?;
        Ok(LoRaPacketStatus { rssi_pkt_dbm: dbm(b[1]), snr_pkt_db_x4: to_i8(b[2]), signal_rssi_dbm: dbm(b[3]) })
    }

    /// GFSK metrics of the last packet (section 13.5.3).
    pub fn gfsk_packet_status(&self, spi: &mut Bus) -> (e: Result<GfskPacketStatus, Error<Fault>>)
        ensures
            (final(spi)@, e) == answering(
                old(spi)@,
                opcode::GET_PACKET_STATUS,
                4,
                |b: Seq<u8>| GfskPacketStatus {
                    rx_status: b[1],
                    rssi_sync_dbm: half_negated(b[2]),
                    rssi_avg_dbm: half_negated(b[3]),
                },
            ),
    {
        let b: Vec<u8> = self.read_command(spi, opcode::GET_PACKET_STATUS, 4)?;
        Ok(GfskPacketStatus { rx_status: b[1], rssi_sync_dbm: dbm(b[2]), rssi_avg_dbm: dbm(b[3]) })
    }

    /// Instantaneous RSSI during reception, dBm (section 13.5.4).
    pub fn rssi_inst_dbm(&self, spi: &mut Bus) -> (e: Result<i16, Error<Fault>>)
        ensures
            (final(spi)@, e) == answering(
                old(spi)@,
                opcode::GET_RSSI_INST,
                2,
                |b: Seq<u8>| half_negated(b[1]),
            ),
    {
        let b: Vec<u8> = self.read_command(spi, opcode::GET_RSSI_INST, 2)?;
        Ok(dbm(b[1]))
    }

    /// Reception counters since the last reset (section 13.5.5).
    pub fn stats(&self, spi: &mut Bus) -> (e: Result<Stats, Error<Fault>>)
        ensures
            (final(spi)@, e) == answering(
                old(spi)@,
                opcode::GET_STATS,
                7,
                |b: Seq<u8>| Stats {
                    packets_received: le16(b[2], b[1]) as u16,
                    crc_errors: le16(b[4], b[3]) as u16,
                    length_or_header_errors: le16(b[6], b[5]) as u16,
                },
            ),
    {
        let b: Vec<u8> = self.read_command(spi, opcode::GET_STATS, 7)?;
        Ok(
            Stats {
                packets_received: u16_le(b[2], b[1]),
                crc_errors: u16_le(b[4], b[3]),
                length_or_header_errors: u16_le(b[6], b[5]),
            },
        )
    }

    /// Reset the GetStats counters (section 13.5.6).
    pub fn reset_stats(&self, spi: &mut Bus) -> (e: Result<(), Error<Fault>>)
        ensures
            (final(spi)@, e) == commanding(old(spi)@, seq![opcode::RESET_STATS, 0u8, 0u8, 0u8, 0u8, 0u8, 0u8]),
    {
        let bytes: [u8; 7] = [opcode::RESET_STATS, 0, 0, 0, 0, 0, 0];
        assert(bytes@ =~= seq![opcode::RESET_STATS, 0u8, 0u8, 0u8, 0u8, 0u8, 0u8]);
        self.command(spi, &bytes)
    }

    /// Latched device error flags (see [`regs::op_error`]; section
    /// 13.6.1).
    pub fn device_errors(&self, spi: &mut Bus) -> (e: Result<u16, Error<Fault>>)
        ensures
            (final(spi)@, e) == answering(
                old(spi)@,
                opcode::GET_DEVICE_ERRORS,
                3,
                |b: Seq<u8>| le16(b[2], b[1]) as u16,
            ),
    {
        let b: Vec<u8> = self.read_command(spi, opcode::GET_DEVICE_ERRORS, 3)?;
        Ok(u16_le(b[2], b[1]))
    }

    /// Clear ALL latched device errors (section 13.6.2 - they cannot be
    /// cleared individually).
    pub fn clear_device_errors(&self, spi: &mut Bus) -> (e: Result<(), Error<Fault>>)
        ensures
            (final(spi)@, e) == commanding(old(spi)@, seq![opcode::CLEAR_DEVICE_ERRORS, 0u8, 0u8]),
    {
        let bytes: [u8; 3] = [opcode::CLEAR_DEVICE_ERRORS, 0, 0];
        assert(bytes@ =~= seq![opcode::CLEAR_DEVICE_ERRORS, 0u8, 0u8]);
        self.command(spi, &bytes)
    }

    // ---- Register-level helpers --------------------------------------------

    /// LoRa sync word (see [`regs::lora_sync_word`] for the public/private
    /// network values).
    pub fn set_lora_sync_word(&self, spi: &mut Bus, word: u16) -> (e: Result<(), Error<Fault>>)
        ensures
            (final(spi)@, e) == register_write(old(spi)@, reg::LORA_SYNC_WORD_MSB, bytes_be16(word)),
    {
        let bytes: [u8; 2] = to_be16(word);
        self.write_register(spi, reg::LORA_SYNC_WORD_MSB, &bytes)
    }

    /// GFSK sync word bytes (up to 8; pair with
    /// `GfskPacketParams::sync_word_bits`).
    pub fn set_fsk_sync_word(&self, spi: &mut Bus, word: &[u8]) -> (e: Result<(), Error<Fault>>)
        ensures
            (final(spi)@, e) == register_write(
                old(spi)@,
                reg::FSK_SYNC_WORD_0,
                word@.take(if word@.len() < 8 { word@.len() as int } else { 8 }),
            ),
    {
        let n: usize = if word.len() < 8 { word.len() } else { 8 };
        self.write_register(spi, reg::FSK_SYNC_WORD_0, &word[0..n])
    }

    /// RX gain: boosted (+~2 dB sensitivity for ~2 mA) or the power-saving
    /// default. Boosted mode also programs the retention trio so the
    /// setting survives warm-start sleep (section 9.6).
    pub fn set_rx_gain_boosted(&self, spi: &mut Bus, boosted: bool) -> (e: Result<(), Error<Fault>>)
        ensures
            (final(spi)@, e) == gain_setting(old(spi)@, boosted),
    {
        self.write_byte(spi, reg::RX_GAIN, if boosted { 0x96 } else { 0x94 })?;
        if boosted {
            self.write_byte(spi, reg::RETENTION_LIST_0, 0x01)?;
            let pair: [u8; 2] = [0x08, 0xAC];
            assert(pair@ =~= seq![0x08u8, 0xACu8]);
            self.write_register(spi, reg::RETENTION_LIST_1, &pair)?;
        }
        Ok(())
    }

    /// Over-current protection, raw register value in 2.5 mA steps (reset
    /// default 0x38 = 140 mA on the SX1262).
    pub fn set_ocp_raw(&self, spi: &mut Bus, value: u8) -> (e: Result<(), Error<Fault>>)
        ensures
            (final(spi)@, e) == register_write(old(spi)@, reg::OCP_CONFIGURATION, seq![value]),
    {
        self.write_byte(spi, reg::OCP_CONFIGURATION, value)
    }

    /// Section 15.2 workaround: relax the SX1262 PA clamp (TxClampConfig
    /// bits 4:1 to 1111) so antenna mismatch does not cost 5-6 dB of
    /// output. Apply once after every POR or cold-start wake.
    pub fn apply_tx_clamp_workaround(&self, spi: &mut Bus) -> (e: Result<(), Error<Fault>>)
        ensures
            (final(spi)@, e) == register_update(old(spi)@, reg::TX_CLAMP_CONFIG, 0x00, 0x1E),
    {
        self.update_register(spi, reg::TX_CLAMP_CONFIG, 0x00, 0x1E)
    }

    /// Section 15.3 workaround: after any RX with an active timeout in
    /// implicit-header LoRa mode, stop the RTC and clear the latched event
    /// so the stale timer cannot fire in a later mode.
    pub fn apply_implicit_timeout_workaround(&self, spi: &mut Bus) -> (e: Result<(), Error<Fault>>)
        ensures
            (final(spi)@, e) == chain(
                register_write(old(spi)@, reg::RTC_CONTROL, seq![0x00u8]),
                |s: Session, u: ()| register_update(s, reg::EVENT_MASK, 0x00, 0x02),
            ),
    {
        self.write_byte(spi, reg::RTC_CONTROL, 0x00)?;
        self.update_register(spi, reg::EVENT_MASK, 0x00, 0x02)
    }

    /// 4 bytes of hardware entropy (Table 12-1). Only meaningful while the
    /// receiver is running - put the chip in RX (continuous, IRQs masked)
    /// before sampling.
    pub fn random_u32(&self, spi: &mut Bus) -> (e: Result<u32, Error<Fault>>)
        ensures
            (final(spi)@, e) == chain(
                register_read(old(spi)@, reg::RANDOM_NUMBER_0, 4),
                |s: Session, b: Seq<u8>| (s, Ok::<u32, Error<Fault>>(le32(b[0], b[1], b[2], b[3]) as u32)),
            ),
    {
        let mut b: [u8; 4] = [0; 4];
        self.read_register(spi, reg::RANDOM_NUMBER_0, &mut b)?;
        Ok(u32_le(b[0], b[1], b[2], b[3]))
    }
}

} // verus!
