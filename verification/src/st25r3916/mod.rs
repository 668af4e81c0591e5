//! ST NFC universal device / EMVCo reader driver (ST25R3916/7).
//!
//! Datasheet-complete command layer over the chip's SPI interface
//! (DS12484 rev 8): register access in both spaces, the direct command
//! set, FIFO and passive-target-memory transfers, the four-register
//! interrupt system, and typed helpers for the power-up ritual the
//! datasheet mandates (overheat-protection frame, 3.3 V supply mode,
//! regulator adjustment). Protocol logic - ISO14443 anticollision, NDEF,
//! card emulation flows - belongs to a layer above; this driver only
//! speaks chip verbs.
//!
//! ## Transport requirements
//!
//! - **SPI mode 1** (CPOL = 0, CPHA = 1; section 4.3.3) - unlike the
//!   mode-0 devices this chip may share a bus with. The owner of the
//!   interface must apply that mode per frame.
//! - The IRQ pin is level-high until all set interrupt registers are
//!   read; the caller owns the pin and the read loop.
//!
//! ## Power-up ritual (section 4.1)
//!
//! After the rail comes up (and after every Set Default): send the
//! overheat-protection frame, configure the IO registers (3.3 V supplies
//! MUST set sup3V), enable the oscillator and wait for osc_ok / I_osc,
//! then Adjust Regulators. Only then is the RF part trustworthy.

use vstd::prelude::*;
use crate::bus::{chain, merged, Bus, Fault, Session};
use crate::bytes::{copy_from, joined};

pub mod regs;

use regs::{cmd, reg_a, reg_b, spi_mode};

verus! {

/// Errors surfaced by the command layer.
#[derive(Debug, Clone, Copy, PartialEq, Eq)]
pub enum Error<E> {
    /// SPI transaction failed.
    Spi(E),
}

/// Decoded IC identity register (Table 117).
#[derive(Debug, Clone, Copy, PartialEq, Eq, Structural)]
pub struct Identity {
    /// 5-bit type code; [`regs::IC_TYPE_ST25R3916`] on this part.
    pub ic_type: u8,
    /// 3-bit silicon revision (0b010 = rev 3.1).
    pub ic_rev: u8,
}

impl Identity {
    /// What an identity byte stands for.
    pub open spec fn decoded(v: u8) -> Identity {
        Identity { ic_type: (v as int / 8) as u8, ic_rev: (v as int % 8) as u8 }
    }

    /// What an identity byte stands for.
    pub fn from_byte(v: u8) -> (r: Identity)
        ensures
            r == Identity::decoded(v),
    {
        Identity { ic_type: v / 8, ic_rev: v % 8 }
    }

    pub fn is_st25r3916(&self) -> (r: bool)
        ensures
            r == (self.ic_type == regs::IC_TYPE_ST25R3916),
    {
        self.ic_type == regs::IC_TYPE_ST25R3916
    }
}

/// The four interrupt status registers, read (and thereby cleared) in one
/// auto-incremented burst (section 4.3.1).
#[derive(Debug, Clone, Copy, PartialEq, Eq, Structural, Default)]
pub struct Interrupts {
    /// Main register (0x1A) - see [`regs::irq_main`].
    pub main: u8,
    /// Timer and NFC register (0x1B) - see [`regs::irq_timer_nfc`].
    pub timer_nfc: u8,
    /// Error and wake-up register (0x1C) - see [`regs::irq_error_wup`].
    pub error_wup: u8,
    /// Passive target register (0x1D).
    pub target: u8,
}

/// Decoded FIFO status (Tables 66/67).
#[derive(Debug, Clone, Copy, PartialEq, Eq, Structural)]
pub struct FifoStatus {
    /// Bytes currently in the 512-byte FIFO.
    pub bytes: u16,
    pub underflow: bool,
    pub overflow: bool,
    /// Valid bits in an incomplete last byte (0 = complete).
    pub last_byte_bits: u8,
    /// Parity bit missing in the last byte.
    pub missing_parity: bool,
}

impl FifoStatus {
    /// What the two status bytes stand for: a 10-bit count, its two high
    /// bits on top of the second byte, flags below them.
    pub open spec fn decoded(low: u8, high: u8) -> FifoStatus {
        FifoStatus {
            bytes: (high as int / 64 * 256 + low) as u16,
            underflow: high & regs::fifo_status2::UNDERFLOW != 0,
            overflow: high & regs::fifo_status2::OVERFLOW != 0,
            last_byte_bits: (high as int / 2 % 8) as u8,
            missing_parity: high as int % 2 != 0,
        }
    }

    /// What the two status bytes stand for.
    pub fn from_bytes(low: u8, high: u8) -> (r: FifoStatus)
        ensures
            r == FifoStatus::decoded(low, high),
    {
        FifoStatus {
            bytes: (high / 64) as u16 * 256 + low as u16,
            underflow: high & regs::fifo_status2::UNDERFLOW != 0,
            overflow: high & regs::fifo_status2::OVERFLOW != 0,
            last_byte_bits: (high / 2) % 8,
            missing_parity: high % 2 != 0,
        }
    }
}

/// The regulated voltage that a result byte stands for in 3.3 V supply
/// mode: the setting in the high nibble, 5 for 2400 mV, 100 mV per step;
/// nothing below 5.
pub open spec fn regulated_mv(v: u8) -> Option<u16> {
    let setting = v as int / 16;
    if setting >= 5 { Some((2400 + 100 * (setting - 5)) as u16) } else { None }
}

/// The regulated voltage that a result byte stands for in 3.3 V supply
/// mode (Table 92).
pub fn regulator_mv(v: u8) -> (r: Option<u16>)
    ensures
        r == regulated_mv(v),
{
    let setting: u16 = (v / 16) as u16;
    if setting >= 5 {
        Some(2400 + 100 * (setting - 5))
    } else {
        None
    }
}

/// The two length registers for `bytes` full bytes and `extra` bits: 13
/// bits of bytes, then 3 bits of bits.
pub open spec fn length_bytes(bytes: u16, extra: u8) -> Seq<u8> {
    seq![(bytes as int / 32 % 256) as u8, (bytes as int % 32 * 8 + extra as int % 8) as u8]
}

/// The two length registers for a transmission (Tables 70/71).
pub fn tx_length(bytes: u16, extra_bits: u8) -> (r: [u8; 2])
    ensures
        r@ == length_bytes(bytes, extra_bits),
{
    let r: [u8; 2] = [((bytes / 32) % 256) as u8, (bytes % 32) as u8 * 8 + extra_bits % 8];
    assert(r@ =~= length_bytes(bytes, extra_bits));
    r
}

/// A length of up to 13 bits of bytes and 3 bits of bits can be read back
/// from the length registers.
pub proof fn length_reads_back(bytes: u16, extra: u8)
    requires
        bytes < 0x2000,
        extra < 8,
    ensures
        length_bytes(bytes, extra)[0] * 32 + length_bytes(bytes, extra)[1] / 8 == bytes,
        length_bytes(bytes, extra)[1] % 8 == extra,
{
}

// ---- What the driver puts on the bus ----------------------------------------

/// A transfer's outcome as an outcome of the driver.
pub open spec fn on_spi<T>(run: (Session, Result<T, Fault>)) -> (Session, Result<T, Error<Fault>>) {
    (run.0, match run.1 {
        Ok(v) => Ok(v),
        Err(f) => Err(Error::Spi(f)),
    })
}

/// The first byte of a register access: mode and 6-bit address.
pub open spec fn access(mode: u8, addr: u8) -> u8 {
    (mode + addr as int % 64) as u8
}

/// One direct command.
pub open spec fn commanding(s: Session, code: u8) -> (Session, Result<(), Error<Fault>>) {
    on_spi(s.frame_out(seq![code]))
}

/// A write of consecutive space-A registers.
pub open spec fn writing(s: Session, addr: u8, data: Seq<u8>) -> (Session, Result<(), Error<Fault>>) {
    on_spi(s.frame_out(seq![access(spi_mode::REG_WRITE, addr)] + data))
}

/// A read of consecutive space-A registers.
pub open spec fn reading(s: Session, addr: u8, n: nat) -> (Session, Result<Seq<u8>, Error<Fault>>) {
    on_spi(s.frame(seq![access(spi_mode::REG_READ, addr)], n))
}

/// A read-modify-write of one space-A register; its new value.
pub open spec fn updating(s: Session, addr: u8, clear: u8, set: u8) -> (Session, Result<u8, Error<Fault>>) {
    chain(
        reading(s, addr, 1),
        |s1: Session, v: Seq<u8>|
            chain(
                writing(s1, addr, seq![merged(v[0], clear, set)]),
                |s2: Session, u: ()| (s2, Ok(merged(v[0], clear, set))),
            ),
    )
}

/// A read of space-A registers, and what their bytes stand for.
pub open spec fn decoding<T>(s: Session, addr: u8, n: nat, meaning: spec_fn(Seq<u8>) -> T) -> (
    Session,
    Result<T, Error<Fault>>,
) {
    chain(reading(s, addr, n), |s1: Session, b: Seq<u8>| (s1, Ok(meaning(b))))
}

/// The outcome of a read into a buffer: the bytes are in it, or it is as
/// it was.
pub open spec fn read_into(
    run: (Session, Result<Seq<u8>, Error<Fault>>),
    after: Session,
    before: Seq<u8>,
    data: Seq<u8>,
    e: Result<(), Error<Fault>>,
) -> bool {
    &&& after == run.0
    &&& match run.1 {
        Ok(d) => e == Ok::<(), Error<Fault>>(()) && data == d,
        Err(x) => e == Err::<(), Error<Fault>>(x) && data == before,
    }
}

// ---- The driver -------------------------------------------------------------

/// ST25R3916/7 command-layer driver. Stateless; the session is borrowed
/// per call so the chip can live on a shared bus behind its own chip
/// select.
#[derive(Debug, Clone, Copy)]
pub struct St25r3916;

/// A fault as an error of the driver.
fn spi_err<T>(r: Result<T, Fault>) -> (e: Result<T, Error<Fault>>)
    ensures
        match r {
            Ok(v) => e == Ok::<T, Error<Fault>>(v),
            Err(f) => e == Err::<T, Error<Fault>>(Error::Spi(f)),
        },
{
    match r {
        Ok(v) => Ok(v),
        Err(f) => Err(Error::Spi(f)),
    }
}

impl St25r3916 {
    pub fn new() -> (r: St25r3916)
        ensures
            r == St25r3916,
    {
        St25r3916
    }

    /// Read into `data` what comes after `head`.
    fn read_after(&self, spi: &mut Bus, head: &[u8], data: &mut [u8]) -> (e: Result<(), Error<Fault>>)
        ensures
            read_into(
                on_spi(old(spi)@.frame(head@, old(data)@.len())),
                final(spi)@,
                old(data)@,
                final(data)@,
                e,
            ),
    {
        let v: Vec<u8> = spi_err(spi.frame(head, data.len()))?;
        copy_from(&v, 0, data);
        assert(v@.skip(0) =~= v@);
        Ok(())
    }

    // ---- Raw access ---------------------------------------------------------

    /// Send one direct command (Table 13). Commands flagged with a
    /// termination interrupt raise I_dct when done.
    pub fn direct_command(&self, spi: &mut Bus, code: u8) -> (e: Result<(), Error<Fault>>)
        ensures
            (final(spi)@, e) == commanding(old(spi)@, code),
    {
        let bytes: [u8; 1] = [code];
        assert(bytes@ =~= seq![code]);
        spi_err(spi.frame_out(&bytes))
    }

    /// Write consecutive space-A registers starting at `addr`
    /// (auto-increment, section 4.3.3).
    pub fn write_reg(&self, spi: &mut Bus, addr: u8, data: &[u8]) -> (e: Result<(), Error<Fault>>)
        ensures
            (final(spi)@, e) == writing(old(spi)@, addr, data@),
    {
        let head: [u8; 1] = [spi_mode::REG_WRITE + addr % 64];
        assert(head@ =~= seq![access(spi_mode::REG_WRITE, addr)]);
        let bytes: Vec<u8> = joined(&head, data);
        spi_err(spi.frame_out(&bytes))
    }

    /// Read consecutive space-A registers starting at `addr`.
    pub fn read_reg(&self, spi: &mut Bus, addr: u8, data: &mut [u8]) -> (e: Result<(), Error<Fault>>)
        ensures
            read_into(
                reading(old(spi)@, addr, old(data)@.len()),
                final(spi)@,
                old(data)@,
                final(data)@,
                e,
            ),
    {
        let head: [u8; 1] = [spi_mode::REG_READ + addr % 64];
        assert(head@ =~= seq![access(spi_mode::REG_READ, addr)]);
        self.read_after(spi, &head, data)
    }

    /// Write consecutive space-B registers (the 0xFB prefix rides in the
    /// same chip-select frame).
    pub fn write_reg_b(&self, spi: &mut Bus, addr: u8, data: &[u8]) -> (e: Result<(), Error<Fault>>)
        ensures
            (final(spi)@, e) == on_spi(
                old(spi)@.frame_out(seq![cmd::SPACE_B_ACCESS, access(spi_mode::REG_WRITE, addr)] + data@),
            ),
    {
        let head: [u8; 2] = [cmd::SPACE_B_ACCESS, spi_mode::REG_WRITE + addr % 64];
        assert(head@ =~= seq![cmd::SPACE_B_ACCESS, access(spi_mode::REG_WRITE, addr)]);
        let bytes: Vec<u8> = joined(&head, data);
        spi_err(spi.frame_out(&bytes))
    }

    /// Read consecutive space-B registers.
    pub fn read_reg_b(&self, spi: &mut Bus, addr: u8, data: &mut [u8]) -> (e: Result<(), Error<Fault>>)
        ensures
            read_into(
                on_spi(
                    old(spi)@.frame(
                        seq![cmd::SPACE_B_ACCESS, access(spi_mode::REG_READ, addr)],
                        old(data)@.len(),
                    ),
                ),
                final(spi)@,
                old(data)@,
                final(data)@,
                e,
            ),
    {
        let head: [u8; 2] = [cmd::SPACE_B_ACCESS, spi_mode::REG_READ + addr % 64];
        assert(head@ =~= seq![cmd::SPACE_B_ACCESS, access(spi_mode::REG_READ, addr)]);
        self.read_after(spi, &head, data)
    }

    /// Read-modify-write one space-A register. Returns its new value.
    pub fn update_reg(&self, spi: &mut Bus, addr: u8, clear: u8, set: u8) -> (e: Result<u8, Error<Fault>>)
        ensures
            (final(spi)@, e) == updating(old(spi)@, addr, clear, set),
    {
        let mut v: [u8; 1] = [0];
        self.read_reg(spi, addr, &mut v)?;
        let new: [u8; 1] = [(v[0] & !clear) | set];
        assert(new@ =~= seq![merged(v@[0], clear, set)]);
        self.write_reg(spi, addr, &new)?;
        Ok(new[0])
    }

    /// Load TX payload into the 512-byte FIFO (section 4.3.3).
    pub fn fifo_load(&self, spi: &mut Bus, data: &[u8]) -> (e: Result<(), Error<Fault>>)
        ensures
            (final(spi)@, e) == on_spi(old(spi)@.frame_out(seq![spi_mode::FIFO_LOAD] + data@)),
    {
        let head: [u8; 1] = [spi_mode::FIFO_LOAD];
        assert(head@ =~= seq![spi_mode::FIFO_LOAD]);
        let bytes: Vec<u8> = joined(&head, data);
        spi_err(spi.frame_out(&bytes))
    }

    /// Read received bytes out of the FIFO.
    pub fn fifo_read(&self, spi: &mut Bus, data: &mut [u8]) -> (e: Result<(), Error<Fault>>)
        ensures
            read_into(
                on_spi(old(spi)@.frame(seq![spi_mode::FIFO_READ], old(data)@.len())),
                final(spi)@,
                old(data)@,
                final(data)@,
                e,
            ),
    {
        let head: [u8; 1] = [spi_mode::FIFO_READ];
        assert(head@ =~= seq![spi_mode::FIFO_READ]);
        self.read_after(spi, &head, data)
    }

    /// Load one of the passive-target memory areas (Table 11).
    pub fn pt_memory_load(&self, spi: &mut Bus, area: u8, data: &[u8]) -> (e: Result<(), Error<Fault>>)
        ensures
            (final(spi)@, e) == on_spi(old(spi)@.frame_out(seq![area] + data@)),
    {
        let head: [u8; 1] = [area];
        assert(head@ =~= seq![area]);
        let bytes: Vec<u8> = joined(&head, data);
        spi_err(spi.frame_out(&bytes))
    }

    /// Read the passive-target memory from location 0 (a zero byte
    /// precedes the data per Table 11).
    pub fn pt_memory_read(&self, spi: &mut Bus, data: &mut [u8]) -> (e: Result<(), Error<Fault>>)
        ensures
            read_into(
                on_spi(old(spi)@.frame(seq![spi_mode::PT_READ, 0x00u8], old(data)@.len())),
                final(spi)@,
                old(data)@,
                final(data)@,
                e,
            ),
    {
        let head: [u8; 2] = [spi_mode::PT_READ, 0x00];
        assert(head@ =~= seq![spi_mode::PT_READ, 0x00u8]);
        self.read_after(spi, &head, data)
    }

    // ---- Power-up ritual ----------------------------------------------------

    /// The mandatory post-power-up / post-Set-Default frame that keeps
    /// the internal overheat protection from tripping below the junction
    /// temperature: test-access prefix, then register 0x04 = 0x10, all in
    /// one chip-select frame (section 4.1).
    pub fn apply_overheat_protection_fix(&self, spi: &mut Bus) -> (e: Result<(), Error<Fault>>)
        ensures
            (final(spi)@, e) == on_spi(old(spi)@.frame_out(seq![cmd::TEST_ACCESS, 0x04u8, 0x10u8])),
    {
        let bytes: [u8; 3] = [cmd::TEST_ACCESS, 0x04, 0x10];
        assert(bytes@ =~= seq![cmd::TEST_ACCESS, 0x04u8, 0x10u8]);
        spi_err(spi.frame_out(&bytes))
    }

    /// Put the chip back into its power-up state (section 4.4.1).
    /// Everything - calibrations, adjustments, the overheat fix - must be
    /// redone afterwards.
    pub fn set_default(&self, spi: &mut Bus) -> (e: Result<(), Error<Fault>>)
        ensures
            (final(spi)@, e) == commanding(old(spi)@, cmd::SET_DEFAULT),
    {
        self.direct_command(spi, cmd::SET_DEFAULT)
    }

    /// Stop transmission, reception, direct commands and timers; clears
    /// the IRQ line (section 4.4.2).
    pub fn stop_all_activities(&self, spi: &mut Bus) -> (e: Result<(), Error<Fault>>)
        ensures
            (final(spi)@, e) == commanding(old(spi)@, cmd::STOP_ALL_ACTIVITIES),
    {
        self.direct_command(spi, cmd::STOP_ALL_ACTIVITIES)
    }

    /// Decoded IC identity (register 0x3F).
    pub fn identity(&self, spi: &mut Bus) -> (e: Result<Identity, Error<Fault>>)
        ensures
            (final(spi)@, e) == decoding(
                old(spi)@,
                reg_a::IC_IDENTITY,
                1,
                |b: Seq<u8>| Identity::decoded(b[0]),
            ),
    {
        let mut v: [u8; 1] = [0];
        self.read_reg(spi, reg_a::IC_IDENTITY, &mut v)?;
        Ok(Identity::from_byte(v[0]))
    }

    /// Run the regulator adjustment procedure (section 4.4.10): reg_s
    /// toggled 1 -> 0 as the datasheet requires, then the Adjust
    /// Regulators command. Completion raises I_dct; the result is
    /// readable via [`Self::regulator_result_mv_3v3`]. Requires Ready
    /// mode (en set, oscillator stable).
    pub fn adjust_regulators(&self, spi: &mut Bus) -> (e: Result<(), Error<Fault>>)
        ensures
            (final(spi)@, e) == chain(
                updating(old(spi)@, reg_a::REGULATOR_CONTROL, 0, regs::regulator_control::REG_S),
                |s1: Session, v1: u8|
                    chain(
                        updating(s1, reg_a::REGULATOR_CONTROL, regs::regulator_control::REG_S, 0),
                        |s2: Session, v2: u8| commanding(s2, cmd::ADJUST_REGULATORS),
                    ),
            ),
    {
        self.update_reg(spi, reg_a::REGULATOR_CONTROL, 0, regs::regulator_control::REG_S)?;
        self.update_reg(spi, reg_a::REGULATOR_CONTROL, regs::regulator_control::REG_S, 0)?;
        self.direct_command(spi, cmd::ADJUST_REGULATORS)
    }

    /// Regulated voltage in millivolts after Adjust Regulators, as
    /// displayed in space-B 0x2C, decoded for 3.3 V supply mode (Table
    /// 92: setting 5 -> 2400 mV rising 100 mV per step to 15 -> 3400 mV;
    /// settings below 5 are undefined in this mode).
    pub fn regulator_result_mv_3v3(&self, spi: &mut Bus) -> (e: Result<Option<u16>, Error<Fault>>)
        ensures
            (final(spi)@, e) == chain(
                on_spi(
                    old(spi)@.frame(
                        seq![cmd::SPACE_B_ACCESS, access(spi_mode::REG_READ, reg_b::REGULATOR_RESULT)],
                        1,
                    ),
                ),
                |s: Session, b: Seq<u8>| (s, Ok::<Option<u16>, Error<Fault>>(regulated_mv(b[0]))),
            ),
    {
        let mut v: [u8; 1] = [0];
        self.read_reg_b(spi, reg_b::REGULATOR_RESULT, &mut v)?;
        Ok(regulator_mv(v[0]))
    }

    // ---- Interrupts ---------------------------------------------------------

    /// Write all four interrupt mask registers (1 = masked).
    pub fn set_irq_masks(&self, spi: &mut Bus, masks: [u8; 4]) -> (e: Result<(), Error<Fault>>)
        ensures
            (final(spi)@, e) == writing(old(spi)@, reg_a::IRQ_MASK_MAIN, masks@),
    {
        self.write_reg(spi, reg_a::IRQ_MASK_MAIN, &masks)
    }

    /// Read (and clear) all four interrupt status registers in one
    /// auto-incremented burst. Reading drops the IRQ line once every set
    /// bit has been read (section 4.3.1).
    pub fn read_interrupts(&self, spi: &mut Bus) -> (e: Result<Interrupts, Error<Fault>>)
        ensures
            (final(spi)@, e) == decoding(
                old(spi)@,
                reg_a::IRQ_MAIN,
                4,
                |b: Seq<u8>| Interrupts { main: b[0], timer_nfc: b[1], error_wup: b[2], target: b[3] },
            ),
    {
        let mut v: [u8; 4] = [0; 4];
        self.read_reg(spi, reg_a::IRQ_MAIN, &mut v)?;
        Ok(Interrupts { main: v[0], timer_nfc: v[1], error_wup: v[2], target: v[3] })
    }

    // ---- Status -------------------------------------------------------------

    /// Decoded FIFO status.
    pub fn fifo_status(&self, spi: &mut Bus) -> (e: Result<FifoStatus, Error<Fault>>)
        ensures
            (final(spi)@, e) == decoding(
                old(spi)@,
                reg_a::FIFO_STATUS_1,
                2,
                |b: Seq<u8>| FifoStatus::decoded(b[0], b[1]),
            ),
    {
        let mut v: [u8; 2] = [0; 2];
        self.read_reg(spi, reg_a::FIFO_STATUS_1, &mut v)?;
        Ok(FifoStatus::from_bytes(v[0], v[1]))
    }

    /// Auxiliary display register (osc_ok, field detector state, TX/RX
    /// activity - see [`regs::aux_display`]).
    pub fn aux_display(&self, spi: &mut Bus) -> (e: Result<u8, Error<Fault>>)
        ensures
            (final(spi)@, e) == decoding(old(spi)@, reg_a::AUX_DISPLAY, 1, |b: Seq<u8>| b[0]),
    {
        let mut v: [u8; 1] = [0];
        self.read_reg(spi, reg_a::AUX_DISPLAY, &mut v)?;
        Ok(v[0])
    }

    /// A/D converter output - the landing place of the measurement direct
    /// commands (amplitude 13.02 mVpp/LSB, power supply 23.4 mV/LSB,
    /// phase per the section 4.4.11 formula).
    pub fn ad_result(&self, spi: &mut Bus) -> (e: Result<u8, Error<Fault>>)
        ensures
            (final(spi)@, e) == decoding(old(spi)@, reg_a::AD_RESULT, 1, |b: Seq<u8>| b[0]),
    {
        let mut v: [u8; 1] = [0];
        self.read_reg(spi, reg_a::AD_RESULT, &mut v)?;
        Ok(v[0])
    }

    /// RSSI display register: (AM, PM) 4-bit peak values (Table 94's mV
    /// mapping).
    pub fn rssi(&self, spi: &mut Bus) -> (e: Result<(u8, u8), Error<Fault>>)
        ensures
            (final(spi)@, e) == decoding(
                old(spi)@,
                reg_a::RSSI_RESULT,
                1,
                |b: Seq<u8>| ((b[0] as int / 16) as u8, (b[0] as int % 16) as u8),
            ),
    {
        let mut v: [u8; 1] = [0];
        self.read_reg(spi, reg_a::RSSI_RESULT, &mut v)?;
        Ok((v[0] / 16, v[0] % 16))
    }

    // ---- Transmission -------------------------------------------------------

    /// Program the transmit length: `bytes` full bytes plus `extra_bits`
    /// (0..=7) of a split last byte, packed across the two length
    /// registers (Tables 70/71).
    pub fn set_num_tx_bytes(&self, spi: &mut Bus, bytes: u16, extra_bits: u8) -> (e: Result<(), Error<Fault>>)
        ensures
            (final(spi)@, e) == writing(old(spi)@, reg_a::NUM_TX_BYTES_1, length_bytes(bytes, extra_bits)),
    {
        let length: [u8; 2] = tx_length(bytes, extra_bits);
        self.write_reg(spi, reg_a::NUM_TX_BYTES_1, &length)
    }

    /// Select which supply the Measure Power Supply command samples
    /// (Table 90 mpsv bits: 0 VDD, 1 VDD_A, 2 VDD_D, 3 VDD_RF, 4 VDD_AM),
    /// then run it. Completion raises I_dct; read the result via
    /// [`Self::ad_result`] at 23.4 mV per LSB.
    pub fn measure_power_supply(&self, spi: &mut Bus, source: u8) -> (e: Result<(), Error<Fault>>)
        ensures
            (final(spi)@, e) == chain(
                updating(old(spi)@, reg_a::REGULATOR_CONTROL, 0x07, (source as int % 8) as u8),
                |s: Session, v: u8| commanding(s, cmd::MEASURE_POWER_SUPPLY),
            ),
    {
        self.update_reg(spi, reg_a::REGULATOR_CONTROL, 0x07, source % 8)?;
        self.direct_command(spi, cmd::MEASURE_POWER_SUPPLY)
    }
}

} // verus!
