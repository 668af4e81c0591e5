//! Bosch BHI260AP smart sensor hub driver (I2C host interface).
//!
//! Unlike a register-style IMU, the BHI260AP boots dead: the host must
//! upload a firmware image into its program RAM on every cold start (Host
//! Boot Mode) before any sensor exists. After boot everything runs over
//! the host protocol: commands in through channel 0, sensor data out
//! through two FIFO channels, command responses through a status channel
//! - see [`reg`] and [`cmd`] for the register and command numbers and
//! [`fifo`] for the stream format.
//!
//! The two long-running operations are split into stages so a caller
//! sharing the bus can release it between steps and pace itself:
//!
//! - firmware upload: [`Bhi260::begin_ram_upload`] once, then
//!   [`Bhi260::upload_chunk`] repeatedly;
//! - operations that answer via the status FIFO (self-test, FOC):
//!   `request_*` to start, [`Bhi260::try_read_status_packet`] to poll.
//!
//! Parameter reads are answered quickly and are handled internally with a
//! bounded poll ([`Bhi260::param_read`]).

use vstd::prelude::*;
use crate::bus::{overlay, Bus, Fault, Session};
use crate::bytes::{bytes_le16, bytes_le32, i16_le, le16, signed, to_le16, to_le32, u16_le};

pub mod boot_status;
pub mod chip_control;
pub mod cmd;
pub mod errors;
pub mod event_id;
pub mod fifo;
pub mod flush;
pub mod hif_control;
pub mod host_status;
pub mod int_status;
pub mod irq_control;
pub mod meta;
pub mod param;
pub mod phys;
pub mod reg;
pub mod status;

pub use errors::error_description;

verus! {

/// Default I2C address (HSDO strapped low; high selects 0x29).
pub const ADDR: u8 = 0x28;

/// Expected identity values.
pub const PRODUCT_ID: u8 = 0x89;
pub const ROM_VERSION: u16 = 0x142E;

/// Upload chunk size in bytes (multiple of 4). 256 bytes keeps a
/// shared-bus lock per chunk in the ~7 ms range at 400 kHz.
pub const UPLOAD_CHUNK: usize = 256;

/// Max bytes-to-follow this driver reads back for one parameter, and the
/// most that a command can carry.
pub const MAX_PARAM_BYTES: usize = 68;

/// Bounded spins when waiting for a synchronous status packet in
/// [`Bhi260::param_read`]. Callers that can yield should treat a timeout
/// as retryable - the firmware answers parameter reads late while its
/// framework is busy.
pub const STATUS_SPINS: usize = 500;

#[derive(Debug, Clone, Copy, PartialEq)]
pub enum Error<E> {
    /// I2C bus error.
    Bus(E),
    /// The chip reported a firmware/bootloader error code (register
    /// 0x2E); decode with [`error_description`].
    Chip(u8),
    /// A command was rejected (Command Error status packet).
    Command { command: u16, error: u8 },
    /// A response never arrived or had an unexpected shape.
    Protocol(&'static str),
}

/// Identity registers snapshot (see [`Bhi260::probe`]).
#[derive(Debug, Clone, Copy, PartialEq, Eq, Structural)]
pub struct ChipInfo {
    pub product_id: u8,
    pub revision: u8,
    pub rom_version: u16,
    pub kernel_version: u16,
    pub user_version: u16,
    pub feature_status: u8,
}

/// Self-test / FOC result decoded from their status packets.
#[derive(Debug, Clone, Copy, PartialEq, Eq)]
pub struct TestResult {
    pub sensor_id: u8,
    /// Self-test: 0 = pass, 1/2/4 = X/Y/Z axis failed, 7 = multiple, 8 =
    /// unsupported, 9 = no device. FOC: 0 = success, 0x65 = fail.
    pub status: u8,
    pub offsets: [i16; 3],
}

// ---- What the driver puts on the bus ----------------------------------------

/// A transfer's outcome as an outcome of the driver.
pub open spec fn on_bus<T>(run: (Session, Result<T, Fault>)) -> (Session, Result<T, Error<Fault>>) {
    (run.0, match run.1 {
        Ok(v) => Ok(v),
        Err(f) => Err(Error::Bus(f)),
    })
}

/// A read of one register.
pub open spec fn reading(s: Session, addr: u8, r: u8) -> (Session, Result<u8, Error<Fault>>) {
    on_bus(s.read_reg(addr, r))
}

/// A write of one register.
pub open spec fn writing(s: Session, addr: u8, r: u8, val: u8) -> (Session, Result<(), Error<Fault>>) {
    on_bus(s.write_reg(addr, r, val))
}

/// A burst write: the register, then the data, in one transaction.
pub open spec fn burst(s: Session, addr: u8, r: u8, data: Seq<u8>) -> (Session, Result<(), Error<Fault>>) {
    on_bus(s.write(addr, seq![r] + data))
}

/// `content` zero-padded to a multiple of 4 bytes.
pub open spec fn padded(content: Seq<u8>) -> Seq<u8> {
    Seq::new(
        ((content.len() + 3) / 4 * 4) as nat,
        |i: int| if i < content.len() { content[i] } else { 0u8 },
    )
}

/// A command packet: id, length of the padded content, padded content.
pub open spec fn packet(command: u16, content: Seq<u8>) -> Seq<u8> {
    bytes_le16(command) + bytes_le16(padded(content).len() as u16) + padded(content)
}

/// A host command.
pub open spec fn commanding(s: Session, addr: u8, command: u16, content: Seq<u8>) -> (
    Session,
    Result<(), Error<Fault>>,
) {
    if content.len() > MAX_PARAM_BYTES {
        (s, Err(Error::Protocol("command content too long")))
    } else {
        burst(s, addr, reg::CHANNEL_CMD, packet(command, content))
    }
}

/// The length of a firmware image can be uploaded.
pub open spec fn image_fits(len: int) -> bool {
    len % 4 == 0 && len / 4 <= 0xFFFF
}

/// The start of an upload of `len` bytes.
pub open spec fn begin_upload(s: Session, addr: u8, len: int) -> (Session, Result<(), Error<Fault>>) {
    if image_fits(len) {
        burst(s, addr, reg::CHANNEL_CMD, bytes_le16(cmd::UPLOAD_TO_PROGRAM_RAM) + bytes_le16((len / 4) as u16))
    } else {
        (s, Err(Error::Protocol("firmware image length invalid")))
    }
}

/// One chunk of an upload.
pub open spec fn chunk_upload(s: Session, addr: u8, chunk: Seq<u8>) -> (Session, Result<(), Error<Fault>>) {
    if chunk.len() % 4 == 0 && chunk.len() <= UPLOAD_CHUNK {
        burst(s, addr, reg::CHANNEL_CMD, chunk)
    } else {
        (s, Err(Error::Protocol("upload chunk length invalid")))
    }
}

/// How much is left of `len` from `from` on.
pub open spec fn remaining(len: int, from: int) -> nat {
    if from < len { (len - from) as nat } else { 0 }
}

/// The chunk of `image` that starts at `from`.
pub open spec fn chunk_of(image: Seq<u8>, from: int) -> Seq<u8> {
    image.subrange(from, if from + UPLOAD_CHUNK < image.len() { from + UPLOAD_CHUNK } else { image.len() as int })
}

/// The chunks of `image` from `from` on, in order, up to the first that
/// fails.
pub open spec fn chunks_upload(s: Session, addr: u8, image: Seq<u8>, from: int) -> (
    Session,
    Result<(), Error<Fault>>,
)
    decreases remaining(image.len() as int, from),
{
    if from >= image.len() {
        (s, Ok(()))
    } else {
        let (s1, r) = chunk_upload(s, addr, chunk_of(image, from));
        match r {
            Ok(_) => chunks_upload(s1, addr, image, from + UPLOAD_CHUNK),
            Err(e) => (s1, Err(e)),
        }
    }
}

/// Reads that drain `left` bytes of a channel, `step` at a time.
pub open spec fn draining(s: Session, addr: u8, channel: u8, left: nat, step: nat) -> (
    Session,
    Result<(), Error<Fault>>,
)
    decreases left,
{
    if left == 0 || step == 0 {
        (s, Ok(()))
    } else {
        let n = if left < step { left } else { step };
        let (s1, r) = on_bus(s.read_regs(addr, channel, n));
        match r {
            Ok(_) => draining(s1, addr, channel, (left - n) as nat, step),
            Err(e) => (s1, Err(e)),
        }
    }
}

/// A check of the status channel with buffer `out`: the session, the
/// buffer and the outcome after it.
pub open spec fn status_check(s: Session, addr: u8, out: Seq<u8>) -> (
    Session,
    Seq<u8>,
    Result<Option<(u16, usize)>, Error<Fault>>,
) {
    let (s1, r1) = reading(s, addr, reg::INTERRUPT_STATUS);
    match r1 {
        Err(e) => (s1, out, Err(e)),
        Ok(irq) => if irq & int_status::STATUS == 0 {
            (s1, out, Ok(None))
        } else {
            let (s2, r2) = on_bus(s1.read_regs(addr, reg::CHANNEL_STATUS_FIFO, 4));
            match r2 {
                Err(e) => (s2, out, Err(e)),
                Ok(h) => {
                    let code = le16(h[0], h[1]);
                    let len = le16(h[2], h[3]);
                    if code == 0 && len == 0 {
                        (s2, out, Ok(None))
                    } else {
                        status_body(s2, addr, out, code as u16, len)
                    }
                },
            }
        },
    }
}

/// The rest of a status packet of `len` bytes: what fits goes to `out`,
/// the tail is drained.
pub open spec fn status_body(s: Session, addr: u8, out: Seq<u8>, code: u16, len: int) -> (
    Session,
    Seq<u8>,
    Result<Option<(u16, usize)>, Error<Fault>>,
) {
    let copy = if len < out.len() { len } else { out.len() as int };
    let (s1, r1) = if copy > 0 {
        on_bus(s.read_regs(addr, reg::CHANNEL_STATUS_FIFO, copy as nat))
    } else {
        (s, Ok(Seq::empty()))
    };
    match r1 {
        Err(e) => (s1, out, Err(e)),
        Ok(d) => {
            let (s2, r2) = draining(s1, addr, reg::CHANNEL_STATUS_FIFO, (len - copy) as nat, 16);
            match r2 {
                Err(e) => (s2, overlay(out, d), Err(e)),
                Ok(_) => (s2, overlay(out, d), Ok(Some((code, copy as usize)))),
            }
        },
    }
}

/// Byte `i` of `out`, or 0 where there is none.
pub open spec fn byte_or_zero(out: Seq<u8>, i: int) -> u8 {
    if i < out.len() { out[i] } else { 0 }
}

/// Up to `spins` status checks for the answer to a read of `param`.
pub open spec fn awaiting(s: Session, addr: u8, param: u16, out: Seq<u8>, spins: nat) -> (
    Session,
    Seq<u8>,
    Result<usize, Error<Fault>>,
)
    decreases spins,
{
    if spins == 0 {
        (s, out, Err(Error::Protocol("parameter read timed out")))
    } else {
        let (s1, out1, r) = status_check(s, addr, out);
        match r {
            Err(e) => (s1, out1, Err(e)),
            Ok(None) => awaiting(s1, addr, param, out1, (spins - 1) as nat),
            Ok(Some(p)) => if p.0 & 0x0FFF == param & 0x0FFF {
                (s1, out1, Ok(p.1))
            } else if p.0 == status::COMMAND_ERROR {
                (
                    s1,
                    out1,
                    Err(
                        Error::Command {
                            command: le16(byte_or_zero(out1, 0), byte_or_zero(out1, 1)) as u16,
                            error: byte_or_zero(out1, 2),
                        },
                    ),
                )
            } else {
                awaiting(s1, addr, param, out1, (spins - 1) as nat)
            },
        }
    }
}

/// A read of `param` with buffer `out`.
pub open spec fn param_reading(s: Session, addr: u8, param: u16, out: Seq<u8>) -> (
    Session,
    Seq<u8>,
    Result<usize, Error<Fault>>,
) {
    let (s1, r) = commanding(s, addr, cmd::PARAM_READ_FLAG | (param & 0x0FFF), Seq::empty());
    match r {
        Ok(_) => awaiting(s1, addr, param, out, STATUS_SPINS as nat),
        Err(e) => (s1, out, Err(e)),
    }
}

/// A buffer of `n` zeros.
pub open spec fn zeros(n: nat) -> Seq<u8> {
    Seq::new(n, |i: int| 0u8)
}

/// One pending transfer of a FIFO channel into `buf`: what fits is kept,
/// the tail is drained.
pub open spec fn fifo_reading(s: Session, addr: u8, channel: u8, buf: Seq<u8>) -> (
    Session,
    Seq<u8>,
    Result<usize, Error<Fault>>,
) {
    let (s1, r1) = on_bus(s.read_regs(addr, channel, 2));
    match r1 {
        Err(e) => (s1, buf, Err(e)),
        Ok(h) => {
            let total = le16(h[0], h[1]);
            let used = if total < buf.len() { total } else { buf.len() as int };
            if total == 0 {
                (s1, buf, Ok(0))
            } else {
                let (s2, r2) = on_bus(s1.read_regs(addr, channel, used as nat));
                match r2 {
                    Err(e) => (s2, buf, Err(e)),
                    Ok(d) => {
                        let (s3, r3) = draining(s2, addr, channel, (total - used) as nat, 32);
                        match r3 {
                            Err(e) => (s3, overlay(buf, d), Err(e)),
                            Ok(_) => (s3, overlay(buf, d), Ok(used as usize)),
                        }
                    },
                }
            }
        },
    }
}

// ---- The driver -------------------------------------------------------------

#[derive(Debug, Clone, Copy, PartialEq, Eq, Structural)]
pub struct Bhi260 {
    addr: u8,
}

impl Default for Bhi260 {
    fn default() -> (r: Bhi260)
        ensures
            r.address() == ADDR,
    {
        Bhi260::new()
    }
}

/// A fault as an error of the driver.
fn bus_err<T>(r: Result<T, Fault>) -> (e: Result<T, Error<Fault>>)
    ensures
        match r {
            Ok(v) => e == Ok::<T, Error<Fault>>(v),
            Err(f) => e == Err::<T, Error<Fault>>(Error::Bus(f)),
        },
{
    match r {
        Ok(v) => Ok(v),
        Err(f) => Err(Error::Bus(f)),
    }
}

impl Bhi260 {
    /// The chip's I2C address.
    pub closed spec fn address(&self) -> u8 {
        self.addr
    }

    pub fn new() -> (r: Bhi260)
        ensures
            r.address() == ADDR,
    {
        Bhi260 { addr: ADDR }
    }

    pub fn with_address(addr: u8) -> (r: Bhi260)
        ensures
            r.address() == addr,
    {
        Bhi260 { addr }
    }

    // ---- Raw register access ------------------------------------------------

    /// Read registers (or a channel) into `buf`.
    pub fn read_regs(&self, i2c: &mut Bus, r: u8, buf: &mut [u8]) -> (e: Result<(), Error<Fault>>)
        ensures
            final(i2c)@ == old(i2c)@.read_regs(self.address(), r, old(buf)@.len()).0,
            match old(i2c)@.answer(old(buf)@.len()) {
                Ok(d) => e == Ok::<(), Error<Fault>>(()) && final(buf)@ == d,
                Err(f) => e == Err::<(), Error<Fault>>(Error::Bus(f)) && final(buf)@ == old(buf)@,
            },
    {
        let n: usize = buf.len();
        let e = bus_err(i2c.read_into(self.addr, r, buf, n));
        proof {
            if let Ok(d) = old(i2c)@.answer(n as nat) {
                assert(overlay(old(buf)@, d) =~= d);
            }
        }
        e
    }

    pub fn read_reg(&self, i2c: &mut Bus, r: u8) -> (e: Result<u8, Error<Fault>>)
        ensures
            (final(i2c)@, e) == reading(old(i2c)@, self.address(), r),
    {
        bus_err(i2c.read_reg(self.addr, r))
    }

    pub fn write_reg(&self, i2c: &mut Bus, r: u8, val: u8) -> (e: Result<(), Error<Fault>>)
        ensures
            (final(i2c)@, e) == writing(old(i2c)@, self.address(), r, val),
    {
        bus_err(i2c.write_reg(self.addr, r, val))
    }

    /// Burst write to a register (used for the command channel).
    fn write_burst(&self, i2c: &mut Bus, r: u8, data: &[u8]) -> (e: Result<(), Error<Fault>>)
        requires
            data@.len() <= UPLOAD_CHUNK,
        ensures
            (final(i2c)@, e) == burst(old(i2c)@, self.address(), r, data@),
    {
        let mut out: Vec<u8> = vec![r];
        let mut i: usize = 0;
        while i < data.len()
            invariant
                i <= data@.len(),
                out@ == seq![r] + data@.take(i as int),
            decreases data@.len() - i,
        {
            out.push(data[i]);
            i = i + 1;
            assert(out@ =~= seq![r] + data@.take(i as int));
        }
        assert(data@.take(i as int) =~= data@);
        bus_err(i2c.write(self.addr, &out))
    }

    // ---- Identity / status --------------------------------------------------

    /// Read the identity registers. Valid as soon as the bootloader is
    /// ready; kernel/user versions read 0 until firmware has booted.
    pub fn probe(&self, i2c: &mut Bus) -> (e: Result<ChipInfo, Error<Fault>>)
        ensures
            final(i2c)@ == old(i2c)@.read_regs(self.address(), reg::PRODUCT_ID, 9).0,
            e == (match old(i2c)@.answer(9) {
                Ok(b) => Ok::<ChipInfo, Error<Fault>>(
                    ChipInfo {
                        product_id: b[0],
                        revision: b[1],
                        rom_version: le16(b[2], b[3]) as u16,
                        kernel_version: le16(b[4], b[5]) as u16,
                        user_version: le16(b[6], b[7]) as u16,
                        feature_status: b[8],
                    },
                ),
                Err(f) => Err(Error::Bus(f)),
            }),
    {
        let b: Vec<u8> = bus_err(i2c.read_regs(self.addr, reg::PRODUCT_ID, 9))?;
        Ok(
            ChipInfo {
                product_id: b[0],
                revision: b[1],
                rom_version: u16_le(b[2], b[3]),
                kernel_version: u16_le(b[4], b[5]),
                user_version: u16_le(b[6], b[7]),
                feature_status: b[8],
            },
        )
    }

    pub fn boot_status(&self, i2c: &mut Bus) -> (e: Result<u8, Error<Fault>>)
        ensures
            (final(i2c)@, e) == reading(old(i2c)@, self.address(), reg::BOOT_STATUS),
    {
        self.read_reg(i2c, reg::BOOT_STATUS)
    }

    /// Single readiness check (Boot Status bit 4). Callers poll with
    /// their own delays.
    pub fn host_interface_ready(&self, i2c: &mut Bus) -> (e: Result<bool, Error<Fault>>)
        ensures
            (final(i2c)@, e) == ready_check(old(i2c)@, self.address()),
    {
        Ok(self.boot_status(i2c)? & boot_status::HOST_INTERFACE_READY != 0)
    }

    pub fn interrupt_status(&self, i2c: &mut Bus) -> (e: Result<u8, Error<Fault>>)
        ensures
            (final(i2c)@, e) == reading(old(i2c)@, self.address(), reg::INTERRUPT_STATUS),
    {
        self.read_reg(i2c, reg::INTERRUPT_STATUS)
    }

    /// Firmware error code (0 = none); decode with [`error_description`].
    pub fn error_value(&self, i2c: &mut Bus) -> (e: Result<u8, Error<Fault>>)
        ensures
            (final(i2c)@, e) == reading(old(i2c)@, self.address(), reg::ERROR_VALUE),
    {
        self.read_reg(i2c, reg::ERROR_VALUE)
    }

    pub fn clear_error_regs(&self, i2c: &mut Bus) -> (e: Result<(), Error<Fault>>)
        ensures
            (final(i2c)@, e) == writing(
                old(i2c)@,
                self.address(),
                reg::CHIP_CONTROL,
                chip_control::CLEAR_ERROR_REGS,
            ),
    {
        self.write_reg(i2c, reg::CHIP_CONTROL, chip_control::CLEAR_ERROR_REGS)
    }

    // ---- Boot sequence ------------------------------------------------------

    /// Host reset (Reset Request bit 0, self-clearing). Must be a
    /// single-register transaction; the caller shall wait at least 4 us
    /// before the next transaction and then poll
    /// [`Self::host_interface_ready`].
    pub fn host_reset(&self, i2c: &mut Bus) -> (e: Result<(), Error<Fault>>)
        ensures
            (final(i2c)@, e) == writing(old(i2c)@, self.address(), reg::RESET_REQUEST, 0x01),
    {
        self.write_reg(i2c, reg::RESET_REQUEST, 0x01)
    }

    /// Configure the host interrupt pin/reasons (register 0x07). The
    /// reset default 0 = active high, level, push-pull, all sources
    /// enabled.
    pub fn configure_host_interrupt(&self, i2c: &mut Bus, cfg: u8) -> (e: Result<(), Error<Fault>>)
        ensures
            (final(i2c)@, e) == writing(old(i2c)@, self.address(), reg::HOST_INTERRUPT_CTRL, cfg),
    {
        self.write_reg(i2c, reg::HOST_INTERRUPT_CTRL, cfg)
    }

    /// Cap the core clock during upload/verify (lower peak current at the
    /// cost of verify time - Chip Control bit 0).
    pub fn disable_turbo_for_upload(&self, i2c: &mut Bus) -> (e: Result<(), Error<Fault>>)
        ensures
            (final(i2c)@, e) == writing(
                old(i2c)@,
                self.address(),
                reg::CHIP_CONTROL,
                chip_control::CPU_TURBO_DISABLE,
            ),
    {
        self.write_reg(i2c, reg::CHIP_CONTROL, chip_control::CPU_TURBO_DISABLE)
    }

    /// Start a firmware upload: sends the Upload to Program RAM command
    /// header carrying the total image length in 32-bit words. Follow
    /// with [`Self::upload_chunk`] for the image bytes, then check verify
    /// bits and [`Self::boot_program_ram`].
    pub fn begin_ram_upload(&self, i2c: &mut Bus, image_len: usize) -> (e: Result<(), Error<Fault>>)
        ensures
            (final(i2c)@, e) == begin_upload(old(i2c)@, self.address(), image_len as int),
    {
        if image_len % 4 != 0 || image_len / 4 > 0xFFFF {
            return Err(Error::Protocol("firmware image length invalid"));
        }
        let c: [u8; 2] = to_le16(cmd::UPLOAD_TO_PROGRAM_RAM);
        let w: [u8; 2] = to_le16((image_len / 4) as u16);
        let hdr: [u8; 4] = [c[0], c[1], w[0], w[1]];
        assert(hdr@ =~= c@ + w@);
        self.write_burst(i2c, reg::CHANNEL_CMD, &hdr)
    }

    /// Upload one chunk of the firmware image (raw continuation write to
    /// channel 0 - only the first transaction carries the command
    /// header). Chunk length must be a multiple of 4 and at most
    /// [`UPLOAD_CHUNK`].
    pub fn upload_chunk(&self, i2c: &mut Bus, chunk: &[u8]) -> (e: Result<(), Error<Fault>>)
        ensures
            (final(i2c)@, e) == chunk_upload(old(i2c)@, self.address(), chunk@),
    {
        if chunk.len() % 4 != 0 || chunk.len() > UPLOAD_CHUNK {
            return Err(Error::Protocol("upload chunk length invalid"));
        }
        self.write_burst(i2c, reg::CHANNEL_CMD, chunk)
    }

    /// Convenience for callers that own the bus exclusively: header plus
    /// all chunks back to back. On a shared bus prefer the staged path
    /// and release the bus between chunks.
    pub fn upload_firmware(&self, i2c: &mut Bus, image: &[u8]) -> (e: Result<(), Error<Fault>>)
        ensures
            (final(i2c)@, e) == firmware_upload(old(i2c)@, self.address(), image@),
    {
        self.begin_ram_upload(i2c, image.len())?;
        let mut from: usize = 0;
        while from < image.len()
            invariant
                from <= image@.len(),
                firmware_upload(old(i2c)@, self.address(), image@) == chunks_upload(
                    i2c@,
                    self.address(),
                    image@,
                    from as int,
                ),
            decreases image@.len() - from,
        {
            let left: usize = image.len() - from;
            let n: usize = if left < UPLOAD_CHUNK { left } else { UPLOAD_CHUNK };
            let chunk: &[u8] = &image[from..from + n];
            assert(chunk@ == chunk_of(image@, from as int));
            self.upload_chunk(i2c, chunk)?;
            proof {
                if left < UPLOAD_CHUNK {
                    assert(chunks_upload(i2c@, self.address(), image@, from + UPLOAD_CHUNK) == chunks_upload(
                        i2c@,
                        self.address(),
                        image@,
                        from + n,
                    ));
                }
            }
            from = from + n;
        }
        Ok(())
    }

    /// Check the verify outcome after an upload completed. Ok(true) =
    /// verified, Ok(false) = still verifying; a set error bit surfaces
    /// the Error Value register code.
    pub fn firmware_verify_done(&self, i2c: &mut Bus) -> (e: Result<bool, Error<Fault>>)
        ensures
            (final(i2c)@, e) == verify_check(old(i2c)@, self.address()),
    {
        let bs: u8 = self.boot_status(i2c)?;
        if bs & boot_status::FIRMWARE_VERIFY_ERROR != 0 {
            let code: u8 = self.error_value(i2c)?;
            return Err(Error::Chip(code));
        }
        Ok(bs & boot_status::FIRMWARE_VERIFY_DONE != 0)
    }

    /// Start the verified RAM image. Host Interface Ready clears, then
    /// re-asserts once the firmware has booted; the firmware then puts an
    /// Initialized meta event into both sensor FIFOs which the caller
    /// must drain before configuring sensors.
    pub fn boot_program_ram(&self, i2c: &mut Bus) -> (e: Result<(), Error<Fault>>)
        ensures
            (final(i2c)@, e) == commanding(old(i2c)@, self.address(), cmd::BOOT_PROGRAM_RAM, Seq::empty()),
    {
        let none: [u8; 0] = [];
        assert(none@ =~= Seq::<u8>::empty());
        self.send_command(i2c, cmd::BOOT_PROGRAM_RAM, &none)
    }

    // ---- Command / parameter layer ------------------------------------------

    /// Send a host command packet: `[id][content len][content]`
    /// zero-padded to a multiple of 4 (padding counted in the length
    /// field). Content capacity: [`MAX_PARAM_BYTES`].
    pub fn send_command(&self, i2c: &mut Bus, command: u16, content: &[u8]) -> (e: Result<(), Error<Fault>>)
        ensures
            (final(i2c)@, e) == commanding(old(i2c)@, self.address(), command, content@),
    {
        if content.len() > MAX_PARAM_BYTES {
            return Err(Error::Protocol("command content too long"));
        }
        let len: usize = (content.len() + 3) / 4 * 4;
        let c: [u8; 2] = to_le16(command);
        let l: [u8; 2] = to_le16(len as u16);
        let mut pkt: Vec<u8> = vec![c[0], c[1], l[0], l[1]];
        let ghost head = bytes_le16(command) + bytes_le16(len as u16);
        assert(pkt@ =~= head);
        let mut i: usize = 0;
        assert(padded(content@).take(0) =~= Seq::<u8>::empty());
        while i < len
            invariant
                i <= len,
                len == padded(content@).len(),
                pkt@ == head + padded(content@).take(i as int),
            decreases len - i,
        {
            let b: u8 = if i < content.len() { content[i] } else { 0 };
            pkt.push(b);
            i = i + 1;
            assert(pkt@ =~= head + padded(content@).take(i as int));
        }
        assert(padded(content@).take(i as int) =~= padded(content@));
        self.write_burst(i2c, reg::CHANNEL_CMD, &pkt)
    }

    /// Enable/reconfigure/disable a virtual sensor: rate in Hz as the
    /// bits of an IEEE 754 single (0 disables), latency in ms (24 bits; 0
    /// = report immediately). The framework picks the nearest supported
    /// rate at or above the request.
    pub fn configure_sensor(&self, i2c: &mut Bus, sensor_id: u8, rate_bits: u32, latency_ms: u32) -> (e: Result<
        (),
        Error<Fault>,
    >)
        ensures
            (final(i2c)@, e) == sensor_config(old(i2c)@, self.address(), sensor_id, rate_bits, latency_ms),
    {
        let r: [u8; 4] = to_le32(rate_bits);
        let l: [u8; 4] = to_le32(latency_ms);
        let content: [u8; 8] = [sensor_id, r[0], r[1], r[2], r[3], l[0], l[1], l[2]];
        assert(content@ =~= seq![sensor_id] + bytes_le32(rate_bits) + bytes_le32(latency_ms).take(3));
        self.send_command(i2c, cmd::CONFIGURE_SENSOR, &content)
    }

    /// Change a virtual sensor's dynamic range in SI units (g / dps / uT;
    /// 0 = default). Affects the scale of its 3D vector samples.
    pub fn change_dynamic_range(&self, i2c: &mut Bus, sensor_id: u8, range: u16) -> (e: Result<(), Error<Fault>>)
        ensures
            (final(i2c)@, e) == commanding(
                old(i2c)@,
                self.address(),
                cmd::CHANGE_DYNAMIC_RANGE,
                seq![sensor_id] + bytes_le16(range) + seq![0u8],
            ),
    {
        let r: [u8; 2] = to_le16(range);
        let content: [u8; 4] = [sensor_id, r[0], r[1], 0];
        assert(content@ =~= seq![sensor_id] + bytes_le16(range) + seq![0u8]);
        self.send_command(i2c, cmd::CHANGE_DYNAMIC_RANGE, &content)
    }

    /// FIFO Flush - transfer or discard FIFO contents, see the [`flush`]
    /// constants.
    pub fn flush_fifo(&self, i2c: &mut Bus, which: u8) -> (e: Result<(), Error<Fault>>)
        ensures
            (final(i2c)@, e) == flushing(old(i2c)@, self.address(), which),
    {
        let content: [u8; 4] = [which, 0, 0, 0];
        assert(content@ =~= seq![which, 0u8, 0u8, 0u8]);
        self.send_command(i2c, cmd::FIFO_FLUSH, &content)
    }

    /// Inform the hub of the host's power state (Host Interface Control
    /// bit 4). Suspended: only wake-up sensors assert the host interrupt.
    pub fn set_ap_suspended(&self, i2c: &mut Bus, suspended: bool) -> (e: Result<(), Error<Fault>>)
        ensures
            (final(i2c)@, e) == suspending(old(i2c)@, self.address(), suspended),
    {
        let cur: u8 = self.read_reg(i2c, reg::HOST_INTERFACE_CTRL)?;
        let new: u8 = if suspended {
            cur | hif_control::AP_SUSPENDED
        } else {
            cur & !hif_control::AP_SUSPENDED
        };
        self.write_reg(i2c, reg::HOST_INTERFACE_CTRL, new)
    }

    /// Request a physical sensor self-test (the sensor must be inactive).
    /// Poll [`Self::try_read_status_packet`] for
    /// [`status::SELF_TEST_RESULTS`], then decode with
    /// [`Self::decode_test_result`]. A rejected request (sensor active)
    /// sets the Error Value register instead of answering.
    pub fn request_self_test(&self, i2c: &mut Bus, phys_sensor_id: u8) -> (e: Result<(), Error<Fault>>)
        ensures
            (final(i2c)@, e) == commanding(
                old(i2c)@,
                self.address(),
                cmd::REQUEST_SELF_TEST,
                seq![phys_sensor_id, 0u8, 0u8, 0u8],
            ),
    {
        let content: [u8; 4] = [phys_sensor_id, 0, 0, 0];
        assert(content@ =~= seq![phys_sensor_id, 0u8, 0u8, 0u8]);
        self.send_command(i2c, cmd::REQUEST_SELF_TEST, &content)
    }

    /// Request fast offset compensation for a physical sensor; answer
    /// arrives as [`status::FOC_RESULTS`].
    pub fn request_foc(&self, i2c: &mut Bus, phys_sensor_id: u8) -> (e: Result<(), Error<Fault>>)
        ensures
            (final(i2c)@, e) == commanding(
                old(i2c)@,
                self.address(),
                cmd::REQUEST_FOC,
                seq![phys_sensor_id, 0u8, 0u8, 0u8],
            ),
    {
        let content: [u8; 4] = [phys_sensor_id, 0, 0, 0];
        assert(content@ =~= seq![phys_sensor_id, 0u8, 0u8, 0u8]);
        self.send_command(i2c, cmd::REQUEST_FOC, &content)
    }

    /// Decode a self-test/FOC status packet payload.
    pub fn decode_test_result(payload: &[u8]) -> (r: Option<TestResult>)
        ensures
            r is Some <==> payload@.len() >= 8,
            r matches Some(t) ==> {
                &&& t.sensor_id == payload@[0]
                &&& t.status == payload@[1]
                &&& forall|i: int|
                    0 <= i < 3 ==> #[trigger] t.offsets@[i] == signed(
                        le16(payload@[2 + 2 * i], payload@[3 + 2 * i]),
                        0x8000,
                    )
            },
    {
        if payload.len() < 8 {
            return None;
        }
        Some(
            TestResult {
                sensor_id: payload[0],
                status: payload[1],
                offsets: [
                    i16_le(payload[2], payload[3]),
                    i16_le(payload[4], payload[5]),
                    i16_le(payload[6], payload[7]),
                ],
            },
        )
    }

    /// Write a parameter: command id = parameter id, payload = the
    /// parameter's data structure.
    pub fn param_write(&self, i2c: &mut Bus, param: u16, data: &[u8]) -> (e: Result<(), Error<Fault>>)
        ensures
            (final(i2c)@, e) == param_writing(old(i2c)@, self.address(), param, data@),
    {
        self.send_command(i2c, param & !cmd::PARAM_READ_FLAG, data)
    }

    /// Read a parameter: issues `0x1000 | param`, waits for the
    /// synchronous status packet on channel 3 (bounded poll), copies its
    /// payload into `out` and returns the byte count. Requires the status
    /// channel in synchronous mode (the reset default).
    pub fn param_read(&self, i2c: &mut Bus, param: u16, out: &mut [u8]) -> (e: Result<usize, Error<Fault>>)
        ensures
            (final(i2c)@, final(out)@, e) == param_reading(old(i2c)@, self.address(), param, old(out)@),
            final(out)@.len() == old(out)@.len(),
    {
        let none: [u8; 0] = [];
        assert(none@ =~= Seq::<u8>::empty());
        self.send_command(i2c, cmd::PARAM_READ_FLAG | (param & 0x0FFF), &none)?;
        let mut spins: usize = STATUS_SPINS;
        while spins > 0
            invariant
                param_reading(old(i2c)@, self.address(), param, old(out)@) == awaiting(
                    i2c@,
                    self.address(),
                    param,
                    out@,
                    spins as nat,
                ),
                out@.len() == old(out)@.len(),
            decreases spins,
        {
            let found: Option<(u16, usize)> = self.try_read_status_packet(i2c, out)?;
            if let Some((code, n)) = found {
                // The response packet's code carries the parameter number
                // (with and without the 0x1000 read flag - accept both).
                if code & 0x0FFF == param & 0x0FFF {
                    return Ok(n);
                }
                if code == status::COMMAND_ERROR {
                    let lo: u8 = if out.len() > 0 { out[0] } else { 0 };
                    let hi: u8 = if out.len() > 1 { out[1] } else { 0 };
                    let error: u8 = if out.len() > 2 { out[2] } else { 0 };
                    return Err(Error::Command { command: u16_le(lo, hi), error });
                }
                // Unrelated packet (e.g. a stale response) - keep polling
                // for ours.

            }
            spins = spins - 1;
        }
        Err(Error::Protocol("parameter read timed out"))
    }

    /// Read and drop `left` bytes of a channel, `step` at a time.
    fn drain(&self, i2c: &mut Bus, channel: u8, left: usize, step: usize) -> (e: Result<(), Error<Fault>>)
        requires
            step > 0,
        ensures
            (final(i2c)@, e) == draining(old(i2c)@, self.address(), channel, left as nat, step as nat),
    {
        let mut remaining: usize = left;
        while remaining > 0
            invariant
                step > 0,
                draining(old(i2c)@, self.address(), channel, left as nat, step as nat) == draining(
                    i2c@,
                    self.address(),
                    channel,
                    remaining as nat,
                    step as nat,
                ),
            decreases remaining,
        {
            let n: usize = if remaining < step { remaining } else { step };
            bus_err(i2c.read_regs(self.addr, channel, n))?;
            remaining = remaining - n;
        }
        Ok(())
    }

    /// Non-blocking check of the synchronous status channel. In
    /// synchronous mode the channel has no transfer-length prefix; a read
    /// delivers a status packet directly: `[status code u16][length u16]
    /// [contents]`. One packet is read per call and returned as (status
    /// code, payload bytes copied into `out`); the payload is always
    /// fully drained from the chip even when `out` is smaller. If more
    /// packets are pending, the Status interrupt bit stays set and the
    /// next call reads the next one. Callers filter by code themselves.
    pub fn try_read_status_packet(&self, i2c: &mut Bus, out: &mut [u8]) -> (e: Result<
        Option<(u16, usize)>,
        Error<Fault>,
    >)
        ensures
            (final(i2c)@, final(out)@, e) == status_check(old(i2c)@, self.address(), old(out)@),
            final(out)@.len() == old(out)@.len(),
            e matches Ok(Some(p)) ==> p.1 <= final(out)@.len(),
    {
        if self.interrupt_status(i2c)? & int_status::STATUS == 0 {
            return Ok(None);
        }
        let h: Vec<u8> = bus_err(i2c.read_regs(self.addr, reg::CHANNEL_STATUS_FIFO, 4))?;
        let code: u16 = u16_le(h[0], h[1]);
        let plen: usize = u16_le(h[2], h[3]) as usize;
        if code == 0 && plen == 0 {
            // Spurious status bit with an empty channel.
            return Ok(None);
        }
        let copy: usize = if plen < out.len() { plen } else { out.len() };
        if copy > 0 {
            bus_err(i2c.read_into(self.addr, reg::CHANNEL_STATUS_FIFO, out, copy))?;
        } else {
            assert(overlay(out@, Seq::empty()) =~= out@);
        }
        // Drain any tail past the caller's buffer.
        self.drain(i2c, reg::CHANNEL_STATUS_FIFO, plen - copy, 16)?;
        Ok(Some((code, copy)))
    }

    // ---- Sensor discovery ---------------------------------------------------

    /// 256-bit bitmap of virtual sensors the loaded firmware provides
    /// (parameter 0x011F); test with [`Self::sensor_present`].
    pub fn virt_sensors_present(&self, i2c: &mut Bus) -> (e: Result<[u8; 32], Error<Fault>>)
        ensures
            ({
                let (s, map, r) = param_reading(old(i2c)@, self.address(), param::VIRT_SENSORS_PRESENT, zeros(32));
                &&& final(i2c)@ == s
                &&& match r {
                    Ok(n) => if n < 32 {
                        e == Err::<[u8; 32], Error<Fault>>(Error::Protocol("virtual sensor bitmap short"))
                    } else {
                        e matches Ok(m) && m@ == map
                    },
                    Err(x) => e == Err::<[u8; 32], Error<Fault>>(x),
                }
            }),
    {
        let mut map: [u8; 32] = [0; 32];
        assert(map@ =~= zeros(32));
        let n: usize = self.param_read(i2c, param::VIRT_SENSORS_PRESENT, &mut map)?;
        if n < 32 {
            return Err(Error::Protocol("virtual sensor bitmap short"));
        }
        Ok(map)
    }

    /// Whether a virtual sensor is in the bitmap: bit `id % 8` of byte
    /// `id / 8`.
    pub fn sensor_present(bitmap: &[u8; 32], sensor_id: u8) -> (r: bool)
        ensures
            r == present(bitmap@, sensor_id),
    {
        bitmap[(sensor_id / 8) as usize] & (1u8 << (sensor_id % 8)) != 0
    }

    /// 64-bit bitmap of present physical sensors (parameter 0x0120).
    pub fn phys_sensors_present(&self, i2c: &mut Bus) -> (e: Result<[u8; 8], Error<Fault>>)
        ensures
            ({
                let (s, map, r) = param_reading(old(i2c)@, self.address(), param::PHYS_SENSORS_PRESENT, zeros(8));
                &&& final(i2c)@ == s
                &&& match r {
                    Ok(n) => if n < 8 {
                        e == Err::<[u8; 8], Error<Fault>>(Error::Protocol("physical sensor bitmap short"))
                    } else {
                        e matches Ok(m) && m@ == map
                    },
                    Err(x) => e == Err::<[u8; 8], Error<Fault>>(x),
                }
            }),
    {
        let mut map: [u8; 8] = [0; 8];
        assert(map@ =~= zeros(8));
        let n: usize = self.param_read(i2c, param::PHYS_SENSORS_PRESENT, &mut map)?;
        if n < 8 {
            return Err(Error::Protocol("physical sensor bitmap short"));
        }
        Ok(map)
    }

    /// Physical Sensor Information structure (20 bytes) for one physical
    /// sensor ID.
    pub fn phys_sensor_info(&self, i2c: &mut Bus, phys_sensor_id: u8, out: &mut [u8; 20]) -> (e: Result<
        (),
        Error<Fault>,
    >)
        ensures
            ({
                let (s, info, r) = param_reading(
                    old(i2c)@,
                    self.address(),
                    (param::PHYS_SENSOR_INFO_BASE + phys_sensor_id) as u16,
                    old(out)@,
                );
                &&& final(i2c)@ == s
                &&& final(out)@ == info
                &&& e == match r {
                    Ok(n) => if n < 20 {
                        Err::<(), Error<Fault>>(Error::Protocol("physical sensor info short"))
                    } else {
                        Ok(())
                    },
                    Err(x) => Err(x),
                }
            }),
    {
        let p: u16 = param::PHYS_SENSOR_INFO_BASE + phys_sensor_id as u16;
        let n: usize = self.param_read(i2c, p, out)?;
        if n < 20 {
            return Err(Error::Protocol("physical sensor info short"));
        }
        Ok(())
    }

    /// Pack a 3x3 axis-remap matrix (row-major c0..c8, elements -1, 0 or
    /// 1) into the 5-byte nibble format: low nibble holds the even-index
    /// element, -1 encodes as 0xF. Use with
    /// [`Bhi260::set_orientation_matrix`]; the board supplies its
    /// mounting.
    pub fn pack_orientation_matrix(c: [i8; 9]) -> (r: [u8; 5])
        ensures
            r@ == packed_matrix(c@),
    {
        let r: [u8; 5] = [
            nibble_of(c[1]) * 16 + nibble_of(c[0]),
            nibble_of(c[3]) * 16 + nibble_of(c[2]),
            nibble_of(c[5]) * 16 + nibble_of(c[4]),
            nibble_of(c[7]) * 16 + nibble_of(c[6]),
            nibble_of(c[8]),
        ];
        assert(r@ =~= packed_matrix(c@));
        r
    }

    /// Write a physical sensor's 5-byte packed orientation matrix to
    /// remap axes to the device coordinate system.
    pub fn set_orientation_matrix(&self, i2c: &mut Bus, phys_sensor_id: u8, matrix: [u8; 5]) -> (e: Result<
        (),
        Error<Fault>,
    >)
        ensures
            (final(i2c)@, e) == matrix_writing(old(i2c)@, self.address(), phys_sensor_id, matrix@),
    {
        let p: u16 = param::PHYS_SENSOR_INFO_BASE + phys_sensor_id as u16;
        let content: [u8; 8] = [matrix[0], matrix[1], matrix[2], matrix[3], matrix[4], 0, 0, 0];
        assert(content@ =~= matrix@ + seq![0u8, 0u8, 0u8]);
        self.param_write(i2c, p, &content)
    }

    /// Meta event enable bitmap write (parameters 0x0101 non-wake /
    /// 0x0102 wake: 32 two-bit sections, MSbit of each pair = event
    /// enable, LSbit = interrupt enable).
    pub fn set_meta_event_control(&self, i2c: &mut Bus, wake_fifo: bool, bitmap: [u8; 8]) -> (e: Result<
        (),
        Error<Fault>,
    >)
        ensures
            (final(i2c)@, e) == param_writing(
                old(i2c)@,
                self.address(),
                if wake_fifo { param::META_EVENT_CTRL_WAKE } else { param::META_EVENT_CTRL_NONWAKE },
                bitmap@,
            ),
    {
        let p: u16 = if wake_fifo { param::META_EVENT_CTRL_WAKE } else { param::META_EVENT_CTRL_NONWAKE };
        self.param_write(i2c, p, &bitmap)
    }

    /// Set the FIFO watermark levels in bytes (0 = disabled) - parameter
    /// 0x0103. The size fields are read-only and sent as zero.
    pub fn set_fifo_watermarks(&self, i2c: &mut Bus, wake: u32, nonwake: u32) -> (e: Result<(), Error<Fault>>)
        ensures
            (final(i2c)@, e) == param_writing(
                old(i2c)@,
                self.address(),
                param::FIFO_CONTROL,
                bytes_le32(wake) + zeros(4) + bytes_le32(nonwake) + zeros(4),
            ),
    {
        let w: [u8; 4] = to_le32(wake);
        let n: [u8; 4] = to_le32(nonwake);
        let content: [u8; 16] = [
            w[0],
            w[1],
            w[2],
            w[3],
            0,
            0,
            0,
            0,
            n[0],
            n[1],
            n[2],
            n[3],
            0,
            0,
            0,
            0,
        ];
        assert(content@ =~= bytes_le32(wake) + zeros(4) + bytes_le32(nonwake) + zeros(4));
        self.param_write(i2c, param::FIFO_CONTROL, &content)
    }

    // ---- Sensor data --------------------------------------------------------

    /// Pending transfer length of a FIFO channel without consuming
    /// events: reads the 2-byte FIFO descriptor length. 0 = no data.
    /// This starts a transfer - follow up with
    /// [`Self::read_fifo_payload`] to drain exactly that many bytes, or
    /// the channel stays mid-transfer and blocks new interrupts.
    pub fn fifo_transfer_len(&self, i2c: &mut Bus, channel: u8) -> (e: Result<usize, Error<Fault>>)
        ensures
            final(i2c)@ == old(i2c)@.read_regs(self.address(), channel, 2).0,
            e == (match old(i2c)@.answer(2) {
                Ok(h) => Ok::<usize, Error<Fault>>(le16(h[0], h[1]) as usize),
                Err(f) => Err(Error::Bus(f)),
            }),
    {
        let h: Vec<u8> = bus_err(i2c.read_regs(self.addr, channel, 2))?;
        Ok(u16_le(h[0], h[1]) as usize)
    }

    /// Continue a FIFO transfer: read `buf.len()` bytes into `buf` (in
    /// one transaction - size the read to the caller's chunking).
    /// Splitting a transfer across several calls is allowed by the
    /// protocol.
    pub fn read_fifo_payload(&self, i2c: &mut Bus, channel: u8, buf: &mut [u8]) -> (e: Result<(), Error<Fault>>)
        ensures
            final(i2c)@ == old(i2c)@.read_regs(self.address(), channel, old(buf)@.len()).0,
            match old(i2c)@.answer(old(buf)@.len()) {
                Ok(d) => e == Ok::<(), Error<Fault>>(()) && final(buf)@ == d,
                Err(f) => e == Err::<(), Error<Fault>>(Error::Bus(f)) && final(buf)@ == old(buf)@,
            },
    {
        self.read_regs(i2c, channel, buf)
    }

    /// Read one complete pending transfer of a sensor FIFO into `buf`,
    /// returning the byte count to parse with [`fifo::Parser`]. If the
    /// transfer exceeds `buf`, the remainder is drained and discarded
    /// (the FIFO must be emptied for the interrupt line to release; a
    /// large enough `buf` is the caller's responsibility).
    pub fn read_fifo(&self, i2c: &mut Bus, channel: u8, buf: &mut [u8]) -> (e: Result<usize, Error<Fault>>)
        ensures
            (final(i2c)@, final(buf)@, e) == fifo_reading(old(i2c)@, self.address(), channel, old(buf)@),
            final(buf)@.len() == old(buf)@.len(),
            e matches Ok(n) ==> n <= final(buf)@.len(),
    {
        let total: usize = self.fifo_transfer_len(i2c, channel)?;
        if total == 0 {
            return Ok(0);
        }
        let used: usize = if total < buf.len() { total } else { buf.len() };
        bus_err(i2c.read_into(self.addr, channel, buf, used))?;
        self.drain(i2c, channel, total - used, 32)?;
        Ok(used)
    }
}

/// A virtual sensor is in a bitmap.
pub open spec fn present(bitmap: Seq<u8>, sensor_id: u8) -> bool {
    bitmap[sensor_id as int / 8] & (1u8 << (sensor_id % 8)) != 0
}

/// A readiness check.
pub open spec fn ready_check(s: Session, addr: u8) -> (Session, Result<bool, Error<Fault>>) {
    let (s1, r) = reading(s, addr, reg::BOOT_STATUS);
    (s1, match r {
        Ok(v) => Ok(v & boot_status::HOST_INTERFACE_READY != 0),
        Err(e) => Err(e),
    })
}

/// A check of the verify outcome.
pub open spec fn verify_check(s: Session, addr: u8) -> (Session, Result<bool, Error<Fault>>) {
    let (s1, r1) = reading(s, addr, reg::BOOT_STATUS);
    match r1 {
        Err(e) => (s1, Err(e)),
        Ok(bs) => if bs & boot_status::FIRMWARE_VERIFY_ERROR != 0 {
            let (s2, r2) = reading(s1, addr, reg::ERROR_VALUE);
            (s2, match r2 {
                Ok(code) => Err(Error::Chip(code)),
                Err(e) => Err(e),
            })
        } else {
            (s1, Ok(bs & boot_status::FIRMWARE_VERIFY_DONE != 0))
        },
    }
}

/// A whole firmware upload.
pub open spec fn firmware_upload(s: Session, addr: u8, image: Seq<u8>) -> (Session, Result<(), Error<Fault>>) {
    let (s1, r) = begin_upload(s, addr, image.len() as int);
    match r {
        Ok(_) => chunks_upload(s1, addr, image, 0),
        Err(e) => (s1, Err(e)),
    }
}

/// A sensor configuration.
pub open spec fn sensor_config(s: Session, addr: u8, sensor_id: u8, rate_bits: u32, latency_ms: u32) -> (
    Session,
    Result<(), Error<Fault>>,
) {
    commanding(
        s,
        addr,
        cmd::CONFIGURE_SENSOR,
        seq![sensor_id] + bytes_le32(rate_bits) + bytes_le32(latency_ms).take(3),
    )
}

/// A FIFO flush.
pub open spec fn flushing(s: Session, addr: u8, which: u8) -> (Session, Result<(), Error<Fault>>) {
    commanding(s, addr, cmd::FIFO_FLUSH, seq![which, 0u8, 0u8, 0u8])
}

/// A change of the host's power state: one bit of the control register,
/// the others kept.
pub open spec fn suspending(s: Session, addr: u8, suspended: bool) -> (Session, Result<(), Error<Fault>>) {
    let (s1, r) = reading(s, addr, reg::HOST_INTERFACE_CTRL);
    match r {
        Ok(cur) => writing(
            s1,
            addr,
            reg::HOST_INTERFACE_CTRL,
            if suspended { cur | hif_control::AP_SUSPENDED } else { cur & !hif_control::AP_SUSPENDED },
        ),
        Err(e) => (s1, Err(e)),
    }
}

/// A parameter write.
pub open spec fn param_writing(s: Session, addr: u8, param: u16, data: Seq<u8>) -> (Session, Result<(), Error<Fault>>) {
    commanding(s, addr, param & !cmd::PARAM_READ_FLAG, data)
}

/// A write of an orientation matrix.
pub open spec fn matrix_writing(s: Session, addr: u8, phys_sensor_id: u8, matrix: Seq<u8>) -> (
    Session,
    Result<(), Error<Fault>>,
) {
    param_writing(
        s,
        addr,
        (param::PHYS_SENSOR_INFO_BASE + phys_sensor_id) as u16,
        matrix + seq![0u8, 0u8, 0u8],
    )
}

/// The low four bits of a two's complement number.
pub open spec fn nibble(v: i8) -> int {
    v as int % 16
}

fn nibble_of(v: i8) -> (r: u8)
    ensures
        r == nibble(v),
        r < 16,
{
    ((v as i16 + 256) % 16) as u8
}

/// Nine nibbles in five bytes, the even-index one low.
pub open spec fn packed_matrix(c: Seq<i8>) -> Seq<u8> {
    Seq::new(5, |i: int| (nibble(c[2 * i]) + if i < 4 { 16 * nibble(c[2 * i + 1]) } else { 0 }) as u8)
}

// ---- Laws of the protocol ---------------------------------------------------

/// The elements of a packed matrix can be read back: each nibble, taken
/// as two's complement, is the element it was made of.
pub proof fn packed_matrix_reads_back(c: Seq<i8>, i: int)
    requires
        c.len() == 9,
        0 <= i < 9,
        -8 <= c[i] <= 7,
    ensures
        ({
            let byte = packed_matrix(c)[i / 2] as int;
            signed(if i % 2 == 0 { byte % 16 } else { byte / 16 }, 8) == c[i]
        }),
{
}

/// A command packet is a multiple of 4 bytes, its length field counts the
/// bytes after the header, and its content starts right after the header.
pub proof fn packets_are_padded(command: u16, content: Seq<u8>)
    requires
        content.len() <= MAX_PARAM_BYTES,
    ensures
        packet(command, content).len() % 4 == 0,
        packet(command, content).len() <= 4 + MAX_PARAM_BYTES,
        le16(packet(command, content)[2], packet(command, content)[3]) == packet(command, content).len() - 4,
        packet(command, content).subrange(4, 4 + content.len() as int) == content,
{
    assert(packet(command, content).subrange(4, 4 + content.len() as int) =~= content);
}

/// The bytes that the chunks of `image` from `from` on carry, back to
/// back.
pub open spec fn chunk_bytes(image: Seq<u8>, from: int) -> Seq<u8>
    decreases remaining(image.len() as int, from),
{
    if from >= image.len() {
        Seq::empty()
    } else {
        chunk_of(image, from) + chunk_bytes(image, from + UPLOAD_CHUNK)
    }
}

/// The chunks of an upload carry the image, all of it and in order, and
/// of an image whose length can be uploaded none is refused.
pub proof fn chunks_carry_the_image(image: Seq<u8>, from: int)
    requires
        0 <= from,
        from % 4 == 0,
        image.len() % 4 == 0,
    ensures
        from <= image.len() ==> chunk_bytes(image, from) == image.skip(from),
        from < image.len() ==> chunk_of(image, from).len() % 4 == 0 && chunk_of(image, from).len() <= UPLOAD_CHUNK,
    decreases remaining(image.len() as int, from),
{
    if from < image.len() {
        chunks_carry_the_image(image, from + UPLOAD_CHUNK);
        if from + UPLOAD_CHUNK <= image.len() {
            assert(chunk_of(image, from) + image.skip(from + UPLOAD_CHUNK) =~= image.skip(from));
        } else {
            assert(chunk_bytes(image, from + UPLOAD_CHUNK) =~= Seq::<u8>::empty());
            assert(chunk_of(image, from) =~= image.skip(from));
        }
    } else if from == image.len() {
        assert(image.skip(from) =~= Seq::<u8>::empty());
    }
}

} // verus!
