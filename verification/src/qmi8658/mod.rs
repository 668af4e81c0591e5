//! QMI8658C 6-axis IMU driver.
//!
//! The bus is not owned by the driver: it is passed by mutable reference
//! on each call, so it can be shared with the PMU, touch controller, RTC,
//! and any other I2C peripheral.
//!
//! The QMI8658C requires 150 ms from when VDD/VDDIO are within 1% of
//! their final values before any register may be written.

use vstd::prelude::*;
use crate::bus::{chain, Bus, Fault, Op, Session};
use crate::bytes::{i16_le, le16, signed, to_le16};
use crate::math::{clamp16, clamped16, div_toward_zero, high_byte, low16, low_byte, magnitude, toward_zero};

pub mod registers;
pub mod types;

pub use types::{
    AccelLpOdr, AccelScale, AccelSelfTestResult, AeOdr, Error, FifoMode, FifoSize, FifoStatus, GyroScale,
    GyroSelfTestResult, ImuData, LpfMode, Odr, Quaternion, VelocityIncrement, WomConfig, WomInterrupt,
};

verus! {

/// Default I2C address when SDO/SA0 is tied to GND.
pub const ADDR: u8 = 0x6B;

/// Polls for the completion of a CTRL9 command, and for a fresh sample.
pub const READY_POLLS: u16 = 1000;

/// Polls for each stage of a self-test.
pub const SELF_TEST_POLLS: u16 = 5000;

// ---- What the driver puts on the bus ----------------------------------------

/// A transfer's outcome as an outcome of the driver.
pub open spec fn on_bus<T>(run: (Session, Result<T, Fault>)) -> (Session, Result<T, Error<Fault>>) {
    (run.0, match run.1 {
        Ok(v) => Ok(v),
        Err(f) => Err(Error::I2c(f)),
    })
}

/// A read of one register.
pub open spec fn reading(s: Session, addr: u8, r: u8) -> (Session, Result<u8, Error<Fault>>) {
    on_bus(s.read_reg(addr, r))
}

/// A write of one register.
pub open spec fn writing(s: Session, addr: u8, r: u8, val: u8) -> (Session, Result<(), Error<Fault>>) {
    on_bus(s.write_reg(addr, r, val))
}

/// A read-modify-write of one register.
pub open spec fn updating(s: Session, addr: u8, r: u8, clear: u8, set: u8) -> (Session, Result<(), Error<Fault>>) {
    on_bus(s.update_reg(addr, r, clear, set))
}

/// One bit mask of a register set or cleared, the other bits kept.
pub open spec fn switching(s: Session, addr: u8, r: u8, mask: u8, on: bool) -> (Session, Result<(), Error<Fault>>) {
    chain(
        reading(s, addr, r),
        |s1: Session, v: u8| writing(s1, addr, r, if on { v | mask } else { v & !mask }),
    )
}

/// Up to `tries` reads of register `r` until the bits in `mask` are set
/// (`want`) or clear.
pub open spec fn polling(s: Session, addr: u8, r: u8, mask: u8, want: bool, tries: nat) -> (
    Session,
    Result<(), Error<Fault>>,
)
    decreases tries,
{
    if tries == 0 {
        (s, Err(Error::Timeout))
    } else {
        let (s1, e) = reading(s, addr, r);
        match e {
            Err(x) => (s1, Err(x)),
            Ok(v) => if (v & mask != 0) == want {
                (s1, Ok(()))
            } else {
                polling(s1, addr, r, mask, want, (tries - 1) as nat)
            },
        }
    }
}

/// A CTRL9 command: the command, the wait for completion, the
/// acknowledgement.
pub open spec fn ctrl9(s: Session, addr: u8, command: u8) -> (Session, Result<(), Error<Fault>>) {
    chain(
        writing(s, addr, registers::CTRL9, command),
        |s1: Session, u1: ()|
            chain(
                polling(
                    s1,
                    addr,
                    registers::STATUSINT,
                    registers::statusint::CMD_DONE,
                    true,
                    READY_POLLS as nat,
                ),
                |s2: Session, u2: ()| writing(s2, addr, registers::CTRL9, registers::cmd::NOP),
            ),
    )
}

/// The value of CTRL5: mode and enable bit of each filter that is on.
pub open spec fn filter_bits(gyro: Option<LpfMode>, accel: Option<LpfMode>) -> u8 {
    ((match gyro {
        Some(m) => m.code() * 32 + 16,
        None => 0,
    }) + (match accel {
        Some(m) => m.code() * 2 + 1,
        None => 0,
    })) as u8
}

/// The registers that initialisation writes, in order.
pub open spec fn init_ops(config: Config) -> Seq<Op> {
    seq![
        Op::Put { reg: registers::CTRL1, val: 0x60 },
        Op::Put { reg: registers::CTRL8, val: 0x80 },
        Op::Put { reg: registers::CTRL2, val: (config.accel_scale.code() * 16 + config.accel_odr.code()) as u8 },
        Op::Put { reg: registers::CTRL3, val: (config.gyro_scale.code() * 16 + config.gyro_odr.code()) as u8 },
        Op::Put { reg: registers::CTRL5, val: filter_bits(config.gyro_lpf, config.accel_lpf) },
        Op::Put { reg: registers::CTRL7, val: 0x03 },
    ]
}

/// The initialisation: the identity check, then the register writes.
pub open spec fn initialising(s: Session, addr: u8, config: Config) -> (Session, Result<(), Error<Fault>>) {
    chain(
        reading(s, addr, registers::WHO_AM_I),
        |s1: Session, id: u8|
            if id == registers::CHIP_ID {
                on_bus(s1.run(addr, init_ops(config)))
            } else {
                (s1, Err(Error::DeviceNotFound))
            },
    )
}

/// The signed 16-bit number at offset `o` of a burst.
pub open spec fn axis(b: Seq<u8>, o: int) -> int {
    signed(le16(b[o], b[o + 1]), 0x8000)
}

/// The snapshot that a 14-byte burst holds, with `bias` taken off the
/// gyroscope axes.
pub open spec fn snapshot(b: Seq<u8>, bias: (i16, i16, i16)) -> ImuData {
    ImuData {
        temp_raw: axis(b, 0) as i16,
        accel_x: axis(b, 2) as i16,
        accel_y: axis(b, 4) as i16,
        accel_z: axis(b, 6) as i16,
        gyro_x: clamped16(axis(b, 8) - bias.0) as i16,
        gyro_y: clamped16(axis(b, 10) - bias.1) as i16,
        gyro_z: clamped16(axis(b, 12) - bias.2) as i16,
        steps: None,
    }
}

/// A snapshot read.
pub open spec fn sampling(s: Session, addr: u8, bias: (i16, i16, i16)) -> (Session, Result<ImuData, Error<Fault>>) {
    chain(
        on_bus(s.read_regs(addr, registers::TEMP_L, 14)),
        |s1: Session, b: Seq<u8>| (s1, Ok(snapshot(b, bias))),
    )
}

/// `n` fresh gyroscope samples, added to the sums `x`, `y`, `z`.
pub open spec fn summing(s: Session, addr: u8, n: nat, x: int, y: int, z: int) -> (
    Session,
    Result<(int, int, int), Error<Fault>>,
)
    decreases n,
{
    if n == 0 {
        (s, Ok((x, y, z)))
    } else {
        let (s1, r1) = polling(
            s,
            addr,
            registers::STATUS0,
            registers::status0::GYRO_READY,
            true,
            READY_POLLS as nat,
        );
        match r1 {
            Err(e) => (s1, Err(e)),
            Ok(_) => {
                let (s2, r2) = on_bus(s1.read_regs(addr, registers::GX_L, 6));
                match r2 {
                    Err(e) => (s2, Err(e)),
                    Ok(b) => summing(s2, addr, (n - 1) as nat, x + axis(b, 0), y + axis(b, 2), z + axis(b, 4)),
                }
            },
        }
    }
}

/// The bias estimate: the mean of `n` samples, rounded toward zero.
pub open spec fn estimating(s: Session, addr: u8, n: nat) -> (Session, Result<(i16, i16, i16), Error<Fault>>) {
    chain(
        summing(s, addr, n, 0, 0, 0),
        |s1: Session, sums: (int, int, int)|
            (
                s1,
                Ok(
                    (
                        toward_zero(sums.0, n as int) as i16,
                        toward_zero(sums.1, n as int) as i16,
                        toward_zero(sums.2, n as int) as i16,
                    ),
                ),
            ),
    )
}

/// The calibration registers loaded with three 16-bit offsets.
pub open spec fn offset_ops(dx: int, dy: int, dz: int) -> Seq<Op> {
    seq![
        Op::Put { reg: registers::CAL1_L, val: low_byte(dx) },
        Op::Put { reg: registers::CAL1_H, val: high_byte(dx) },
        Op::Put { reg: registers::CAL2_L, val: low_byte(dy) },
        Op::Put { reg: registers::CAL2_H, val: high_byte(dy) },
        Op::Put { reg: registers::CAL3_L, val: low_byte(dz) },
        Op::Put { reg: registers::CAL3_H, val: high_byte(dz) },
    ]
}

/// Three offsets loaded and applied by a CTRL9 command.
pub open spec fn applying(s: Session, addr: u8, dx: int, dy: int, dz: int, command: u8) -> (
    Session,
    Result<(), Error<Fault>>,
) {
    chain(on_bus(s.run(addr, offset_ops(dx, dy, dz))), |s1: Session, u: ()| ctrl9(s1, addr, command))
}

/// A self-test of the sensor behind control register `ctrl`: sensors off,
/// self-test bit set, wait, bit cleared, wait, result burst.
pub open spec fn testing(s: Session, addr: u8, ctrl: u8) -> (Session, Result<Seq<u8>, Error<Fault>>) {
    chain(
        writing(s, addr, registers::CTRL7, 0x00),
        |s1: Session, u1: ()| chain(reading(s1, addr, ctrl), |s2: Session, c: u8| test_stages(s2, addr, ctrl, c)),
    )
}

/// The stages of a self-test once the control register read `c`.
pub open spec fn test_stages(s: Session, addr: u8, ctrl: u8, c: u8) -> (Session, Result<Seq<u8>, Error<Fault>>) {
    let avail = |s1: Session, want: bool|
        polling(s1, addr, registers::STATUSINT, registers::statusint::AVAIL, want, SELF_TEST_POLLS as nat);
    chain(
        writing(s, addr, ctrl, c | 0x80),
        |s1: Session, u1: ()|
            chain(
                avail(s1, true),
                |s2: Session, u2: ()|
                    chain(
                        writing(s2, addr, ctrl, c & !0x80),
                        |s3: Session, u3: ()|
                            chain(
                                avail(s3, false),
                                |s4: Session, u4: ()| on_bus(s4.read_regs(addr, registers::DVX_L, 6)),
                            ),
                    ),
            ),
    )
}

/// An accelerometer self-test axis in milli-g: the raw value is in units
/// of 1/2048 g.
pub open spec fn test_mg(raw: int) -> int {
    toward_zero(raw * 1000, 2048)
}

/// A gyroscope self-test axis in dps: the raw value is in units of 1/16
/// dps.
pub open spec fn test_dps(raw: int) -> int {
    toward_zero(raw, 16)
}

/// The result of an accelerometer self-test burst.
pub open spec fn accel_test_result(b: Seq<u8>) -> AccelSelfTestResult {
    let (x, y, z) = (test_mg(axis(b, 0)), test_mg(axis(b, 2)), test_mg(axis(b, 4)));
    AccelSelfTestResult {
        x_mg: x as i32,
        y_mg: y as i32,
        z_mg: z as i32,
        passed: magnitude(x) > 200 && magnitude(y) > 200 && magnitude(z) > 200,
    }
}

/// The result of a gyroscope self-test burst.
pub open spec fn gyro_test_result(b: Seq<u8>) -> GyroSelfTestResult {
    let (x, y, z) = (test_dps(axis(b, 0)), test_dps(axis(b, 2)), test_dps(axis(b, 4)));
    GyroSelfTestResult {
        x_dps: x as i32,
        y_dps: y as i32,
        z_dps: z as i32,
        passed: magnitude(x) > 300 && magnitude(y) > 300 && magnitude(z) > 300,
    }
}

/// An accelerometer self-test.
pub open spec fn accel_testing(s: Session, addr: u8) -> (Session, Result<AccelSelfTestResult, Error<Fault>>) {
    chain(testing(s, addr, registers::CTRL2), |s1: Session, b: Seq<u8>| (s1, Ok(accel_test_result(b))))
}

/// A gyroscope self-test.
pub open spec fn gyro_testing(s: Session, addr: u8) -> (Session, Result<GyroSelfTestResult, Error<Fault>>) {
    chain(testing(s, addr, registers::CTRL3), |s1: Session, b: Seq<u8>| (s1, Ok(gyro_test_result(b))))
}

/// The Wake-on-Motion registers loaded and the command issued.
pub open spec fn wom_config(s: Session, addr: u8, low: u8, high: u8) -> (Session, Result<(), Error<Fault>>) {
    chain(
        on_bus(
            s.run(
                addr,
                seq![Op::Put { reg: registers::CAL1_L, val: low }, Op::Put { reg: registers::CAL1_H, val: high }],
            ),
        ),
        |s1: Session, u: ()| ctrl9(s1, addr, registers::cmd::WRITE_WOM_SETTING),
    )
}

/// The second Wake-on-Motion register: interrupt selection and blanking
/// time.
pub open spec fn wom_high(cfg: WomConfig) -> u8 {
    (cfg.interrupt.code() * 64 + cfg.blanking_samples as int % 64) as u8
}

/// A check for a Wake-on-Motion event.
pub open spec fn wom_check(s: Session, addr: u8) -> (Session, Result<bool, Error<Fault>>) {
    chain(
        reading(s, addr, registers::STATUS1),
        |s1: Session, v: u8| (s1, Ok(v & registers::status1::WOM != 0)),
    )
}

/// Two registers read one after the other.
pub open spec fn reading_pair(s: Session, addr: u8, r1: u8, r2: u8) -> (Session, Result<(u8, u8), Error<Fault>>) {
    chain(
        reading(s, addr, r1),
        |s1: Session, a: u8| chain(reading(s1, addr, r2), |s2: Session, b: u8| (s2, Ok((a, b)))),
    )
}

// ---- The driver -------------------------------------------------------------

/// QMI8658C IMU driver.
///
/// Holds the I2C address, configured scale factors, and an optional
/// software gyroscope bias. Call [`Self::set_gyro_bias`] after
/// [`Self::collect_gyro_bias`] to activate it; [`Self::read`] then
/// subtracts the stored values from every sample.
#[derive(Debug, Clone, Copy)]
pub struct Qmi8658 {
    addr: u8,
    accel_scale: AccelScale,
    gyro_scale: GyroScale,
    /// Subtracted from raw gyro readings in `read`. Zero until
    /// `set_gyro_bias`.
    gyro_bias: (i16, i16, i16),
}

/// Driver configuration.
#[derive(Debug, Clone, Copy, PartialEq, Eq)]
pub struct Config {
    /// I2C device address (default: [`ADDR`]).
    pub address: u8,
    /// Accelerometer full-scale range (default: ±8 g).
    pub accel_scale: AccelScale,
    /// Gyroscope full-scale range (default: ±256 dps).
    pub gyro_scale: GyroScale,
    /// Accelerometer output data rate (default: 125 Hz).
    pub accel_odr: Odr,
    /// Gyroscope output data rate (default: 125 Hz).
    pub gyro_odr: Odr,
    /// Gyroscope low-pass filter (default: Mode1 = 3.59% of ODR). `None`
    /// disables the filter.
    pub gyro_lpf: Option<LpfMode>,
    /// Accelerometer low-pass filter (default: disabled).
    pub accel_lpf: Option<LpfMode>,
}

impl Config {
    /// The default configuration.
    pub open spec fn standard() -> Config {
        Config {
            address: ADDR,
            accel_scale: AccelScale::G8,
            gyro_scale: GyroScale::Dps256,
            accel_odr: Odr::Hz125,
            gyro_odr: Odr::Hz125,
            gyro_lpf: Some(LpfMode::Mode1),
            accel_lpf: None,
        }
    }
}

impl Default for Config {
    fn default() -> (r: Config)
        ensures
            r == Config::standard(),
    {
        Config {
            address: ADDR,
            accel_scale: AccelScale::G8,
            gyro_scale: GyroScale::Dps256,
            accel_odr: Odr::Hz125,
            gyro_odr: Odr::Hz125,
            gyro_lpf: Some(LpfMode::Mode1),
            accel_lpf: None,
        }
    }
}

/// A fault as an error of the driver.
fn bus_err<T>(r: Result<T, Fault>) -> (e: Result<T, Error<Fault>>)
    ensures
        match r {
            Ok(v) => e == Ok::<T, Error<Fault>>(v),
            Err(f) => e == Err::<T, Error<Fault>>(Error::I2c(f)),
        },
{
    match r {
        Ok(v) => Ok(v),
        Err(f) => Err(Error::I2c(f)),
    }
}

impl Qmi8658 {
    /// The chip's I2C address.
    pub closed spec fn address(&self) -> u8 {
        self.addr
    }

    /// The accelerometer scale.
    pub closed spec fn accel(&self) -> AccelScale {
        self.accel_scale
    }

    /// The gyroscope scale.
    pub closed spec fn gyro(&self) -> GyroScale {
        self.gyro_scale
    }

    /// The gyroscope bias taken off each sample.
    pub closed spec fn bias(&self) -> (i16, i16, i16) {
        self.gyro_bias
    }

    /// Create a new driver instance. Call [`Self::init`] before reading
    /// data.
    pub fn new(config: Config) -> (r: Qmi8658)
        ensures
            r.address() == config.address,
            r.accel() == config.accel_scale,
            r.gyro() == config.gyro_scale,
            r.bias() == (0i16, 0i16, 0i16),
    {
        Qmi8658 {
            addr: config.address,
            accel_scale: config.accel_scale,
            gyro_scale: config.gyro_scale,
            gyro_bias: (0, 0, 0),
        }
    }

    /// Initialise the QMI8658C.
    ///
    /// 1. Verifies the WHO_AM_I register returns the expected chip ID
    ///    (0x05).
    /// 2. Enables address auto-increment in CTRL1 for burst reads, and
    ///    routes the CTRL9 handshake through STATUSINT in CTRL8.
    /// 3. Configures the accelerometer and gyroscope ODR, full-scale
    ///    range and filters.
    /// 4. Enables both sensors via CTRL7.
    ///
    /// Returns `Err(Error::DeviceNotFound)` if the chip does not respond
    /// with the correct ID.
    pub fn init(&self, i2c: &mut Bus, config: &Config) -> (e: Result<(), Error<Fault>>)
        ensures
            (final(i2c)@, e) == initialising(old(i2c)@, self.address(), *config),
    {
        // Verify device identity.
        let chip_id: u8 = self.read_register(i2c, registers::WHO_AM_I)?;
        if chip_id != registers::CHIP_ID {
            return Err(Error::DeviceNotFound);
        }
        // CTRL2/CTRL3: full-scale and ODR (bit 7 = 0 = self-test off).
        let ctrl2: u8 = config.accel_scale.ctrl2_bits() * 16 + config.accel_odr.bits();
        let ctrl3: u8 = config.gyro_scale.ctrl3_bits() * 16 + config.gyro_odr.bits();
        // CTRL5: low-pass filter configuration.
        let g: u8 = match config.gyro_lpf {
            Some(m) => m.bits() * 32 + 16,
            None => 0,
        };
        let a: u8 = match config.accel_lpf {
            Some(m) => m.bits() * 2 + 1,
            None => 0,
        };
        let ops: [Op; 6] = [
            // Keep the default SPI_BE bit, add AUTO_INCREMENT for burst
            // reads.
            Op::Put { reg: registers::CTRL1, val: 0x60 },
            // Route the CTRL9 command handshake through STATUSINT.bit7
            // instead of INT1.
            Op::Put { reg: registers::CTRL8, val: 0x80 },
            Op::Put { reg: registers::CTRL2, val: ctrl2 },
            Op::Put { reg: registers::CTRL3, val: ctrl3 },
            Op::Put { reg: registers::CTRL5, val: g + a },
            // Enable both accelerometer and gyroscope.
            Op::Put { reg: registers::CTRL7, val: 0x03 },
        ];
        assert(ops@ =~= init_ops(*config));
        bus_err(i2c.run(self.addr, &ops))
    }

    /// Read a snapshot of all sensor data in a single 14-byte burst.
    ///
    /// Reads TEMP_L through GZ_H (registers 0x33-0x40) in one I2C
    /// transaction, so that temperature, accelerometer, and gyroscope
    /// readings all come from the same sample.
    pub fn read(&self, i2c: &mut Bus) -> (e: Result<ImuData, Error<Fault>>)
        ensures
            (final(i2c)@, e) == sampling(old(i2c)@, self.address(), self.bias()),
    {
        let b: Vec<u8> = bus_err(i2c.read_regs(self.addr, registers::TEMP_L, 14))?;
        Ok(
            ImuData {
                temp_raw: i16_le(b[0], b[1]),
                accel_x: i16_le(b[2], b[3]),
                accel_y: i16_le(b[4], b[5]),
                accel_z: i16_le(b[6], b[7]),
                gyro_x: clamp16(i16_le(b[8], b[9]) as i64 - self.gyro_bias.0 as i64),
                gyro_y: clamp16(i16_le(b[10], b[11]) as i64 - self.gyro_bias.1 as i64),
                gyro_z: clamp16(i16_le(b[12], b[13]) as i64 - self.gyro_bias.2 as i64),
                steps: None,
            },
        )
    }

    /// Check whether new accelerometer and/or gyroscope data is
    /// available: the raw STATUS0 byte. Test individual flags with the
    /// masks in [`registers::status0`].
    pub fn status(&self, i2c: &mut Bus) -> (e: Result<u8, Error<Fault>>)
        ensures
            (final(i2c)@, e) == reading(old(i2c)@, self.address(), registers::STATUS0),
    {
        self.read_register(i2c, registers::STATUS0)
    }

    /// Read the WHO_AM_I and REVISION_ID registers.
    ///
    /// Returns `(chip_id, revision_id)`. Expected: `(0x05, 0x79)`.
    pub fn read_ids(&self, i2c: &mut Bus) -> (e: Result<(u8, u8), Error<Fault>>)
        ensures
            (final(i2c)@, e) == reading_pair(
                old(i2c)@,
                self.address(),
                registers::WHO_AM_I,
                registers::REVISION_ID,
            ),
    {
        let chip_id: u8 = self.read_register(i2c, registers::WHO_AM_I)?;
        let revision: u8 = self.read_register(i2c, registers::REVISION_ID)?;
        Ok((chip_id, revision))
    }

    /// Collect a gyroscope bias estimate by averaging `n` distinct
    /// hardware samples.
    ///
    /// The board must be completely still during this call. Before
    /// reading each sample the method polls STATUS0 until the gyroscope
    /// data-ready flag (bit 1) is set, so every one of the `n` samples is
    /// a genuinely new measurement.
    ///
    /// Returns `Err(Error::Timeout)` if a fresh sample does not arrive
    /// within 1000 poll attempts for any given sample slot.
    pub fn collect_gyro_bias(&self, i2c: &mut Bus, n: u8) -> (e: Result<(i16, i16, i16), Error<Fault>>)
        requires
            n > 0,
        ensures
            (final(i2c)@, e) == estimating(old(i2c)@, self.address(), n as nat),
    {
        let (mut x, mut y, mut z): (i64, i64, i64) = (0, 0, 0);
        let mut left: u8 = n;
        while left > 0
            invariant
                left <= n,
                summing(old(i2c)@, self.address(), n as nat, 0, 0, 0) == summing(
                    i2c@,
                    self.address(),
                    left as nat,
                    x as int,
                    y as int,
                    z as int,
                ),
                -32768 * (n - left) <= x <= 32767 * (n - left),
                -32768 * (n - left) <= y <= 32767 * (n - left),
                -32768 * (n - left) <= z <= 32767 * (n - left),
            decreases left,
        {
            self.poll(i2c, registers::STATUS0, registers::status0::GYRO_READY, true, READY_POLLS)?;
            let b: Vec<u8> = bus_err(i2c.read_regs(self.addr, registers::GX_L, 6))?;
            x = x + i16_le(b[0], b[1]) as i64;
            y = y + i16_le(b[2], b[3]) as i64;
            z = z + i16_le(b[4], b[5]) as i64;
            left = left - 1;
        }
        proof {
            mean_of_bounded_is_bounded(x as int, n as int);
            mean_of_bounded_is_bounded(y as int, n as int);
            mean_of_bounded_is_bounded(z as int, n as int);
        }
        let d: i64 = n as i64;
        Ok((div_toward_zero(x, d) as i16, div_toward_zero(y, d) as i16, div_toward_zero(z, d) as i16))
    }

    /// Store gyroscope bias values for software subtraction in
    /// [`Self::read`].
    pub fn set_gyro_bias(&mut self, bias_x: i16, bias_y: i16, bias_z: i16)
        ensures
            final(self).bias() == (bias_x, bias_y, bias_z),
            final(self).address() == old(self).address(),
            final(self).accel() == old(self).accel(),
            final(self).gyro() == old(self).gyro(),
    {
        self.gyro_bias = (bias_x, bias_y, bias_z);
    }

    /// Apply gyroscope bias offsets to the raw output registers using the
    /// CTRL9 command 0x0A.
    ///
    /// Takes the raw bias values returned by [`Self::collect_gyro_bias`],
    /// converts them to the 11.5 fixed-point format the command requires
    /// (using the gyro scale stored at construction time), writes them
    /// into CAL1-CAL3, issues the command, and polls for completion.
    ///
    /// The calibration is volatile: it is lost on power-off or reset.
    pub fn calibrate_gyro(&self, i2c: &mut Bus, bias_x: i16, bias_y: i16, bias_z: i16) -> (e: Result<
        (),
        Error<Fault>,
    >)
        ensures
            ({
                let lsb = 32768int / self.gyro().range_dps();
                (final(i2c)@, e) == applying(
                    old(i2c)@,
                    self.address(),
                    toward_zero(bias_x * 32, lsb),
                    toward_zero(bias_y * 32, lsb),
                    toward_zero(bias_z * 32, lsb),
                    registers::cmd::GYRO_HOST_DELTA_OFFSET,
                )
            }),
    {
        let scale: i64 = self.gyro_scale.lsb_per_dps() as i64;
        let dx: i64 = div_toward_zero(bias_x as i64 * 32, scale);
        let dy: i64 = div_toward_zero(bias_y as i64 * 32, scale);
        let dz: i64 = div_toward_zero(bias_z as i64 * 32, scale);
        self.apply_offsets(i2c, dx, dy, dz, registers::cmd::GYRO_HOST_DELTA_OFFSET)
    }

    /// Load three offsets into CAL1-CAL3 and issue a CTRL9 command.
    fn apply_offsets(&self, i2c: &mut Bus, dx: i64, dy: i64, dz: i64, command: u8) -> (e: Result<(), Error<Fault>>)
        requires
            -0x1_0000_0000 <= dx <= 0x1_0000_0000,
            -0x1_0000_0000 <= dy <= 0x1_0000_0000,
            -0x1_0000_0000 <= dz <= 0x1_0000_0000,
        ensures
            (final(i2c)@, e) == applying(
                old(i2c)@,
                self.address(),
                dx as int,
                dy as int,
                dz as int,
                command,
            ),
    {
        let x: [u8; 2] = to_le16(low16(dx));
        let y: [u8; 2] = to_le16(low16(dy));
        let z: [u8; 2] = to_le16(low16(dz));
        let ops: [Op; 6] = [
            Op::Put { reg: registers::CAL1_L, val: x[0] },
            Op::Put { reg: registers::CAL1_H, val: x[1] },
            Op::Put { reg: registers::CAL2_L, val: y[0] },
            Op::Put { reg: registers::CAL2_H, val: y[1] },
            Op::Put { reg: registers::CAL3_L, val: z[0] },
            Op::Put { reg: registers::CAL3_H, val: z[1] },
        ];
        assert(ops@ =~= offset_ops(dx as int, dy as int, dz as int));
        bus_err(i2c.run(self.addr, &ops))?;
        self.exec_ctrl9(i2c, command)
    }

    /// Returns the accelerometer scale this driver was configured with.
    pub fn accel_scale(&self) -> (r: AccelScale)
        ensures
            r == self.accel(),
    {
        self.accel_scale
    }

    /// Returns the gyroscope scale this driver was configured with.
    pub fn gyro_scale(&self) -> (r: GyroScale)
        ensures
            r == self.gyro(),
    {
        self.gyro_scale
    }

    // ---- Soft reset ---------------------------------------------------------

    /// Perform a soft reset by writing 0xB0 to register 0x60.
    ///
    /// All registers return to their default values. The caller should
    /// wait at least 15 ms, then call [`Self::init`] again.
    pub fn soft_reset(&self, i2c: &mut Bus) -> (e: Result<(), Error<Fault>>)
        ensures
            (final(i2c)@, e) == writing(old(i2c)@, self.address(), registers::RESET, registers::RESET_VALUE),
    {
        self.write_register(i2c, registers::RESET, registers::RESET_VALUE)
    }

    // ---- Self-test ----------------------------------------------------------

    /// Set or clear the bits in `mask` of a register.
    fn switch(&self, i2c: &mut Bus, r: u8, mask: u8, on: bool) -> (e: Result<(), Error<Fault>>)
        ensures
            (final(i2c)@, e) == switching(old(i2c)@, self.address(), r, mask, on),
    {
        let v: u8 = self.read_register(i2c, r)?;
        self.write_register(i2c, r, if on { v | mask } else { v & !mask })
    }

    /// Enable or disable accelerometer self-test (CTRL2 bit 7).
    pub fn set_accel_self_test(&self, i2c: &mut Bus, enable: bool) -> (e: Result<(), Error<Fault>>)
        ensures
            (final(i2c)@, e) == switching(old(i2c)@, self.address(), registers::CTRL2, 0x80, enable),
    {
        self.switch(i2c, registers::CTRL2, registers::ctrl2::SELF_TEST, enable)
    }

    /// Enable or disable gyroscope self-test (CTRL3 bit 7).
    pub fn set_gyro_self_test(&self, i2c: &mut Bus, enable: bool) -> (e: Result<(), Error<Fault>>)
        ensures
            (final(i2c)@, e) == switching(old(i2c)@, self.address(), registers::CTRL3, 0x80, enable),
    {
        self.switch(i2c, registers::CTRL3, registers::ctrl3::SELF_TEST, enable)
    }

    /// The common procedure of both self-tests, on the control register
    /// of the sensor. Gives the six result bytes.
    fn run_self_test(&self, i2c: &mut Bus, ctrl: u8) -> (e: Result<Vec<u8>, Error<Fault>>)
        ensures
            match e {
                Ok(v) => (final(i2c)@, Ok::<Seq<u8>, Error<Fault>>(v@)) == testing(old(i2c)@, self.address(), ctrl) && v@.len() == 6,
                Err(x) => (final(i2c)@, Err::<Seq<u8>, Error<Fault>>(x)) == testing(old(i2c)@, self.address(), ctrl),
            },
    {
        // Disable sensors.
        self.write_register(i2c, registers::CTRL7, 0x00)?;
        // Set the self-test bit; the chip forces its own full scale.
        let c: u8 = self.read_register(i2c, ctrl)?;
        self.write_register(i2c, ctrl, c | 0x80)?;
        // Wait for STATUSINT.bit0 = 1 (INT2 mirror, self-test done).
        self.wait_statusint_avail(i2c, true, SELF_TEST_POLLS)?;
        self.write_register(i2c, ctrl, c & !0x80)?;
        // Wait for STATUSINT.bit0 = 0 (ack).
        self.wait_statusint_avail(i2c, false, SELF_TEST_POLLS)?;
        bus_err(i2c.read_regs(self.addr, registers::DVX_L, 6))
    }

    /// Run the accelerometer self-test.
    ///
    /// Disables all sensors, sets the self-test bit (the chip forces ±16
    /// g full-scale), waits for the chip to report completion, clears the
    /// bit, waits for the acknowledgement and reads the result, which is
    /// signed Q5.11 in g.
    ///
    /// On return, the caller must re-run [`Self::init`] to restore the
    /// normal accel+gyro configuration.
    pub fn run_accel_self_test(&self, i2c: &mut Bus) -> (e: Result<AccelSelfTestResult, Error<Fault>>)
        ensures
            (final(i2c)@, e) == accel_testing(old(i2c)@, self.address()),
    {
        let b: Vec<u8> = self.run_self_test(i2c, registers::CTRL2)?;
        let x: i64 = div_toward_zero(i16_le(b[0], b[1]) as i64 * 1000, 2048);
        let y: i64 = div_toward_zero(i16_le(b[2], b[3]) as i64 * 1000, 2048);
        let z: i64 = div_toward_zero(i16_le(b[4], b[5]) as i64 * 1000, 2048);
        let passed: bool = exceeds(x, 200) && exceeds(y, 200) && exceeds(z, 200);
        Ok(AccelSelfTestResult { x_mg: x as i32, y_mg: y as i32, z_mg: z as i32, passed })
    }

    /// Run the gyroscope self-test.
    ///
    /// Same procedure as [`Self::run_accel_self_test`], on CTRL3. The
    /// result is signed Q12.4 in dps.
    pub fn run_gyro_self_test(&self, i2c: &mut Bus) -> (e: Result<GyroSelfTestResult, Error<Fault>>)
        ensures
            (final(i2c)@, e) == gyro_testing(old(i2c)@, self.address()),
    {
        let b: Vec<u8> = self.run_self_test(i2c, registers::CTRL3)?;
        let x: i64 = div_toward_zero(i16_le(b[0], b[1]) as i64, 16);
        let y: i64 = div_toward_zero(i16_le(b[2], b[3]) as i64, 16);
        let z: i64 = div_toward_zero(i16_le(b[4], b[5]) as i64, 16);
        let passed: bool = exceeds(x, 300) && exceeds(y, 300) && exceeds(z, 300);
        Ok(GyroSelfTestResult { x_dps: x as i32, y_dps: y as i32, z_dps: z as i32, passed })
    }

    /// Poll `STATUSINT.bit0` until it matches `target`, or the retry
    /// budget is exhausted.
    fn wait_statusint_avail(&self, i2c: &mut Bus, target: bool, max_iters: u16) -> (e: Result<(), Error<Fault>>)
        ensures
            (final(i2c)@, e) == polling(
                old(i2c)@,
                self.address(),
                registers::STATUSINT,
                registers::statusint::AVAIL,
                target,
                max_iters as nat,
            ),
    {
        self.poll(i2c, registers::STATUSINT, registers::statusint::AVAIL, target, max_iters)
    }

    /// Read a register until the bits in `mask` are set (`want`) or
    /// clear, `tries` times at most.
    fn poll(&self, i2c: &mut Bus, r: u8, mask: u8, want: bool, tries: u16) -> (e: Result<(), Error<Fault>>)
        ensures
            (final(i2c)@, e) == polling(old(i2c)@, self.address(), r, mask, want, tries as nat),
    {
        let mut left: u16 = tries;
        while left > 0
            invariant
                polling(old(i2c)@, self.address(), r, mask, want, tries as nat) == polling(
                    i2c@,
                    self.address(),
                    r,
                    mask,
                    want,
                    left as nat,
                ),
            decreases left,
        {
            let v: u8 = self.read_register(i2c, r)?;
            if (v & mask != 0) == want {
                return Ok(());
            }
            left = left - 1;
        }
        Err(Error::Timeout)
    }

    // ---- Sensor enable/disable ----------------------------------------------

    /// Enable or disable individual sensors and features via CTRL7, with
    /// the constants in [`registers::ctrl7`].
    pub fn set_ctrl7(&self, i2c: &mut Bus, value: u8) -> (e: Result<(), Error<Fault>>)
        ensures
            (final(i2c)@, e) == writing(old(i2c)@, self.address(), registers::CTRL7, value),
    {
        self.write_register(i2c, registers::CTRL7, value)
    }

    /// Read the current CTRL7 register value.
    pub fn ctrl7(&self, i2c: &mut Bus) -> (e: Result<u8, Error<Fault>>)
        ensures
            (final(i2c)@, e) == reading(old(i2c)@, self.address(), registers::CTRL7),
    {
        self.read_register(i2c, registers::CTRL7)
    }

    /// Enable or disable the accelerometer (CTRL7 bit 0).
    pub fn set_accel_enable(&self, i2c: &mut Bus, enable: bool) -> (e: Result<(), Error<Fault>>)
        ensures
            (final(i2c)@, e) == switching(
                old(i2c)@,
                self.address(),
                registers::CTRL7,
                registers::ctrl7::ACCEL_EN,
                enable,
            ),
    {
        self.switch(i2c, registers::CTRL7, registers::ctrl7::ACCEL_EN, enable)
    }

    /// Enable or disable the gyroscope (CTRL7 bit 1).
    pub fn set_gyro_enable(&self, i2c: &mut Bus, enable: bool) -> (e: Result<(), Error<Fault>>)
        ensures
            (final(i2c)@, e) == switching(
                old(i2c)@,
                self.address(),
                registers::CTRL7,
                registers::ctrl7::GYRO_EN,
                enable,
            ),
    {
        self.switch(i2c, registers::CTRL7, registers::ctrl7::GYRO_EN, enable)
    }

    /// Disable all sensors by writing 0x00 to CTRL7.
    pub fn disable_all(&self, i2c: &mut Bus) -> (e: Result<(), Error<Fault>>)
        ensures
            (final(i2c)@, e) == writing(old(i2c)@, self.address(), registers::CTRL7, 0x00),
    {
        self.write_register(i2c, registers::CTRL7, 0x00)
    }

    // ---- FIFO ---------------------------------------------------------------

    /// Configure the FIFO (FIFO_CTRL register 0x14).
    ///
    /// When `mode` is `Bypass`, the FIFO is disabled. For `Fifo` or
    /// `Streaming`, all enabled sensors must share the same ODR.
    pub fn configure_fifo(&self, i2c: &mut Bus, mode: FifoMode, size: FifoSize) -> (e: Result<(), Error<Fault>>)
        ensures
            (final(i2c)@, e) == writing(
                old(i2c)@,
                self.address(),
                registers::FIFO_CTRL,
                (size.code() * 4 + mode.code()) as u8,
            ),
    {
        self.write_register(i2c, registers::FIFO_CTRL, size.bits() * 4 + mode.bits())
    }

    /// Set the FIFO watermark threshold in ODR samples (0-255).
    pub fn set_fifo_watermark(&self, i2c: &mut Bus, samples: u8) -> (e: Result<(), Error<Fault>>)
        ensures
            (final(i2c)@, e) == writing(old(i2c)@, self.address(), registers::FIFO_WTM_TH, samples),
    {
        self.write_register(i2c, registers::FIFO_WTM_TH, samples)
    }

    /// Read FIFO status flags and sample count.
    pub fn fifo_status(&self, i2c: &mut Bus) -> (e: Result<FifoStatus, Error<Fault>>)
        ensures
            (final(i2c)@, e) == chain(
                reading_pair(old(i2c)@, self.address(), registers::FIFO_SMPL_CNT, registers::FIFO_STATUS),
                |s: Session, p: (u8, u8)|
                    (
                        s,
                        Ok::<FifoStatus, Error<Fault>>(
                            FifoStatus {
                                full: p.1 & registers::fifo_status::FULL != 0,
                                watermark: p.1 & registers::fifo_status::WATERMARK != 0,
                                overflow: p.1 & registers::fifo_status::OVERFLOW != 0,
                                not_empty: p.1 & registers::fifo_status::NOT_EMPTY != 0,
                                sample_count: (p.1 as int % 4 * 256 + p.0) as u16,
                            },
                        ),
                    ),
            ),
    {
        let cnt_lsb: u8 = self.read_register(i2c, registers::FIFO_SMPL_CNT)?;
        let status: u8 = self.read_register(i2c, registers::FIFO_STATUS)?;
        Ok(
            FifoStatus {
                full: status & registers::fifo_status::FULL != 0,
                watermark: status & registers::fifo_status::WATERMARK != 0,
                overflow: status & registers::fifo_status::OVERFLOW != 0,
                not_empty: status & registers::fifo_status::NOT_EMPTY != 0,
                sample_count: (status % 4) as u16 * 256 + cnt_lsb as u16,
            },
        )
    }

    /// Reset the FIFO via CTRL9 command.
    pub fn reset_fifo(&self, i2c: &mut Bus) -> (e: Result<(), Error<Fault>>)
        ensures
            (final(i2c)@, e) == ctrl9(old(i2c)@, self.address(), registers::cmd::RST_FIFO),
    {
        self.exec_ctrl9(i2c, registers::cmd::RST_FIFO)
    }

    /// Request FIFO data via CTRL9 command.
    ///
    /// After this call, the caller should read FIFO_DATA (0x17) in bursts
    /// of 6 bytes per enabled sensor until the FIFO is empty, then call
    /// [`Self::fifo_end_read`] to clear the read mode.
    pub fn fifo_begin_read(&self, i2c: &mut Bus) -> (e: Result<(), Error<Fault>>)
        ensures
            (final(i2c)@, e) == ctrl9(old(i2c)@, self.address(), registers::cmd::REQ_FIFO),
    {
        self.exec_ctrl9(i2c, registers::cmd::REQ_FIFO)
    }

    /// Read one byte from FIFO_DATA register.
    pub fn fifo_read_byte(&self, i2c: &mut Bus) -> (e: Result<u8, Error<Fault>>)
        ensures
            (final(i2c)@, e) == reading(old(i2c)@, self.address(), registers::FIFO_DATA),
    {
        self.read_register(i2c, registers::FIFO_DATA)
    }

    /// End FIFO read mode by clearing FIFO_rd_mode (FIFO_CTRL bit 7).
    pub fn fifo_end_read(&self, i2c: &mut Bus) -> (e: Result<(), Error<Fault>>)
        ensures
            (final(i2c)@, e) == switching(
                old(i2c)@,
                self.address(),
                registers::FIFO_CTRL,
                registers::fifo_ctrl::RD_MODE,
                false,
            ),
    {
        self.switch(i2c, registers::FIFO_CTRL, registers::fifo_ctrl::RD_MODE, false)
    }

    // ---- AttitudeEngine -----------------------------------------------------

    /// Configure and enable the AttitudeEngine.
    ///
    /// Sets the AE output data rate in CTRL6 (sMoD kept) and enables sEN
    /// in CTRL7. The accelerometer and gyroscope must already be enabled.
    pub fn enable_attitude_engine(&self, i2c: &mut Bus, odr: AeOdr) -> (e: Result<(), Error<Fault>>)
        ensures
            (final(i2c)@, e) == chain(
                updating(
                    old(i2c)@,
                    self.address(),
                    registers::CTRL6,
                    registers::ctrl6::SODR_MASK,
                    odr.code(),
                ),
                |s: Session, u: ()|
                    switching(s, self.address(), registers::CTRL7, registers::ctrl7::AE_EN, true),
            ),
    {
        bus_err(i2c.update_reg(self.addr, registers::CTRL6, registers::ctrl6::SODR_MASK, odr.bits()))?;
        self.switch(i2c, registers::CTRL7, registers::ctrl7::AE_EN, true)
    }

    /// Disable the AttitudeEngine (clear sEN in CTRL7).
    pub fn disable_attitude_engine(&self, i2c: &mut Bus) -> (e: Result<(), Error<Fault>>)
        ensures
            (final(i2c)@, e) == switching(
                old(i2c)@,
                self.address(),
                registers::CTRL7,
                registers::ctrl7::AE_EN,
                false,
            ),
    {
        self.switch(i2c, registers::CTRL7, registers::ctrl7::AE_EN, false)
    }

    /// Enable or disable Motion on Demand (CTRL6 bit 7).
    ///
    /// Requires sEN=1 in CTRL7 (AttitudeEngine enabled).
    pub fn set_motion_on_demand(&self, i2c: &mut Bus, enable: bool) -> (e: Result<(), Error<Fault>>)
        ensures
            (final(i2c)@, e) == switching(
                old(i2c)@,
                self.address(),
                registers::CTRL6,
                registers::ctrl6::SMOD,
                enable,
            ),
    {
        self.switch(i2c, registers::CTRL6, registers::ctrl6::SMOD, enable)
    }

    /// Request Motion on Demand data via CTRL9 command.
    pub fn request_motion_data(&self, i2c: &mut Bus) -> (e: Result<(), Error<Fault>>)
        ensures
            (final(i2c)@, e) == ctrl9(old(i2c)@, self.address(), registers::cmd::REQ_SDI),
    {
        self.exec_ctrl9(i2c, registers::cmd::REQ_SDI)
    }

    /// Read the AttitudeEngine quaternion increment (dQW, dQX, dQY, dQZ)
    /// in one burst.
    pub fn read_quaternion(&self, i2c: &mut Bus) -> (e: Result<Quaternion, Error<Fault>>)
        ensures
            (final(i2c)@, e) == chain(
                on_bus(old(i2c)@.read_regs(self.address(), registers::DQW_L, 8)),
                |s: Session, b: Seq<u8>|
                    (
                        s,
                        Ok::<Quaternion, Error<Fault>>(
                            Quaternion {
                                dqw: axis(b, 0) as i16,
                                dqx: axis(b, 2) as i16,
                                dqy: axis(b, 4) as i16,
                                dqz: axis(b, 6) as i16,
                            },
                        ),
                    ),
            ),
    {
        let b: Vec<u8> = bus_err(i2c.read_regs(self.addr, registers::DQW_L, 8))?;
        Ok(
            Quaternion {
                dqw: i16_le(b[0], b[1]),
                dqx: i16_le(b[2], b[3]),
                dqy: i16_le(b[4], b[5]),
                dqz: i16_le(b[6], b[7]),
            },
        )
    }

    /// Read the AttitudeEngine velocity increment (dVX, dVY, dVZ) in one
    /// burst.
    pub fn read_velocity(&self, i2c: &mut Bus) -> (e: Result<VelocityIncrement, Error<Fault>>)
        ensures
            (final(i2c)@, e) == chain(
                on_bus(old(i2c)@.read_regs(self.address(), registers::DVX_L, 6)),
                |s: Session, b: Seq<u8>|
                    (
                        s,
                        Ok::<VelocityIncrement, Error<Fault>>(
                            VelocityIncrement {
                                dvx: axis(b, 0) as i16,
                                dvy: axis(b, 2) as i16,
                                dvz: axis(b, 4) as i16,
                            },
                        ),
                    ),
            ),
    {
        let b: Vec<u8> = bus_err(i2c.read_regs(self.addr, registers::DVX_L, 6))?;
        Ok(VelocityIncrement { dvx: i16_le(b[0], b[1]), dvy: i16_le(b[2], b[3]), dvz: i16_le(b[4], b[5]) })
    }

    /// Read AttitudeEngine status registers: AE_REG1 (clipping flags) and
    /// AE_REG2 (velocity overflow flags).
    pub fn read_ae_status(&self, i2c: &mut Bus) -> (e: Result<(u8, u8), Error<Fault>>)
        ensures
            (final(i2c)@, e) == reading_pair(old(i2c)@, self.address(), registers::AE_REG1, registers::AE_REG2),
    {
        let r1: u8 = self.read_register(i2c, registers::AE_REG1)?;
        let r2: u8 = self.read_register(i2c, registers::AE_REG2)?;
        Ok((r1, r2))
    }

    // ---- Wake-on-Motion -----------------------------------------------------

    /// Configure and enable Wake-on-Motion.
    ///
    /// The full sequence is: `disable_all`, the desired accel ODR/scale
    /// in CTRL2, this call, `set_accel_enable(true)`. To exit WoM, call
    /// [`Self::disable_wom`].
    pub fn configure_wom(&self, i2c: &mut Bus, cfg: &WomConfig) -> (e: Result<(), Error<Fault>>)
        ensures
            (final(i2c)@, e) == wom_config(old(i2c)@, self.address(), cfg.threshold_mg, wom_high(*cfg)),
    {
        self.write_wom(i2c, cfg.threshold_mg, cfg.interrupt.bits() * 64 + cfg.blanking_samples % 64)
    }

    /// Load the Wake-on-Motion registers and issue the command.
    fn write_wom(&self, i2c: &mut Bus, low: u8, high: u8) -> (e: Result<(), Error<Fault>>)
        ensures
            (final(i2c)@, e) == wom_config(old(i2c)@, self.address(), low, high),
    {
        let ops: [Op; 2] = [
            Op::Put { reg: registers::CAL1_L, val: low },
            Op::Put { reg: registers::CAL1_H, val: high },
        ];
        assert(ops@ =~= seq![
            Op::Put { reg: registers::CAL1_L, val: low },
            Op::Put { reg: registers::CAL1_H, val: high },
        ]);
        bus_err(i2c.run(self.addr, &ops))?;
        self.exec_ctrl9(i2c, registers::cmd::WRITE_WOM_SETTING)
    }

    /// Disable Wake-on-Motion by writing threshold 0 and executing the
    /// WoM CTRL9 command. Restores interrupt pins to normal.
    ///
    /// Call `disable_all` before this, then reconfigure sensors as
    /// desired afterward.
    pub fn disable_wom(&self, i2c: &mut Bus) -> (e: Result<(), Error<Fault>>)
        ensures
            (final(i2c)@, e) == wom_config(old(i2c)@, self.address(), 0x00, 0x00),
    {
        self.write_wom(i2c, 0x00, 0x00)
    }

    /// Check if a Wake-on-Motion event occurred (STATUS1 bit 2).
    ///
    /// Reading STATUS1 clears the WoM bit and resets the interrupt line.
    pub fn wom_event(&self, i2c: &mut Bus) -> (e: Result<bool, Error<Fault>>)
        ensures
            (final(i2c)@, e) == wom_check(old(i2c)@, self.address()),
    {
        let s: u8 = self.read_register(i2c, registers::STATUS1)?;
        Ok(s & registers::status1::WOM != 0)
    }

    // ---- Accelerometer calibration ------------------------------------------

    /// Apply accelerometer delta-offset via CTRL9 command 0x09.
    ///
    /// Each offset is a signed 4.12 fixed-point value: `delta = bias_raw
    /// * 4096 / lsb_per_g`. This offset is volatile - lost on power cycle
    /// or reset.
    pub fn calibrate_accel(&self, i2c: &mut Bus, bias_x: i16, bias_y: i16, bias_z: i16) -> (e: Result<
        (),
        Error<Fault>,
    >)
        ensures
            ({
                let lsb = 32768int / self.accel().range_g();
                (final(i2c)@, e) == applying(
                    old(i2c)@,
                    self.address(),
                    toward_zero(bias_x * 4096, lsb),
                    toward_zero(bias_y * 4096, lsb),
                    toward_zero(bias_z * 4096, lsb),
                    registers::cmd::ACCEL_HOST_DELTA_OFFSET,
                )
            }),
    {
        let scale: i64 = self.accel_scale.lsb_per_g() as i64;
        let dx: i64 = div_toward_zero(bias_x as i64 * 4096, scale);
        let dy: i64 = div_toward_zero(bias_y as i64 * 4096, scale);
        let dz: i64 = div_toward_zero(bias_z as i64 * 4096, scale);
        self.apply_offsets(i2c, dx, dy, dz, registers::cmd::ACCEL_HOST_DELTA_OFFSET)
    }

    // ---- Timestamp, USID, pull-ups ------------------------------------------

    /// Read the 24-bit sample timestamp.
    ///
    /// The counter increments by one for each sample from the sensor with
    /// the highest ODR. It wraps from 0xFFFFFF to 0x000000.
    pub fn read_timestamp(&self, i2c: &mut Bus) -> (e: Result<u32, Error<Fault>>)
        ensures
            (final(i2c)@, e) == chain(
                on_bus(old(i2c)@.read_regs(self.address(), registers::TIMESTAMP_LOW, 3)),
                |s: Session, b: Seq<u8>|
                    (s, Ok::<u32, Error<Fault>>((b[0] + 256 * b[1] + 65536 * b[2]) as u32)),
            ),
    {
        let b: Vec<u8> = bus_err(i2c.read_regs(self.addr, registers::TIMESTAMP_LOW, 3))?;
        Ok(b[0] as u32 + 256 * b[1] as u32 + 65536 * b[2] as u32)
    }

    /// Copy USID and firmware version to output registers, then read
    /// them.
    ///
    /// Returns `(fw_version, usid)` where `fw_version` is 3 bytes and
    /// `usid` is 6 bytes.
    pub fn read_usid(&self, i2c: &mut Bus) -> (e: Result<([u8; 3], [u8; 6]), Error<Fault>>)
        ensures
            final(i2c)@ == usid_reading(old(i2c)@, self.address()).0,
            match usid_reading(old(i2c)@, self.address()).1 {
                Ok(p) => e matches Ok(r) && r.0@ == p.0 && r.1@ == p.1,
                Err(x) => e == Err::<([u8; 3], [u8; 6]), Error<Fault>>(x),
            },
    {
        self.exec_ctrl9(i2c, registers::cmd::COPY_USID)?;
        let a: u8 = self.read_register(i2c, registers::DQW_L)?;
        let b: u8 = self.read_register(i2c, registers::DQW_H)?;
        let c: u8 = self.read_register(i2c, registers::DQX_L)?;
        let u: Vec<u8> = bus_err(i2c.read_regs(self.addr, registers::DVX_L, 6))?;
        let fw: [u8; 3] = [a, b, c];
        let usid: [u8; 6] = [u[0], u[1], u[2], u[3], u[4], u[5]];
        assert(fw@ =~= seq![a, b, c]);
        assert(usid@ =~= u@);
        Ok((fw, usid))
    }

    /// Configure IO pull-up resistors via CTRL9 command 0x11. Each bit in
    /// `disable_mask` disables one pull-up: bit 0 aux, bit 1 icm, bit 2
    /// cs, bit 3 ics.
    pub fn set_pullup_config(&self, i2c: &mut Bus, disable_mask: u8) -> (e: Result<(), Error<Fault>>)
        ensures
            (final(i2c)@, e) == chain(
                writing(old(i2c)@, self.address(), registers::CAL1_L, (disable_mask as int % 16) as u8),
                |s: Session, u: ()| ctrl9(s, self.address(), registers::cmd::SET_RPU),
            ),
    {
        self.write_register(i2c, registers::CAL1_L, disable_mask % 16)?;
        self.exec_ctrl9(i2c, registers::cmd::SET_RPU)
    }

    // ---- ODR runtime change -------------------------------------------------

    /// Change the accelerometer output data rate without touching the
    /// full-scale range. Useful for switching to a low ODR when entering
    /// Wake-on-Motion mode.
    pub fn set_accel_odr(&self, i2c: &mut Bus, odr: Odr) -> (e: Result<(), Error<Fault>>)
        ensures
            (final(i2c)@, e) == rate_change(old(i2c)@, self.address(), registers::CTRL2, odr),
    {
        let ctrl2: u8 = self.read_register(i2c, registers::CTRL2)?;
        // Clear low nibble (aODR), keep bits 7:4 (aST + aFS).
        self.write_register(i2c, registers::CTRL2, (ctrl2 & 0xF0) | odr.bits())
    }

    /// Change the gyroscope output data rate without touching the
    /// full-scale range.
    pub fn set_gyro_odr(&self, i2c: &mut Bus, odr: Odr) -> (e: Result<(), Error<Fault>>)
        ensures
            (final(i2c)@, e) == rate_change(old(i2c)@, self.address(), registers::CTRL3, odr),
    {
        let ctrl3: u8 = self.read_register(i2c, registers::CTRL3)?;
        self.write_register(i2c, registers::CTRL3, (ctrl3 & 0xF0) | odr.bits())
    }

    // ---- CTRL9 protocol helper ----------------------------------------------

    /// Execute a CTRL9 command and wait for completion.
    ///
    /// 1. Write command to CTRL9 (0x0A)
    /// 2. Wait for STATUSINT.bit7 (CmdDone) = 1
    /// 3. Write NOP (0x00) to CTRL9 to acknowledge completion
    fn exec_ctrl9(&self, i2c: &mut Bus, command: u8) -> (e: Result<(), Error<Fault>>)
        ensures
            (final(i2c)@, e) == ctrl9(old(i2c)@, self.address(), command),
    {
        self.write_register(i2c, registers::CTRL9, command)?;
        self.poll(i2c, registers::STATUSINT, registers::statusint::CMD_DONE, true, READY_POLLS)?;
        // Acknowledge: write NOP so the device clears CmdDone.
        self.write_register(i2c, registers::CTRL9, registers::cmd::NOP)
    }

    /// Read any single register by address. Useful for debugging CTRL9
    /// failures.
    pub fn read_raw_register(&self, i2c: &mut Bus, r: u8) -> (e: Result<u8, Error<Fault>>)
        ensures
            (final(i2c)@, e) == reading(old(i2c)@, self.address(), r),
    {
        self.read_register(i2c, r)
    }

    fn read_register(&self, i2c: &mut Bus, r: u8) -> (e: Result<u8, Error<Fault>>)
        ensures
            (final(i2c)@, e) == reading(old(i2c)@, self.address(), r),
    {
        bus_err(i2c.read_reg(self.addr, r))
    }

    fn write_register(&self, i2c: &mut Bus, r: u8, val: u8) -> (e: Result<(), Error<Fault>>)
        ensures
            (final(i2c)@, e) == writing(old(i2c)@, self.address(), r, val),
    {
        bus_err(i2c.write_reg(self.addr, r, val))
    }
}

/// Whether `|x|` exceeds `limit`.
fn exceeds(x: i64, limit: i64) -> (r: bool)
    requires
        0 <= limit <= 0x1_0000_0000,
    ensures
        r == (magnitude(x as int) > limit),
{
    x > limit || x < -limit
}

/// The firmware version and USID read.
pub open spec fn usid_reading(s: Session, addr: u8) -> (Session, Result<(Seq<u8>, Seq<u8>), Error<Fault>>) {
    chain(
        ctrl9(s, addr, registers::cmd::COPY_USID),
        |s1: Session, u: ()|
            chain(
                reading_pair(s1, addr, registers::DQW_L, registers::DQW_H),
                |s2: Session, ab: (u8, u8)|
                    chain(
                        reading(s2, addr, registers::DQX_L),
                        |s3: Session, c: u8|
                            chain(
                                on_bus(s3.read_regs(addr, registers::DVX_L, 6)),
                                |s4: Session, id: Seq<u8>| (s4, Ok((seq![ab.0, ab.1, c], id))),
                            ),
                    ),
            ),
    )
}

/// The low nibble of a control register replaced by an output data rate.
pub open spec fn rate_change(s: Session, addr: u8, r: u8, odr: Odr) -> (Session, Result<(), Error<Fault>>) {
    chain(reading(s, addr, r), |s1: Session, v: u8| writing(s1, addr, r, (v & 0xF0) | odr.code()))
}

/// A mean of `n` 16-bit samples is a 16-bit number.
proof fn mean_of_bounded_is_bounded(sum: int, n: int)
    requires
        n > 0,
        -32768 * n <= sum <= 32767 * n,
    ensures
        -32768 <= toward_zero(sum, n) <= 32767,
{
    if sum >= 0 {
        assert(0 <= sum / n <= 32767) by (nonlinear_arith)
            requires
                0 <= sum <= 32767 * n,
                n > 0,
        ;
    } else {
        let m = -sum;
        assert(0 <= m / n <= 32768) by (nonlinear_arith)
            requires
                0 <= m <= 32768 * n,
                n > 0,
        ;
    }
}

} // verus!
