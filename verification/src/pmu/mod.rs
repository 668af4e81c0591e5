//! AXP2101 PMU (Power Management Unit) driver.
//!
//! The I²C bus is **not** owned by the driver - it is passed by mutable
//! reference on each call. This allows the same bus to be shared with the
//! touch controller, RTC, IMU, and any other I²C peripheral.
//!
//! Rail wiring on the ESP32-S3-Touch-AMOLED-2.06:
//!
//!   DCDC1    → VCC3V3    Master system rail: the ESP32-S3 and its SPI
//!                        flash, the SD card, the QMI8658 IMU, the
//!                        display-plus-touch FPC module, the speaker amp,
//!                        and the ES8311 / ES7210 digital supplies. **It
//!                        MUST stay on anywhere the ESP32 is expected to
//!                        keep running.**
//!   ALDO1    → A3V3      Audio analog supply, and the FT3168 touch
//!                        controller depends on it too: **ALDO1 must
//!                        stay on at boot**.
//!   ALDO2    → signal    Drives the display FPC's DSI_PWR_EN enable
//!                        input - a slow GPIO implemented by toggling an
//!                        LDO.
//!   ALDO3    → VCC3V     Haptic motor supply. Gated by GPIO18.
//!   RTC-LDO1 → VCC-RTC   PCF85063 VDD and the pull-up of the AXP2101's
//!                        own open-drain IRQ output; stays alive through
//!                        any sleep path.
//!
//! The other rails have no known consumer there; they are still enabled
//! at boot by [`Pmu::enable_all_rails`].

use vstd::prelude::*;
use crate::bus::{chain, merged, Bus, Fault, Session};
use crate::chip::{
    low_field_reads_back, read_gives_the_register, updated_register_is_held, written_register_is_held, Registers,
};

pub mod interrupts;
pub mod registers;
pub mod types;

pub use interrupts::{InterruptConfig, InterruptStatus};
pub use types::{
    bit, flag, ChargeCurrent, ChargeDoneTimeout, ChargeVoltage, ChargerPhase, ChargerTimeout, ChgLedConfig,
    ChgLedFunction, ChgLedOutput, CurrentDirection, DcdcProtection, DcdcPwmConfig, DcdcUvpDebounce, DieOtpLevel,
    FastPwronSeq, Gpio1Output, InputCurrentLimit, JeitaCurrentFall, JeitaCvConfig, JeitaVoltageFall,
    LowBatteryWarning, PmuStatus1, PmuStatus2, PowerKeyConfig, PowerKeyIrqTime, PowerKeyOffTime, PowerKeyOnTime,
    PowerOffEnable, PowerOffStatus, PowerOffVoltage, PowerOnStatus, PreChargeCurrent, PreChargeTimeout, PwrokConfig,
    PwrokDelay, SleepWakeConfig, TerminationCurrent, ThermalThreshold, TsCurrentMode, TsCurrentValue, TsPinConfig,
    TsPinFunction, WatchdogAction, WatchdogConfig, WatchdogTimeout,
};
use registers::{adc_en, ldo_en0};

verus! {

/// Default I2C address for AXP2101 (0x34 when ADDR pin is low).
pub const DEFAULT_ADDRESS: u8 = 0x34;

/// Watchdog enable (REG 18h bit 0).
pub const WATCHDOG_EN: u8 = 0x01;

/// Cell (main battery) charge enable (REG 18h bit 1).
pub const CELL_CHARGE_EN: u8 = 0x02;

/// Button battery charge enable (REG 18h bit 2).
pub const BUTTON_CHARGE_EN: u8 = 0x04;

/// Fuel gauge enable (REG 18h bit 3).
pub const GAUGE_EN: u8 = 0x08;

/// Error type for PMU operations.
///
/// Generic over `E` - the error type of the bus.
#[derive(Debug, Clone, Copy, PartialEq, Eq)]
pub enum Error<E> {
    /// An I2C transaction failed; the inner value is the bus's own error.
    I2c(E),
    /// The device did not respond with the expected chip ID.
    DeviceNotFound,
    /// A voltage value outside the 500–3500 mV range was requested, or a
    /// register index that does not exist.
    InvalidValue,
}

// ---- Voltage codes ----------------------------------------------------------

/// The code of a voltage held within `lo ..= hi`, in steps of `step` from
/// `lo` on, rounded down.
pub open spec fn step_code(mv: int, lo: int, hi: int, step: int) -> u8 {
    ((if mv < lo {
        0
    } else if mv > hi {
        (hi - lo) / step
    } else {
        (mv - lo) / step
    })) as u8
}

fn steps(mv: u16, lo: u16, hi: u16, step: u16) -> (r: u8)
    requires
        lo <= hi,
        step >= 50,
        hi - lo <= 4000,
    ensures
        r == step_code(mv as int, lo as int, hi as int, step as int),
{
    let held: u16 = if mv < lo {
        lo
    } else if mv > hi {
        hi
    } else {
        mv
    };
    proof {
        assert(0int / step as int == 0) by (nonlinear_arith)
            requires
                step >= 50,
        ;
        assert(0 <= (held - lo) / step as int <= 255) by (nonlinear_arith)
            requires
                0 <= held - lo <= 4000,
                step >= 50,
        ;
    }
    ((held - lo) / step) as u8
}

/// The code of a two-range converter voltage held within 500 mV and `hi`:
/// 10 mV steps up to 1200 mV, 20 mV steps from 1220 mV on, rounded down.
pub open spec fn two_range_code(mv: int, hi: int) -> u8 {
    let held = if mv < 500 {
        500
    } else if mv > hi {
        hi
    } else {
        mv
    };
    (if held <= 1200 {
        (held - 500) / 10
    } else if held < 1220 {
        70
    } else {
        71 + (held - 1220) / 20
    }) as u8
}

/// The voltage of a two-range converter code, in millivolts.
pub open spec fn two_range_mv(n: int) -> int {
    if n <= 70 { 500 + n * 10 } else { 1220 + (n - 71) * 20 }
}

fn two_range(mv: u16, hi: u16) -> (r: u8)
    requires
        1220 <= hi <= 1840,
    ensures
        r == two_range_code(mv as int, hi as int),
        r <= 102,
{
    let held: u16 = if mv < 500 {
        500
    } else if mv > hi {
        hi
    } else {
        mv
    };
    if held <= 1200 {
        ((held - 500) / 10) as u8
    } else if held < 1220 {
        70
    } else {
        (71 + (held - 1220) / 20) as u8
    }
}

fn two_range_volts(n: u8) -> (r: u16)
    requires
        n < 128,
    ensures
        r == two_range_mv(n as int),
{
    let n: u16 = n as u16;
    if n <= 70 {
        500 + n * 10
    } else {
        1220 + (n - 71) * 20
    }
}

/// The code of an LDO voltage, for 500 to 3500 mV.
pub open spec fn ldo_code(mv: int) -> u8 {
    ((mv - 500) / 100) as u8
}

// ---- What the driver puts on the bus ----------------------------------------

/// A transfer's outcome as an outcome of the driver.
pub open spec fn on_bus<T>(run: (Session, Result<T, Fault>)) -> (Session, Result<T, Error<Fault>>) {
    (run.0, match run.1 {
        Ok(v) => Ok(v),
        Err(f) => Err(Error::I2c(f)),
    })
}

/// A read of one register.
pub open spec fn reading(s: Session, addr: u8, r: u8) -> (Session, Result<u8, Error<Fault>>) {
    on_bus(s.read_reg(addr, r))
}

/// A write of one register.
pub open spec fn writing(s: Session, addr: u8, r: u8, val: u8) -> (Session, Result<(), Error<Fault>>) {
    on_bus(s.write_reg(addr, r, val))
}

/// A read-modify-write of one register: the bits in `clear` are cleared,
/// those in `set` set, all others kept.
pub open spec fn updating(s: Session, addr: u8, r: u8, clear: u8, set: u8) -> (Session, Result<(), Error<Fault>>) {
    on_bus(s.update_reg(addr, r, clear, set))
}

/// The bits in `mask` of one register set or cleared, all others kept.
pub open spec fn switching(s: Session, addr: u8, r: u8, mask: u8, on: bool) -> (Session, Result<(), Error<Fault>>) {
    updating(s, addr, r, mask, if on { mask } else { 0 })
}

/// A read of one register, and what its value stands for.
pub open spec fn decoding<T>(s: Session, addr: u8, r: u8, meaning: spec_fn(u8) -> T) -> (
    Session,
    Result<T, Error<Fault>>,
) {
    chain(reading(s, addr, r), |s1: Session, v: u8| (s1, Ok(meaning(v))))
}

/// A read of a 14-bit ADC value: high byte bits 5:0, then the low byte.
pub open spec fn sampling(s: Session, addr: u8, high: u8, low: u8) -> (Session, Result<u16, Error<Fault>>) {
    chain(
        reading(s, addr, high),
        |s1: Session, h: u8|
            chain(reading(s1, addr, low), |s2: Session, l: u8| (s2, Ok((h as int % 64 * 256 + l) as u16))),
    )
}

/// An LDO voltage set: refused, with nothing sent, outside 500 to 3500
/// mV.
pub open spec fn ldo_setting(s: Session, addr: u8, r: u8, mv: u16) -> (Session, Result<(), Error<Fault>>) {
    if 500 <= mv <= 3500 {
        writing(s, addr, r, ldo_code(mv as int))
    } else {
        (s, Err(Error::InvalidValue))
    }
}

/// The identity check.
pub open spec fn device_check(s: Session, addr: u8) -> (Session, Result<u8, Error<Fault>>) {
    chain(
        reading(s, addr, registers::CHIP_ID),
        |s1: Session, raw: u8|
            if raw & registers::CHIP_ID_MASK == registers::CHIP_ID_VALUE {
                (s1, Ok(raw))
            } else {
                (s1, Err(Error::DeviceNotFound))
            },
    )
}

/// The battery voltage ADC and the fuel gauge enabled.
pub open spec fn monitor_setup(s: Session, addr: u8) -> (Session, Result<(), Error<Fault>>) {
    chain(
        switching(s, addr, registers::REG_ADC_EN, adc_en::BAT_VOLT, true),
        |s1: Session, u: ()| switching(s1, addr, registers::REG_CHARGER_GAUGE_WDT_EN, GAUGE_EN, true),
    )
}

/// The voltages of the boot-time rails, in the order they are set.
pub open spec fn boot_voltages(s: Session, addr: u8) -> (Session, Result<(), Error<Fault>>) {
    chain(
        ldo_setting(s, addr, registers::REG_ALDO1_VOLT, 3300),
        |s1: Session, u1: ()|
            chain(
                ldo_setting(s1, addr, registers::REG_ALDO2_VOLT, 3300),
                |s2: Session, u2: ()|
                    chain(
                        ldo_setting(s2, addr, registers::REG_ALDO3_VOLT, 3300),
                        |s3: Session, u3: ()|
                            chain(
                                ldo_setting(s3, addr, registers::REG_ALDO4_VOLT, 1800),
                                |s4: Session, u4: ()|
                                    chain(
                                        ldo_setting(s4, addr, registers::REG_BLDO1_VOLT, 1200),
                                        |s5: Session, u5: ()|
                                            ldo_setting(s5, addr, registers::REG_BLDO2_VOLT, 2800),
                                    ),
                            ),
                    ),
            ),
    )
}

/// The initialisation.
pub open spec fn initialising(s: Session, addr: u8) -> (Session, Result<u8, Error<Fault>>) {
    chain(
        device_check(s, addr),
        |s1: Session, id: u8|
            chain(
                boot_voltages(s1, addr),
                |s2: Session, u2: ()|
                    chain(
                        writing(s2, addr, registers::REG_LDO_EN0, 0x3F),
                        |s3: Session, u3: ()|
                            chain(
                                writing(s3, addr, registers::REG_ADC_EN, 0x1F),
                                |s4: Session, u4: ()|
                                    chain(monitor_setup(s4, addr), |s5: Session, u5: ()| (s5, Ok(id))),
                            ),
                    ),
            ),
    )
}

/// Three registers written one after the other.
pub open spec fn writing_three(s: Session, addr: u8, a: (u8, u8), b: (u8, u8), c: (u8, u8)) -> (
    Session,
    Result<(), Error<Fault>>,
) {
    chain(
        writing(s, addr, a.0, a.1),
        |s1: Session, u1: ()|
            chain(writing(s1, addr, b.0, b.1), |s2: Session, u2: ()| writing(s2, addr, c.0, c.1)),
    )
}

/// The three interrupt status registers read.
pub open spec fn interrupts_reading(s: Session, addr: u8) -> (Session, Result<InterruptStatus, Error<Fault>>) {
    chain(
        reading(s, addr, registers::REG_IRQ_STATUS0),
        |s1: Session, a: u8|
            chain(
                reading(s1, addr, registers::REG_IRQ_STATUS1),
                |s2: Session, b: u8|
                    chain(
                        reading(s2, addr, registers::REG_IRQ_STATUS2),
                        |s3: Session, c: u8| (s3, Ok(InterruptStatus { reg48: a, reg49: b, reg4a: c })),
                    ),
            ),
    )
}

// ---- The driver -------------------------------------------------------------

/// AXP2101 PMU driver.
///
/// Holds only the I²C address. The I²C bus itself is passed by mutable
/// reference on every call so it can be freely shared with other
/// peripherals on the same bus.
#[derive(Debug, Clone, Copy)]
pub struct Pmu {
    addr: u8,
}

/// PMU configuration.
#[derive(Debug, Clone, Copy, PartialEq, Eq, Structural)]
pub struct Config {
    /// I2C device address (default: [`DEFAULT_ADDRESS`]).
    pub address: u8,
}

impl Default for Config {
    fn default() -> (r: Config)
        ensures
            r.address == DEFAULT_ADDRESS,
    {
        Config { address: DEFAULT_ADDRESS }
    }
}

/// A fault as an error of the driver.
fn bus_err<T>(r: Result<T, Fault>) -> (e: Result<T, Error<Fault>>)
    ensures
        match r {
            Ok(v) => e == Ok::<T, Error<Fault>>(v),
            Err(f) => e == Err::<T, Error<Fault>>(Error::I2c(f)),
        },
{
    match r {
        Ok(v) => Ok(v),
        Err(f) => Err(Error::I2c(f)),
    }
}

impl Pmu {
    /// The chip's I2C address.
    pub closed spec fn address(&self) -> u8 {
        self.addr
    }

    /// Create a new PMU driver instance.
    pub fn new(config: Config) -> (r: Pmu)
        ensures
            r.address() == config.address,
    {
        Pmu { addr: config.address }
    }

    /// Verify the AXP2101 is present on the I²C bus and has the correct
    /// chip ID.
    ///
    /// Reads REG 03h and checks that `chip_id_h` and `chip_id_l` match
    /// the AXP2101 signature (ignoring the version bits). Returns the raw
    /// register byte on success so the caller can extract the version
    /// from bits 5:4 if needed (0=A, 1=B).
    pub fn check_device(&self, i2c: &mut Bus) -> (e: Result<u8, Error<Fault>>)
        ensures
            (final(i2c)@, e) == device_check(old(i2c)@, self.address()),
    {
        let raw: u8 = self.read_register(i2c, registers::CHIP_ID)?;
        if raw & registers::CHIP_ID_MASK != registers::CHIP_ID_VALUE {
            return Err(Error::DeviceNotFound);
        }
        Ok(raw)
    }

    /// Initialise the PMU: verify presence, set rail voltages, enable the
    /// boot-time rails, the ADC channels and the fuel gauge.
    ///
    /// Returns the raw chip ID byte on success. The version can be
    /// extracted from bits 5:4 of that byte (0=A, 1=B).
    ///
    /// Call this early, **before** accessing the display or any other
    /// peripheral that depends on these power rails. After returning
    /// `Ok(...)`, wait at least 20 ms for the rails to stabilise.
    pub fn init(&self, i2c: &mut Bus) -> (e: Result<u8, Error<Fault>>)
        ensures
            (final(i2c)@, e) == initialising(old(i2c)@, self.address()),
    {
        let chip_id: u8 = self.check_device(i2c)?;
        // Set all output voltages while LDOs are still disabled.
        self.set_boot_voltages(i2c)?;
        // Enable all six boot-time LDOs in one register write.
        self.enable_all_rails(i2c)?;
        // Enabling the ADC early gives it time to produce valid readings
        // by the time the rest of the system finishes initializing.
        self.enable_all_adc(i2c)?;
        self.enable_battery_monitor(i2c)?;
        Ok(chip_id)
    }

    fn set_boot_voltages(&self, i2c: &mut Bus) -> (e: Result<(), Error<Fault>>)
        ensures
            (final(i2c)@, e) == boot_voltages(old(i2c)@, self.address()),
    {
        self.set_aldo1_voltage(i2c, 3300)?;  // A3V3     - touch + audio analog
        self.set_aldo2_voltage(i2c, 3300)?;  // VL2_3.3V - display DSI_PWR_EN enable
        self.set_aldo3_voltage(i2c, 3300)?;  // VCC3V    - haptic motor
        self.set_aldo4_voltage(i2c, 1800)?;  // VL3_1.8V - unclaimed
        self.set_bldo1_voltage(i2c, 1200)?;  // VL_1.2V  - unclaimed
        self.set_bldo2_voltage(i2c, 2800)  // VL_2.8V  - unclaimed
    }

    // ---- Interrupt handling -------------------------------------------------

    /// Read all three IRQ status registers and return a combined
    /// snapshot.
    ///
    /// Call this when the IRQ pin goes low. After inspecting the result,
    /// call [`Self::clear_interrupts`] to acknowledge and re-arm the IRQ
    /// pin.
    pub fn read_interrupts(&self, i2c: &mut Bus) -> (e: Result<InterruptStatus, Error<Fault>>)
        ensures
            (final(i2c)@, e) == interrupts_reading(old(i2c)@, self.address()),
    {
        let r0: u8 = self.read_register(i2c, registers::REG_IRQ_STATUS0)?;
        let r1: u8 = self.read_register(i2c, registers::REG_IRQ_STATUS1)?;
        let r2: u8 = self.read_register(i2c, registers::REG_IRQ_STATUS2)?;
        Ok(InterruptStatus::new(r0, r1, r2))
    }

    /// Clear the interrupt flags that were set in `status` (write 1 to
    /// clear, RW1C).
    ///
    /// Pass the same `InterruptStatus` returned by
    /// [`Self::read_interrupts`] so only the bits that were active get
    /// cleared - any new events that arrived in between are preserved.
    pub fn clear_interrupts(&self, i2c: &mut Bus, status: &InterruptStatus) -> (e: Result<(), Error<Fault>>)
        ensures
            (final(i2c)@, e) == writing_three(
                old(i2c)@,
                self.address(),
                (registers::REG_IRQ_STATUS0, status.reg48),
                (registers::REG_IRQ_STATUS1, status.reg49),
                (registers::REG_IRQ_STATUS2, status.reg4a),
            ),
    {
        self.write_register(i2c, registers::REG_IRQ_STATUS0, status.reg48_byte())?;
        self.write_register(i2c, registers::REG_IRQ_STATUS1, status.reg49_byte())?;
        self.write_register(i2c, registers::REG_IRQ_STATUS2, status.reg4a_byte())
    }

    /// Configure which interrupt sources drive the IRQ pin.
    pub fn configure_interrupts(&self, i2c: &mut Bus, cfg: &InterruptConfig) -> (e: Result<(), Error<Fault>>)
        ensures
            (final(i2c)@, e) == writing_three(
                old(i2c)@,
                self.address(),
                (registers::REG_IRQ_EN0, cfg.reg40),
                (registers::REG_IRQ_EN1, cfg.reg41),
                (registers::REG_IRQ_EN2, cfg.reg42),
            ),
    {
        self.write_register(i2c, registers::REG_IRQ_EN0, cfg.reg40_byte())?;
        self.write_register(i2c, registers::REG_IRQ_EN1, cfg.reg41_byte())?;
        self.write_register(i2c, registers::REG_IRQ_EN2, cfg.reg42_byte())
    }

    /// Set ALDO1 voltage in millivolts (valid range: 500–3500 mV, 100 mV
    /// steps).
    pub fn set_aldo1_voltage(&self, i2c: &mut Bus, millivolts: u16) -> (e: Result<(), Error<Fault>>)
        ensures
            (final(i2c)@, e) == ldo_setting(old(i2c)@, self.address(), registers::REG_ALDO1_VOLT, millivolts),
    {
        let code: u8 = Self::mv_to_register(millivolts)?;
        self.write_register(i2c, registers::REG_ALDO1_VOLT, code)
    }

    /// Set ALDO2 voltage in millivolts.
    pub fn set_aldo2_voltage(&self, i2c: &mut Bus, millivolts: u16) -> (e: Result<(), Error<Fault>>)
        ensures
            (final(i2c)@, e) == ldo_setting(old(i2c)@, self.address(), registers::REG_ALDO2_VOLT, millivolts),
    {
        let code: u8 = Self::mv_to_register(millivolts)?;
        self.write_register(i2c, registers::REG_ALDO2_VOLT, code)
    }

    /// Set ALDO3 voltage in millivolts.
    pub fn set_aldo3_voltage(&self, i2c: &mut Bus, millivolts: u16) -> (e: Result<(), Error<Fault>>)
        ensures
            (final(i2c)@, e) == ldo_setting(old(i2c)@, self.address(), registers::REG_ALDO3_VOLT, millivolts),
    {
        let code: u8 = Self::mv_to_register(millivolts)?;
        self.write_register(i2c, registers::REG_ALDO3_VOLT, code)
    }

    /// Set ALDO4 voltage in millivolts.
    pub fn set_aldo4_voltage(&self, i2c: &mut Bus, millivolts: u16) -> (e: Result<(), Error<Fault>>)
        ensures
            (final(i2c)@, e) == ldo_setting(old(i2c)@, self.address(), registers::REG_ALDO4_VOLT, millivolts),
    {
        let code: u8 = Self::mv_to_register(millivolts)?;
        self.write_register(i2c, registers::REG_ALDO4_VOLT, code)
    }

    /// Set BLDO1 voltage in millivolts.
    pub fn set_bldo1_voltage(&self, i2c: &mut Bus, millivolts: u16) -> (e: Result<(), Error<Fault>>)
        ensures
            (final(i2c)@, e) == ldo_setting(old(i2c)@, self.address(), registers::REG_BLDO1_VOLT, millivolts),
    {
        let code: u8 = Self::mv_to_register(millivolts)?;
        self.write_register(i2c, registers::REG_BLDO1_VOLT, code)
    }

    /// Set BLDO2 voltage in millivolts.
    pub fn set_bldo2_voltage(&self, i2c: &mut Bus, millivolts: u16) -> (e: Result<(), Error<Fault>>)
        ensures
            (final(i2c)@, e) == ldo_setting(old(i2c)@, self.address(), registers::REG_BLDO2_VOLT, millivolts),
    {
        let code: u8 = Self::mv_to_register(millivolts)?;
        self.write_register(i2c, registers::REG_BLDO2_VOLT, code)
    }

    /// Enable ALDO1-ALDO4 and BLDO1-BLDO2 (the six rails used at boot on
    /// this board): writes 0x3F to REG 90h. CPUSLDO and DLDO1/2 are left
    /// off.
    pub fn enable_all_rails(&self, i2c: &mut Bus) -> (e: Result<(), Error<Fault>>)
        ensures
            (final(i2c)@, e) == writing(old(i2c)@, self.address(), registers::REG_LDO_EN0, 0x3F),
    {
        let mask: u8 = ldo_en0::ALDO1 + ldo_en0::ALDO2 + ldo_en0::ALDO3 + ldo_en0::ALDO4 + ldo_en0::BLDO1
            + ldo_en0::BLDO2;
        self.write_register(i2c, registers::REG_LDO_EN0, mask)
    }

    /// Enable or disable ALDO1 (net `A3V3`).
    ///
    /// ALDO1 is enabled at boot by [`Self::enable_all_rails`] because the
    /// FT3168 touch controller depends on it. The audio codec (ES8311
    /// AVDD) and ADC (ES7210 AVDD / VDDA) also sit on this rail, so an
    /// audio bring-up sequence should make sure the rail is on before
    /// touching those chips over I²C, and wait at least 10 ms for the LDO
    /// to settle. **Passing `false` also kills touch.**
    ///
    /// Only ALDO1 is touched - all other rail enables in REG 90h are
    /// preserved via a read-modify-write.
    pub fn set_audio_rail(&self, i2c: &mut Bus, enable: bool) -> (e: Result<(), Error<Fault>>)
        ensures
            (final(i2c)@, e) == switching(
                old(i2c)@,
                self.address(),
                registers::REG_LDO_EN0,
                ldo_en0::ALDO1,
                enable,
            ),
    {
        self.switch(i2c, registers::REG_LDO_EN0, ldo_en0::ALDO1, enable)
    }

    /// Enable or disable BLDO1.
    ///
    /// The consumer is board-specific: unclaimed on some boards, the GPS
    /// receiver's main rail on the T-Watch Ultra - where a dark main rail
    /// is u-blox hardware backup mode (RTC time and ephemeris retained on
    /// backup current, acquisition engine off).
    ///
    /// Only BLDO1 is touched - all other rail enables in REG 90h are
    /// preserved via a read-modify-write.
    pub fn set_bldo1_enable(&self, i2c: &mut Bus, enable: bool) -> (e: Result<(), Error<Fault>>)
        ensures
            (final(i2c)@, e) == switching(
                old(i2c)@,
                self.address(),
                registers::REG_LDO_EN0,
                ldo_en0::BLDO1,
                enable,
            ),
    {
        self.switch(i2c, registers::REG_LDO_EN0, ldo_en0::BLDO1, enable)
    }

    /// Enable or disable DLDO1. Board-specific consumer; on the T-Watch
    /// Ultra it is the NFC reader's whole power domain, rail-gated per
    /// session. Only DLDO1 is touched - all other rail enables in REG 90h
    /// are preserved via a read-modify-write.
    pub fn set_dldo1_enable(&self, i2c: &mut Bus, enable: bool) -> (e: Result<(), Error<Fault>>)
        ensures
            (final(i2c)@, e) == switching(
                old(i2c)@,
                self.address(),
                registers::REG_LDO_EN0,
                ldo_en0::DLDO1,
                enable,
            ),
    {
        self.switch(i2c, registers::REG_LDO_EN0, ldo_en0::DLDO1, enable)
    }

    /// Enable or disable ALDO2 (net `DSI_PWR_EN`, the AMOLED display
    /// rail).
    ///
    /// Toggling this rail off cuts the panel; firmware must keep it on
    /// while the display is in use. Set the voltage before enabling the
    /// rail (the LDO voltage register has no guaranteed default), and wait
    /// at least 20 ms for the rail to stabilise before sending commands to
    /// the panel.
    ///
    /// Only ALDO2 is touched - all other rail enables in REG 90h are
    /// preserved via a read-modify-write.
    pub fn set_display_rail(&self, i2c: &mut Bus, enable: bool) -> (e: Result<(), Error<Fault>>)
        ensures
            (final(i2c)@, e) == switching(
                old(i2c)@,
                self.address(),
                registers::REG_LDO_EN0,
                ldo_en0::ALDO2,
                enable,
            ),
    {
        self.switch(i2c, registers::REG_LDO_EN0, ldo_en0::ALDO2, enable)
    }

    /// Disable all LDOs (REG 90h and REG 91h both cleared).
    pub fn disable_all_rails(&self, i2c: &mut Bus) -> (e: Result<(), Error<Fault>>)
        ensures
            (final(i2c)@, e) == chain(
                writing(old(i2c)@, self.address(), registers::REG_LDO_EN0, 0x00),
                |s: Session, u: ()| writing(s, self.address(), registers::REG_LDO_EN1, 0x00),
            ),
    {
        self.write_register(i2c, registers::REG_LDO_EN0, 0x00)?;
        self.write_register(i2c, registers::REG_LDO_EN1, 0x00)
    }

    // ---- Battery monitoring ------------------------------------------------

    /// Enable battery voltage ADC and fuel gauge.
    ///
    /// Called automatically during `init()`. The fuel gauge needs a few
    /// seconds after enabling to produce an accurate percentage reading.
    pub fn enable_battery_monitor(&self, i2c: &mut Bus) -> (e: Result<(), Error<Fault>>)
        ensures
            (final(i2c)@, e) == monitor_setup(old(i2c)@, self.address()),
    {
        // Enable battery voltage ADC.
        self.switch(i2c, registers::REG_ADC_EN, adc_en::BAT_VOLT, true)?;
        // Enable fuel gauge.
        self.switch(i2c, registers::REG_CHARGER_GAUGE_WDT_EN, GAUGE_EN, true)
    }

    /// Read battery state of charge (0-100%).
    pub fn battery_percent(&self, i2c: &mut Bus) -> (e: Result<u8, Error<Fault>>)
        ensures
            (final(i2c)@, e) == reading(old(i2c)@, self.address(), registers::REG_BAT_PERCENT),
    {
        self.read_register(i2c, registers::REG_BAT_PERCENT)
    }

    /// Read battery voltage in millivolts.
    ///
    /// The ADC produces a 14-bit value with 1 mV per LSB.
    pub fn battery_voltage_mv(&self, i2c: &mut Bus) -> (e: Result<u16, Error<Fault>>)
        ensures
            (final(i2c)@, e) == sampling(old(i2c)@, self.address(), registers::REG_VBAT_H, registers::REG_VBAT_L),
    {
        self.read_adc_14bit(i2c, registers::REG_VBAT_H, registers::REG_VBAT_L)
    }

    // ---- Status registers (REG 00h-01h) ------------------------------------

    /// Read PMU Status 1 - power-path and battery state.
    pub fn read_status1(&self, i2c: &mut Bus) -> (e: Result<PmuStatus1, Error<Fault>>)
        ensures
            (final(i2c)@, e) == decoding(
                old(i2c)@,
                self.address(),
                registers::REG_PMU_STATUS1,
                |v: u8| PmuStatus1::decoded(v),
            ),
    {
        Ok(PmuStatus1::from_bits(self.read_register(i2c, registers::REG_PMU_STATUS1)?))
    }

    /// Read PMU Status 2 - charging state and system status.
    pub fn read_status2(&self, i2c: &mut Bus) -> (e: Result<PmuStatus2, Error<Fault>>)
        ensures
            (final(i2c)@, e) == decoding(
                old(i2c)@,
                self.address(),
                registers::REG_PMU_STATUS2,
                |v: u8| PmuStatus2::decoded(v),
            ),
    {
        Ok(PmuStatus2::from_bits(self.read_register(i2c, registers::REG_PMU_STATUS2)?))
    }

    // ---- Extended ADC readings ---------------------------------------------

    /// Enable all ADC channels: battery, VBUS, Vsys, die temperature, TS.
    ///
    /// Each channel adds a small amount of current draw from the ADC
    /// sampling, but the readings become available immediately.
    pub fn enable_all_adc(&self, i2c: &mut Bus) -> (e: Result<(), Error<Fault>>)
        ensures
            (final(i2c)@, e) == writing(old(i2c)@, self.address(), registers::REG_ADC_EN, 0x1F),
    {
        let mask: u8 = adc_en::BAT_VOLT + adc_en::TS_PIN + adc_en::VBUS_VOLT + adc_en::VSYS_VOLT + adc_en::DIE_TEMP;
        self.write_register(i2c, registers::REG_ADC_EN, mask)
    }

    /// Read VBUS voltage in millivolts (1 mV per LSB).
    ///
    /// Returns 0 if VBUS is not connected. Requires the VBUS ADC channel
    /// to be enabled (see `enable_all_adc`).
    pub fn vbus_voltage_mv(&self, i2c: &mut Bus) -> (e: Result<u16, Error<Fault>>)
        ensures
            (final(i2c)@, e) == sampling(old(i2c)@, self.address(), registers::REG_VBUS_H, registers::REG_VBUS_L),
    {
        self.read_adc_14bit(i2c, registers::REG_VBUS_H, registers::REG_VBUS_L)
    }

    /// Read system voltage in millivolts (1 mV per LSB).
    ///
    /// Vsys is the output of the power-path MUX (VBUS or battery).
    pub fn system_voltage_mv(&self, i2c: &mut Bus) -> (e: Result<u16, Error<Fault>>)
        ensures
            (final(i2c)@, e) == sampling(old(i2c)@, self.address(), registers::REG_VSYS_H, registers::REG_VSYS_L),
    {
        self.read_adc_14bit(i2c, registers::REG_VSYS_H, registers::REG_VSYS_L)
    }

    /// Read die temperature as a raw 14-bit ADC value.
    ///
    /// The conversion to degrees Celsius depends on the AXP2101 internal
    /// reference and is not documented with a public formula. Use this
    /// primarily for relative comparisons and thermal throttling
    /// detection.
    pub fn die_temperature_raw(&self, i2c: &mut Bus) -> (e: Result<u16, Error<Fault>>)
        ensures
            (final(i2c)@, e) == sampling(old(i2c)@, self.address(), registers::REG_TDIE_H, registers::REG_TDIE_L),
    {
        self.read_adc_14bit(i2c, registers::REG_TDIE_H, registers::REG_TDIE_L)
    }

    /// Read TS (thermistor) pin voltage as a raw 14-bit ADC value.
    ///
    /// The TS pin is typically connected to an NTC thermistor on the
    /// battery pack for temperature monitoring during charging.
    pub fn ts_voltage_raw(&self, i2c: &mut Bus) -> (e: Result<u16, Error<Fault>>)
        ensures
            (final(i2c)@, e) == sampling(old(i2c)@, self.address(), registers::REG_TS_H, registers::REG_TS_L),
    {
        self.read_adc_14bit(i2c, registers::REG_TS_H, registers::REG_TS_L)
    }

    // ---- Input limits (REG 14h-16h) ----------------------------------------

    /// Set the minimum system voltage (REG 14h bits 2:0).
    ///
    /// Vsys_min = 3.2 + N * 0.1 V, where N = 0-7. Valid range: 3200-3900
    /// mV. Default: 3700 mV (N=5).
    pub fn set_min_system_voltage(&self, i2c: &mut Bus, mv: u16) -> (e: Result<(), Error<Fault>>)
        ensures
            (final(i2c)@, e) == updating(
                old(i2c)@,
                self.address(),
                registers::REG_SYS_VMIN,
                0x07,
                step_code(mv as int, 3200, 3900, 100),
            ),
    {
        self.update_register(i2c, registers::REG_SYS_VMIN, 0x07, steps(mv, 3200, 3900, 100))
    }

    /// Read the minimum system voltage in millivolts.
    pub fn min_system_voltage(&self, i2c: &mut Bus) -> (e: Result<u16, Error<Fault>>)
        ensures
            (final(i2c)@, e) == decoding(
                old(i2c)@,
                self.address(),
                registers::REG_SYS_VMIN,
                |v: u8| (3200 + v as int % 8 * 100) as u16,
            ),
    {
        Ok(3200 + (self.read_register(i2c, registers::REG_SYS_VMIN)? % 8) as u16 * 100)
    }

    /// Set the input voltage limit - VINDPM (REG 15h bits 3:0).
    ///
    /// VINDPM = 3.88 + N * 0.08 V, where N = 0-15. Valid range: 3880-5080
    /// mV. Default: 4360 mV (N=6).
    pub fn set_input_voltage_limit(&self, i2c: &mut Bus, mv: u16) -> (e: Result<(), Error<Fault>>)
        ensures
            (final(i2c)@, e) == updating(
                old(i2c)@,
                self.address(),
                registers::REG_VINDPM,
                0x0F,
                step_code(mv as int, 3880, 5080, 80),
            ),
    {
        self.update_register(i2c, registers::REG_VINDPM, 0x0F, steps(mv, 3880, 5080, 80))
    }

    /// Read the input voltage limit (VINDPM) in millivolts.
    pub fn input_voltage_limit(&self, i2c: &mut Bus) -> (e: Result<u16, Error<Fault>>)
        ensures
            (final(i2c)@, e) == decoding(
                old(i2c)@,
                self.address(),
                registers::REG_VINDPM,
                |v: u8| (3880 + v as int % 16 * 80) as u16,
            ),
    {
        Ok(3880 + (self.read_register(i2c, registers::REG_VINDPM)? % 16) as u16 * 80)
    }

    /// Set the input current limit (REG 16h bits 2:0).
    pub fn set_input_current_limit(&self, i2c: &mut Bus, limit: InputCurrentLimit) -> (e: Result<(), Error<Fault>>)
        ensures
            (final(i2c)@, e) == updating(
                old(i2c)@,
                self.address(),
                registers::REG_ILIM,
                0x07,
                limit.code(),
            ),
    {
        self.update_register(i2c, registers::REG_ILIM, 0x07, limit.bits())
    }

    /// Read the input current limit.
    pub fn input_current_limit(&self, i2c: &mut Bus) -> (e: Result<InputCurrentLimit, Error<Fault>>)
        ensures
            (final(i2c)@, e) == decoding(
                old(i2c)@,
                self.address(),
                registers::REG_ILIM,
                |v: u8| InputCurrentLimit::decoded(v as int % 8),
            ),
    {
        Ok(InputCurrentLimit::from_bits(self.read_register(i2c, registers::REG_ILIM)?))
    }

    // ---- Charger configuration (REG 61h-6Ah) -------------------------------

    /// Set the pre-charge current limit (REG 61h bits 3:0).
    pub fn set_precharge_current(&self, i2c: &mut Bus, cur: PreChargeCurrent) -> (e: Result<(), Error<Fault>>)
        ensures
            (final(i2c)@, e) == updating(
                old(i2c)@,
                self.address(),
                registers::REG_IPRECHG,
                0x0F,
                (cur.0 as int % 16) as u8,
            ),
    {
        self.update_register(i2c, registers::REG_IPRECHG, 0x0F, cur.0 % 16)
    }

    /// Read the pre-charge current limit.
    pub fn precharge_current(&self, i2c: &mut Bus) -> (e: Result<PreChargeCurrent, Error<Fault>>)
        ensures
            (final(i2c)@, e) == decoding(
                old(i2c)@,
                self.address(),
                registers::REG_IPRECHG,
                |v: u8| PreChargeCurrent((v as int % 16) as u8),
            ),
    {
        Ok(PreChargeCurrent(self.read_register(i2c, registers::REG_IPRECHG)? % 16))
    }

    /// Set the constant-current charge current (REG 62h bits 4:0).
    pub fn set_charge_current(&self, i2c: &mut Bus, cur: ChargeCurrent) -> (e: Result<(), Error<Fault>>)
        ensures
            (final(i2c)@, e) == updating(
                old(i2c)@,
                self.address(),
                registers::REG_ICC,
                0x1F,
                (cur.0 as int % 32) as u8,
            ),
    {
        self.update_register(i2c, registers::REG_ICC, 0x1F, cur.0 % 32)
    }

    /// Read the constant-current charge current.
    pub fn charge_current(&self, i2c: &mut Bus) -> (e: Result<ChargeCurrent, Error<Fault>>)
        ensures
            (final(i2c)@, e) == decoding(
                old(i2c)@,
                self.address(),
                registers::REG_ICC,
                |v: u8| ChargeCurrent((v as int % 32) as u8),
            ),
    {
        Ok(ChargeCurrent(self.read_register(i2c, registers::REG_ICC)? % 32))
    }

    /// Set the termination current and enable/disable charge termination
    /// (REG 63h). Bit 4 = enable, bits 3:0 = current.
    pub fn set_termination_current(&self, i2c: &mut Bus, cur: TerminationCurrent, enable: bool) -> (e: Result<(), Error<Fault>>)
        ensures
            (final(i2c)@, e) == updating(
                old(i2c)@,
                self.address(),
                registers::REG_ITERM,
                0x1F,
                (cur.0 as int % 16 + flag(enable, 16)) as u8,
            ),
    {
        self.update_register(i2c, registers::REG_ITERM, 0x1F, cur.0 % 16 + (if enable { 16 } else { 0 }))
    }

    /// Read the termination current and whether termination is enabled.
    pub fn termination_current(&self, i2c: &mut Bus) -> (e: Result<(TerminationCurrent, bool), Error<Fault>>)
        ensures
            (final(i2c)@, e) == decoding(
                old(i2c)@,
                self.address(),
                registers::REG_ITERM,
                |v: u8| (TerminationCurrent((v as int % 16) as u8), bit(v, 16)),
            ),
    {
        let reg: u8 = self.read_register(i2c, registers::REG_ITERM)?;
        Ok((TerminationCurrent(reg % 16), (reg / 16) % 2 == 1))
    }

    /// Set the constant-voltage charge target (REG 64h bits 2:0).
    pub fn set_charge_voltage(&self, i2c: &mut Bus, cv: ChargeVoltage) -> (e: Result<(), Error<Fault>>)
        ensures
            (final(i2c)@, e) == updating(
                old(i2c)@,
                self.address(),
                registers::REG_CV_VOLT,
                0x07,
                cv.code(),
            ),
    {
        self.update_register(i2c, registers::REG_CV_VOLT, 0x07, cv.bits())
    }

    /// Set the battery voltage at which the PMU powers the system off
    /// (VOFF, REG 24h bits 2:0). See [`PowerOffVoltage`] for why the 2.6 V
    /// power-on default should be raised.
    pub fn set_power_off_voltage(&self, i2c: &mut Bus, v: PowerOffVoltage) -> (e: Result<(), Error<Fault>>)
        ensures
            (final(i2c)@, e) == updating(
                old(i2c)@,
                self.address(),
                registers::REG_VSYS_PWROFF,
                0x07,
                (v.0 as int % 8) as u8,
            ),
    {
        self.update_register(i2c, registers::REG_VSYS_PWROFF, 0x07, v.0 % 8)
    }

    /// Read the configured power-off voltage threshold.
    pub fn power_off_voltage(&self, i2c: &mut Bus) -> (e: Result<PowerOffVoltage, Error<Fault>>)
        ensures
            (final(i2c)@, e) == decoding(
                old(i2c)@,
                self.address(),
                registers::REG_VSYS_PWROFF,
                |v: u8| PowerOffVoltage((v as int % 8) as u8),
            ),
    {
        Ok(PowerOffVoltage(self.read_register(i2c, registers::REG_VSYS_PWROFF)? % 8))
    }

    /// Read the constant-voltage charge target.
    pub fn charge_voltage(&self, i2c: &mut Bus) -> (e: Result<Option<ChargeVoltage>, Error<Fault>>)
        ensures
            (final(i2c)@, e) == decoding(
                old(i2c)@,
                self.address(),
                registers::REG_CV_VOLT,
                |v: u8| ChargeVoltage::decoded(v as int % 8),
            ),
    {
        Ok(ChargeVoltage::from_bits(self.read_register(i2c, registers::REG_CV_VOLT)?))
    }

    /// Set the thermal regulation threshold (REG 65h bits 1:0).
    pub fn set_thermal_threshold(&self, i2c: &mut Bus, th: ThermalThreshold) -> (e: Result<(), Error<Fault>>)
        ensures
            (final(i2c)@, e) == updating(
                old(i2c)@,
                self.address(),
                registers::REG_THERMAL_REG,
                0x03,
                th.code(),
            ),
    {
        self.update_register(i2c, registers::REG_THERMAL_REG, 0x03, th.bits())
    }

    /// Read the thermal regulation threshold.
    pub fn thermal_threshold(&self, i2c: &mut Bus) -> (e: Result<ThermalThreshold, Error<Fault>>)
        ensures
            (final(i2c)@, e) == decoding(
                old(i2c)@,
                self.address(),
                registers::REG_THERMAL_REG,
                |v: u8| ThermalThreshold::decoded(v as int % 4),
            ),
    {
        Ok(ThermalThreshold::from_bits(self.read_register(i2c, registers::REG_THERMAL_REG)?))
    }

    /// Enable or disable battery detection (REG 68h bit 0).
    pub fn set_battery_detection(&self, i2c: &mut Bus, enable: bool) -> (e: Result<(), Error<Fault>>)
        ensures
            (final(i2c)@, e) == switching(
                old(i2c)@,
                self.address(),
                registers::REG_BAT_DET,
                0x01,
                enable,
            ),
    {
        self.switch(i2c, registers::REG_BAT_DET, 0x01, enable)
    }

    /// Set the button battery termination voltage (REG 6Ah bits 2:0).
    ///
    /// Voltage = 2.6 + N * 0.1 V, where N = 0-7. Valid range: 2600-3300
    /// mV.
    pub fn set_button_battery_voltage(&self, i2c: &mut Bus, mv: u16) -> (e: Result<(), Error<Fault>>)
        ensures
            (final(i2c)@, e) == updating(
                old(i2c)@,
                self.address(),
                registers::REG_BTN_BAT_VTERM,
                0x07,
                step_code(mv as int, 2600, 3300, 100),
            ),
    {
        self.update_register(i2c, registers::REG_BTN_BAT_VTERM, 0x07, steps(mv, 2600, 3300, 100))
    }

    /// Read back the button battery termination voltage (REG 6Ah bits
    /// 2:0), in millivolts.
    pub fn button_battery_voltage(&self, i2c: &mut Bus) -> (e: Result<u16, Error<Fault>>)
        ensures
            (final(i2c)@, e) == decoding(
                old(i2c)@,
                self.address(),
                registers::REG_BTN_BAT_VTERM,
                |v: u8| (2600 + v as int % 8 * 100) as u16,
            ),
    {
        Ok(2600 + (self.read_register(i2c, registers::REG_BTN_BAT_VTERM)? % 8) as u16 * 100)
    }

    /// Read back the button battery charger enable (REG 18h bit 2).
    pub fn button_battery_charge_enabled(&self, i2c: &mut Bus) -> (e: Result<bool, Error<Fault>>)
        ensures
            (final(i2c)@, e) == decoding(
                old(i2c)@,
                self.address(),
                registers::REG_CHARGER_GAUGE_WDT_EN,
                |v: u8| v & BUTTON_CHARGE_EN != 0,
            ),
    {
        Ok(self.read_register(i2c, registers::REG_CHARGER_GAUGE_WDT_EN)? & BUTTON_CHARGE_EN != 0)
    }

    /// Enable or disable button battery charging (REG 18h bit 2).
    pub fn set_button_battery_charge(&self, i2c: &mut Bus, enable: bool) -> (e: Result<(), Error<Fault>>)
        ensures
            (final(i2c)@, e) == switching(
                old(i2c)@,
                self.address(),
                registers::REG_CHARGER_GAUGE_WDT_EN,
                BUTTON_CHARGE_EN,
                enable,
            ),
    {
        self.switch(i2c, registers::REG_CHARGER_GAUGE_WDT_EN, BUTTON_CHARGE_EN, enable)
    }

    /// Enable or disable cell (main battery) charging (REG 18h bit 1).
    pub fn set_charging(&self, i2c: &mut Bus, enable: bool) -> (e: Result<(), Error<Fault>>)
        ensures
            (final(i2c)@, e) == switching(
                old(i2c)@,
                self.address(),
                registers::REG_CHARGER_GAUGE_WDT_EN,
                CELL_CHARGE_EN,
                enable,
            ),
    {
        self.switch(i2c, registers::REG_CHARGER_GAUGE_WDT_EN, CELL_CHARGE_EN, enable)
    }

    // ---- Power key timing (REG 27h) ----------------------------------------

    /// Set the power key timing configuration.
    pub fn set_power_key_config(&self, i2c: &mut Bus, cfg: &PowerKeyConfig) -> (e: Result<(), Error<Fault>>)
        ensures
            (final(i2c)@, e) == writing(old(i2c)@, self.address(), registers::REG_LEVEL_CFG, cfg.code()),
    {
        self.write_register(i2c, registers::REG_LEVEL_CFG, cfg.bits())
    }

    /// Read the power key timing configuration.
    pub fn power_key_config(&self, i2c: &mut Bus) -> (e: Result<PowerKeyConfig, Error<Fault>>)
        ensures
            (final(i2c)@, e) == decoding(
                old(i2c)@,
                self.address(),
                registers::REG_LEVEL_CFG,
                |v: u8| PowerKeyConfig::decoded(v),
            ),
    {
        Ok(PowerKeyConfig::from_bits(self.read_register(i2c, registers::REG_LEVEL_CFG)?))
    }

    // ---- Power control (REG 10h, 12h, 13h, 26h) ----------------------------

    /// Trigger a soft power-off via REG 10h bit 0.
    ///
    /// This immediately powers off the system (all LDOs and DCDCs are
    /// disabled). The power-off source will be recorded as "software" in
    /// REG 21h.
    pub fn soft_power_off(&self, i2c: &mut Bus) -> (e: Result<(), Error<Fault>>)
        ensures
            (final(i2c)@, e) == switching(old(i2c)@, self.address(), registers::REG_PMU_CFG, 0x01, true),
    {
        self.switch(i2c, registers::REG_PMU_CFG, 0x01, true)
    }

    /// Trigger a SoC restart via REG 10h bit 1.
    pub fn soc_restart(&self, i2c: &mut Bus) -> (e: Result<(), Error<Fault>>)
        ensures
            (final(i2c)@, e) == switching(old(i2c)@, self.address(), registers::REG_PMU_CFG, 0x02, true),
    {
        self.switch(i2c, registers::REG_PMU_CFG, 0x02, true)
    }

    /// Set die over-temperature protection level (REG 13h bits 2:1) and
    /// enable/disable detection (bit 0).
    pub fn set_die_temp_protection(&self, i2c: &mut Bus, level: DieOtpLevel, enable: bool) -> (e: Result<
        (),
        Error<Fault>,
    >)
        ensures
            (final(i2c)@, e) == writing(
                old(i2c)@,
                self.address(),
                registers::REG_DIE_TEMP_CFG,
                (2 * level.code() + flag(enable, 1)) as u8,
            ),
    {
        self.write_register(i2c, registers::REG_DIE_TEMP_CFG, 2 * level.bits() + (if enable { 1 } else { 0 }))
    }

    /// Read the BATFET enable state (REG 12h bit 3).
    ///
    /// When enabled, the battery FET stays on during power-off in
    /// battery-only mode (no VBUS). When disabled, the FET opens and the
    /// battery is fully disconnected.
    pub fn batfet_enabled(&self, i2c: &mut Bus) -> (e: Result<bool, Error<Fault>>)
        ensures
            (final(i2c)@, e) == decoding(
                old(i2c)@,
                self.address(),
                registers::REG_BATFET_CFG,
                |v: u8| v & 0x08 != 0,
            ),
    {
        Ok(self.read_register(i2c, registers::REG_BATFET_CFG)? & 0x08 != 0)
    }

    /// Set the BATFET enable state (REG 12h bit 3).
    pub fn set_batfet(&self, i2c: &mut Bus, enable: bool) -> (e: Result<(), Error<Fault>>)
        ensures
            (final(i2c)@, e) == switching(
                old(i2c)@,
                self.address(),
                registers::REG_BATFET_CFG,
                0x08,
                enable,
            ),
    {
        self.switch(i2c, registers::REG_BATFET_CFG, 0x08, enable)
    }

    // ---- DCDC converters (REG 80h-85h) -------------------------------------

    /// Enable or disable individual DCDC converters (REG 80h bits 3:0).
    ///
    /// `mask` is a bitmask: bit 0 = DCDC1, bit 1 = DCDC2, bit 2 = DCDC3,
    /// bit 3 = DCDC4. Only bits in `mask` are changed; other DCDCs and the
    /// DVM bits (bits 7:4) are preserved.
    pub fn set_dcdc_enable(&self, i2c: &mut Bus, mask: u8, enable: bool) -> (e: Result<(), Error<Fault>>)
        ensures
            (final(i2c)@, e) == switching(
                old(i2c)@,
                self.address(),
                registers::REG_DCDC_EN,
                (mask as int % 16) as u8,
                enable,
            ),
    {
        self.switch(i2c, registers::REG_DCDC_EN, mask % 16, enable)
    }

    /// Read the DCDC enable state (REG 80h bits 3:0).
    pub fn dcdc_enabled(&self, i2c: &mut Bus) -> (e: Result<u8, Error<Fault>>)
        ensures
            (final(i2c)@, e) == decoding(
                old(i2c)@,
                self.address(),
                registers::REG_DCDC_EN,
                |v: u8| (v as int % 16) as u8,
            ),
    {
        Ok(self.read_register(i2c, registers::REG_DCDC_EN)? % 16)
    }

    /// Set DCDC1 voltage (REG 82h bits 4:0).
    ///
    /// Voltage = 1.5 + N * 0.1 V, where N = 0-31. Valid range: 1500-3400
    /// mV.
    pub fn set_dcdc1_voltage(&self, i2c: &mut Bus, mv: u16) -> (e: Result<(), Error<Fault>>)
        ensures
            (final(i2c)@, e) == writing(old(i2c)@, self.address(), registers::REG_DCDC1_VOLT, step_code(mv as int, 1500, 3400, 100)),
    {
        self.write_register(i2c, registers::REG_DCDC1_VOLT, steps(mv, 1500, 3400, 100))
    }

    /// Read DCDC1 voltage in millivolts.
    pub fn dcdc1_voltage(&self, i2c: &mut Bus) -> (e: Result<u16, Error<Fault>>)
        ensures
            (final(i2c)@, e) == decoding(
                old(i2c)@,
                self.address(),
                registers::REG_DCDC1_VOLT,
                |v: u8| (1500 + v as int % 32 * 100) as u16,
            ),
    {
        Ok(1500 + (self.read_register(i2c, registers::REG_DCDC1_VOLT)? % 32) as u16 * 100)
    }

    /// Set DCDC2 voltage (REG 83h bits 6:0).
    ///
    /// Two ranges:
    ///   N = 0-70:  0.5 + N * 0.01 V   (500-1200 mV in 10 mV steps)
    ///   N = 71-87: 1.22 + (N-71) * 0.02 V  (1220-1540 mV in 20 mV steps)
    /// Valid range: 500-1540 mV.
    ///
    /// Bit 7 is the DVM enable bit and is preserved across writes.
    ///
    /// The voltages between 1200 and 1220 mV have no code and become
    /// 1200 mV.
    pub fn set_dcdc2_voltage(&self, i2c: &mut Bus, mv: u16) -> (e: Result<(), Error<Fault>>)
        ensures
            (final(i2c)@, e) == updating(
                old(i2c)@,
                self.address(),
                registers::REG_DCDC2_VOLT,
                0x7F,
                two_range_code(mv as int, 1540),
            ),
    {
        self.update_register(i2c, registers::REG_DCDC2_VOLT, 0x7F, two_range(mv, 1540))
    }

    /// Read DCDC2 voltage in millivolts.
    pub fn dcdc2_voltage(&self, i2c: &mut Bus) -> (e: Result<u16, Error<Fault>>)
        ensures
            (final(i2c)@, e) == decoding(
                old(i2c)@,
                self.address(),
                registers::REG_DCDC2_VOLT,
                |v: u8| two_range_mv(v as int % 128) as u16,
            ),
    {
        Ok(two_range_volts(self.read_register(i2c, registers::REG_DCDC2_VOLT)? % 128))
    }

    /// Set DCDC3 voltage (REG 84h bits 6:0).
    ///
    /// Two-range encoding (same as DCDC2):
    ///   N = 0-70:  0.5 + N * 0.01 V   (500-1200 mV, 10 mV steps)
    ///   N = 71-87: 1.22 + (N-71) * 0.02 V  (1220-1540 mV, 20 mV steps)
    ///   N = 88-127: reserved
    ///
    /// Bit 7 is the DVM (Dynamic Voltage Management) enable bit and is
    /// preserved across writes.
    ///
    /// The voltages between 1200 and 1220 mV have no code and become
    /// 1200 mV.
    pub fn set_dcdc3_voltage(&self, i2c: &mut Bus, mv: u16) -> (e: Result<(), Error<Fault>>)
        ensures
            (final(i2c)@, e) == updating(
                old(i2c)@,
                self.address(),
                registers::REG_DCDC3_VOLT,
                0x7F,
                two_range_code(mv as int, 1540),
            ),
    {
        self.update_register(i2c, registers::REG_DCDC3_VOLT, 0x7F, two_range(mv, 1540))
    }

    /// Read DCDC3 voltage in millivolts.
    pub fn dcdc3_voltage(&self, i2c: &mut Bus) -> (e: Result<u16, Error<Fault>>)
        ensures
            (final(i2c)@, e) == decoding(
                old(i2c)@,
                self.address(),
                registers::REG_DCDC3_VOLT,
                |v: u8| two_range_mv(v as int % 128) as u16,
            ),
    {
        Ok(two_range_volts(self.read_register(i2c, registers::REG_DCDC3_VOLT)? % 128))
    }

    /// Set DCDC4 voltage (REG 85h bits 6:0).
    ///
    /// Two-range encoding:
    ///   N = 0-70:  0.5 + N * 0.01 V    (500-1200 mV, 10 mV steps)
    ///   N = 71+:   1.22 + (N-71) * 0.02 V  (1220-1840 mV, 20 mV steps)
    ///
    /// The voltages between 1200 and 1220 mV have no code and become
    /// 1200 mV.
    pub fn set_dcdc4_voltage(&self, i2c: &mut Bus, mv: u16) -> (e: Result<(), Error<Fault>>)
        ensures
            (final(i2c)@, e) == writing(old(i2c)@, self.address(), registers::REG_DCDC4_VOLT, two_range_code(mv as int, 1840)),
    {
        self.write_register(i2c, registers::REG_DCDC4_VOLT, two_range(mv, 1840))
    }

    /// Read DCDC4 voltage in millivolts.
    pub fn dcdc4_voltage(&self, i2c: &mut Bus) -> (e: Result<u16, Error<Fault>>)
        ensures
            (final(i2c)@, e) == decoding(
                old(i2c)@,
                self.address(),
                registers::REG_DCDC4_VOLT,
                |v: u8| two_range_mv(v as int % 128) as u16,
            ),
    {
        Ok(two_range_volts(self.read_register(i2c, registers::REG_DCDC4_VOLT)? % 128))
    }

    // ---- Fuel gauge, watchdog, low-battery, data buffers -------------------

    /// Set the low-battery warning thresholds (REG 1Ah).
    ///
    /// Level 1: bits 3:0, range 0-15%. Level 2: bits 7:4, value = percent
    /// - 5, range 5-20%.
    pub fn set_low_battery_warning(&self, i2c: &mut Bus, cfg: &LowBatteryWarning) -> (e: Result<(), Error<Fault>>)
        ensures
            (final(i2c)@, e) == writing(old(i2c)@, self.address(), registers::REG_LOWBAT_WARN, cfg.code()),
    {
        self.write_register(i2c, registers::REG_LOWBAT_WARN, cfg.bits())
    }

    /// Read the low-battery warning thresholds.
    pub fn low_battery_warning(&self, i2c: &mut Bus) -> (e: Result<LowBatteryWarning, Error<Fault>>)
        ensures
            (final(i2c)@, e) == decoding(
                old(i2c)@,
                self.address(),
                registers::REG_LOWBAT_WARN,
                |v: u8| LowBatteryWarning::decoded(v),
            ),
    {
        Ok(LowBatteryWarning::from_bits(self.read_register(i2c, registers::REG_LOWBAT_WARN)?))
    }

    /// Reset the fuel gauge (REG 17h bit 3).
    ///
    /// Forces the gauge to re-learn battery capacity from scratch. The
    /// percentage reading will be inaccurate for several charge cycles
    /// after a reset.
    pub fn reset_fuel_gauge(&self, i2c: &mut Bus) -> (e: Result<(), Error<Fault>>)
        ensures
            (final(i2c)@, e) == switching(old(i2c)@, self.address(), registers::REG_GAUGE_RESET, 0x08, true),
    {
        self.switch(i2c, registers::REG_GAUGE_RESET, 0x08, true)
    }

    /// Configure the watchdog timer (REG 19h).
    pub fn set_watchdog(&self, i2c: &mut Bus, cfg: &WatchdogConfig) -> (e: Result<(), Error<Fault>>)
        ensures
            (final(i2c)@, e) == writing(old(i2c)@, self.address(), registers::REG_WDT_CFG, cfg.code()),
    {
        self.write_register(i2c, registers::REG_WDT_CFG, cfg.bits())
    }

    /// Read the watchdog configuration.
    pub fn watchdog(&self, i2c: &mut Bus) -> (e: Result<WatchdogConfig, Error<Fault>>)
        ensures
            (final(i2c)@, e) == decoding(
                old(i2c)@,
                self.address(),
                registers::REG_WDT_CFG,
                |v: u8| WatchdogConfig::decoded(v),
            ),
    {
        Ok(WatchdogConfig::from_bits(self.read_register(i2c, registers::REG_WDT_CFG)?))
    }

    /// Enable or disable the watchdog (REG 18h bit 0).
    pub fn set_watchdog_enable(&self, i2c: &mut Bus, enable: bool) -> (e: Result<(), Error<Fault>>)
        ensures
            (final(i2c)@, e) == switching(
                old(i2c)@,
                self.address(),
                registers::REG_CHARGER_GAUGE_WDT_EN,
                WATCHDOG_EN,
                enable,
            ),
    {
        self.switch(i2c, registers::REG_CHARGER_GAUGE_WDT_EN, WATCHDOG_EN, enable)
    }

    /// Read the power-on source that caused the last boot (REG 20h).
    pub fn power_on_status(&self, i2c: &mut Bus) -> (e: Result<PowerOnStatus, Error<Fault>>)
        ensures
            (final(i2c)@, e) == decoding(
                old(i2c)@,
                self.address(),
                registers::REG_PWRON_STATUS,
                |v: u8| PowerOnStatus::decoded(v),
            ),
    {
        Ok(PowerOnStatus::from_bits(self.read_register(i2c, registers::REG_PWRON_STATUS)?))
    }

    /// Read the power-off source that caused the last shutdown (REG 21h).
    pub fn power_off_status(&self, i2c: &mut Bus) -> (e: Result<PowerOffStatus, Error<Fault>>)
        ensures
            (final(i2c)@, e) == decoding(
                old(i2c)@,
                self.address(),
                registers::REG_PWROFF_STATUS,
                |v: u8| PowerOffStatus::decoded(v),
            ),
    {
        Ok(PowerOffStatus::from_bits(self.read_register(i2c, registers::REG_PWROFF_STATUS)?))
    }

    /// Write one of the four non-volatile data buffer bytes (REG 04h-07h).
    ///
    /// These bytes survive soft-resets (but not hard power cycles).
    /// `index` must be 0-3.
    pub fn write_data_buffer(&self, i2c: &mut Bus, index: u8, value: u8) -> (e: Result<(), Error<Fault>>)
        ensures
            (final(i2c)@, e) == (if index > 3 {
                (old(i2c)@, Err::<(), Error<Fault>>(Error::InvalidValue))
            } else {
                writing(old(i2c)@, self.address(), (registers::REG_DATA_BUF0 + index) as u8, value)
            }),
    {
        if index > 3 {
            return Err(Error::InvalidValue);
        }
        self.write_register(i2c, registers::REG_DATA_BUF0 + index, value)
    }

    /// Read one of the four non-volatile data buffer bytes (REG 04h-07h).
    pub fn read_data_buffer(&self, i2c: &mut Bus, index: u8) -> (e: Result<u8, Error<Fault>>)
        ensures
            (final(i2c)@, e) == (if index > 3 {
                (old(i2c)@, Err::<u8, Error<Fault>>(Error::InvalidValue))
            } else {
                reading(old(i2c)@, self.address(), (registers::REG_DATA_BUF0 + index) as u8)
            }),
    {
        if index > 3 {
            return Err(Error::InvalidValue);
        }
        self.read_register(i2c, registers::REG_DATA_BUF0 + index)
    }

    // ---- GPIO1 (REG 1Bh) ---------------------------------------------------

    /// Set GPIO1 output mode (REG 1Bh bits 3:2).
    pub fn set_gpio1_output(&self, i2c: &mut Bus, mode: Gpio1Output) -> (e: Result<(), Error<Fault>>)
        ensures
            (final(i2c)@, e) == updating(
                old(i2c)@,
                self.address(),
                registers::REG_GPIO1_CFG,
                0x0C,
                (4 * mode.code()) as u8,
            ),
    {
        self.update_register(i2c, registers::REG_GPIO1_CFG, 0x0C, 4 * mode.bits())
    }

    /// Read GPIO1 output mode.
    pub fn gpio1_output(&self, i2c: &mut Bus) -> (e: Result<Gpio1Output, Error<Fault>>)
        ensures
            (final(i2c)@, e) == decoding(
                old(i2c)@,
                self.address(),
                registers::REG_GPIO1_CFG,
                |v: u8| Gpio1Output::decoded(v as int / 4 % 4),
            ),
    {
        Ok(Gpio1Output::from_bits((self.read_register(i2c, registers::REG_GPIO1_CFG)? / 4) % 4))
    }

    // ---- PWROFF enable (REG 22h) -------------------------------------------

    /// Set power-off source enable configuration (REG 22h).
    pub fn set_power_off_enable(&self, i2c: &mut Bus, cfg: &PowerOffEnable) -> (e: Result<(), Error<Fault>>)
        ensures
            (final(i2c)@, e) == writing(old(i2c)@, self.address(), registers::REG_PWROFF_EN, cfg.code()),
    {
        self.write_register(i2c, registers::REG_PWROFF_EN, cfg.bits())
    }

    /// Read power-off source enable configuration.
    pub fn power_off_enable(&self, i2c: &mut Bus) -> (e: Result<PowerOffEnable, Error<Fault>>)
        ensures
            (final(i2c)@, e) == decoding(
                old(i2c)@,
                self.address(),
                registers::REG_PWROFF_EN,
                |v: u8| PowerOffEnable::decoded(v),
            ),
    {
        Ok(PowerOffEnable::from_bits(self.read_register(i2c, registers::REG_PWROFF_EN)?))
    }

    // ---- DCDC OVP/UVP (REG 23h) --------------------------------------------

    /// Set DCDC over/under-voltage protection config (REG 23h).
    pub fn set_dcdc_protection(&self, i2c: &mut Bus, cfg: &DcdcProtection) -> (e: Result<(), Error<Fault>>)
        ensures
            (final(i2c)@, e) == writing(old(i2c)@, self.address(), registers::REG_DCDC_OVP_UVP, cfg.code()),
    {
        self.write_register(i2c, registers::REG_DCDC_OVP_UVP, cfg.bits())
    }

    /// Read DCDC over/under-voltage protection config.
    pub fn dcdc_protection(&self, i2c: &mut Bus) -> (e: Result<DcdcProtection, Error<Fault>>)
        ensures
            (final(i2c)@, e) == decoding(
                old(i2c)@,
                self.address(),
                registers::REG_DCDC_OVP_UVP,
                |v: u8| DcdcProtection::decoded(v),
            ),
    {
        Ok(DcdcProtection::from_bits(self.read_register(i2c, registers::REG_DCDC_OVP_UVP)?))
    }

    // ---- Vsys power-off threshold (REG 24h) --------------------------------

    /// Set the Vsys voltage for power-off threshold (REG 24h bits 2:0).
    ///
    /// Voltage = 2.6 + N * 0.1 V, N = 0-7. Valid range: 2600-3300 mV.
    pub fn set_vsys_poweroff_voltage(&self, i2c: &mut Bus, mv: u16) -> (e: Result<(), Error<Fault>>)
        ensures
            (final(i2c)@, e) == updating(
                old(i2c)@,
                self.address(),
                registers::REG_VSYS_PWROFF,
                0x07,
                step_code(mv as int, 2600, 3300, 100),
            ),
    {
        self.update_register(i2c, registers::REG_VSYS_PWROFF, 0x07, steps(mv, 2600, 3300, 100))
    }

    /// Read the Vsys power-off threshold in millivolts.
    pub fn vsys_poweroff_voltage(&self, i2c: &mut Bus) -> (e: Result<u16, Error<Fault>>)
        ensures
            (final(i2c)@, e) == decoding(
                old(i2c)@,
                self.address(),
                registers::REG_VSYS_PWROFF,
                |v: u8| (2600 + v as int % 8 * 100) as u16,
            ),
    {
        Ok(2600 + (self.read_register(i2c, registers::REG_VSYS_PWROFF)? % 8) as u16 * 100)
    }

    // ---- PWROK settings (REG 25h) ------------------------------------------

    /// Set PWROK and power-off sequence config (REG 25h).
    pub fn set_pwrok_config(&self, i2c: &mut Bus, cfg: &PwrokConfig) -> (e: Result<(), Error<Fault>>)
        ensures
            (final(i2c)@, e) == writing(old(i2c)@, self.address(), registers::REG_PWROK_CFG, cfg.code()),
    {
        self.write_register(i2c, registers::REG_PWROK_CFG, cfg.bits())
    }

    /// Read PWROK and power-off sequence config.
    pub fn pwrok_config(&self, i2c: &mut Bus) -> (e: Result<PwrokConfig, Error<Fault>>)
        ensures
            (final(i2c)@, e) == decoding(
                old(i2c)@,
                self.address(),
                registers::REG_PWROK_CFG,
                |v: u8| PwrokConfig::decoded(v),
            ),
    {
        Ok(PwrokConfig::from_bits(self.read_register(i2c, registers::REG_PWROK_CFG)?))
    }

    // ---- Sleep / wakeup (REG 26h) ------------------------------------------

    /// Set sleep and wakeup control (REG 26h).
    pub fn set_sleep_wake(&self, i2c: &mut Bus, cfg: &SleepWakeConfig) -> (e: Result<(), Error<Fault>>)
        ensures
            (final(i2c)@, e) == writing(old(i2c)@, self.address(), registers::REG_SLEEP_WAKEUP, cfg.code()),
    {
        self.write_register(i2c, registers::REG_SLEEP_WAKEUP, cfg.bits())
    }

    /// Read sleep and wakeup control.
    pub fn sleep_wake(&self, i2c: &mut Bus) -> (e: Result<SleepWakeConfig, Error<Fault>>)
        ensures
            (final(i2c)@, e) == decoding(
                old(i2c)@,
                self.address(),
                registers::REG_SLEEP_WAKEUP,
                |v: u8| SleepWakeConfig::decoded(v),
            ),
    {
        Ok(SleepWakeConfig::from_bits(self.read_register(i2c, registers::REG_SLEEP_WAKEUP)?))
    }

    // ---- Fast power-on sequence (REG 28h-2Bh) ------------------------------

    /// Write a fast power-on register directly (REG 28h-2Bh).
    ///
    /// `index` 0-3 maps to REG 28h-2Bh. Each register packs four 2-bit
    /// sequence codes for different rails. See the datasheet for the
    /// rail-to-bit mapping per register.
    pub fn write_fast_pwron(&self, i2c: &mut Bus, index: u8, value: u8) -> (e: Result<(), Error<Fault>>)
        ensures
            (final(i2c)@, e) == (if index > 3 {
                (old(i2c)@, Err::<(), Error<Fault>>(Error::InvalidValue))
            } else {
                writing(old(i2c)@, self.address(), (registers::REG_FAST_PWRON0 + index) as u8, value)
            }),
    {
        if index > 3 {
            return Err(Error::InvalidValue);
        }
        self.write_register(i2c, registers::REG_FAST_PWRON0 + index, value)
    }

    /// Read a fast power-on register (REG 28h-2Bh).
    pub fn read_fast_pwron(&self, i2c: &mut Bus, index: u8) -> (e: Result<u8, Error<Fault>>)
        ensures
            (final(i2c)@, e) == (if index > 3 {
                (old(i2c)@, Err::<u8, Error<Fault>>(Error::InvalidValue))
            } else {
                reading(old(i2c)@, self.address(), (registers::REG_FAST_PWRON0 + index) as u8)
            }),
    {
        if index > 3 {
            return Err(Error::InvalidValue);
        }
        self.read_register(i2c, registers::REG_FAST_PWRON0 + index)
    }

    // ---- TS pin (REG 50h, 52h-57h) -----------------------------------------

    /// Set TS pin configuration (REG 50h).
    pub fn set_ts_pin_config(&self, i2c: &mut Bus, cfg: &TsPinConfig) -> (e: Result<(), Error<Fault>>)
        ensures
            (final(i2c)@, e) == writing(old(i2c)@, self.address(), registers::REG_TS_CFG, cfg.code()),
    {
        self.write_register(i2c, registers::REG_TS_CFG, cfg.bits())
    }

    /// Read TS pin configuration.
    pub fn ts_pin_config(&self, i2c: &mut Bus) -> (e: Result<TsPinConfig, Error<Fault>>)
        ensures
            (final(i2c)@, e) == decoding(
                old(i2c)@,
                self.address(),
                registers::REG_TS_CFG,
                |v: u8| TsPinConfig::decoded(v),
            ),
    {
        Ok(TsPinConfig::from_bits(self.read_register(i2c, registers::REG_TS_CFG)?))
    }

    /// Set TS hysteresis low-to-high (REG 52h). Value = N * 16 mV.
    pub fn set_ts_hys_l2h(&self, i2c: &mut Bus, value: u8) -> (e: Result<(), Error<Fault>>)
        ensures
            (final(i2c)@, e) == writing(old(i2c)@, self.address(), registers::REG_TS_HYSL2H, value),
    {
        self.write_register(i2c, registers::REG_TS_HYSL2H, value)
    }

    /// Read TS hysteresis low-to-high (REG 52h).
    pub fn ts_hys_l2h(&self, i2c: &mut Bus) -> (e: Result<u8, Error<Fault>>)
        ensures
            (final(i2c)@, e) == reading(old(i2c)@, self.address(), registers::REG_TS_HYSL2H),
    {
        self.read_register(i2c, registers::REG_TS_HYSL2H)
    }

    /// Set TS hysteresis high-to-low (REG 53h). Value = N * 4 mV.
    pub fn set_ts_hys_h2l(&self, i2c: &mut Bus, value: u8) -> (e: Result<(), Error<Fault>>)
        ensures
            (final(i2c)@, e) == writing(old(i2c)@, self.address(), registers::REG_TS_HYSH2L, value),
    {
        self.write_register(i2c, registers::REG_TS_HYSH2L, value)
    }

    /// Read TS hysteresis high-to-low (REG 53h).
    pub fn ts_hys_h2l(&self, i2c: &mut Bus) -> (e: Result<u8, Error<Fault>>)
        ensures
            (final(i2c)@, e) == reading(old(i2c)@, self.address(), registers::REG_TS_HYSH2L),
    {
        self.read_register(i2c, registers::REG_TS_HYSH2L)
    }

    /// Set VLTF charge threshold (REG 54h). Value = N * 32 mV (~0 deg C
    /// default).
    pub fn set_vltf_charge(&self, i2c: &mut Bus, value: u8) -> (e: Result<(), Error<Fault>>)
        ensures
            (final(i2c)@, e) == writing(old(i2c)@, self.address(), registers::REG_VLTF_CHG, value),
    {
        self.write_register(i2c, registers::REG_VLTF_CHG, value)
    }

    /// Read VLTF charge threshold (REG 54h).
    pub fn vltf_charge(&self, i2c: &mut Bus) -> (e: Result<u8, Error<Fault>>)
        ensures
            (final(i2c)@, e) == reading(old(i2c)@, self.address(), registers::REG_VLTF_CHG),
    {
        self.read_register(i2c, registers::REG_VLTF_CHG)
    }

    /// Set VHTF charge threshold (REG 55h). Value = N * 2 mV (~55 deg C
    /// default).
    pub fn set_vhtf_charge(&self, i2c: &mut Bus, value: u8) -> (e: Result<(), Error<Fault>>)
        ensures
            (final(i2c)@, e) == writing(old(i2c)@, self.address(), registers::REG_VHTF_CHG, value),
    {
        self.write_register(i2c, registers::REG_VHTF_CHG, value)
    }

    /// Read VHTF charge threshold (REG 55h).
    pub fn vhtf_charge(&self, i2c: &mut Bus) -> (e: Result<u8, Error<Fault>>)
        ensures
            (final(i2c)@, e) == reading(old(i2c)@, self.address(), registers::REG_VHTF_CHG),
    {
        self.read_register(i2c, registers::REG_VHTF_CHG)
    }

    /// Set VLTF work threshold (REG 56h). Value = N * 32 mV (~-10 deg C
    /// default).
    pub fn set_vltf_work(&self, i2c: &mut Bus, value: u8) -> (e: Result<(), Error<Fault>>)
        ensures
            (final(i2c)@, e) == writing(old(i2c)@, self.address(), registers::REG_VLTF_WORK, value),
    {
        self.write_register(i2c, registers::REG_VLTF_WORK, value)
    }

    /// Read VLTF work threshold (REG 56h).
    pub fn vltf_work(&self, i2c: &mut Bus) -> (e: Result<u8, Error<Fault>>)
        ensures
            (final(i2c)@, e) == reading(old(i2c)@, self.address(), registers::REG_VLTF_WORK),
    {
        self.read_register(i2c, registers::REG_VLTF_WORK)
    }

    /// Set VHTF work threshold (REG 57h). Value = N * 2 mV (~60 deg C
    /// default).
    pub fn set_vhtf_work(&self, i2c: &mut Bus, value: u8) -> (e: Result<(), Error<Fault>>)
        ensures
            (final(i2c)@, e) == writing(old(i2c)@, self.address(), registers::REG_VHTF_WORK, value),
    {
        self.write_register(i2c, registers::REG_VHTF_WORK, value)
    }

    /// Read VHTF work threshold (REG 57h).
    pub fn vhtf_work(&self, i2c: &mut Bus) -> (e: Result<u8, Error<Fault>>)
        ensures
            (final(i2c)@, e) == reading(old(i2c)@, self.address(), registers::REG_VHTF_WORK),
    {
        self.read_register(i2c, registers::REG_VHTF_WORK)
    }

    // ---- JEITA (REG 58h-5Bh) -----------------------------------------------

    /// Enable or disable JEITA standard (REG 58h bit 0).
    pub fn set_jeita_enable(&self, i2c: &mut Bus, enable: bool) -> (e: Result<(), Error<Fault>>)
        ensures
            (final(i2c)@, e) == switching(
                old(i2c)@,
                self.address(),
                registers::REG_JEITA_EN,
                0x01,
                enable,
            ),
    {
        self.switch(i2c, registers::REG_JEITA_EN, 0x01, enable)
    }

    /// Read JEITA enable state.
    pub fn jeita_enabled(&self, i2c: &mut Bus) -> (e: Result<bool, Error<Fault>>)
        ensures
            (final(i2c)@, e) == decoding(
                old(i2c)@,
                self.address(),
                registers::REG_JEITA_EN,
                |v: u8| v & 0x01 != 0,
            ),
    {
        Ok(self.read_register(i2c, registers::REG_JEITA_EN)? & 0x01 != 0)
    }

    /// Set JEITA CV configuration (REG 59h).
    pub fn set_jeita_cv_config(&self, i2c: &mut Bus, cfg: &JeitaCvConfig) -> (e: Result<(), Error<Fault>>)
        ensures
            (final(i2c)@, e) == writing(old(i2c)@, self.address(), registers::REG_JEITA_CV_CFG, cfg.code()),
    {
        self.write_register(i2c, registers::REG_JEITA_CV_CFG, cfg.bits())
    }

    /// Read JEITA CV configuration.
    pub fn jeita_cv_config(&self, i2c: &mut Bus) -> (e: Result<JeitaCvConfig, Error<Fault>>)
        ensures
            (final(i2c)@, e) == decoding(
                old(i2c)@,
                self.address(),
                registers::REG_JEITA_CV_CFG,
                |v: u8| JeitaCvConfig::decoded(v),
            ),
    {
        Ok(JeitaCvConfig::from_bits(self.read_register(i2c, registers::REG_JEITA_CV_CFG)?))
    }

    /// Set JEITA cool temperature threshold (REG 5Ah). Value = N * 16 mV
    /// (~10 deg C default).
    pub fn set_jeita_cool_threshold(&self, i2c: &mut Bus, value: u8) -> (e: Result<(), Error<Fault>>)
        ensures
            (final(i2c)@, e) == writing(old(i2c)@, self.address(), registers::REG_JEITA_COOL, value),
    {
        self.write_register(i2c, registers::REG_JEITA_COOL, value)
    }

    /// Read JEITA cool temperature threshold (REG 5Ah).
    pub fn jeita_cool_threshold(&self, i2c: &mut Bus) -> (e: Result<u8, Error<Fault>>)
        ensures
            (final(i2c)@, e) == reading(old(i2c)@, self.address(), registers::REG_JEITA_COOL),
    {
        self.read_register(i2c, registers::REG_JEITA_COOL)
    }

    /// Set JEITA warm temperature threshold (REG 5Bh). Value = N * 8 mV
    /// (~45 deg C default).
    pub fn set_jeita_warm_threshold(&self, i2c: &mut Bus, value: u8) -> (e: Result<(), Error<Fault>>)
        ensures
            (final(i2c)@, e) == writing(old(i2c)@, self.address(), registers::REG_JEITA_WARM, value),
    {
        self.write_register(i2c, registers::REG_JEITA_WARM, value)
    }

    /// Read JEITA warm temperature threshold (REG 5Bh).
    pub fn jeita_warm_threshold(&self, i2c: &mut Bus) -> (e: Result<u8, Error<Fault>>)
        ensures
            (final(i2c)@, e) == reading(old(i2c)@, self.address(), registers::REG_JEITA_WARM),
    {
        self.read_register(i2c, registers::REG_JEITA_WARM)
    }

    /// Read the MCU-configured TS voltage (REG 5Ch-5Dh).
    pub fn ts_cfg_data(&self, i2c: &mut Bus) -> (e: Result<u16, Error<Fault>>)
        ensures
            (final(i2c)@, e) == sampling(old(i2c)@, self.address(), registers::REG_TS_CFG_H, registers::REG_TS_CFG_L),
    {
        self.read_adc_14bit(i2c, registers::REG_TS_CFG_H, registers::REG_TS_CFG_L)
    }

    // ---- Charger timeout (REG 67h) -----------------------------------------

    /// Set charger timeout configuration (REG 67h).
    pub fn set_charger_timeout(&self, i2c: &mut Bus, cfg: &ChargerTimeout) -> (e: Result<(), Error<Fault>>)
        ensures
            (final(i2c)@, e) == writing(old(i2c)@, self.address(), registers::REG_CHG_TIMER, cfg.code()),
    {
        self.write_register(i2c, registers::REG_CHG_TIMER, cfg.bits())
    }

    /// Read charger timeout configuration.
    pub fn charger_timeout(&self, i2c: &mut Bus) -> (e: Result<ChargerTimeout, Error<Fault>>)
        ensures
            (final(i2c)@, e) == decoding(
                old(i2c)@,
                self.address(),
                registers::REG_CHG_TIMER,
                |v: u8| ChargerTimeout::decoded(v),
            ),
    {
        Ok(ChargerTimeout::from_bits(self.read_register(i2c, registers::REG_CHG_TIMER)?))
    }

    // ---- CHGLED (REG 69h) --------------------------------------------------

    /// Set CHGLED configuration (REG 69h).
    pub fn set_chgled_config(&self, i2c: &mut Bus, cfg: &ChgLedConfig) -> (e: Result<(), Error<Fault>>)
        ensures
            (final(i2c)@, e) == writing(old(i2c)@, self.address(), registers::REG_CHGLED, cfg.code()),
    {
        self.write_register(i2c, registers::REG_CHGLED, cfg.bits())
    }

    /// Read CHGLED configuration.
    pub fn chgled_config(&self, i2c: &mut Bus) -> (e: Result<ChgLedConfig, Error<Fault>>)
        ensures
            (final(i2c)@, e) == decoding(
                old(i2c)@,
                self.address(),
                registers::REG_CHGLED,
                |v: u8| ChgLedConfig::decoded(v),
            ),
    {
        Ok(ChgLedConfig::from_bits(self.read_register(i2c, registers::REG_CHGLED)?))
    }

    // ---- DCDC force PWM (REG 81h) ------------------------------------------

    /// Set DCDC PWM/PFM and frequency spread config (REG 81h).
    pub fn set_dcdc_pwm_config(&self, i2c: &mut Bus, cfg: &DcdcPwmConfig) -> (e: Result<(), Error<Fault>>)
        ensures
            (final(i2c)@, e) == writing(old(i2c)@, self.address(), registers::REG_DCDC_PWM, cfg.code()),
    {
        self.write_register(i2c, registers::REG_DCDC_PWM, cfg.bits())
    }

    /// Read DCDC PWM/PFM and frequency spread config.
    pub fn dcdc_pwm_config(&self, i2c: &mut Bus) -> (e: Result<DcdcPwmConfig, Error<Fault>>)
        ensures
            (final(i2c)@, e) == decoding(
                old(i2c)@,
                self.address(),
                registers::REG_DCDC_PWM,
                |v: u8| DcdcPwmConfig::decoded(v),
            ),
    {
        Ok(DcdcPwmConfig::from_bits(self.read_register(i2c, registers::REG_DCDC_PWM)?))
    }

    // ---- Additional LDO voltage settings (REG 98h-9Ah) ---------------------

    /// Set CPUSLDO voltage (REG 98h bits 4:0).
    ///
    /// 0.5-1.4V, 50 mV/step, 20 steps.
    pub fn set_cpusldo_voltage(&self, i2c: &mut Bus, mv: u16) -> (e: Result<(), Error<Fault>>)
        ensures
            (final(i2c)@, e) == writing(old(i2c)@, self.address(), registers::REG_CPUSLDO_VOLT, step_code(mv as int, 500, 1400, 50)),
    {
        self.write_register(i2c, registers::REG_CPUSLDO_VOLT, steps(mv, 500, 1400, 50))
    }

    /// Read CPUSLDO voltage in millivolts.
    pub fn cpusldo_voltage(&self, i2c: &mut Bus) -> (e: Result<u16, Error<Fault>>)
        ensures
            (final(i2c)@, e) == decoding(
                old(i2c)@,
                self.address(),
                registers::REG_CPUSLDO_VOLT,
                |v: u8| (500 + v as int % 32 * 50) as u16,
            ),
    {
        Ok(500 + (self.read_register(i2c, registers::REG_CPUSLDO_VOLT)? % 32) as u16 * 50)
    }

    /// Set DLDO1 voltage (REG 99h bits 4:0).
    ///
    /// 100 mV/step from 0.5 V on, 29 steps (codes 0-28), so up to 3.3 V: a
    /// higher request is held there.
    pub fn set_dldo1_voltage(&self, i2c: &mut Bus, mv: u16) -> (e: Result<(), Error<Fault>>)
        ensures
            (final(i2c)@, e) == writing(
                old(i2c)@,
                self.address(),
                registers::REG_DLDO1_VOLT,
                step_code(mv as int, 500, 3300, 100),
            ),
    {
        self.write_register(i2c, registers::REG_DLDO1_VOLT, steps(mv, 500, 3300, 100))
    }

    /// Read DLDO1 voltage in millivolts.
    pub fn dldo1_voltage(&self, i2c: &mut Bus) -> (e: Result<u16, Error<Fault>>)
        ensures
            (final(i2c)@, e) == decoding(
                old(i2c)@,
                self.address(),
                registers::REG_DLDO1_VOLT,
                |v: u8| (500 + v as int % 32 * 100) as u16,
            ),
    {
        Ok(500 + (self.read_register(i2c, registers::REG_DLDO1_VOLT)? % 32) as u16 * 100)
    }

    /// Set DLDO2 voltage (REG 9Ah bits 4:0).
    ///
    /// 0.5-1.4V, 50 mV/step, 20 steps.
    pub fn set_dldo2_voltage(&self, i2c: &mut Bus, mv: u16) -> (e: Result<(), Error<Fault>>)
        ensures
            (final(i2c)@, e) == writing(old(i2c)@, self.address(), registers::REG_DLDO2_VOLT, step_code(mv as int, 500, 1400, 50)),
    {
        self.write_register(i2c, registers::REG_DLDO2_VOLT, steps(mv, 500, 1400, 50))
    }

    /// Read DLDO2 voltage in millivolts.
    pub fn dldo2_voltage(&self, i2c: &mut Bus) -> (e: Result<u16, Error<Fault>>)
        ensures
            (final(i2c)@, e) == decoding(
                old(i2c)@,
                self.address(),
                registers::REG_DLDO2_VOLT,
                |v: u8| (500 + v as int % 32 * 50) as u16,
            ),
    {
        Ok(500 + (self.read_register(i2c, registers::REG_DLDO2_VOLT)? % 32) as u16 * 50)
    }

    // ---- Fuel gauge (REG A1h, A2h) -----------------------------------------

    /// Read the battery parameter ROM value (REG A1h, read-only).
    pub fn battery_parameter(&self, i2c: &mut Bus) -> (e: Result<u8, Error<Fault>>)
        ensures
            (final(i2c)@, e) == reading(old(i2c)@, self.address(), registers::REG_BAT_PARAM),
    {
        self.read_register(i2c, registers::REG_BAT_PARAM)
    }

    /// Set fuel gauge ROM/SRAM select (REG A2h bit 4). false = ROM, true =
    /// SRAM.
    pub fn set_gauge_rom_select(&self, i2c: &mut Bus, use_sram: bool) -> (e: Result<(), Error<Fault>>)
        ensures
            (final(i2c)@, e) == switching(
                old(i2c)@,
                self.address(),
                registers::REG_GAUGE_CFG,
                0x10,
                use_sram,
            ),
    {
        self.switch(i2c, registers::REG_GAUGE_CFG, 0x10, use_sram)
    }

    /// Set fuel gauge BROM writer control (REG A2h bit 0).
    pub fn set_gauge_brom_write(&self, i2c: &mut Bus, enable: bool) -> (e: Result<(), Error<Fault>>)
        ensures
            (final(i2c)@, e) == switching(
                old(i2c)@,
                self.address(),
                registers::REG_GAUGE_CFG,
                0x01,
                enable,
            ),
    {
        self.switch(i2c, registers::REG_GAUGE_CFG, 0x01, enable)
    }
    // ---- Private helpers ----------------------------------------------------

    fn read_register(&self, i2c: &mut Bus, r: u8) -> (e: Result<u8, Error<Fault>>)
        ensures
            (final(i2c)@, e) == reading(old(i2c)@, self.address(), r),
    {
        bus_err(i2c.read_reg(self.addr, r))
    }

    fn write_register(&self, i2c: &mut Bus, r: u8, val: u8) -> (e: Result<(), Error<Fault>>)
        ensures
            (final(i2c)@, e) == writing(old(i2c)@, self.address(), r, val),
    {
        bus_err(i2c.write_reg(self.addr, r, val))
    }

    fn update_register(&self, i2c: &mut Bus, r: u8, clear: u8, set: u8) -> (e: Result<(), Error<Fault>>)
        ensures
            (final(i2c)@, e) == updating(old(i2c)@, self.address(), r, clear, set),
    {
        bus_err(i2c.update_reg(self.addr, r, clear, set))
    }

    fn switch(&self, i2c: &mut Bus, r: u8, mask: u8, on: bool) -> (e: Result<(), Error<Fault>>)
        ensures
            (final(i2c)@, e) == switching(old(i2c)@, self.address(), r, mask, on),
    {
        self.update_register(i2c, r, mask, if on { mask } else { 0 })
    }

    /// Convert millivolts to the 5-bit AXP2101 register value. Formula:
    /// `(mV - 500) / 100`. Valid range: 500-3500 mV.
    fn mv_to_register(millivolts: u16) -> (e: Result<u8, Error<Fault>>)
        ensures
            e == (if 500 <= millivolts <= 3500 {
                Ok::<u8, Error<Fault>>(ldo_code(millivolts as int))
            } else {
                Err(Error::InvalidValue)
            }),
    {
        if millivolts < 500 || millivolts > 3500 {
            return Err(Error::InvalidValue);
        }
        Ok(((millivolts - 500) / 100) as u8)
    }

    /// Read a 14-bit ADC value from a high/low register pair. High byte
    /// bits 5:0 = value[13:8], low byte = value[7:0].
    fn read_adc_14bit(&self, i2c: &mut Bus, reg_h: u8, reg_l: u8) -> (e: Result<u16, Error<Fault>>)
        ensures
            (final(i2c)@, e) == sampling(old(i2c)@, self.address(), reg_h, reg_l),
    {
        let hi: u16 = (self.read_register(i2c, reg_h)? % 64) as u16;
        let lo: u16 = self.read_register(i2c, reg_l)? as u16;
        Ok(hi * 256 + lo)
    }
}

// ---- Laws of the voltage codes ----------------------------------------------

/// A voltage that was set is read back rounded down to a step, held
/// within the range: exactly, where it is a step of the range.
pub proof fn stepped_voltage_reads_back(mv: int, lo: int, hi: int, step: int)
    requires
        lo <= mv <= hi,
        step >= 50,
        hi - lo <= 4000,
        lo >= 0,
    ensures
        lo + step_code(mv, lo, hi, step) * step <= mv < lo + step_code(mv, lo, hi, step) * step + step,
        (mv - lo) % step == 0 ==> lo + step_code(mv, lo, hi, step) * step == mv,
{
    let q = (mv - lo) / step;
    assert(0 <= q <= 255 && q * step <= mv - lo < q * step + step && ((mv - lo) % step == 0 ==> q * step == mv - lo))
        by (nonlinear_arith)
        requires
            0 <= mv - lo <= 4000,
            step >= 50,
            q == (mv - lo) / step,
    ;
}

/// Every two-range code that is not reserved survives the way over
/// millivolts.
pub proof fn two_range_round_trip(n: int, hi: int)
    requires
        0 <= n,
        two_range_mv(n) <= hi,
        hi >= 1220,
        n <= 127,
    ensures
        two_range_code(two_range_mv(n), hi) == n,
{
}

/// The two-range code picked for any request is not reserved, and stands
/// for the voltage held within range, rounded down to a step.
pub proof fn two_range_rounds_down(mv: int, hi: int)
    requires
        1220 <= hi <= 1840,
    ensures
        ({
            let held = if mv < 500 {
                500
            } else if mv > hi {
                hi
            } else {
                mv
            };
            let n = two_range_code(mv, hi);
            &&& n <= 71 + (hi - 1220) / 20
            &&& two_range_mv(n as int) <= held < two_range_mv(n as int) + 20
            &&& held <= 1200 ==> held < two_range_mv(n as int) + 10
        }),
{
}

/// Every LDO voltage of the range is read back rounded down to 100 mV.
pub proof fn ldo_code_round_trip(mv: int)
    requires
        500 <= mv <= 3500,
    ensures
        ldo_code(mv) < 32,
        500 + ldo_code(mv) * 100 == mv / 100 * 100,
{
}

// ---- What is read back ------------------------------------------------------

/// A field that was written into a register of a chip that keeps its
/// registers is read back, among the register's other bits as they were.
pub proof fn setting_reads_back<T>(
    regs: Registers,
    addr: u8,
    s: Session,
    r: u8,
    mask: u8,
    code: u8,
    meaning: spec_fn(u8) -> T,
)
    requires
        regs.answers(addr, decoding(updating(s, addr, r, mask, code).0, addr, r, meaning).0),
    ensures
        updating(s, addr, r, mask, code).1 is Ok,
        decoding(updating(s, addr, r, mask, code).0, addr, r, meaning).1 == Ok::<T, Error<Fault>>(
            meaning(merged(regs.now(addr, s).at(r as int), mask, code)),
        ),
{
    read_gives_the_register(regs, addr, updating(s, addr, r, mask, code).0, r);
    updated_register_is_held(regs, addr, s, r, mask, code);
}

/// The pre-charge current that was set is the one read.
pub proof fn precharge_current_reads_back(regs: Registers, addr: u8, s: Session, cur: PreChargeCurrent)
    requires
        cur.0 < 16,
        regs.answers(
            addr,
            decoding(
                updating(s, addr, registers::REG_IPRECHG, 0x0F, (cur.0 as int % 16) as u8).0,
                addr,
                registers::REG_IPRECHG,
                |v: u8| PreChargeCurrent((v as int % 16) as u8),
            ).0,
        ),
    ensures
        decoding(
            updating(s, addr, registers::REG_IPRECHG, 0x0F, (cur.0 as int % 16) as u8).0,
            addr,
            registers::REG_IPRECHG,
            |v: u8| PreChargeCurrent((v as int % 16) as u8),
        ).1 == Ok::<PreChargeCurrent, Error<Fault>>(cur),
{
    let meaning = |v: u8| PreChargeCurrent((v as int % 16) as u8);
    setting_reads_back(regs, addr, s, registers::REG_IPRECHG, 0x0F, cur.0, meaning);
    low_field_reads_back(regs.now(addr, s).at(registers::REG_IPRECHG as int), cur.0);
}

/// The charge current that was set is the one read.
pub proof fn charge_current_reads_back(regs: Registers, addr: u8, s: Session, cur: ChargeCurrent)
    requires
        cur.0 < 32,
        regs.answers(
            addr,
            decoding(
                updating(s, addr, registers::REG_ICC, 0x1F, (cur.0 as int % 32) as u8).0,
                addr,
                registers::REG_ICC,
                |v: u8| ChargeCurrent((v as int % 32) as u8),
            ).0,
        ),
    ensures
        decoding(
            updating(s, addr, registers::REG_ICC, 0x1F, (cur.0 as int % 32) as u8).0,
            addr,
            registers::REG_ICC,
            |v: u8| ChargeCurrent((v as int % 32) as u8),
        ).1 == Ok::<ChargeCurrent, Error<Fault>>(cur),
{
    let meaning = |v: u8| ChargeCurrent((v as int % 32) as u8);
    setting_reads_back(regs, addr, s, registers::REG_ICC, 0x1F, cur.0, meaning);
    low_field_reads_back(regs.now(addr, s).at(registers::REG_ICC as int), cur.0);
}

/// A DCDC2 or DCDC3 voltage that was set (register `r`) is read back as
/// the voltage of its code, and the write keeps the register's bit 7.
pub proof fn dcdc_voltage_reads_back(regs: Registers, addr: u8, s: Session, r: u8, mv: u16)
    requires
        regs.answers(
            addr,
            decoding(
                updating(s, addr, r, 0x7F, two_range_code(mv as int, 1540)).0,
                addr,
                r,
                |v: u8| two_range_mv(v as int % 128) as u16,
            ).0,
        ),
    ensures
        updating(s, addr, r, 0x7F, two_range_code(mv as int, 1540)).1 is Ok,
        regs.now(addr, updating(s, addr, r, 0x7F, two_range_code(mv as int, 1540)).0).at(r as int) == (regs.now(
            addr,
            s,
        ).at(r as int) & 0x80) | two_range_code(mv as int, 1540),
        decoding(
            updating(s, addr, r, 0x7F, two_range_code(mv as int, 1540)).0,
            addr,
            r,
            |v: u8| two_range_mv(v as int % 128) as u16,
        ).1 == Ok::<u16, Error<Fault>>(two_range_mv(two_range_code(mv as int, 1540) as int) as u16),
{
    let meaning = |v: u8| two_range_mv(v as int % 128) as u16;
    let n = two_range_code(mv as int, 1540);
    let v = regs.now(addr, s).at(r as int);
    two_range_rounds_down(mv as int, 1540);
    setting_reads_back(regs, addr, s, r, 0x7F, n, meaning);
    low_field_reads_back(v, n);
    assert(v & !0x7F == v & 0x80) by (bit_vector);
    read_gives_the_register(regs, addr, updating(s, addr, r, 0x7F, n).0, r);
    updated_register_is_held(regs, addr, s, r, 0x7F, n);
}

/// A DCDC4 voltage that was set is read back as the voltage of its code.
pub proof fn dcdc4_voltage_reads_back(regs: Registers, addr: u8, s: Session, mv: u16)
    requires
        regs.answers(
            addr,
            decoding(
                writing(s, addr, registers::REG_DCDC4_VOLT, two_range_code(mv as int, 1840)).0,
                addr,
                registers::REG_DCDC4_VOLT,
                |v: u8| two_range_mv(v as int % 128) as u16,
            ).0,
        ),
    ensures
        writing(s, addr, registers::REG_DCDC4_VOLT, two_range_code(mv as int, 1840)).1 is Ok,
        decoding(
            writing(s, addr, registers::REG_DCDC4_VOLT, two_range_code(mv as int, 1840)).0,
            addr,
            registers::REG_DCDC4_VOLT,
            |v: u8| two_range_mv(v as int % 128) as u16,
        ).1 == Ok::<u16, Error<Fault>>(two_range_mv(two_range_code(mv as int, 1840) as int) as u16),
{
    let n = two_range_code(mv as int, 1840);
    two_range_rounds_down(mv as int, 1840);
    read_gives_the_register(
        regs,
        addr,
        writing(s, addr, registers::REG_DCDC4_VOLT, n).0,
        registers::REG_DCDC4_VOLT,
    );
    written_register_is_held(regs, addr, s, registers::REG_DCDC4_VOLT, n);
}

/// The charge voltage that was set is the one read.
pub proof fn charge_voltage_reads_back(regs: Registers, addr: u8, s: Session, cv: ChargeVoltage)
    requires
        regs.answers(
            addr,
            decoding(
                updating(s, addr, registers::REG_CV_VOLT, 0x07, cv.code()).0,
                addr,
                registers::REG_CV_VOLT,
                |v: u8| ChargeVoltage::decoded(v as int % 8),
            ).0,
        ),
    ensures
        decoding(
            updating(s, addr, registers::REG_CV_VOLT, 0x07, cv.code()).0,
            addr,
            registers::REG_CV_VOLT,
            |v: u8| ChargeVoltage::decoded(v as int % 8),
        ).1 == Ok::<Option<ChargeVoltage>, Error<Fault>>(Some(cv)),
{
    let meaning = |v: u8| ChargeVoltage::decoded(v as int % 8);
    setting_reads_back(regs, addr, s, registers::REG_CV_VOLT, 0x07, cv.code(), meaning);
    low_field_reads_back(regs.now(addr, s).at(registers::REG_CV_VOLT as int), cv.code());
}

} // verus!
