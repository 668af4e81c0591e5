//! Power bring-up and board controls.
//!
//! Two boards share one PMU and one 400 mAh cell. The S3 board latches
//! its supply with a GPIO, drives a haptic motor and configures the PMU's
//! rails at boot. The C6 board has neither pin, and trusts the rail state
//! that the PMU keeps across resets.

use vstd::prelude::*;
use crate::bus::{chain, Bus, Fault, Session};
use crate::pmu;
use crate::pmu::registers;
use crate::pmu::types::{ChargeCurrent, ChargeVoltage, PowerOffVoltage, TerminationCurrent};
use crate::pmu::{Config, Pmu};

verus! {

/// Snapshot of power-related readings at one point in time.
#[derive(Debug, Clone, Copy, PartialEq, Eq, Structural)]
pub struct PowerSnapshot {
    /// Battery state of charge (0-100%) from the fuel gauge.
    pub battery_percent: Option<u8>,
    /// Battery terminal voltage in millivolts.
    pub battery_voltage_mv: Option<u16>,
}

impl Default for PowerSnapshot {
    fn default() -> (r: PowerSnapshot)
        ensures
            r.battery_percent is None,
            r.battery_voltage_mv is None,
    {
        PowerSnapshot { battery_percent: None, battery_voltage_mv: None }
    }
}

// ---- Charge profile ---------------------------------------------------------

/// The charge and power-off profile for the 400 mAh cell: 4.2 V constant
/// voltage, 0.25 C (100 mA) constant current, termination at 25 mA, and
/// power-off at 3.2 V. Each setting is made only if the one before
/// succeeded.
pub open spec fn profile_setting(s: Session, addr: u8) -> (Session, Result<(), pmu::Error<Fault>>) {
    chain(
        pmu::updating(s, addr, registers::REG_CV_VOLT, 0x07, ChargeVoltage::V4_2.code()),
        |s1: Session, u1: ()|
            chain(
                pmu::updating(s1, addr, registers::REG_ICC, 0x1F, 4),
                |s2: Session, u2: ()|
                    chain(
                        pmu::updating(s2, addr, registers::REG_ITERM, 0x1F, 0x11),
                        |s3: Session, u3: ()| pmu::updating(s3, addr, registers::REG_VSYS_PWROFF, 0x07, 6),
                    ),
            ),
    )
}

/// Set the charge and power-off profile.
///
/// The PMU's power-on defaults leave charging largely unconfigured and
/// the power-off voltage at 2.6 V: deep-discharge territory that also
/// wipes the fuel gauge's learned state on every collapse.
pub fn set_charge_profile(pmu: &Pmu, i2c: &mut Bus) -> (e: Result<(), pmu::Error<Fault>>)
    ensures
        (final(i2c)@, e) == profile_setting(old(i2c)@, pmu.address()),
{
    pmu.set_charge_voltage(i2c, ChargeVoltage::V4_2)?;
    let cc: ChargeCurrent = ChargeCurrent::from_ma(100);
    assert(cc.0 == 4);
    pmu.set_charge_current(i2c, cc)?;
    let term: TerminationCurrent = TerminationCurrent::from_ma(25);
    assert(term.0 == 1);
    pmu.set_termination_current(i2c, term, true)?;
    let voff: PowerOffVoltage = PowerOffVoltage::from_mv(3200);
    assert(voff.0 == 6);
    pmu.set_power_off_voltage(i2c, voff)
}

/// What the chip holds of the profile; `None` where a register could not
/// be read or holds a reserved code.
#[derive(Debug, Clone, Copy, PartialEq, Eq)]
pub struct ProfileReadback {
    pub charge_voltage: Option<ChargeVoltage>,
    pub charge_current_ma: Option<u16>,
    /// Termination current, and whether termination is enabled.
    pub termination_ma: Option<(u16, bool)>,
    pub power_off_mv: Option<u16>,
}

/// `f` of a value that could be read.
pub open spec fn readable<T>(r: Result<u8, pmu::Error<Fault>>, f: spec_fn(u8) -> Option<T>) -> Option<T> {
    match r {
        Ok(v) => f(v),
        Err(_) => None,
    }
}

/// The four profile registers read, one after another whatever became of
/// the one before, and what they hold.
pub open spec fn profile_reading(s: Session, addr: u8) -> (Session, ProfileReadback) {
    let (s1, cv) = pmu::reading(s, addr, registers::REG_CV_VOLT);
    let (s2, cc) = pmu::reading(s1, addr, registers::REG_ICC);
    let (s3, term) = pmu::reading(s2, addr, registers::REG_ITERM);
    let (s4, voff) = pmu::reading(s3, addr, registers::REG_VSYS_PWROFF);
    (s4, ProfileReadback {
        charge_voltage: readable(cv, |v: u8| ChargeVoltage::decoded(v as int % 8)),
        charge_current_ma: readable(cc, |v: u8| Some(ChargeCurrent((v as int % 32) as u8).ma() as u16)),
        termination_ma: readable(
            term,
            |v: u8| Some((TerminationCurrent((v as int % 16) as u8).ma() as u16, pmu::types::bit(v, 16))),
        ),
        power_off_mv: readable(voff, |v: u8| Some(PowerOffVoltage((v as int % 8) as u8).mv() as u16)),
    })
}

/// Read the profile back from the chip: a log must show what the chip
/// holds, not what was requested.
pub fn read_charge_profile(pmu: &Pmu, i2c: &mut Bus) -> (r: ProfileReadback)
    ensures
        (final(i2c)@, r) == profile_reading(old(i2c)@, pmu.address()),
{
    let charge_voltage: Option<ChargeVoltage> = match pmu.charge_voltage(i2c) {
        Ok(v) => v,
        Err(_) => None,
    };
    let charge_current_ma: Option<u16> = match pmu.charge_current(i2c) {
        Ok(c) => Some(c.as_ma()),
        Err(_) => None,
    };
    let termination_ma: Option<(u16, bool)> = match pmu.termination_current(i2c) {
        Ok((t, en)) => Some((t.as_ma(), en)),
        Err(_) => None,
    };
    let power_off_mv: Option<u16> = match pmu.power_off_voltage(i2c) {
        Ok(v) => Some(v.as_mv()),
        Err(_) => None,
    };
    ProfileReadback { charge_voltage, charge_current_ma, termination_ma, power_off_mv }
}

/// The silicon revision in a chip ID byte (0 = A, 1 = B).
pub fn chip_revision(chip_id: u8) -> (r: u8)
    ensures
        r == chip_id as int / 16 % 4,
{
    (chip_id / 16) % 4
}

// ---- CPU clock --------------------------------------------------------------

/// A CPU frequency that the power manager asks for.
#[derive(Debug, Clone, Copy, PartialEq, Eq, Structural)]
pub enum CpuFreq {
    Mhz80,
    Mhz160,
    Mhz240,
}

impl CpuFreq {
    /// The frequency in MHz.
    pub open spec fn mhz(self) -> int {
        match self {
            CpuFreq::Mhz80 => 80,
            CpuFreq::Mhz160 => 160,
            CpuFreq::Mhz240 => 240,
        }
    }
}

/// A pin that wakes the chip from light sleep does so while it is low:
/// the interrupt lines are active-low, and no other type may wake.
pub const WAKE_INT_TYPE: u8 = 4;

/// Knobs of a chip's light-sleep configuration.
#[derive(Debug, Clone, Copy, PartialEq, Eq, Structural)]
pub struct SleepTuning {
    /// Keep the RTC regulator on, so that the RTC domain works during
    /// sleep.
    pub rtc_regulator_fpu: bool,
    /// Keep the main crystal powered: the CPU cannot resume clocking on
    /// wake without it.
    pub xtal_fpu: bool,
    /// Refuse to sleep while an interrupt is pending.
    pub light_slp_reject: bool,
}

// ---- The S3 board -----------------------------------------------------------

/// The S3 board's power pins, by level: `true` is high.
#[derive(Debug, Clone, Copy, PartialEq, Eq, Structural)]
pub struct PowerControls {
    /// Supply latch: low holds the board's power rail on.
    pub sys_out: bool,
    /// Haptic motor: high buzzes.
    pub motor: bool,
}

/// What the S3 board's power bring-up found.
#[derive(Debug, Clone, Copy, PartialEq, Eq)]
pub struct PowerReport {
    /// The PMU's chip ID byte.
    pub chip_id: u8,
    /// Whether the charge profile was set.
    pub profile_ok: bool,
    pub readback: ProfileReadback,
}

/// The S3 board's power bring-up: the PMU initialised, and, if it was,
/// the profile set and read back.
pub open spec fn power_setup(s: Session) -> (Session, Option<PowerReport>) {
    let (s1, id) = pmu::initialising(s, pmu::DEFAULT_ADDRESS);
    match id {
        Ok(chip_id) => {
            let (s2, set) = profile_setting(s1, pmu::DEFAULT_ADDRESS);
            let (s3, readback) = profile_reading(s2, pmu::DEFAULT_ADDRESS);
            (s3, Some(PowerReport { chip_id, profile_ok: set is Ok, readback }))
        },
        Err(_) => (s1, None),
    }
}

impl PowerControls {
    /// Initialize the power subsystem. Must be the first peripheral
    /// brought up at boot: latches the supply on (pin low), initializes
    /// the PMU with all rails, and sets the charge profile. Nothing if
    /// the PMU could not be initialized.
    pub fn init(i2c: &mut Bus) -> (r: Option<(PowerControls, Pmu, PowerReport)>)
        ensures
            final(i2c)@ == power_setup(old(i2c)@).0,
            match power_setup(old(i2c)@).1 {
                Some(report) => r matches Some((controls, pmu, found)) && controls == (PowerControls {
                    sys_out: false,
                    motor: false,
                }) && pmu.address() == pmu::DEFAULT_ADDRESS && found == report,
                None => r is None,
            },
    {
        let pmu: Pmu = Pmu::new(Config::default());
        match pmu.init(i2c) {
            Ok(chip_id) => {
                let profile_ok: bool = set_charge_profile(&pmu, i2c).is_ok();
                let readback: ProfileReadback = read_charge_profile(&pmu, i2c);
                Some(
                    (
                        PowerControls { sys_out: false, motor: false },
                        pmu,
                        PowerReport { chip_id, profile_ok, readback },
                    ),
                )
            },
            Err(_) => None,
        }
    }

    /// Drive the haptic motor high (start buzz).
    pub fn buzz(&mut self)
        ensures
            *final(self) == (PowerControls { motor: true, ..*old(self) }),
    {
        self.motor = true;
    }

    /// Drive the haptic motor low (stop buzz).
    pub fn buzz_stop(&mut self)
        ensures
            *final(self) == (PowerControls { motor: false, ..*old(self) }),
    {
        self.motor = false;
    }

    /// Release the supply latch - powers down the board.
    pub fn shutdown(&mut self)
        ensures
            *final(self) == (PowerControls { sys_out: true, ..*old(self) }),
    {
        self.sys_out = true;
    }

    /// The pins to arm right before light sleep: the boot button, the
    /// touch and the RTC interrupt. Waiting on a pin disarms it, so this
    /// is done at every sleep entry.
    pub fn arm_wake_sources(&self) -> (r: [u8; 3])
        ensures
            r@ == seq![0u8, 38, 39],
    {
        let pins: [u8; 3] = [0, 38, 39];
        assert(pins@ =~= seq![0u8, 38, 39]);
        pins
    }

    /// The clock divider setting for a CPU frequency, and the frequency
    /// in MHz to tell the delay routines. The PLL stays the source.
    pub fn set_cpu_freq(&self, freq: CpuFreq) -> (r: (u8, u32))
        ensures
            80 * (r.0 + 1) == freq.mhz(),
            r.1 == freq.mhz(),
    {
        match freq {
            CpuFreq::Mhz80 => (0, 80),
            CpuFreq::Mhz160 => (1, 160),
            CpuFreq::Mhz240 => (2, 240),
        }
    }

    /// The light-sleep configuration that reliably wakes on this chip.
    pub fn tune_sleep_config(&self) -> (r: SleepTuning)
        ensures
            r == (SleepTuning { rtc_regulator_fpu: true, xtal_fpu: true, light_slp_reject: false }),
    {
        SleepTuning { rtc_regulator_fpu: true, xtal_fpu: true, light_slp_reject: false }
    }
}

// ---- The C6 board -----------------------------------------------------------

/// The C6 board: no latch and no motor, so there is no state to hold.
#[derive(Debug, Clone, Copy)]
pub struct C6Board;

/// What the C6 board's power bring-up found.
#[derive(Debug, Clone, Copy, PartialEq, Eq)]
pub struct C6Report {
    /// The PMU's chip ID byte, if it answered as the right chip.
    pub chip_id: Option<u8>,
    /// Whether the ADC channels were enabled.
    pub adc_ok: bool,
    /// Whether the fuel gauge and battery detection were enabled.
    pub monitor_ok: bool,
    /// Whether the charge profile was set.
    pub profile_ok: bool,
    pub readback: ProfileReadback,
}

/// The C6 board's power bring-up: each part is done whatever became of
/// the one before.
pub open spec fn c6_setup(s: Session) -> (Session, C6Report) {
    let (s1, id) = pmu::device_check(s, pmu::DEFAULT_ADDRESS);
    let (s2, adc) = pmu::writing(s1, pmu::DEFAULT_ADDRESS, registers::REG_ADC_EN, 0x1F);
    let (s3, monitor) = pmu::monitor_setup(s2, pmu::DEFAULT_ADDRESS);
    let (s4, set) = profile_setting(s3, pmu::DEFAULT_ADDRESS);
    let (s5, readback) = profile_reading(s4, pmu::DEFAULT_ADDRESS);
    (s5, C6Report {
        chip_id: readable(id, |v: u8| Some(v)),
        adc_ok: adc is Ok,
        monitor_ok: monitor is Ok,
        profile_ok: set is Ok,
        readback,
    })
}

/// Where the wait for the touch controller stands.
#[derive(Debug, Clone, Copy, PartialEq, Eq, Structural)]
pub enum TouchWait {
    /// Wait [`TOUCH_POLL_MS`], then try to read from it.
    Polling { elapsed_ms: u32 },
    /// It answered.
    Awake { after_ms: u32 },
    /// It never answered.
    GaveUp,
}

/// How long the touch controller gets to wake up.
pub const TOUCH_TIMEOUT_MS: u32 = 5000;

/// How long to wait between attempts to read from it.
pub const TOUCH_POLL_MS: u32 = 500;

impl TouchWait {
    /// The wait is at one of its polls: a whole number of intervals has
    /// passed, and less than the timeout.
    pub open spec fn at_poll(self) -> bool {
        self matches TouchWait::Polling { elapsed_ms } ==> elapsed_ms < TOUCH_TIMEOUT_MS && elapsed_ms as int
            % TOUCH_POLL_MS as int == 0
    }

    /// The wait after one more attempt.
    pub open spec fn polled(self, acked: bool) -> TouchWait {
        match self {
            TouchWait::Polling { elapsed_ms } => {
                let now = (elapsed_ms + TOUCH_POLL_MS) as u32;
                if acked {
                    TouchWait::Awake { after_ms: now }
                } else if now < TOUCH_TIMEOUT_MS {
                    TouchWait::Polling { elapsed_ms: now }
                } else {
                    TouchWait::GaveUp
                }
            },
            other => other,
        }
    }

    /// How many attempts are left at most.
    pub open spec fn polls_left(self) -> int {
        match self {
            TouchWait::Polling { elapsed_ms } => (TOUCH_TIMEOUT_MS - elapsed_ms) / TOUCH_POLL_MS as int,
            _ => 0,
        }
    }

    /// The start of the wait.
    pub fn new() -> (r: TouchWait)
        ensures
            r == (TouchWait::Polling { elapsed_ms: 0 }),
            r.at_poll(),
    {
        TouchWait::Polling { elapsed_ms: 0 }
    }

    /// The wait after one more attempt, which succeeded if `acked`.
    pub fn step(self, acked: bool) -> (r: TouchWait)
        requires
            self.at_poll(),
        ensures
            r == self.polled(acked),
            r.at_poll(),
    {
        match self {
            TouchWait::Polling { elapsed_ms } => {
                let now: u32 = elapsed_ms + TOUCH_POLL_MS;
                if acked {
                    TouchWait::Awake { after_ms: now }
                } else if now < TOUCH_TIMEOUT_MS {
                    TouchWait::Polling { elapsed_ms: now }
                } else {
                    TouchWait::GaveUp
                }
            },
            other => other,
        }
    }
}

/// The wait for the touch controller ends after ten attempts at most.
pub proof fn touch_wait_ends(w: TouchWait, acked: bool)
    requires
        w.at_poll(),
    ensures
        (TouchWait::Polling { elapsed_ms: 0 }).polls_left() == 10,
        w is Polling ==> 0 <= w.polled(acked).polls_left() < w.polls_left(),
        w.polls_left() <= 0 ==> !(w is Polling),
        w.polled(acked) matches TouchWait::Awake { after_ms } ==> w is Awake || after_ms <= TOUCH_TIMEOUT_MS,
{
}

impl C6Board {
    /// Check the PMU and enable its ADC channels, its battery monitor and
    /// the charge profile. The rails are not configured: the PMU keeps
    /// their state across resets.
    pub fn init(i2c: &mut Bus) -> (r: (C6Board, Pmu, C6Report))
        ensures
            (final(i2c)@, r.2) == c6_setup(old(i2c)@),
            r.1.address() == pmu::DEFAULT_ADDRESS,
    {
        let pmu: Pmu = Pmu::new(Config::default());
        let chip_id: Option<u8> = match pmu.check_device(i2c) {
            Ok(id) => Some(id),
            Err(_) => None,
        };
        let adc_ok: bool = pmu.enable_all_adc(i2c).is_ok();
        let monitor_ok: bool = pmu.enable_battery_monitor(i2c).is_ok();
        let profile_ok: bool = set_charge_profile(&pmu, i2c).is_ok();
        let readback: ProfileReadback = read_charge_profile(&pmu, i2c);
        (C6Board, pmu, C6Report { chip_id, adc_ok, monitor_ok, profile_ok, readback })
    }

    /// The pins to arm right before light sleep: the boot button and the
    /// touch interrupt. No RTC interrupt is routed on this board.
    pub fn arm_wake_sources(&self) -> (r: [u8; 2])
        ensures
            r@ == seq![9u8, 15],
    {
        let pins: [u8; 2] = [9, 15];
        assert(pins@ =~= seq![9u8, 15]);
        pins
    }

    /// The CPU divider for a frequency: the clock is 160 MHz over one
    /// more than the divider. 240 MHz is out of this chip's reach and
    /// becomes 160.
    pub fn set_cpu_freq(&self, freq: CpuFreq) -> (r: u8)
        ensures
            r == (if freq == CpuFreq::Mhz80 { 1u8 } else { 0u8 }),
    {
        match freq {
            CpuFreq::Mhz80 => 1,  // 160 / 2 = 80
            CpuFreq::Mhz160 | CpuFreq::Mhz240 => 0,  // 160 / 1 = 160 (max)
        }
    }

    /// The fast-clock measurement `cal` that the sleep code is about to
    /// see; 0 means that the measurement timed out.
    pub fn sleep_clock_probe(&self, cal: u32) -> (r: Option<u32>)
        ensures
            r == Some(cal),
    {
        Some(cal)
    }

    /// What the measurement `cal` hands to the sleep code: the period to
    /// use, unless the measurement timed out (0). The sleep code then
    /// measures for itself.
    pub fn provided_period(&self, cal: u32) -> (r: Option<u32>)
        ensures
            r == (if cal != 0 { Some(cal) } else { None }),
    {
        if cal != 0 {
            Some(cal)
        } else {
            None
        }
    }

    /// Seconds of unbroken sleep after which the watchdog resets the
    /// chip: the heartbeat wakes it every 5 s, so by then it is stuck.
    pub fn sleep_watchdog_timeout(&self) -> (r: Option<u64>)
        ensures
            r == Some(30u64),
    {
        Some(30)
    }
}

} // verus!
