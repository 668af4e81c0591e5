//! PCF85063A RTC driver.
//!
//! NXP PCF85063ATL on the shared I2C bus. Default address: 0x51.
//! Interrupt pin: active-low, driven on alarm or timer match.
//!
//! Register map (PCF85063A datasheet):
//!
//!   Control and status registers:
//!   0x00  Control_1     - [7]=EXT_TEST [5]=STOP [4]=SR [2]=CIE [1]=12_24 [0]=CAP_SEL
//!   0x01  Control_2     - [7]=AIE [6]=AF [5]=MI [4]=HMI [3]=TF [2:0]=COF[2:0]
//!   0x02  Offset        - [7]=MODE [6:0]=OFFSET[6:0]
//!   0x03  RAM_byte      - [7:0]=B[7:0]
//!
//!   Time and date registers:
//!   0x04  Seconds       - [7]=OS (oscillator-stop flag) [6:0]=BCD seconds
//!   0x05  Minutes       - [6:0]=BCD minutes
//!   0x06  Hours         - [5:0]=BCD hours (24h mode)
//!   0x07  Days          - [5:0]=BCD days (1-31)
//!   0x08  Weekdays      - [2:0]=weekday (0=Sunday...6=Saturday)
//!   0x09  Months        - [4:0]=BCD months (1-12)
//!   0x0A  Years         - [7:0]=BCD years (00-99, i.e. 2000-2099)
//!
//!   Alarm registers (AEN bit 7: 1 = field disabled / not compared):
//!   0x0B  Second_alarm  - [7]=AEN_S [6:0]=BCD seconds
//!   0x0C  Minute_alarm  - [7]=AEN_M [6:0]=BCD minutes
//!   0x0D  Hour_alarm    - [7]=AEN_H [5:0]=BCD hours
//!   0x0E  Day_alarm     - [7]=AEN_D [5:0]=BCD days
//!   0x0F  Weekday_alarm - [7]=AEN_W [2:0]=weekday
//!
//!   Timer registers:
//!   0x10  Timer_value   - [7:0]=T[7:0]
//!   0x11  Timer_mode    - [4:3]=TCF[1:0] [2]=TE [1]=TIE [0]=TI_TP
//!
//! The bus is passed by mutable reference on each call so it can be
//! shared with the touch controller, PMU, and any other I2C peripheral.

use vstd::prelude::*;
use crate::bus::{chain, Bus, Fault, Session};
use crate::chip::{
    read_gives_the_register, read_gives_the_registers, write_is_kept, written_register_is_held, Registers,
};

pub mod types;

pub use types::{Alarm, ClkoutFreq, DateTime, Error, OffsetMode, RtcStatus, TimerClock, TimerOutput};

verus! {

/// Default I2C address for the PCF85063A (fixed, not configurable).
pub const DEFAULT_ADDRESS: u8 = 0x51;

// ---- Register addresses -----------------------------------------------------

pub const REG_CTRL1: u8 = 0x00;
pub const REG_CTRL2: u8 = 0x01;
pub const REG_OFFSET: u8 = 0x02;
pub const REG_RAM: u8 = 0x03;
pub const REG_SECONDS: u8 = 0x04; // burst start for time: 0x04-0x0A (7 bytes)
pub const REG_ALARM_SECOND: u8 = 0x0B; // burst start for alarm: 0x0B-0x0F (5 bytes)
pub const REG_TIMER_VALUE: u8 = 0x10;
pub const REG_TIMER_MODE: u8 = 0x11;

// ---- Control_1 bit masks ----------------------------------------------------

pub const CTRL1_STOP: u8 = 0x20; // Clock stopped
pub const CTRL1_12_24: u8 = 0x02; // 12h mode
pub const CTRL1_CAP_SEL: u8 = 0x01; // Quartz capacitor selection
pub const CTRL1_RESET: u8 = 0x58; // Software reset

// ---- Control_2 bit masks ----------------------------------------------------

pub const CTRL2_AIE: u8 = 0x80; // Alarm Interrupt Enable - drives INT# pin on alarm
pub const CTRL2_AF: u8 = 0x40; // Alarm Flag - set by chip on match, write 0 to clear
pub const CTRL2_MI: u8 = 0x20; // Minute Interrupt - pulses INT# at second=0 every minute
pub const CTRL2_HMI: u8 = 0x10; // Half-Minute Interrupt - pulses INT# at second=0 and second=30
pub const CTRL2_TF: u8 = 0x08; // Timer Flag - set by chip on timer expiry, write 0 to clear
pub const CTRL2_COF: u8 = 0x07; // COF[2:0] mask - CLKOUT frequency bits

// ---- Offset and timer bit masks ---------------------------------------------

pub const OFFSET_MODE: u8 = 0x80; // Coarse mode
pub const TIMER_TE: u8 = 0x04; // Timer Enable
pub const TIMER_TIE: u8 = 0x02; // Timer Interrupt Enable - drives INT# pin on expiry
pub const TIMER_TI_TP: u8 = 0x01; // 0 = interrupt (INT# held low), 1 = pulse

/// Oscillator-stop flag in the Seconds register.
pub const SECONDS_OS: u8 = 0x80;

/// Set in an alarm register to disable (not compare) that field.
pub const AEN: u8 = 0x80;

// ---- BCD --------------------------------------------------------------------

/// The number that a BCD byte stands for.
pub open spec fn bcd_value(b: u8) -> u8 {
    (b / 16 * 10 + b % 16) as u8
}

/// The BCD byte of a number: its tens in the high nibble (modulo 16), its
/// ones in the low one.
pub open spec fn bcd(n: u8) -> u8 {
    (n / 10 % 16 * 16 + n % 10) as u8
}

fn bcd2bin(b: u8) -> (r: u8)
    ensures
        r == bcd_value(b),
{
    (b / 16) * 10 + b % 16
}

fn bin2bcd(n: u8) -> (r: u8)
    ensures
        r == bcd(n),
{
    (n / 10) % 16 * 16 + n % 10
}

/// A two-digit number survives BCD, and its code fits 7 bits below 80.
pub proof fn bcd_round_trip(n: u8)
    requires
        n < 100,
    ensures
        bcd_value(bcd(n)) == n,
        n < 80 ==> bcd(n) < 0x80,
        n < 40 ==> bcd(n) < 0x40,
        n < 20 ==> bcd(n) < 0x20,
{
}

// ---- Register contents ------------------------------------------------------

/// The time registers that hold a date and time.
pub open spec fn time_bytes(dt: DateTime) -> Seq<u8> {
    seq![
        bcd(dt.second),
        bcd(dt.minute),
        bcd(dt.hour),
        bcd(dt.day),
        (dt.weekday as int % 8) as u8,
        bcd(dt.month),
        bcd(((dt.year - 2000) % 256) as u8),
    ]
}

/// The date and time that the time registers hold.
pub open spec fn time_of(b: Seq<u8>) -> DateTime {
    DateTime {
        second: bcd_value((b[0] as int % 128) as u8),
        minute: bcd_value((b[1] as int % 128) as u8),
        hour: bcd_value((b[2] as int % 64) as u8),
        day: bcd_value((b[3] as int % 64) as u8),
        weekday: bcd_value((b[4] as int % 8) as u8),
        month: bcd_value((b[5] as int % 32) as u8),
        year: (2000 + bcd_value(b[6])) as u16,
    }
}

/// An alarm register: BCD, or disabled.
pub open spec fn alarm_byte(v: Option<u8>) -> u8 {
    match v {
        Some(n) => bcd(n),
        None => AEN,
    }
}

/// The alarm registers of an alarm.
pub open spec fn alarm_bytes(a: Alarm) -> Seq<u8> {
    seq![
        alarm_byte(a.second),
        alarm_byte(a.minute),
        alarm_byte(a.hour),
        alarm_byte(a.day),
        match a.weekday {
            Some(w) => (w as int % 8) as u8,
            None => AEN,
        },
    ]
}

/// The field of an alarm register of which `size` values are in use.
pub open spec fn alarm_field(b: u8, size: int) -> Option<u8> {
    if b >= 0x80 { None } else { Some(bcd_value((b as int % size) as u8)) }
}

/// The alarm that the alarm registers hold.
pub open spec fn alarm_of(b: Seq<u8>) -> Alarm {
    Alarm {
        second: alarm_field(b[0], 128),
        minute: alarm_field(b[1], 128),
        hour: alarm_field(b[2], 64),
        day: alarm_field(b[3], 64),
        weekday: if b[4] >= 0x80 { None } else { Some((b[4] as int % 8) as u8) },
    }
}

proof fn sixty_read_back(n: u8)
    requires
        n < 60,
    ensures
        bcd_value((bcd(n) as int % 128) as u8) == n,
        bcd(n) < 0x80,
{
}

proof fn thirty_read_back(n: u8)
    requires
        n < 40,
    ensures
        bcd_value((bcd(n) as int % 64) as u8) == n,
        bcd(n) < 0x40,
{
}

proof fn twelve_read_back(n: u8)
    requires
        n < 20,
    ensures
        bcd_value((bcd(n) as int % 32) as u8) == n,
{
}

/// What was set is read back: the time registers written for a date and
/// time within range hold that date and time.
#[verifier::rlimit(60)]
#[verifier::spinoff_prover]
pub proof fn time_round_trip(dt: DateTime)
    requires
        dt.in_range(),
    ensures
        time_of(time_bytes(dt)) == dt,
{
    let t = time_of(time_bytes(dt));
    assert(t.second == dt.second && t.minute == dt.minute) by {
        sixty_read_back(dt.second);
        sixty_read_back(dt.minute);
    }
    assert(t.hour == dt.hour && t.day == dt.day) by {
        thirty_read_back(dt.hour);
        thirty_read_back(dt.day);
    }
    assert(t.month == dt.month) by {
        twelve_read_back(dt.month);
    }
    assert(t.year == dt.year) by {
        bcd_round_trip((dt.year - 2000) as u8);
    }
}

/// Writing a time clears the oscillator-stop flag.
pub proof fn setting_clears_the_stop_flag(dt: DateTime)
    requires
        dt.in_range(),
    ensures
        time_bytes(dt)[0] < SECONDS_OS,
{
    bcd_round_trip(dt.second);
}

/// What was armed is read back: the alarm registers written for an alarm
/// within range hold that alarm, with `None` for what is not compared.
#[verifier::rlimit(60)]
#[verifier::spinoff_prover]
pub proof fn alarm_round_trip(a: Alarm)
    requires
        a.in_range(),
    ensures
        alarm_of(alarm_bytes(a)) == a,
{
    if let Some(v) = a.second {
        sixty_read_back(v);
    }
    if let Some(v) = a.minute {
        sixty_read_back(v);
    }
    if let Some(v) = a.hour {
        thirty_read_back(v);
    }
    if let Some(v) = a.day {
        thirty_read_back(v);
    }
}

// ---- What the driver puts on the bus ----------------------------------------

/// A transfer's outcome as an outcome of the driver.
pub open spec fn on_bus<T>(run: (Session, Result<T, Fault>)) -> (Session, Result<T, Error<Fault>>) {
    (run.0, match run.1 {
        Ok(v) => Ok(v),
        Err(f) => Err(Error::I2c(f)),
    })
}

/// A read of one register.
pub open spec fn reading(s: Session, addr: u8, r: u8) -> (Session, Result<u8, Error<Fault>>) {
    on_bus(s.read_reg(addr, r))
}

/// A write of one register.
pub open spec fn writing(s: Session, addr: u8, r: u8, val: u8) -> (Session, Result<(), Error<Fault>>) {
    on_bus(s.write_reg(addr, r, val))
}

/// Control_2 read, and what `f` makes of it written back.
pub open spec fn ctrl2_change(s: Session, addr: u8, f: spec_fn(u8) -> u8) -> (Session, Result<(), Error<Fault>>) {
    chain(reading(s, addr, REG_CTRL2), |s1: Session, v: u8| writing(s1, addr, REG_CTRL2, f(v)))
}

/// A test of the bits `mask` of a register.
pub open spec fn testing(s: Session, addr: u8, r: u8, mask: u8) -> (Session, Result<bool, Error<Fault>>) {
    chain(reading(s, addr, r), |s1: Session, v: u8| (s1, Ok(v & mask != 0)))
}

/// A check that the offset is in normal mode.
pub open spec fn normal_mode_check(s: Session, addr: u8) -> (Session, Result<(), Error<Fault>>) {
    chain(
        testing(s, addr, REG_OFFSET, OFFSET_MODE),
        |s1: Session, coarse: bool| (s1, if coarse { Err(Error::InvalidMode) } else { Ok(()) }),
    )
}

/// Control_1 for 24h mode, clock running, 7 pF capacitor; other bits
/// kept.
pub open spec fn running_ctrl1(v: u8) -> u8 {
    (v & !CTRL1_STOP & !CTRL1_12_24) | CTRL1_CAP_SEL
}

/// The initialisation once the oscillator-stop flag was read.
pub open spec fn initialising(s: Session, addr: u8, stopped: bool) -> (Session, Result<bool, Error<Fault>>) {
    chain(
        if stopped { writing(s, addr, REG_CTRL1, CTRL1_RESET) } else { (s, Ok(())) },
        |s1: Session, u1: ()|
            chain(
                reading(s1, addr, REG_CTRL1),
                |s2: Session, v: u8|
                    chain(
                        if running_ctrl1(v) != v {
                            writing(s2, addr, REG_CTRL1, running_ctrl1(v))
                        } else {
                            (s2, Ok(()))
                        },
                        |s3: Session, u3: ()| hygiene(s3, addr, stopped),
                    ),
            ),
    )
}

/// The whole initialisation.
pub open spec fn bringing_up(s: Session, addr: u8) -> (Session, Result<bool, Error<Fault>>) {
    chain(
        testing(s, addr, REG_SECONDS, SECONDS_OS),
        |s1: Session, stopped: bool| initialising(s1, addr, stopped),
    )
}

/// Interrupt enables and flags dropped, the timer's among them, and a
/// running timer stopped.
pub open spec fn hygiene(s: Session, addr: u8, stopped: bool) -> (Session, Result<bool, Error<Fault>>) {
    chain(
        writing(s, addr, REG_CTRL2, 0x00),
        |s1: Session, u1: ()|
            chain(
                reading(s1, addr, REG_TIMER_MODE),
                |s2: Session, mode: u8|
                    chain(
                        if mode & (TIMER_TE | TIMER_TIE) != 0 {
                            writing(s2, addr, REG_TIMER_MODE, mode & !(TIMER_TE | TIMER_TIE))
                        } else {
                            (s2, Ok(()))
                        },
                        |s3: Session, u3: ()| (s3, Ok(stopped)),
                    ),
            ),
    )
}

/// The time set: clock stopped, registers written, clock restarted.
pub open spec fn time_setting(s: Session, addr: u8, dt: DateTime) -> (Session, Result<(), Error<Fault>>) {
    chain(
        reading(s, addr, REG_CTRL1),
        |s1: Session, v: u8|
            chain(
                writing(s1, addr, REG_CTRL1, v | CTRL1_STOP),
                |s2: Session, u2: ()|
                    chain(
                        on_bus(s2.write(addr, seq![REG_SECONDS] + time_bytes(dt))),
                        |s3: Session, u3: ()| writing(s3, addr, REG_CTRL1, v & !CTRL1_STOP),
                    ),
            ),
    )
}

/// The time read: the seven time registers in one transfer.
pub open spec fn time_reading(s: Session, addr: u8) -> (Session, Result<DateTime, Error<Fault>>) {
    chain(on_bus(s.read_regs(addr, REG_SECONDS, 7)), |s1: Session, b: Seq<u8>| (s1, Ok(time_of(b))))
}

/// The alarm armed: registers written, stale flag cleared, interrupt
/// enabled.
pub open spec fn alarm_setting(s: Session, addr: u8, a: Alarm) -> (Session, Result<(), Error<Fault>>) {
    chain(
        on_bus(s.write(addr, seq![REG_ALARM_SECOND] + alarm_bytes(a))),
        |s1: Session, u: ()| ctrl2_change(s1, addr, |v: u8| (v & !CTRL2_AF) | CTRL2_AIE),
    )
}

/// The alarm read: the five alarm registers in one transfer.
pub open spec fn alarm_reading(s: Session, addr: u8) -> (Session, Result<Alarm, Error<Fault>>) {
    chain(on_bus(s.read_regs(addr, REG_ALARM_SECOND, 5)), |s1: Session, b: Seq<u8>| (s1, Ok(alarm_of(b))))
}

/// The Timer_mode byte of a running timer.
pub open spec fn timer_mode(clock: TimerClock, output: TimerOutput) -> u8 {
    (clock.code() * 8 + TIMER_TE + TIMER_TIE + (if output == TimerOutput::Pulse {
        TIMER_TI_TP as int
    } else {
        0
    })) as u8
}

/// The timer started: value, stale flag cleared, mode.
pub open spec fn timer_setting(s: Session, addr: u8, value: u8, clock: TimerClock, output: TimerOutput) -> (
    Session,
    Result<(), Error<Fault>>,
) {
    if value == 0 {
        (s, Err(Error::InvalidValue))
    } else {
        chain(
            writing(s, addr, REG_TIMER_VALUE, value),
            |s1: Session, u1: ()|
                chain(
                    ctrl2_change(s1, addr, |v: u8| v & !CTRL2_TF),
                    |s2: Session, u2: ()| writing(s2, addr, REG_TIMER_MODE, timer_mode(clock, output)),
                ),
        )
    }
}

/// The Offset byte: 7-bit two's complement, held within range, and the
/// mode bit.
pub open spec fn offset_byte(mode: OffsetMode, offset: i8) -> u8 {
    let held = if offset < -64 {
        -64
    } else if offset > 63 {
        63
    } else {
        offset as int
    };
    (held % 128 + (if mode == OffsetMode::Coarse { 128int } else { 0 })) as u8
}

/// The offset written; coarse mode is refused while a minute interrupt is
/// enabled.
pub open spec fn offset_setting(s: Session, addr: u8, mode: OffsetMode, offset: i8) -> (
    Session,
    Result<(), Error<Fault>>,
) {
    if mode == OffsetMode::Coarse {
        chain(
            testing(s, addr, REG_CTRL2, CTRL2_MI | CTRL2_HMI),
            |s1: Session, enabled: bool|
                if enabled {
                    (s1, Err(Error::InvalidMode))
                } else {
                    writing(s1, addr, REG_OFFSET, offset_byte(mode, offset))
                },
        )
    } else {
        writing(s, addr, REG_OFFSET, offset_byte(mode, offset))
    }
}

// ---- The driver -------------------------------------------------------------

/// PCF85063A RTC driver configuration.
#[derive(Debug, Clone, Copy, PartialEq, Eq, Structural)]
pub struct Config {
    /// I2C device address (default: [`DEFAULT_ADDRESS`]).
    pub address: u8,
}

impl Default for Config {
    fn default() -> (r: Config)
        ensures
            r.address == DEFAULT_ADDRESS,
    {
        Config { address: DEFAULT_ADDRESS }
    }
}

/// PCF85063A RTC driver.
///
/// Holds only the I2C address. The I2C bus is passed by mutable reference
/// on every call so it can be freely shared with other peripherals.
#[derive(Debug, Clone, Copy)]
pub struct Rtc {
    addr: u8,
}

/// A fault as an error of the driver.
fn bus_err<T>(r: Result<T, Fault>) -> (e: Result<T, Error<Fault>>)
    ensures
        match r {
            Ok(v) => e == Ok::<T, Error<Fault>>(v),
            Err(f) => e == Err::<T, Error<Fault>>(Error::I2c(f)),
        },
{
    match r {
        Ok(v) => Ok(v),
        Err(f) => Err(Error::I2c(f)),
    }
}

fn alarm_code(v: Option<u8>) -> (r: u8)
    ensures
        r == alarm_byte(v),
{
    match v {
        Some(n) => bin2bcd(n),
        None => AEN,
    }
}

fn alarm_decode(b: u8, size: u8) -> (r: Option<u8>)
    requires
        size > 0,
    ensures
        r == alarm_field(b, size as int),
{
    if b >= AEN {
        None
    } else {
        Some(bcd2bin(b % size))
    }
}

impl Rtc {
    /// The chip's I2C address.
    pub closed spec fn address(&self) -> u8 {
        self.addr
    }

    /// Create a new RTC driver instance.
    pub fn new(config: Config) -> (r: Rtc)
        ensures
            r.address() == config.address,
    {
        Rtc { addr: config.address }
    }

    // ---- Initialisation -----------------------------------------------------

    /// Initialise the PCF85063A.
    ///
    /// Reads the oscillator-stop (OS) flag FIRST and only performs the
    /// software reset when it is set - i.e. when the chip genuinely lost
    /// power and its registers are untrustworthy. A chip found running on
    /// backup power keeps its time: the software reset wipes the time
    /// registers and sets OS itself.
    ///
    /// Either way the volatile machinery is left in a known state:
    /// Control_1 gets 24h mode, clock running, 7 pF quartz capacitor;
    /// alarm/timer interrupt enables and latched flags are cleared, and a
    /// running countdown timer is stopped.
    ///
    /// Returns `Ok(true)` if the stored time was invalid (power was
    /// lost). Call `set()` with a known time then - the seconds write
    /// also clears OS.
    pub fn init(&self, i2c: &mut Bus) -> (e: Result<bool, Error<Fault>>)
        ensures
            (final(i2c)@, e) == bringing_up(old(i2c)@, self.address()),
    {
        // Read the flag before touching anything - the reset below would
        // set it. This read doubles as the device-responding probe.
        let os_was_set: bool = self.read_register(i2c, REG_SECONDS)? & SECONDS_OS != 0;
        if os_was_set {
            // Power was lost: register contents are undefined per the
            // datasheet, and the documented recovery is the software
            // reset, followed by the caller writing a known time.
            self.write_register(i2c, REG_CTRL1, CTRL1_RESET)?;
        }
        // Ensure 24h mode, clock running, and 7 pF capacitor selected.
        // Preserve other bits.
        let ctrl1: u8 = self.read_register(i2c, REG_CTRL1)?;
        let ctrl1_new: u8 = (ctrl1 & !CTRL1_STOP & !CTRL1_12_24) | CTRL1_CAP_SEL;
        if ctrl1_new != ctrl1 {
            self.write_register(i2c, REG_CTRL1, ctrl1_new)?;
        }
        // Boot hygiene on the volatile side, non-destructive to the time:
        // drop alarm/timer interrupt enables and latched flags, and stop a
        // still-running countdown timer.
        self.write_register(i2c, REG_CTRL2, 0x00)?;
        let mode: u8 = self.read_register(i2c, REG_TIMER_MODE)?;
        if mode & (TIMER_TE | TIMER_TIE) != 0 {
            self.write_register(i2c, REG_TIMER_MODE, mode & !(TIMER_TE | TIMER_TIE))?;
        }
        Ok(os_was_set)
    }

    // ---- Time read / write --------------------------------------------------

    /// Read the current date and time.
    pub fn get(&self, i2c: &mut Bus) -> (e: Result<DateTime, Error<Fault>>)
        ensures
            (final(i2c)@, e) == time_reading(old(i2c)@, self.address()),
    {
        // Burst-read 7 bytes: Seconds, Minutes, Hours, Days, Weekdays,
        // Months, Years.
        let b: Vec<u8> = bus_err(i2c.read_regs(self.addr, REG_SECONDS, 7))?;
        Ok(
            DateTime {
                second: bcd2bin(b[0] % 128),  // mask out OS flag
                minute: bcd2bin(b[1] % 128),
                hour: bcd2bin(b[2] % 64),
                day: bcd2bin(b[3] % 64),
                weekday: bcd2bin(b[4] % 8),
                month: bcd2bin(b[5] % 32),
                year: 2000 + bcd2bin(b[6]) as u16,
            },
        )
    }

    /// Write a new date and time. Also clears the oscillator-stop flag.
    pub fn set(&self, i2c: &mut Bus, dt: &DateTime) -> (e: Result<(), Error<Fault>>)
        requires
            dt.year >= 2000,
        ensures
            (final(i2c)@, e) == time_setting(old(i2c)@, self.address(), *dt),
    {
        // Stop the clock before writing (STOP bit = 1), then restart
        // after.
        let ctrl1: u8 = self.read_register(i2c, REG_CTRL1)?;
        self.write_register(i2c, REG_CTRL1, ctrl1 | CTRL1_STOP)?;
        // Burst-write 7 time registers. Seconds bit 7 = 0 clears the OS
        // flag.
        let buf: [u8; 8] = [
            REG_SECONDS,
            bin2bcd(dt.second),
            bin2bcd(dt.minute),
            bin2bcd(dt.hour),
            bin2bcd(dt.day),
            dt.weekday % 8,
            bin2bcd(dt.month),
            bin2bcd(((dt.year - 2000) % 256) as u8),
        ];
        assert(buf@ =~= seq![REG_SECONDS] + time_bytes(*dt));
        bus_err(i2c.write(self.addr, &buf))?;
        // Restart the clock (clear STOP bit).
        self.write_register(i2c, REG_CTRL1, ctrl1 & !CTRL1_STOP)
    }

    // ---- Status -------------------------------------------------------------

    /// Check whether the oscillator-stop (OS) flag is set.
    ///
    /// The flag is set when the chip loses power or the oscillator stops
    /// for any reason. A set flag means the time registers are unreliable
    /// and should be re-written with a known time via [`Self::set`].
    pub fn oscillator_stopped(&self, i2c: &mut Bus) -> (e: Result<bool, Error<Fault>>)
        ensures
            (final(i2c)@, e) == testing(old(i2c)@, self.address(), REG_SECONDS, SECONDS_OS),
    {
        Ok(self.read_register(i2c, REG_SECONDS)? & SECONDS_OS != 0)
    }

    /// Read Control_2 and return a snapshot of all interrupt/flag bits: a
    /// single I2C read that tells everything the INT# pin could be driven
    /// by.
    pub fn read_status(&self, i2c: &mut Bus) -> (e: Result<RtcStatus, Error<Fault>>)
        ensures
            (final(i2c)@, e) == chain(
                reading(old(i2c)@, self.address(), REG_CTRL2),
                |s: Session, v: u8|
                    (
                        s,
                        Ok::<RtcStatus, Error<Fault>>(
                            RtcStatus {
                                alarm_flag: v & CTRL2_AF != 0,
                                alarm_ie: v & CTRL2_AIE != 0,
                                timer_flag: v & CTRL2_TF != 0,
                                minute_ie: v & CTRL2_MI != 0,
                                half_min_ie: v & CTRL2_HMI != 0,
                            },
                        ),
                    ),
            ),
    {
        let ctrl2: u8 = self.read_register(i2c, REG_CTRL2)?;
        Ok(
            RtcStatus {
                alarm_flag: ctrl2 & CTRL2_AF != 0,
                alarm_ie: ctrl2 & CTRL2_AIE != 0,
                timer_flag: ctrl2 & CTRL2_TF != 0,
                minute_ie: ctrl2 & CTRL2_MI != 0,
                half_min_ie: ctrl2 & CTRL2_HMI != 0,
            },
        )
    }

    // ---- Alarm --------------------------------------------------------------

    /// Program the alarm and enable the INT# interrupt pin.
    ///
    /// Only fields set to `Some(value)` are compared; `None` fields are
    /// ignored by the chip (AEN bit set). The alarm fires - and the INT#
    /// pin is driven low - when all enabled fields match simultaneously.
    ///
    /// Any previously pending alarm flag is cleared before the new alarm
    /// is armed, so the caller does not get a spurious interrupt.
    ///
    /// Call [`Self::clear_alarm_flag`] inside the interrupt handler after
    /// reading the flag to re-arm the INT# pin for the next match.
    pub fn set_alarm(&self, i2c: &mut Bus, alarm: &Alarm) -> (e: Result<(), Error<Fault>>)
        ensures
            (final(i2c)@, e) == alarm_setting(old(i2c)@, self.address(), *alarm),
    {
        let buf: [u8; 6] = [
            REG_ALARM_SECOND,
            alarm_code(alarm.second),
            alarm_code(alarm.minute),
            alarm_code(alarm.hour),
            alarm_code(alarm.day),
            match alarm.weekday {
                Some(w) => w % 8,
                None => AEN,
            },
        ];
        assert(buf@ =~= seq![REG_ALARM_SECOND] + alarm_bytes(*alarm));
        bus_err(i2c.write(self.addr, &buf))?;
        // Clear any stale AF flag, then enable AIE. Preserve TF and COF
        // bits.
        let ctrl2: u8 = self.read_register(i2c, REG_CTRL2)?;
        self.write_register(i2c, REG_CTRL2, (ctrl2 & !CTRL2_AF) | CTRL2_AIE)
    }

    /// Disable the alarm: set AEN=1 on all fields, clear AIE and AF.
    ///
    /// After this call the INT# pin will not be driven by the alarm, and
    /// any pending alarm interrupt is acknowledged.
    pub fn disable_alarm(&self, i2c: &mut Bus) -> (e: Result<(), Error<Fault>>)
        ensures
            (final(i2c)@, e) == chain(
                on_bus(old(i2c)@.write(self.address(), seq![REG_ALARM_SECOND, AEN, AEN, AEN, AEN, AEN])),
                |s: Session, u: ()| ctrl2_change(s, self.address(), |v: u8| v & !(CTRL2_AIE | CTRL2_AF)),
            ),
    {
        let buf: [u8; 6] = [REG_ALARM_SECOND, AEN, AEN, AEN, AEN, AEN];
        assert(buf@ =~= seq![REG_ALARM_SECOND, AEN, AEN, AEN, AEN, AEN]);
        bus_err(i2c.write(self.addr, &buf))?;
        // Clear AIE and AF, preserve TF and COF.
        let ctrl2: u8 = self.read_register(i2c, REG_CTRL2)?;
        self.write_register(i2c, REG_CTRL2, ctrl2 & !(CTRL2_AIE | CTRL2_AF))
    }

    /// Returns `true` if the alarm flag (AF) is set.
    ///
    /// Use this for polling. In interrupt-driven code, call this inside
    /// the handler to confirm the interrupt source is the alarm (not the
    /// timer).
    pub fn alarm_triggered(&self, i2c: &mut Bus) -> (e: Result<bool, Error<Fault>>)
        ensures
            (final(i2c)@, e) == testing(old(i2c)@, self.address(), REG_CTRL2, CTRL2_AF),
    {
        Ok(self.read_register(i2c, REG_CTRL2)? & CTRL2_AF != 0)
    }

    /// Clear the alarm flag (AF) to re-arm the INT# pin.
    ///
    /// Call this after handling an alarm interrupt. Does not disable the
    /// alarm - it will fire again on the next match.
    pub fn clear_alarm_flag(&self, i2c: &mut Bus) -> (e: Result<(), Error<Fault>>)
        ensures
            (final(i2c)@, e) == ctrl2_change(old(i2c)@, self.address(), |v: u8| v & !CTRL2_AF),
    {
        let ctrl2: u8 = self.read_register(i2c, REG_CTRL2)?;
        self.write_register(i2c, REG_CTRL2, ctrl2 & !CTRL2_AF)
    }

    /// Read back the currently programmed alarm.
    ///
    /// Fields whose AEN bit is set (disabled / not compared) are returned
    /// as `None`, matching the representation used by
    /// [`Self::set_alarm`].
    pub fn get_alarm(&self, i2c: &mut Bus) -> (e: Result<Alarm, Error<Fault>>)
        ensures
            (final(i2c)@, e) == alarm_reading(old(i2c)@, self.address()),
    {
        let b: Vec<u8> = bus_err(i2c.read_regs(self.addr, REG_ALARM_SECOND, 5))?;
        Ok(
            Alarm {
                second: alarm_decode(b[0], 128),
                minute: alarm_decode(b[1], 128),
                hour: alarm_decode(b[2], 64),
                day: alarm_decode(b[3], 64),
                weekday: if b[4] >= AEN { None } else { Some(b[4] % 8) },
            },
        )
    }

    // ---- Periodic minute / half-minute interrupts ---------------------------
    //
    // MI and HMI are pre-defined timers that generate interrupt pulses on
    // INT#, running in sync with the seconds counter. They are
    // independent of the alarm and countdown timer.
    //
    // MI and HMI must only be used when the frequency offset is set to
    // normal mode (MODE bit = 0 in the Offset register). The enable
    // methods check this and return `Err` if MODE = 1 (coarse).

    /// Enable the minute interrupt.
    ///
    /// The PCF85063A pulses INT# low once per minute when the seconds
    /// counter rolls over to 0. The pulse is 1/64 s wide. The first pulse
    /// after enabling arrives within 1-59 seconds; subsequent pulses are
    /// exactly 60 seconds apart.
    ///
    /// Returns `Err` if the offset register is in coarse mode (MODE=1),
    /// which is incompatible with MI/HMI per the datasheet.
    pub fn enable_minute_interrupt(&self, i2c: &mut Bus) -> (e: Result<(), Error<Fault>>)
        ensures
            (final(i2c)@, e) == chain(
                normal_mode_check(old(i2c)@, self.address()),
                |s: Session, u: ()| ctrl2_change(s, self.address(), |v: u8| v | CTRL2_MI),
            ),
    {
        self.check_offset_normal_mode(i2c)?;
        let ctrl2: u8 = self.read_register(i2c, REG_CTRL2)?;
        self.write_register(i2c, REG_CTRL2, ctrl2 | CTRL2_MI)
    }

    /// Enable the half-minute interrupt.
    ///
    /// The PCF85063A pulses INT# low twice per minute - at second=0 and
    /// second=30. The pulse is 1/64 s wide. The first pulse after
    /// enabling arrives within 1-29 seconds; subsequent pulses are
    /// exactly 30 seconds apart.
    ///
    /// Note: enabling MI on top of HMI is allowed but not
    /// distinguishable, since HMI already fires at second=0.
    ///
    /// Returns `Err` if the offset register is in coarse mode (MODE=1),
    /// which is incompatible with MI/HMI per the datasheet.
    pub fn enable_half_minute_interrupt(&self, i2c: &mut Bus) -> (e: Result<(), Error<Fault>>)
        ensures
            (final(i2c)@, e) == chain(
                normal_mode_check(old(i2c)@, self.address()),
                |s: Session, u: ()| ctrl2_change(s, self.address(), |v: u8| v | CTRL2_HMI),
            ),
    {
        self.check_offset_normal_mode(i2c)?;
        let ctrl2: u8 = self.read_register(i2c, REG_CTRL2)?;
        self.write_register(i2c, REG_CTRL2, ctrl2 | CTRL2_HMI)
    }

    /// Disable the minute interrupt (MI). Does not touch HMI.
    pub fn disable_minute_interrupt(&self, i2c: &mut Bus) -> (e: Result<(), Error<Fault>>)
        ensures
            (final(i2c)@, e) == ctrl2_change(old(i2c)@, self.address(), |v: u8| v & !CTRL2_MI),
    {
        let ctrl2: u8 = self.read_register(i2c, REG_CTRL2)?;
        self.write_register(i2c, REG_CTRL2, ctrl2 & !CTRL2_MI)
    }

    /// Disable the half-minute interrupt (HMI). Does not touch MI.
    pub fn disable_half_minute_interrupt(&self, i2c: &mut Bus) -> (e: Result<(), Error<Fault>>)
        ensures
            (final(i2c)@, e) == ctrl2_change(old(i2c)@, self.address(), |v: u8| v & !CTRL2_HMI),
    {
        let ctrl2: u8 = self.read_register(i2c, REG_CTRL2)?;
        self.write_register(i2c, REG_CTRL2, ctrl2 & !CTRL2_HMI)
    }

    /// Disable both the minute and half-minute interrupts.
    ///
    /// After this call the INT# pin will no longer pulse on the minute or
    /// half-minute boundary (alarm and timer sources are unaffected).
    pub fn disable_minute_interrupts(&self, i2c: &mut Bus) -> (e: Result<(), Error<Fault>>)
        ensures
            (final(i2c)@, e) == ctrl2_change(old(i2c)@, self.address(), |v: u8| v & !(CTRL2_MI | CTRL2_HMI)),
    {
        let ctrl2: u8 = self.read_register(i2c, REG_CTRL2)?;
        self.write_register(i2c, REG_CTRL2, ctrl2 & !(CTRL2_MI | CTRL2_HMI))
    }

    // ---- Countdown timer ----------------------------------------------------

    /// Start the countdown timer.
    ///
    /// The timer counts down from `value` (1-255) at the rate set by
    /// `clock`. When the counter decrements from 1, the TF flag in
    /// Control_2 is set and the counter auto-reloads for the next period.
    ///
    /// If `output` is [`TimerOutput::Interrupt`], INT# is held low as
    /// long as TF is set - call [`Self::clear_timer_flag`] to release it.
    /// With [`TimerOutput::Pulse`], INT# pulses briefly on each expiry
    /// instead.
    ///
    /// The timer repeats indefinitely until [`Self::disable_timer`] is
    /// called.
    ///
    /// `value` must be 1-255. Passing 0 returns `Err(InvalidValue)`
    /// because loading 0 into the counter stops the hardware timer.
    pub fn set_timer(&self, i2c: &mut Bus, value: u8, clock: TimerClock, output: TimerOutput) -> (e: Result<
        (),
        Error<Fault>,
    >)
        ensures
            (final(i2c)@, e) == timer_setting(old(i2c)@, self.address(), value, clock, output),
    {
        // Value 0 stops the hardware timer - reject it.
        if value == 0 {
            return Err(Error::InvalidValue);
        }
        // Write the countdown value first.
        self.write_register(i2c, REG_TIMER_VALUE, value)?;
        // Clear any stale TF flag before enabling.
        self.clear_timer_flag(i2c)?;
        let ti_tp: u8 = match output {
            TimerOutput::Interrupt => 0,
            TimerOutput::Pulse => TIMER_TI_TP,
        };
        self.write_register(i2c, REG_TIMER_MODE, clock.bits() * 8 + TIMER_TE + TIMER_TIE + ti_tp)
    }

    /// Stop the countdown timer and clear the timer flag.
    ///
    /// Writes 0 to Timer_value (the hardware stop mechanism), clears TE
    /// and TIE, and sets TCF to 1/60 Hz as recommended by the datasheet
    /// for power saving when the timer is not in use.
    pub fn disable_timer(&self, i2c: &mut Bus) -> (e: Result<(), Error<Fault>>)
        ensures
            (final(i2c)@, e) == chain(
                writing(old(i2c)@, self.address(), REG_TIMER_VALUE, 0),
                |s1: Session, u1: ()|
                    chain(
                        writing(s1, self.address(), REG_TIMER_MODE, (TimerClock::Per60.code() * 8) as u8),
                        |s2: Session, u2: ()| ctrl2_change(s2, self.address(), |v: u8| v & !CTRL2_TF),
                    ),
            ),
    {
        // Load 0 into the countdown register - stops the timer in
        // hardware.
        self.write_register(i2c, REG_TIMER_VALUE, 0)?;
        // TI_TP is irrelevant when disabled, so write a clean byte.
        self.write_register(i2c, REG_TIMER_MODE, TimerClock::Per60.bits() * 8)?;
        self.clear_timer_flag(i2c)
    }

    /// Returns `true` if the timer flag (TF) is set.
    ///
    /// Use this for polling. In interrupt-driven code, call this inside
    /// the handler to confirm the interrupt source is the timer (not the
    /// alarm).
    pub fn timer_expired(&self, i2c: &mut Bus) -> (e: Result<bool, Error<Fault>>)
        ensures
            (final(i2c)@, e) == testing(old(i2c)@, self.address(), REG_CTRL2, CTRL2_TF),
    {
        Ok(self.read_register(i2c, REG_CTRL2)? & CTRL2_TF != 0)
    }

    /// Clear the timer flag (TF) to re-arm the INT# pin.
    ///
    /// Call this after handling a timer interrupt. The timer continues
    /// running and will fire again after the next full countdown.
    pub fn clear_timer_flag(&self, i2c: &mut Bus) -> (e: Result<(), Error<Fault>>)
        ensures
            (final(i2c)@, e) == ctrl2_change(old(i2c)@, self.address(), |v: u8| v & !CTRL2_TF),
    {
        let ctrl2: u8 = self.read_register(i2c, REG_CTRL2)?;
        self.write_register(i2c, REG_CTRL2, ctrl2 & !CTRL2_TF)
    }

    /// Read the current countdown value of the timer.
    ///
    /// While the timer is running this value decrements at the rate
    /// selected in [`Self::set_timer`]. When it reaches zero the timer
    /// reloads from the original value and TF is set.
    ///
    /// If the timer is stopped (TE = 0), this returns the last loaded
    /// value.
    pub fn read_timer_value(&self, i2c: &mut Bus) -> (e: Result<u8, Error<Fault>>)
        ensures
            (final(i2c)@, e) == reading(old(i2c)@, self.address(), REG_TIMER_VALUE),
    {
        self.read_register(i2c, REG_TIMER_VALUE)
    }

    // ---- CLKOUT -------------------------------------------------------------

    /// Set the CLKOUT pin frequency, or disable it.
    ///
    /// The CLKOUT pin outputs a square wave at the selected frequency.
    /// Use [`ClkoutFreq::Off`] to put the pin into high-impedance state.
    pub fn set_clkout(&self, i2c: &mut Bus, freq: ClkoutFreq) -> (e: Result<(), Error<Fault>>)
        ensures
            (final(i2c)@, e) == ctrl2_change(
                old(i2c)@,
                self.address(),
                |v: u8| (v & !CTRL2_COF) | freq.code(),
            ),
    {
        // COF[2:0] are the low 3 bits of Control_2. Preserve all other
        // bits.
        let ctrl2: u8 = self.read_register(i2c, REG_CTRL2)?;
        self.write_register(i2c, REG_CTRL2, (ctrl2 & !CTRL2_COF) | freq.bits())
    }

    // ---- Offset / calibration -----------------------------------------------

    /// Write a clock calibration offset to trim long-term drift.
    ///
    /// `offset` is a 7-bit two's complement value (`-64` to `+63`, held
    /// within that range). Positive values speed the clock up; negative
    /// values slow it down.
    ///
    /// **Note**: coarse mode (MODE=1) is incompatible with the minute and
    /// half-minute interrupts (MI/HMI). If either is currently enabled
    /// and coarse mode is requested, this returns `Err(InvalidMode)`.
    /// Disable MI/HMI first, or use normal mode.
    pub fn set_offset(&self, i2c: &mut Bus, mode: OffsetMode, offset: i8) -> (e: Result<(), Error<Fault>>)
        ensures
            (final(i2c)@, e) == offset_setting(old(i2c)@, self.address(), mode, offset),
    {
        // Coarse mode is incompatible with MI/HMI.
        let mode_bit: u8 = match mode {
            OffsetMode::Normal => 0,
            OffsetMode::Coarse => {
                let ctrl2: u8 = self.read_register(i2c, REG_CTRL2)?;
                if ctrl2 & (CTRL2_MI | CTRL2_HMI) != 0 {
                    return Err(Error::InvalidMode);
                }
                OFFSET_MODE
            },
        };
        let held: i16 = if offset < -64 {
            -64
        } else if offset > 63 {
            63
        } else {
            offset as i16
        };
        let bits: u8 = ((held + 128) % 128) as u8;
        self.write_register(i2c, REG_OFFSET, mode_bit + bits)
    }

    // ---- RAM byte -----------------------------------------------------------

    /// Read the single non-volatile RAM byte.
    ///
    /// This byte survives power cycles (as long as the RTC backup supply
    /// holds). Use it for a dirty-flag, a small config value, or a boot
    /// counter.
    pub fn read_ram(&self, i2c: &mut Bus) -> (e: Result<u8, Error<Fault>>)
        ensures
            (final(i2c)@, e) == reading(old(i2c)@, self.address(), REG_RAM),
    {
        self.read_register(i2c, REG_RAM)
    }

    /// Write the single non-volatile RAM byte.
    pub fn write_ram(&self, i2c: &mut Bus, value: u8) -> (e: Result<(), Error<Fault>>)
        ensures
            (final(i2c)@, e) == writing(old(i2c)@, self.address(), REG_RAM, value),
    {
        self.write_register(i2c, REG_RAM, value)
    }

    // ---- Private helpers ----------------------------------------------------

    /// Verify that the offset register is in normal mode (MODE=0).
    ///
    /// MI and HMI require normal mode. Returns `Err(InvalidMode)` if
    /// MODE=1 (coarse) is currently active.
    fn check_offset_normal_mode(&self, i2c: &mut Bus) -> (e: Result<(), Error<Fault>>)
        ensures
            (final(i2c)@, e) == normal_mode_check(old(i2c)@, self.address()),
    {
        let offset: u8 = self.read_register(i2c, REG_OFFSET)?;
        if offset & OFFSET_MODE != 0 {
            return Err(Error::InvalidMode);
        }
        Ok(())
    }

    fn read_register(&self, i2c: &mut Bus, r: u8) -> (e: Result<u8, Error<Fault>>)
        ensures
            (final(i2c)@, e) == reading(old(i2c)@, self.address(), r),
    {
        bus_err(i2c.read_reg(self.addr, r))
    }

    fn write_register(&self, i2c: &mut Bus, r: u8, val: u8) -> (e: Result<(), Error<Fault>>)
        ensures
            (final(i2c)@, e) == writing(old(i2c)@, self.address(), r, val),
    {
        bus_err(i2c.write_reg(self.addr, r, val))
    }
}

// ---- What is read back ------------------------------------------------------

/// What the boot hygiene leaves on a chip that keeps its registers: no
/// interrupt enabled, no flag latched, the timer stopped, and every
/// register but Control_2 and Timer_mode as it was.
pub proof fn hygiene_disarms(regs: Registers, addr: u8, s: Session, stopped: bool)
    requires
        regs.answers(addr, hygiene(s, addr, stopped).0),
    ensures
        regs.answers(addr, s),
        hygiene(s, addr, stopped).1 == Ok::<bool, Error<Fault>>(stopped),
        regs.now(addr, hygiene(s, addr, stopped).0).at(REG_CTRL2 as int) == 0,
        regs.now(addr, hygiene(s, addr, stopped).0).at(REG_TIMER_MODE as int) & (TIMER_TE | TIMER_TIE) == 0,
        forall|r: int|
            r != REG_CTRL2 && r != REG_TIMER_MODE ==> #[trigger] regs.now(addr, hygiene(s, addr, stopped).0).at(r)
                == regs.now(addr, s).at(r),
{
    let t = hygiene(s, addr, stopped).0;
    let (s1, r1) = s.write_reg(addr, REG_CTRL2, 0x00);
    if r1 is Err {
        assert(t == s1);
        written_register_is_held(regs, addr, s, REG_CTRL2, 0x00);
    } else {
        let (s2, r2) = s1.read_reg(addr, REG_TIMER_MODE);
        if r2 is Err {
            assert(t == s2);
            read_gives_the_register(regs, addr, s1, REG_TIMER_MODE);
        } else {
            let mode = r2->Ok_0;
            let val = mode & !(TIMER_TE | TIMER_TIE);
            if mode & (TIMER_TE | TIMER_TIE) != 0 {
                assert(t == s2.write_reg(addr, REG_TIMER_MODE, val).0);
                written_register_is_held(regs, addr, s2, REG_TIMER_MODE, val);
                assert((mode & !(0x04u8 | 0x02u8)) & (0x04u8 | 0x02u8) == 0) by (bit_vector);
            } else {
                assert(t == s2);
            }
            read_gives_the_register(regs, addr, s1, REG_TIMER_MODE);
            written_register_is_held(regs, addr, s, REG_CTRL2, 0x00);
        }
    }
}

/// A chip found running that keeps its registers keeps its time through
/// the initialisation, which leaves it in 24h mode with the clock running
/// on the 7 pF capacitor, and with nothing armed: no interrupt enabled,
/// no flag latched, the timer stopped.
pub proof fn init_keeps_a_running_clock(regs: Registers, addr: u8, s: Session)
    requires
        regs.answers(addr, bringing_up(s, addr).0),
        regs.now(addr, s).at(REG_SECONDS as int) & SECONDS_OS == 0,
    ensures
        bringing_up(s, addr).1 == Ok::<bool, Error<Fault>>(false),
        regs.now(addr, bringing_up(s, addr).0).at(REG_CTRL1 as int) == running_ctrl1(
            regs.now(addr, s).at(REG_CTRL1 as int),
        ),
        regs.now(addr, bringing_up(s, addr).0).at(REG_CTRL2 as int) == 0,
        regs.now(addr, bringing_up(s, addr).0).at(REG_TIMER_MODE as int) & (TIMER_TE | TIMER_TIE) == 0,
        forall|r: int|
            REG_SECONDS <= r < REG_SECONDS + 7 ==> #[trigger] regs.now(addr, bringing_up(s, addr).0).at(r)
                == regs.now(addr, s).at(r),
{
    let t = bringing_up(s, addr).0;
    let (s1, r1) = s.read_reg(addr, REG_SECONDS);
    if r1 is Err {
        assert(t == s1);
        read_gives_the_register(regs, addr, s, REG_SECONDS);
    } else {
        let stopped = r1->Ok_0 & SECONDS_OS != 0;
        assert(bringing_up(s, addr) == initialising(s1, addr, stopped));
        let (s2, r2) = if stopped {
            s1.write_reg(addr, REG_CTRL1, CTRL1_RESET)
        } else {
            (s1, Ok(()))
        };
        if r2 is Err {
            assert(t == s2);
            written_register_is_held(regs, addr, s1, REG_CTRL1, CTRL1_RESET);
        } else {
            let (s3, r3) = s2.read_reg(addr, REG_CTRL1);
            if r3 is Err {
                assert(t == s3);
                read_gives_the_register(regs, addr, s2, REG_CTRL1);
            } else {
                let v = r3->Ok_0;
                let (s4, r4) = if running_ctrl1(v) != v {
                    s3.write_reg(addr, REG_CTRL1, running_ctrl1(v))
                } else {
                    (s3, Ok(()))
                };
                if r4 is Err {
                    assert(t == s4);
                    written_register_is_held(regs, addr, s3, REG_CTRL1, running_ctrl1(v));
                } else {
                    assert(bringing_up(s, addr) == hygiene(s4, addr, stopped));
                    hygiene_disarms(regs, addr, s4, stopped);
                    if running_ctrl1(v) != v {
                        written_register_is_held(regs, addr, s3, REG_CTRL1, running_ctrl1(v));
                    }
                    read_gives_the_register(regs, addr, s2, REG_CTRL1);
                    if stopped {
                        written_register_is_held(regs, addr, s1, REG_CTRL1, CTRL1_RESET);
                    }
                    read_gives_the_register(regs, addr, s, REG_SECONDS);
                    assert(!stopped);
                }
            }
        }
    }
}

/// A time within range that was set on a chip that keeps its registers
/// is the time read from it, and the oscillator-stop flag is clear.
pub proof fn set_time_reads_back(regs: Registers, addr: u8, s: Session, dt: DateTime)
    requires
        dt.in_range(),
        regs.answers(addr, time_reading(time_setting(s, addr, dt).0, addr).0),
    ensures
        time_setting(s, addr, dt).1 is Ok,
        time_reading(time_setting(s, addr, dt).0, addr).1 == Ok::<DateTime, Error<Fault>>(dt),
        regs.now(addr, time_setting(s, addr, dt).0).at(REG_SECONDS as int) < SECONDS_OS,
{
    let t = time_setting(s, addr, dt).0;
    read_gives_the_registers(regs, addr, t, REG_SECONDS, 7);
    let (s1, r1) = s.read_reg(addr, REG_CTRL1);
    if r1 is Err {
        assert(t == s1);
        read_gives_the_register(regs, addr, s, REG_CTRL1);
    } else {
        let v = r1->Ok_0;
        let (s2, r2) = s1.write_reg(addr, REG_CTRL1, v | CTRL1_STOP);
        if r2 is Err {
            assert(t == s2);
            written_register_is_held(regs, addr, s1, REG_CTRL1, v | CTRL1_STOP);
        } else {
            let out = seq![REG_SECONDS] + time_bytes(dt);
            let (s3, r3) = s2.write(addr, out);
            if r3 is Err {
                assert(t == s3);
                write_is_kept(regs, addr, s2, out);
            } else {
                assert(t == s3.write_reg(addr, REG_CTRL1, v & !CTRL1_STOP).0);
                written_register_is_held(regs, addr, s3, REG_CTRL1, v & !CTRL1_STOP);
                write_is_kept(regs, addr, s2, out);
                let there = Seq::new(7, |j: int| regs.now(addr, t).at(REG_SECONDS + j));
                assert forall|j: int| 0 <= j < 7 implies #[trigger] there[j] == time_bytes(dt)[j] by {
                    assert(regs.now(addr, t).at(REG_SECONDS + j) == regs.now(addr, s3).at(REG_SECONDS + j));
                }
                assert(there =~= time_bytes(dt));
                assert(regs.now(addr, t).at(REG_SECONDS as int) == there[0]);
                time_round_trip(dt);
                setting_clears_the_stop_flag(dt);
            }
        }
    }
}

/// An alarm within range that was armed on a chip that keeps its
/// registers is the alarm read from it.
pub proof fn set_alarm_reads_back(regs: Registers, addr: u8, s: Session, a: Alarm)
    requires
        a.in_range(),
        regs.answers(addr, alarm_reading(alarm_setting(s, addr, a).0, addr).0),
    ensures
        alarm_setting(s, addr, a).1 is Ok,
        alarm_reading(alarm_setting(s, addr, a).0, addr).1 == Ok::<Alarm, Error<Fault>>(a),
{
    let t = alarm_setting(s, addr, a).0;
    read_gives_the_registers(regs, addr, t, REG_ALARM_SECOND, 5);
    let out = seq![REG_ALARM_SECOND] + alarm_bytes(a);
    let (s1, r1) = s.write(addr, out);
    if r1 is Err {
        assert(t == s1);
        write_is_kept(regs, addr, s, out);
    } else {
        let (s2, r2) = s1.read_reg(addr, REG_CTRL2);
        if r2 is Err {
            assert(t == s2);
            read_gives_the_register(regs, addr, s1, REG_CTRL2);
        } else {
            let val = (r2->Ok_0 & !CTRL2_AF) | CTRL2_AIE;
            assert(t == s2.write_reg(addr, REG_CTRL2, val).0);
            written_register_is_held(regs, addr, s2, REG_CTRL2, val);
            read_gives_the_register(regs, addr, s1, REG_CTRL2);
            write_is_kept(regs, addr, s, out);
            let there = Seq::new(5, |j: int| regs.now(addr, t).at(REG_ALARM_SECOND + j));
            assert forall|j: int| 0 <= j < 5 implies #[trigger] there[j] == alarm_bytes(a)[j] by {
                assert(regs.now(addr, t).at(REG_ALARM_SECOND + j) == regs.now(addr, s1).at(REG_ALARM_SECOND + j));
            }
            assert(there =~= alarm_bytes(a));
            alarm_round_trip(a);
        }
    }
}

} // verus!
