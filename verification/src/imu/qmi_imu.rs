//! QMI8658 adapter for the [`AnyImu`](super::AnyImu) task contract.

use vstd::prelude::*;
use super::{BootStep, ImuData, Progress, SelfTestAxes, SelfTestKind, SelfTestPoll};
use crate::bus::{Bus, Fault, Session};
use crate::qmi8658::{self, Config, Error, Odr, Qmi8658, WomConfig, WomInterrupt};

verus! {

// ---- Wake-on-motion tunables (datasheet section 9.4) ------------------------

/// Accelerometer ODR while in Wake-on-Motion sleep. A low ODR reduces
/// per-sample slopes from micro-vibrations (USB cable, desk noise) so the
/// threshold can reject noise while still catching real wrist motion.
pub const QMI_WOM_ACCEL_ODR: Odr = Odr::Hz31_25;

/// Motion threshold in milli-g for the WoM engine. Slopes smaller than
/// this are ignored. 80 mg filters out table vibrations; real wrist
/// motion produces much larger slopes.
pub const QMI_WOM_THRESHOLD_MG: u8 = 80;

/// Which interrupt pin WoM drives, and its idle-state value. INT1 starts
/// low and toggles high on each motion event; reading STATUS1 resets it.
pub const QMI_WOM_INTERRUPT: WomInterrupt = WomInterrupt::Int1Low;

/// Blanking time after WoM enable, in accelerometer samples. 63 is the
/// max of the 6-bit blanking field - at 31.25 Hz that's about 2 s, enough
/// to skip power-up transients.
pub const QMI_WOM_BLANKING_SAMPLES: u8 = 63;

/// Number of samples averaged for the initial gyro bias during bring-up.
/// At 125 Hz that's ~512 ms; the device should be held still during this
/// window (shortly after power-on).
pub const QMI_GYRO_BIAS_SAMPLES: u8 = 64;

/// Settling polls before a self-test actually runs (x10 ms task cadence =
/// 250 ms). A self-test started too soon after a soft reset or `init()`
/// times out on STATUSINT.bit0; 250 ms reliably clears that window.
/// Configuration is restored via `init()` after every test, so EVERY test
/// gets this settle, not just the first.
pub const QMI_ST_SETTLE_POLLS: u8 = 25;

/// Bring-up phases (see [`QmiImu::boot_step`]).
#[derive(Debug, Clone, Copy, PartialEq, Eq)]
pub enum QmiPhase {
    Reset,
    Init,
    Bias,
    Ready,
    Failed(&'static str),
}

/// The state of a [`QmiImu`].
pub ghost struct Qmi {
    pub addr: u8,
    pub bias: (i16, i16, i16),
    pub phase: QmiPhase,
    pub st: Option<(SelfTestKind, u8)>,
}

impl Qmi {
    /// The state before bring-up.
    pub open spec fn fresh() -> Qmi {
        Qmi { addr: qmi8658::ADDR, bias: (0i16, 0i16, 0i16), phase: QmiPhase::Reset, st: None }
    }
}

/// The Wake-on-Motion setting used for sleep.
pub open spec fn sleep_setting() -> WomConfig {
    WomConfig {
        threshold_mg: QMI_WOM_THRESHOLD_MG,
        interrupt: QMI_WOM_INTERRUPT,
        blanking_samples: QMI_WOM_BLANKING_SAMPLES,
    }
}

/// One step of the bring-up: reset, then initialisation and identity
/// read, then the gyro bias.
pub open spec fn boot(s: Session, q: Qmi) -> (Session, Qmi, BootStep) {
    match q.phase {
        QmiPhase::Reset => {
            let (s1, _) = qmi8658::writing(
                s,
                q.addr,
                qmi8658::registers::RESET,
                qmi8658::registers::RESET_VALUE,
            );
            (s1, Qmi { phase: QmiPhase::Init, ..q }, BootStep::Pending { delay_ms: 20 })
        },
        QmiPhase::Init => {
            let (s1, r1) = qmi8658::initialising(s, q.addr, Config::standard());
            if r1 is Err {
                (
                    s1,
                    Qmi { phase: QmiPhase::Failed("QMI8658 not found"), ..q },
                    BootStep::Failed("QMI8658 not found"),
                )
            } else {
                let (s2, _) = qmi8658::reading_pair(
                    s1,
                    q.addr,
                    qmi8658::registers::WHO_AM_I,
                    qmi8658::registers::REVISION_ID,
                );
                (s2, Qmi { phase: QmiPhase::Bias, ..q }, BootStep::Pending { delay_ms: 250 })
            }
        },
        QmiPhase::Bias => {
            let (s1, r1) = qmi8658::estimating(s, q.addr, QMI_GYRO_BIAS_SAMPLES as nat);
            (
                s1,
                Qmi {
                    phase: QmiPhase::Ready,
                    bias: match r1 {
                        Ok(b) => b,
                        Err(_) => q.bias,
                    },
                    ..q
                },
                BootStep::Ready,
            )
        },
        QmiPhase::Ready => (s, q, BootStep::Ready),
        QmiPhase::Failed(why) => (s, q, BootStep::Failed(why)),
    }
}

/// Sleep entry: sensors off, low accel ODR, WoM setting, accel on, stale
/// event cleared. Ends early where a step other than the ODR fails.
pub open spec fn entering(s: Session, addr: u8) -> Session {
    let (s1, r1) = qmi8658::writing(s, addr, qmi8658::registers::CTRL7, 0x00);
    let (s2, _) = qmi8658::rate_change(s1, addr, qmi8658::registers::CTRL2, QMI_WOM_ACCEL_ODR);
    let (s3, r3) = qmi8658::wom_config(
        s2,
        addr,
        sleep_setting().threshold_mg,
        qmi8658::wom_high(sleep_setting()),
    );
    let (s4, r4) = qmi8658::switching(
        s3,
        addr,
        qmi8658::registers::CTRL7,
        qmi8658::registers::ctrl7::ACCEL_EN,
        true,
    );
    if r1 is Err {
        s1
    } else if r3 is Err {
        s3
    } else if r4 is Err {
        s4
    } else {
        qmi8658::wom_check(s4, addr).0
    }
}

/// Sleep exit: pending event cleared, WoM off, normal configuration back.
pub open spec fn exiting(s: Session, addr: u8) -> Session {
    let (s1, _) = qmi8658::wom_check(s, addr);
    let (s2, _) = qmi8658::wom_config(s1, addr, 0x00, 0x00);
    qmi8658::initialising(s2, addr, Config::standard()).0
}

/// A self-test: the test, then the normal configuration, whatever the
/// outcome.
pub open spec fn testing(s: Session, addr: u8, kind: SelfTestKind) -> (Session, Progress) {
    let (s1, p) = match kind {
        SelfTestKind::Accel => {
            let (s1, r) = qmi8658::accel_testing(s, addr);
            (s1, match r {
                Ok(a) => Progress::Done { passed: a.passed, values: seq![a.x_mg, a.y_mg, a.z_mg] },
                Err(_) => Progress::Error,
            })
        },
        SelfTestKind::Gyro => {
            let (s1, r) = qmi8658::gyro_testing(s, addr);
            (s1, match r {
                Ok(g) => Progress::Done { passed: g.passed, values: seq![g.x_dps, g.y_dps, g.z_dps] },
                Err(_) => Progress::Error,
            })
        },
    };
    (qmi8658::initialising(s1, addr, Config::standard()).0, p)
}

/// One progress check of a self-test: polls that wait out the settle
/// window, then the test.
pub open spec fn polling(s: Session, q: Qmi) -> (Session, Qmi, Progress) {
    match q.st {
        None => (s, q, Progress::Error),
        Some((kind, polls)) => if polls < QMI_ST_SETTLE_POLLS {
            (s, Qmi { st: Some((kind, (polls + 1) as u8)), ..q }, Progress::Pending)
        } else {
            let (s1, p) = testing(s, q.addr, kind);
            (s1, Qmi { st: None, ..q }, p)
        },
    }
}

/// QMI8658 wrapped with its staged bring-up: soft reset, init and
/// identity read, a settling window, then gyro-bias collection. The boot
/// self-tests are NOT part of the machine - the shared task runs them
/// once bring-up reports `Ready`, the same as for every other chip.
#[derive(Debug, Clone, Copy)]
pub struct QmiImu {
    imu: Qmi8658,
    phase: QmiPhase,
    /// In-flight self-test: the requested kind plus the settle-poll count
    /// ([`QMI_ST_SETTLE_POLLS`]). Starting one only records the request;
    /// the test itself runs inline (bounded millisecond-scale waits in
    /// the driver) on the poll that ends the settle window.
    st_pending: Option<(SelfTestKind, u8)>,
}

impl View for QmiImu {
    type V = Qmi;

    closed spec fn view(&self) -> Qmi {
        Qmi { addr: self.imu.address(), bias: self.imu.bias(), phase: self.phase, st: self.st_pending }
    }
}

impl Default for QmiImu {
    fn default() -> (r: QmiImu)
        ensures
            r@ == Qmi::fresh(),
    {
        QmiImu::new()
    }
}

/// The default configuration.
fn standard() -> (c: Config)
    ensures
        c == Config::standard(),
{
    Default::default()
}

impl QmiImu {
    pub fn new() -> (r: QmiImu)
        ensures
            r@ == Qmi::fresh(),
    {
        QmiImu { imu: Qmi8658::new(standard()), phase: QmiPhase::Reset, st_pending: None }
    }

    /// Advance the bring-up by one step.
    pub fn boot_step(&mut self, i2c: &mut Bus) -> (r: BootStep)
        ensures
            (final(i2c)@, final(self)@, r) == boot(old(i2c)@, old(self)@),
    {
        match self.phase {
            QmiPhase::Reset => {
                // Soft reset to clear any leftover state from a previous
                // boot (WoM config, pedometer, etc.); on a failure go on
                // anyway.
                let _ = self.imu.soft_reset(i2c);
                self.phase = QmiPhase::Init;
                BootStep::Pending { delay_ms: 20 }
            },
            QmiPhase::Init => {
                let config: Config = standard();
                if self.imu.init(i2c, &config).is_err() {
                    self.phase = QmiPhase::Failed("QMI8658 not found");
                    return BootStep::Failed("QMI8658 not found");
                }
                let _ = self.imu.read_ids(i2c);
                self.phase = QmiPhase::Bias;
                // Settling window before the next chip interaction -
                // right after reset + init the chip needs ~250 ms before
                // self-tests/sampling behave.
                BootStep::Pending { delay_ms: 250 }
            },
            QmiPhase::Bias => {
                match self.imu.collect_gyro_bias(i2c, QMI_GYRO_BIAS_SAMPLES) {
                    Err(_) => {},
                    Ok(b) => {
                        self.imu.set_gyro_bias(b.0, b.1, b.2);
                    },
                }
                self.phase = QmiPhase::Ready;
                BootStep::Ready
            },
            QmiPhase::Ready => BootStep::Ready,
            QmiPhase::Failed(why) => BootStep::Failed(why),
        }
    }

    /// One motion snapshot.
    pub fn read(&self, i2c: &mut Bus) -> (r: Result<ImuData, ()>)
        ensures
            final(i2c)@ == qmi8658::sampling(old(i2c)@, self@.addr, self@.bias).0,
            match qmi8658::sampling(old(i2c)@, self@.addr, self@.bias).1 {
                Ok(d) => r == Ok::<ImuData, ()>(d),
                Err(_) => r == Err::<ImuData, ()>(()),
            },
    {
        match self.imu.read(i2c) {
            Ok(d) => Ok(d),
            Err(_) => Err(()),
        }
    }

    /// Reconfigure for the system's sleep phase: sensors off, low-power
    /// accel ODR, WoM threshold/pin/blanking via CTRL9, accel back on.
    pub fn enter_wom(&self, i2c: &mut Bus)
        ensures
            final(i2c)@ == entering(old(i2c)@, self@.addr),
    {
        if self.imu.disable_all(i2c).is_err() {
            return ;
        }
        let _ = self.imu.set_accel_odr(i2c, QMI_WOM_ACCEL_ODR);
        let wom_cfg: WomConfig = WomConfig {
            threshold_mg: QMI_WOM_THRESHOLD_MG,
            interrupt: QMI_WOM_INTERRUPT,
            blanking_samples: QMI_WOM_BLANKING_SAMPLES,
        };
        if self.imu.configure_wom(i2c, &wom_cfg).is_err() {
            return ;
        }
        if self.imu.set_accel_enable(i2c, true).is_err() {
            return ;
        }
        // Clear any stale STATUS1.WOM bit left over from a previous sleep
        // cycle so the poll loop doesn't fire immediately.
        let _ = self.imu.wom_event(i2c);
    }

    /// `true` if a motion event was latched since the last check; a
    /// failed check counts as none.
    pub fn wom_event(&self, i2c: &mut Bus) -> (r: bool)
        ensures
            final(i2c)@ == qmi8658::wom_check(old(i2c)@, self@.addr).0,
            r == (qmi8658::wom_check(old(i2c)@, self@.addr).1 == Ok::<bool, Error<Fault>>(true)),
    {
        match self.imu.wom_event(i2c) {
            Ok(b) => b,
            Err(_) => false,
        }
    }

    /// Undo [`Self::enter_wom`]: clear any pending WoM flag and reset
    /// INT1, disable WoM (datasheet section 9.6), restore the normal 125
    /// Hz accel+gyro config.
    pub fn exit_wom(&self, i2c: &mut Bus)
        ensures
            final(i2c)@ == exiting(old(i2c)@, self@.addr),
    {
        let _ = self.imu.wom_event(i2c);
        let _ = self.imu.disable_wom(i2c);
        let config: Config = standard();
        let _ = self.imu.init(i2c, &config);
    }

    /// Record a self-test request. No bus traffic: the test runs on the
    /// poll that ends the settle window.
    pub fn self_test_start(&mut self, kind: SelfTestKind)
        ensures
            final(self)@ == (Qmi { st: Some((kind, 0u8)), ..old(self)@ }),
    {
        self.st_pending = Some((kind, 0));
    }

    /// One progress check of an in-flight self-test.
    pub fn self_test_poll(&mut self, i2c: &mut Bus) -> (r: SelfTestPoll)
        ensures
            (final(i2c)@, final(self)@, r@) == polling(old(i2c)@, old(self)@),
    {
        let (kind, polls): (SelfTestKind, u8) = match self.st_pending {
            None => {
                return SelfTestPoll::Error;
            },
            Some(p) => p,
        };
        if polls < QMI_ST_SETTLE_POLLS {
            self.st_pending = Some((kind, polls + 1));
            return SelfTestPoll::Pending;
        }
        self.st_pending = None;
        // Settle over - run the test inline (the driver's own waits are
        // bounded, millisecond scale).
        let r: SelfTestPoll = match kind {
            SelfTestKind::Accel => match self.imu.run_accel_self_test(i2c) {
                Ok(a) => {
                    let values: [i32; 3] = [a.x_mg, a.y_mg, a.z_mg];
                    assert(values@ =~= seq![a.x_mg, a.y_mg, a.z_mg]);
                    SelfTestPoll::Done(SelfTestAxes { passed: a.passed, values })
                },
                Err(_) => SelfTestPoll::Error,
            },
            SelfTestKind::Gyro => match self.imu.run_gyro_self_test(i2c) {
                Ok(g) => {
                    let values: [i32; 3] = [g.x_dps, g.y_dps, g.z_dps];
                    assert(values@ =~= seq![g.x_dps, g.y_dps, g.z_dps]);
                    SelfTestPoll::Done(SelfTestAxes { passed: g.passed, values })
                },
                Err(_) => SelfTestPoll::Error,
            },
        };
        // The self-test leaves sensors disabled and CTRL2/3 partially
        // modified - restore the normal config before handing the bus
        // back.
        let config: Config = standard();
        let _ = self.imu.init(i2c, &config);
        r
    }

    /// Drop an in-flight self-test. Mid-settle the chip is untouched, so
    /// there is nothing to restore.
    pub fn self_test_abort(&mut self)
        ensures
            final(self)@ == (Qmi { st: None, ..old(self)@ }),
    {
        self.st_pending = None;
    }
}

/// `n` self-test polls in a row.
pub open spec fn polls(s: Session, q: Qmi, n: nat) -> (Session, Qmi)
    decreases n,
{
    if n == 0 {
        (s, q)
    } else {
        let (s1, q1) = polls(s, q, (n - 1) as nat);
        let (s2, q2, _) = polling(s1, q1);
        (s2, q2)
    }
}

/// Every self-test waits out the settle window: the polls in it send
/// nothing and report that the test is pending.
pub proof fn every_test_settles_first(s: Session, q: Qmi, kind: SelfTestKind, n: nat)
    requires
        q.st == Some((kind, 0u8)),
        n <= QMI_ST_SETTLE_POLLS,
    ensures
        polls(s, q, n) == (s, Qmi { st: Some((kind, n as u8)), ..q }),
        n < QMI_ST_SETTLE_POLLS ==> polling(s, polls(s, q, n).1).2 is Pending,
    decreases n,
{
    if n > 0 {
        every_test_settles_first(s, q, kind, (n - 1) as nat);
    }
}

/// The poll after the settle window runs the test, ends it, and leaves
/// the normal configuration as the last thing on the bus.
pub proof fn tests_restore_the_configuration(s: Session, q: Qmi, kind: SelfTestKind)
    requires
        q.st == Some((kind, QMI_ST_SETTLE_POLLS)),
    ensures
        polling(s, q).1 == (Qmi { st: None, ..q }),
        polling(s, q).2 !is Pending,
        exists|t: Session|
            polling(s, q).0 == (#[trigger] qmi8658::initialising(t, q.addr, Config::standard())).0,
{
}

/// The place of a phase in the bring-up.
pub open spec fn stage(phase: QmiPhase) -> int {
    match phase {
        QmiPhase::Reset => 0,
        QmiPhase::Init => 1,
        QmiPhase::Bias => 2,
        QmiPhase::Ready => 3,
        QmiPhase::Failed(_) => 3,
    }
}

/// Every bring-up step goes to a later phase until the end, ready or
/// failed, which is permanent and silent.
pub proof fn bring_up_makes_progress(s: Session, q: Qmi)
    ensures
        stage(q.phase) < 3 ==> stage(boot(s, q).1.phase) > stage(q.phase),
        stage(q.phase) == 3 ==> boot(s, q).0 == s && boot(s, q).1 == q,
        boot(s, q).2 is Ready <==> boot(s, q).1.phase is Ready,
        boot(s, q).2 is Failed <==> boot(s, q).1.phase is Failed,
{
}

} // verus!
