//! Board-selected IMU behind one task-level interface.
//!
//! Boards pick their chip by constructing the matching variant of
//! [`AnyImu`]; the shared IMU task dispatches through that enum.
//!
//! The interface is the task's contract, not a chip API: a motion
//! snapshot while awake, a wake-on-motion mode while the system sleeps,
//! and the two boot self-tests. Chips whose bring-up is more than a few
//! register writes (the BHI260AP needs a ~100 KB firmware upload) run it
//! incrementally through [`AnyImu::boot_step`], so the task can share the
//! I2C bus fairly and the system boots without waiting on the IMU.
//!
//! All motion samples are normalized to the QMI8658 raw scale the UI was
//! calibrated against: accel +/-8 g full scale, gyro +/-256 dps full
//! scale, i16 axes (see [`ImuData`]).

use vstd::prelude::*;
use crate::bus::{Bus, Fault, Session};
use crate::qmi8658;

pub mod bhi260_imu;
pub mod qmi_imu;
pub mod wear;

pub use bhi260_imu::{Bhi260Imu, Hub};
pub use qmi_imu::{Qmi, QmiImu, QmiPhase};
pub use wear::{Wear, WearCalibration, WearClassifier, WristIntent, WEAR_DWELL_SAMPLES};

verus! {

/// A single snapshot of IMU sensor data - the cross-chip contract every
/// [`AnyImu`] variant delivers.
///
/// All values are raw 16-bit signed integers, normalized to the scale the
/// system's consumers are calibrated against: accel +/-8 g full scale (1 g
/// = 4096), gyro +/-256 dps full scale. `temp_raw` is degrees Celsius x
/// 256, or 0 for chips without a temperature path.
///
/// Axes are the DEVICE frame (Android convention), not the chip's: +X
/// toward the screen's right edge (3 o'clock), +Y toward its top edge (12
/// o'clock), +Z out of the screen toward the viewer - so a device lying
/// screen-up reads accel ~[0, 0, +4096]. Adapters owe this frame to their
/// consumers (via chip configuration, an orientation-matrix write, or
/// host-side remap).
#[derive(Debug, Clone, Copy, PartialEq, Eq, Structural)]
pub struct ImuData {
    /// X-axis acceleration (raw signed 16-bit).
    pub accel_x: i16,
    /// Y-axis acceleration.
    pub accel_y: i16,
    /// Z-axis acceleration.
    pub accel_z: i16,
    /// X-axis angular rate (raw signed 16-bit).
    pub gyro_x: i16,
    /// Y-axis angular rate.
    pub gyro_y: i16,
    /// Z-axis angular rate.
    pub gyro_z: i16,
    /// Raw temperature. Divide by 256 for degrees Celsius.
    pub temp_raw: i16,
    /// Step total since the counter's reset; `None` where the chip counts
    /// no steps or has not reported any yet.
    pub steps: Option<u32>,
}

impl ImuData {
    /// The snapshot before any sample.
    pub open spec fn blank() -> ImuData {
        ImuData {
            accel_x: 0,
            accel_y: 0,
            accel_z: 0,
            gyro_x: 0,
            gyro_y: 0,
            gyro_z: 0,
            temp_raw: 0,
            steps: None,
        }
    }
}

impl Default for ImuData {
    fn default() -> (r: ImuData)
        ensures
            r == ImuData::blank(),
    {
        ImuData { accel_x: 0, accel_y: 0, accel_z: 0, gyro_x: 0, gyro_y: 0, gyro_z: 0, temp_raw: 0, steps: None }
    }
}

/// Progress of an incremental chip bring-up (see [`AnyImu::boot_step`]).
#[derive(Debug, Clone, Copy, PartialEq, Eq)]
pub enum BootStep {
    /// Chip is operational - the task may start its normal loop.
    Ready,
    /// More bring-up work remains; call again after roughly this delay
    /// (the caller owns the pacing and the bus lock).
    Pending { delay_ms: u32 },
    /// Bring-up failed permanently this boot.
    Failed(&'static str),
}

/// Unified self-test outcome: pass/fail plus the chip's 3-axis diagnostic
/// values (mg for accel, dps for gyro; zeros where a chip reports none).
#[derive(Debug, Clone, Copy, PartialEq, Eq)]
pub struct SelfTestAxes {
    pub passed: bool,
    pub values: [i32; 3],
}

/// Which self-test to run.
#[derive(Debug, Clone, Copy, PartialEq, Eq, Structural)]
pub enum SelfTestKind {
    Accel,
    Gyro,
}

/// Progress of an in-flight self-test (see [`AnyImu::self_test_poll`]).
#[derive(Debug, Clone, Copy, PartialEq, Eq)]
pub enum SelfTestPoll {
    /// Still running - poll again after a short delay.
    Pending,
    /// Finished; pass/fail and diagnostics inside.
    Done(SelfTestAxes),
    /// Could not complete (rejected, unsupported, or bus trouble).
    Error,
}

/// What a [`SelfTestPoll`] says.
pub ghost enum Progress {
    Pending,
    Done { passed: bool, values: Seq<i32> },
    Error,
}

impl View for SelfTestPoll {
    type V = Progress;

    open spec fn view(&self) -> Progress {
        match *self {
            SelfTestPoll::Pending => Progress::Pending,
            SelfTestPoll::Done(axes) => Progress::Done { passed: axes.passed, values: axes.values@ },
            SelfTestPoll::Error => Progress::Error,
        }
    }
}

/// Board-selected IMU.
#[derive(Debug, Clone)]
pub enum AnyImu {
    Qmi8658(QmiImu),
    Bhi260(Bhi260Imu),
}

/// The state of an [`AnyImu`].
pub ghost enum Imu {
    Qmi8658(Qmi),
    Bhi260(Hub),
}

impl View for AnyImu {
    type V = Imu;

    open spec fn view(&self) -> Imu {
        match *self {
            AnyImu::Qmi8658(q) => Imu::Qmi8658(q@),
            AnyImu::Bhi260(b) => Imu::Bhi260(b@),
        }
    }
}

impl Imu {
    /// The state is one that the operations keep.
    pub open spec fn valid(self) -> bool {
        self matches Imu::Bhi260(h) ==> h.valid()
    }

    /// An upload in progress is within the image.
    pub open spec fn within(self, firmware: Seq<u8>) -> bool {
        self matches Imu::Bhi260(h) ==> h.within(firmware)
    }
}

/// One step of the bring-up.
pub open spec fn boot(s: Session, imu: Imu, firmware: Seq<u8>) -> (Session, Imu, BootStep) {
    match imu {
        Imu::Qmi8658(q) => {
            let (s1, q1, r) = qmi_imu::boot(s, q);
            (s1, Imu::Qmi8658(q1), r)
        },
        Imu::Bhi260(h) => {
            let (s1, h1, r) = bhi260_imu::boot(s, h, firmware);
            (s1, Imu::Bhi260(h1), r)
        },
    }
}

/// One motion snapshot.
pub open spec fn sampling(s: Session, imu: Imu) -> (Session, Imu, Result<ImuData, ()>) {
    match imu {
        Imu::Qmi8658(q) => {
            let (s1, r) = qmi8658::sampling(s, q.addr, q.bias);
            (s1, imu, match r {
                Ok(d) => Ok(d),
                Err(_) => Err(()),
            })
        },
        Imu::Bhi260(h) => {
            let (s1, h1, r) = bhi260_imu::sampling(s, h);
            (s1, Imu::Bhi260(h1), r)
        },
    }
}

/// The pending wrist intent collected.
pub open spec fn intent_taking(imu: Imu) -> (Imu, Option<WristIntent>) {
    match imu {
        Imu::Qmi8658(_) => (imu, None),
        Imu::Bhi260(h) => (Imu::Bhi260(Hub { wear: Wear { pending: None, ..h.wear }, ..h }), h.wear.pending),
    }
}

/// The sleep mode entered.
pub open spec fn entering(s: Session, imu: Imu) -> (Session, Imu) {
    match imu {
        Imu::Qmi8658(q) => (qmi_imu::entering(s, q.addr), imu),
        Imu::Bhi260(h) => {
            let (s1, h1) = bhi260_imu::entering(s, h);
            (s1, Imu::Bhi260(h1))
        },
    }
}

/// A check for a motion event.
pub open spec fn wom_checking(s: Session, imu: Imu) -> (Session, Imu, bool) {
    match imu {
        Imu::Qmi8658(q) => {
            let (s1, r) = qmi8658::wom_check(s, q.addr);
            (s1, imu, r == Ok::<bool, qmi8658::Error<Fault>>(true))
        },
        Imu::Bhi260(h) => {
            let (s1, h1, r) = bhi260_imu::wom_checking(s, h);
            (s1, Imu::Bhi260(h1), r)
        },
    }
}

/// The sleep mode left.
pub open spec fn exiting(s: Session, imu: Imu) -> (Session, Imu) {
    match imu {
        Imu::Qmi8658(q) => (qmi_imu::exiting(s, q.addr), imu),
        Imu::Bhi260(h) => {
            let (s1, h1) = bhi260_imu::exiting(s, h);
            (s1, Imu::Bhi260(h1))
        },
    }
}

/// A self-test begun.
pub open spec fn test_starting(s: Session, imu: Imu, kind: SelfTestKind) -> (Session, Imu, bool) {
    match imu {
        Imu::Qmi8658(q) => (s, Imu::Qmi8658(Qmi { st: Some((kind, 0u8)), ..q }), true),
        Imu::Bhi260(h) => {
            let (s1, h1, r) = bhi260_imu::test_starting(s, h, kind);
            (s1, Imu::Bhi260(h1), r)
        },
    }
}

/// One progress check of a self-test.
pub open spec fn polling(s: Session, imu: Imu) -> (Session, Imu, Progress) {
    match imu {
        Imu::Qmi8658(q) => {
            let (s1, q1, r) = qmi_imu::polling(s, q);
            (s1, Imu::Qmi8658(q1), r)
        },
        Imu::Bhi260(h) => {
            let (s1, h1, r) = bhi260_imu::polling(s, h);
            (s1, Imu::Bhi260(h1), r)
        },
    }
}

/// A self-test aborted.
pub open spec fn aborting(s: Session, imu: Imu) -> (Session, Imu) {
    match imu {
        Imu::Qmi8658(q) => (s, Imu::Qmi8658(Qmi { st: None, ..q })),
        Imu::Bhi260(h) => {
            let (s1, h1) = bhi260_imu::aborting(s, h);
            (s1, Imu::Bhi260(h1))
        },
    }
}

impl AnyImu {
    /// The chip's marketing name, for UI display. Known statically from
    /// the variant - valid before bring-up completes.
    pub fn name(&self) -> (r: &'static str)
        ensures
            r == (match self@ {
                Imu::Qmi8658(_) => "QMI8658",
                Imu::Bhi260(_) => "BHI260AP",
            }),
    {
        match self {
            AnyImu::Qmi8658(_) => "QMI8658",
            AnyImu::Bhi260(_) => "BHI260AP",
        }
    }

    /// Advance the incremental bring-up by one short bus transaction; the
    /// caller owns the pacing and the bus lock. `firmware` is the image
    /// for a chip that needs one: the same on every call.
    pub fn boot_step(&mut self, i2c: &mut Bus, firmware: &[u8]) -> (r: BootStep)
        requires
            old(self)@.valid(),
            old(self)@.within(firmware@),
        ensures
            (final(i2c)@, final(self)@, r) == boot(old(i2c)@, old(self)@, firmware@),
            final(self)@.valid(),
            final(self)@.within(firmware@),
    {
        match self {
            AnyImu::Qmi8658(q) => q.boot_step(i2c),
            AnyImu::Bhi260(b) => b.boot_step(i2c, firmware),
        }
    }

    /// One motion snapshot in the normalized raw scale (accel +/-8 g,
    /// gyro +/-256 dps full scale).
    pub fn read(&mut self, i2c: &mut Bus) -> (r: Result<ImuData, ()>)
        requires
            old(self)@.valid(),
        ensures
            (final(i2c)@, final(self)@, r) == sampling(old(i2c)@, old(self)@),
            final(self)@.valid(),
    {
        match self {
            AnyImu::Qmi8658(q) => q.read(i2c),
            AnyImu::Bhi260(b) => b.read(i2c),
        }
    }

    /// Collect a pending semantic wrist intent, if any (produced by the
    /// adapter's [`WearClassifier`] from the samples consumed by
    /// [`Self::read`]). No bus traffic. Boards that are not wrist-worn
    /// never produce one.
    pub fn take_intent(&mut self) -> (r: Option<WristIntent>)
        ensures
            (final(self)@, r) == intent_taking(old(self)@),
    {
        match self {
            AnyImu::Qmi8658(_) => None,
            AnyImu::Bhi260(b) => b.take_intent(),
        }
    }

    /// Reconfigure for the system's sleep phase: continuous sampling off,
    /// hardware motion detection armed. Poll [`Self::wom_event`]
    /// afterwards.
    pub fn enter_wom(&mut self, i2c: &mut Bus)
        requires
            old(self)@.valid(),
        ensures
            (final(i2c)@, final(self)@) == entering(old(i2c)@, old(self)@),
            final(self)@.valid(),
    {
        match self {
            AnyImu::Qmi8658(q) => q.enter_wom(i2c),
            AnyImu::Bhi260(b) => b.enter_wom(i2c),
        }
    }

    /// `true` if a motion event was latched since the last check
    /// (checking clears it).
    pub fn wom_event(&mut self, i2c: &mut Bus) -> (r: bool)
        requires
            old(self)@.valid(),
        ensures
            (final(i2c)@, final(self)@, r) == wom_checking(old(i2c)@, old(self)@),
            final(self)@.valid(),
    {
        match self {
            AnyImu::Qmi8658(q) => q.wom_event(i2c),
            AnyImu::Bhi260(b) => b.wom_event(i2c),
        }
    }

    /// Undo [`Self::enter_wom`]: motion detection off, continuous
    /// sampling restored.
    pub fn exit_wom(&mut self, i2c: &mut Bus)
        requires
            old(self)@.valid(),
        ensures
            (final(i2c)@, final(self)@) == exiting(old(i2c)@, old(self)@),
            final(self)@.valid(),
    {
        match self {
            AnyImu::Qmi8658(q) => q.exit_wom(i2c),
            AnyImu::Bhi260(b) => b.exit_wom(i2c),
        }
    }

    /// Begin a self-test. Returns `false` if it could not start. The
    /// caller then polls [`Self::self_test_poll`] with the bus released
    /// between polls - some chips take the better part of a second (a
    /// gyro drive has to spin up), and holding the shared bus that long
    /// would freeze every other peripheral.
    pub fn self_test_start(&mut self, i2c: &mut Bus, kind: SelfTestKind) -> (r: bool)
        requires
            old(self)@.valid(),
        ensures
            (final(i2c)@, final(self)@, r) == test_starting(old(i2c)@, old(self)@, kind),
            final(self)@.valid(),
    {
        match self {
            AnyImu::Qmi8658(q) => {
                q.self_test_start(kind);
                true
            },
            AnyImu::Bhi260(b) => b.self_test_start(i2c, kind),
        }
    }

    /// One short progress check of an in-flight self-test.
    pub fn self_test_poll(&mut self, i2c: &mut Bus) -> (r: SelfTestPoll)
        requires
            old(self)@.valid(),
        ensures
            (final(i2c)@, final(self)@, r@) == polling(old(i2c)@, old(self)@),
            final(self)@.valid(),
    {
        match self {
            AnyImu::Qmi8658(q) => q.self_test_poll(i2c),
            AnyImu::Bhi260(b) => b.self_test_poll(i2c),
        }
    }

    /// Abort an in-flight self-test after the caller's poll budget ran
    /// out, restoring the chip's running configuration. No-op if nothing
    /// is in flight.
    pub fn self_test_abort(&mut self, i2c: &mut Bus)
        requires
            old(self)@.valid(),
        ensures
            (final(i2c)@, final(self)@) == aborting(old(i2c)@, old(self)@),
            final(self)@.valid(),
    {
        match self {
            AnyImu::Qmi8658(q) => q.self_test_abort(),
            AnyImu::Bhi260(b) => b.self_test_abort(i2c),
        }
    }
}

/// Aborting with no self-test in flight does nothing.
pub proof fn idle_abort_does_nothing(s: Session, imu: Imu)
    requires
        match imu {
            Imu::Qmi8658(q) => q.st is None,
            Imu::Bhi260(h) => h.st is None,
        },
    ensures
        aborting(s, imu) == (s, imu),
{
}

/// A board that is not wrist-worn never produces an intent.
pub proof fn only_wrist_boards_intend(imu: Imu)
    requires
        imu is Qmi8658,
    ensures
        intent_taking(imu) == (imu, None::<WristIntent>),
{
}

/// A second take finds no intent.
pub proof fn intents_are_taken_once(imu: Imu)
    ensures
        intent_taking(intent_taking(imu).0).1 is None,
{
}

} // verus!
