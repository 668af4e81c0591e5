//! BHI260AP adapter for the [`AnyImu`](super::AnyImu) task contract.
//!
//! Bridges the hub's virtual-sensor world onto the IMU task's simple
//! needs: continuous accel+gyro snapshots while awake, a wake-up motion
//! sensor while the system sleeps, an always-on step counter, and the two
//! boot self-tests. Chip specifics stay here.
//!
//! Bring-up is a state machine driven by [`Bhi260Imu::boot_step`] - one
//! short bus transaction per call - because the mandatory firmware upload
//! (~104 KB over I2C, roughly 3 s at 400 kHz) must neither block boot nor
//! monopolize the shared bus. The sequence is the datasheet's Host Boot
//! Mode procedure (Section 5.2.1): reset, wait for the bootloader, upload
//! + verify, boot, wait for the firmware, drain the Initialized meta
//! events, then discover and enable sensors. The firmware image is the
//! caller's.
//!
//! Samples are rescaled from the hub's current dynamic range to the
//! QMI8658 raw scale (accel +/-8 g, gyro +/-256 dps full scale) - see
//! [`Bhi260Imu::read`]. The temperature field is 0: the base firmware
//! exposes no temperature virtual sensor.

use vstd::prelude::*;
use super::{
    BootStep, ImuData, Progress, SelfTestAxes, SelfTestKind, SelfTestPoll, Wear, WearCalibration, WearClassifier,
    WristIntent,
};
use super::wear::Sample;
use crate::bhi260::{self, fifo, flush, Bhi260, Error};
use crate::bus::{chain, Bus, Fault, Session};
use crate::bytes::{le16, signed, u16_le};
use crate::math::{clamp16, clamped16, div_toward_zero, toward_zero};

verus! {

/// The continuous streaming pair: the PASSTHROUGH outputs (direct
/// physical sensor data). Deliberately NOT the BSX "corrected" outputs:
/// those route through the fusion library, which delivers at rate/8 from
/// boot until the first host-suspend cycle.
pub const STREAM_ACCEL: u8 = bhi260::event_id::ACCEL_PASSTHROUGH;

pub const STREAM_GYRO: u8 = bhi260::event_id::GYRO_PASSTHROUGH;

/// Normalization targets: the QMI8658 full-scale ranges the shared task's
/// consumers are calibrated against.
pub const NORM_ACCEL_RANGE_G: i32 = 8;

pub const NORM_GYRO_RANGE_DPS: i32 = 256;

/// The rate 0 Hz, which disables a sensor, as an IEEE 754 single.
pub const RATE_OFF: u32 = 0;

/// Continuous sample rate requested while awake: 25 Hz, as an IEEE 754
/// single. The task polls at 20 Hz; 25 Hz is the framework's nearest
/// supported rate at or above that, so each poll drains 1-2 fresh samples
/// per sensor.
pub const AWAKE_RATE_HZ: u32 = 0x41C8_0000;

/// Rate requested for the wake-up motion sensors, 25 Hz (gesture/motion
/// sensors are on-change or one-shot - the rate mainly gates their
/// underlying accel).
pub const WOM_RATE_HZ: u32 = 0x41C8_0000;

/// Rate requested for the step counter, 25 Hz. The sensor is on-change,
/// so the rate only gates its underlying accel.
pub const STEP_RATE_HZ: u32 = 0x41C8_0000;

/// Step-counter candidates in preference order: the BSX step counter,
/// else the auxiliary variant. Non-wake-up on purpose: the total
/// accumulates hub-side straight through host sleep without ever
/// asserting the wake line.
pub const STEP_PREFERRED: [u8; 2] = [bhi260::event_id::STEP_COUNTER, bhi260::event_id::AUX_STEP_COUNTER];

/// Requested dynamic ranges (SI units). Accel matches the normalization
/// target exactly; 250 dps is the closest supported gyro range to the 256
/// dps target (the residual 250/256 factor is handled by the rescale
/// math).
pub const REQ_ACCEL_RANGE_G: u16 = 8;

pub const REQ_GYRO_RANGE_DPS: u16 = 250;

/// Wake-up virtual sensors armed TOGETHER for wake-on-motion - every one
/// of these the loaded firmware offers gets enabled (any wake FIFO event
/// wakes the system, so they compose): Wake Gesture is the wrist-raise,
/// the next three the wearable lift-to-wake suite, Motion Detect the
/// sustained-motion catch-all, Any Motion the fast slope detector.
pub const WOM_PREFERRED: [u8; 6] = [
    bhi260::event_id::WAKE_GESTURE_WU,
    bhi260::event_id::WRIST_TILT_GESTURE_WU,
    bhi260::event_id::PICKUP_GESTURE_WU,
    bhi260::event_id::GLANCE_GESTURE_WU,
    bhi260::event_id::MOTION_DETECT_WU,
    bhi260::event_id::AUX_ANY_MOTION_WU,
];

/// Last-resort wake source if none of the preferred set exists
/// (walking-scale algorithm - strict, but better than no motion wake).
pub const WOM_FALLBACK: u8 = bhi260::event_id::SIGNIFICANT_MOTION_WU;

/// Retry budgets for the boot state machine's wait states.
pub const BOOTLOADER_TRIES: u8 = 50; // x1 ms; spec max is 1.3 ms
pub const VERIFY_TRIES: u8 = 100; // x5 ms; verify overlaps the upload
pub const FW_BOOT_TRIES: u8 = 50; // x10 ms; typ 81 ms

/// Discovery retries. The first parameter read lands right after the
/// Initialized meta events, while the framework is still bringing up BSX
/// - responses can lag for a while, so keep asking (~1 s total on top of
/// the per-attempt status wait) before giving up.
pub const DISCOVER_TRIES: u8 = 20; // x50 ms between attempts

/// Range read-back retries after the enable burst (same late-answer
/// behavior as discovery).
pub const RANGE_TRIES: u8 = 20; // x50 ms between attempts

/// Quiesce budget: polls (paced by the caller, ~10 ms apart) allowed
/// before declaring the physical sensor never powered down.
pub const QUIESCE_POLLS: u8 = 200;

/// Consecutive empty awake polls (~10 s at 20 Hz) after which the sensors
/// are re-armed.
pub const EMPTY_POLLS: u16 = 200;

/// Self-test progression. The request must not be issued until the
/// PHYSICAL sensor has actually powered down - virtual-sensor disables
/// propagate asynchronously (the gyro's drive takes tens of milliseconds
/// to wind down), and a request against a still-active sensor is rejected
/// without a status packet, i.e. it looks like an eternal timeout.
#[derive(Debug, Clone, Copy, PartialEq, Eq, Structural)]
pub enum StState {
    /// Sensors disabled; waiting for the physical sensor to report Power
    /// Down / Suspend in its info parameter.
    Quiesce { kind: SelfTestKind, polls: u8 },
    /// Request issued; waiting for the results status packet that echoes
    /// this physical sensor id (the echo check guards against consuming a
    /// stale packet from an earlier aborted test).
    Waiting { phys: u8 },
}

/// Bring-up phases (see [`Bhi260Imu::boot_step`]).
#[derive(Debug, Clone, Copy, PartialEq, Eq)]
pub enum Phase {
    Reset,
    WaitBootloader { tries: u8 },
    StartUpload,
    Upload { offset: usize },
    WaitVerify { tries: u8 },
    Boot,
    WaitFirmware { tries: u8 },
    DrainInit,
    Discover { tries: u8 },
    Enable,
    /// Re-arbitration cycle: disable-then-re-enable the continuous
    /// sensors once after the first enable.
    Recycle { enabled: bool },
    ReadRanges { tries: u8 },
    /// Final bring-up step: one simulated sleep cycle, because from boot
    /// the chip is in a crippled state (stream at rate/8, gesture engines
    /// dead) that only a real sleep entry heals. The host must go SILENT
    /// during the WoM gap; inside a bring-up Pending delay the task makes
    /// no chip contact, so this phase is enter_wom -> 3 s of true silence
    /// -> exit_wom.
    BootWom { entered: bool },
    Ready,
    Failed(&'static str),
}

/// The state of a [`Bhi260Imu`].
#[verifier::ext_equal]
pub ghost struct Hub {
    pub addr: u8,
    pub phase: Phase,
    /// Wake-up motion sensors picked at discovery.
    pub wake: Seq<u8>,
    /// Step counter picked at discovery.
    pub step: Option<u8>,
    /// The sensor that woke the system, until the first awake read.
    pub announce: Option<u8>,
    pub accel_range: int,
    pub gyro_range: int,
    pub last: ImuData,
    pub st: Option<StState>,
    pub wear: Wear,
    pub orientation: Seq<u8>,
    /// Consecutive empty awake polls.
    pub empty: u16,
}

impl Hub {
    /// The state before bring-up.
    pub open spec fn fresh(orientation: Seq<u8>, wear: WearCalibration) -> Hub {
        Hub {
            addr: bhi260::ADDR,
            phase: Phase::Reset,
            wake: Seq::empty(),
            step: None,
            announce: None,
            accel_range: NORM_ACCEL_RANGE_G as int,
            gyro_range: 2000,
            last: ImuData::blank(),
            st: None,
            wear: Wear::fresh(wear),
            orientation,
            empty: 0,
        }
    }

    /// The dynamic ranges are 16-bit numbers, and the kept sample has no
    /// temperature.
    pub open spec fn valid(self) -> bool {
        &&& 0 <= self.accel_range <= 0xFFFF
        &&& 0 <= self.gyro_range <= 0xFFFF
        &&& self.last.temp_raw == 0
    }

    /// An upload in progress is within the image.
    pub open spec fn within(self, firmware: Seq<u8>) -> bool {
        self.phase matches Phase::Upload { offset } ==> offset <= firmware.len()
    }
}

// ---- Sensor programming -----------------------------------------------------

/// Channel-flow codes the firmware latches for benign host-side
/// conditions - reading an empty channel and friends, "Temporary" class
/// in the datasheet's error table (underflow, overflow, empty).
pub open spec fn transient(code: u8) -> bool {
    code == 0x75 || code == 0x76 || code == 0x77
}

/// Sensors that disable themselves after firing.
pub open spec fn one_shot(id: u8) -> bool {
    id == bhi260::event_id::SIGNIFICANT_MOTION_WU || id == bhi260::event_id::WAKE_GESTURE_WU || id
        == bhi260::event_id::GLANCE_GESTURE_WU || id == bhi260::event_id::PICKUP_GESTURE_WU
}

/// The error registers cleared.
pub open spec fn clearing(s: Session, addr: u8) -> Session {
    bhi260::writing(s, addr, bhi260::reg::CHIP_CONTROL, bhi260::chip_control::CLEAR_ERROR_REGS).0
}

/// The error register read, and cleared where it holds a code.
pub open spec fn acknowledging(s: Session, addr: u8) -> Session {
    let (s1, r) = bhi260::reading(s, addr, bhi260::reg::ERROR_VALUE);
    match r {
        Ok(code) => if code != 0 { clearing(s1, addr) } else { s1 },
        Err(_) => s1,
    }
}

/// Both streaming sensors set to a rate.
pub open spec fn streaming(s: Session, addr: u8, rate: u32) -> (Session, Result<(), Error<Fault>>) {
    chain(
        bhi260::sensor_config(s, addr, STREAM_ACCEL, rate, 0),
        |s1: Session, u: ()| bhi260::sensor_config(s1, addr, STREAM_GYRO, rate, 0),
    )
}

/// The sensors `ids` from the `i`-th on set to a rate, up to the first
/// failure.
pub open spec fn configuring(s: Session, addr: u8, ids: Seq<u8>, i: int, rate: u32) -> (
    Session,
    Result<(), Error<Fault>>,
)
    decreases bhi260::remaining(ids.len() as int, i),
{
    if i >= ids.len() {
        (s, Ok(()))
    } else {
        let (s1, r) = bhi260::sensor_config(s, addr, ids[i], rate, 0);
        match r {
            Ok(_) => configuring(s1, addr, ids, i + 1, rate),
            Err(e) => (s1, Err(e)),
        }
    }
}

/// The sensors `ids` from the `i`-th on set to a rate, failures ignored.
pub open spec fn configuring_each(s: Session, addr: u8, ids: Seq<u8>, i: int, rate: u32) -> Session
    decreases bhi260::remaining(ids.len() as int, i),
{
    if i >= ids.len() {
        s
    } else {
        configuring_each(bhi260::sensor_config(s, addr, ids[i], rate, 0).0, addr, ids, i + 1, rate)
    }
}

/// The step counter, if there is one, set to a rate.
pub open spec fn stepping(s: Session, addr: u8, step: Option<u8>, rate: u32) -> (Session, Result<(), Error<Fault>>) {
    match step {
        Some(id) => bhi260::sensor_config(s, addr, id, rate, 0),
        None => (s, Ok(())),
    }
}

/// The running sensor set brought back: wake sensors, step counter,
/// streaming pair, in this order; then the error register checked.
pub open spec fn restoring(s: Session, h: Hub) -> Session {
    let (s1, r) = chain(
        configuring(s, h.addr, h.wake, 0, WOM_RATE_HZ),
        |s1: Session, u1: ()|
            chain(
                stepping(s1, h.addr, h.step, STEP_RATE_HZ),
                |s2: Session, u2: ()| streaming(s2, h.addr, AWAKE_RATE_HZ),
            ),
    );
    match r {
        Ok(_) => acknowledging(s1, h.addr),
        Err(_) => s1,
    }
}

/// The running sensor set turned off: streaming pair, wake sensors, step
/// counter.
pub open spec fn quieting(s: Session, h: Hub) -> (Session, Result<(), Error<Fault>>) {
    chain(
        streaming(s, h.addr, RATE_OFF),
        |s1: Session, u1: ()|
            chain(
                configuring(s1, h.addr, h.wake, 0, RATE_OFF),
                |s2: Session, u2: ()| stepping(s2, h.addr, h.step, RATE_OFF),
            ),
    )
}

// ---- Wake-up FIFO -----------------------------------------------------------

/// The Interrupt Status byte offers a wake-up transfer.
pub open spec fn wake_pending(st: u8) -> bool {
    (st >> bhi260::int_status::WAKE_FIFO_SHIFT) & bhi260::int_status::FIFO_FIELD_MASK != 0
}

/// Drained wake-up events gone through: each one-shot sensor that fired
/// is armed again; the last sensor that fired is the result, `hit` if
/// none did.
pub open spec fn rearming(s: Session, addr: u8, events: Seq<(u8, Seq<u8>)>, hit: Option<u8>) -> (Session, Option<u8>)
    decreases events.len(),
{
    if events.len() == 0 {
        (s, hit)
    } else {
        let id = events[0].0;
        if !fifo::is_occurrence(id) {
            rearming(s, addr, events.skip(1), hit)
        } else if one_shot(id) {
            rearming(bhi260::sensor_config(s, addr, id, WOM_RATE_HZ, 0).0, addr, events.skip(1), Some(id))
        } else {
            rearming(s, addr, events.skip(1), Some(id))
        }
    }
}

/// The wake-up FIFO drained, if it offers a transfer.
pub open spec fn draining(s: Session, addr: u8) -> (Session, Option<u8>) {
    let (s1, r1) = bhi260::reading(s, addr, bhi260::reg::INTERRUPT_STATUS);
    match r1 {
        Err(_) => (s1, None),
        Ok(st) => if !wake_pending(st) {
            (s1, None)
        } else {
            let (s2, buf, r2) = bhi260::fifo_reading(s1, addr, bhi260::reg::CHANNEL_WAKE_FIFO, bhi260::zeros(128));
            match r2 {
                Err(_) => (s2, None),
                Ok(n) => rearming(s2, addr, fifo::events(buf.take(n as int)), None),
            }
        },
    }
}

/// The first event that is no meta event.
pub open spec fn first_sensor_event(events: Seq<(u8, Seq<u8>)>) -> Option<u8>
    decreases events.len(),
{
    if events.len() == 0 {
        None
    } else if fifo::is_meta(events[0].0) {
        first_sensor_event(events.skip(1))
    } else {
        Some(events[0].0)
    }
}

/// A check for a latched wake-up event.
pub open spec fn wom_checking(s: Session, h: Hub) -> (Session, Hub, bool) {
    if h.phase != Phase::Ready {
        (s, h, false)
    } else {
        let (s1, r1) = bhi260::reading(s, h.addr, bhi260::reg::INTERRUPT_STATUS);
        match r1 {
            Err(_) => (s1, h, false),
            Ok(st) => if !wake_pending(st) {
                (s1, h, false)
            } else {
                let (s2, buf, r2) = bhi260::fifo_reading(
                    s1,
                    h.addr,
                    bhi260::reg::CHANNEL_WAKE_FIFO,
                    bhi260::zeros(128),
                );
                match r2 {
                    Err(_) => (s2, h, false),
                    Ok(n) => match first_sensor_event(fifo::events(buf.take(n as int))) {
                        None => (s2, h, false),
                        Some(id) => (
                            s2,
                            if fifo::is_occurrence(id) { Hub { announce: Some(id), ..h } } else { h },
                            true,
                        ),
                    },
                }
            },
        }
    }
}

// ---- Sleep ------------------------------------------------------------------

/// The wake sensors from the `i`-th on armed one by one, the error
/// register checked after each; `false` where one fails on the bus.
pub open spec fn arming(s: Session, addr: u8, ids: Seq<u8>, i: int) -> (Session, bool)
    decreases bhi260::remaining(ids.len() as int, i),
{
    if i >= ids.len() {
        (s, true)
    } else {
        let (s1, r) = bhi260::sensor_config(s, addr, ids[i], WOM_RATE_HZ, 0);
        match r {
            Ok(_) => arming(acknowledging(s1, addr), addr, ids, i + 1),
            Err(_) => (s1, false),
        }
    }
}

/// The streaming pair turned off and both FIFOs emptied.
pub open spec fn silencing(s: Session, addr: u8) -> (Session, Result<(), Error<Fault>>) {
    chain(
        streaming(s, addr, RATE_OFF),
        |s1: Session, u1: ()|
            chain(
                bhi260::flushing(s1, addr, flush::DISCARD_WAKE),
                |s2: Session, u2: ()| bhi260::flushing(s2, addr, flush::DISCARD_NONWAKE),
            ),
    )
}

/// Sleep entry: pose history dropped, streaming off, wake sensors armed,
/// wake-up FIFO drained, hub told that the host suspends.
pub open spec fn entering(s: Session, h: Hub) -> (Session, Hub) {
    if h.phase != Phase::Ready {
        (s, h)
    } else {
        let h1 = Hub { wear: Wear::fresh(h.wear.cal), ..h };
        let (s1, r1) = silencing(s, h.addr);
        if r1 is Err {
            (s1, h1)
        } else {
            let (s2, armed) = arming(s1, h.addr, h.wake, 0);
            if !armed {
                (s2, h1)
            } else {
                (bhi260::suspending(draining(s2, h.addr).0, h.addr, true).0, h1)
            }
        }
    }
}

/// Sleep exit: hub told that the host is awake, wake sensors re-armed,
/// wake-up FIFO drained (which tells what fired), streaming back on.
pub open spec fn exiting(s: Session, h: Hub) -> (Session, Hub) {
    if h.phase != Phase::Ready {
        (s, h)
    } else {
        let s1 = bhi260::suspending(s, h.addr, false).0;
        let s2 = configuring_each(s1, h.addr, h.wake, 0, WOM_RATE_HZ);
        let (s3, hit) = draining(s2, h.addr);
        (
            streaming(s3, h.addr, AWAKE_RATE_HZ).0,
            if hit is Some { Hub { announce: hit, ..h } } else { h },
        )
    }
}

// ---- Samples ----------------------------------------------------------------

/// A raw sample brought from one dynamic range to another, held within 16
/// bits.
pub open spec fn rescaled(raw: i16, from_range: int, to_range: int) -> i16 {
    clamped16(toward_zero(raw * from_range, to_range)) as i16
}

/// The hub once one event of the non-wake-up FIFO is taken in.
pub open spec fn absorbed(h: Hub, id: u8, p: Seq<u8>) -> Hub {
    if id == STREAM_ACCEL {
        let x = rescaled(fifo::axis(p, 0), h.accel_range, NORM_ACCEL_RANGE_G as int);
        let y = rescaled(fifo::axis(p, 2), h.accel_range, NORM_ACCEL_RANGE_G as int);
        let z = rescaled(fifo::axis(p, 4), h.accel_range, NORM_ACCEL_RANGE_G as int);
        Hub {
            last: ImuData { accel_x: x, accel_y: y, accel_z: z, ..h.last },
            wear: h.wear.fed(Sample { x, y, z }),
            ..h
        }
    } else if id == STREAM_GYRO {
        let x = rescaled(fifo::axis(p, 0), h.gyro_range, NORM_GYRO_RANGE_DPS as int);
        let y = rescaled(fifo::axis(p, 2), h.gyro_range, NORM_GYRO_RANGE_DPS as int);
        let z = rescaled(fifo::axis(p, 4), h.gyro_range, NORM_GYRO_RANGE_DPS as int);
        Hub { last: ImuData { gyro_x: x, gyro_y: y, gyro_z: z, ..h.last }, ..h }
    } else if fifo::is_step_count(id) {
        Hub { last: ImuData { steps: Some(crate::bytes::le32(p[0], p[1], p[2], p[3]) as u32), ..h.last }, ..h }
    } else {
        h
    }
}

/// The hub once events are taken in, first to last.
pub open spec fn absorbed_all(h: Hub, events: Seq<(u8, Seq<u8>)>) -> Hub
    decreases events.len(),
{
    if events.len() == 0 {
        h
    } else {
        absorbed_all(absorbed(h, events[0].0, events[0].1), events.skip(1))
    }
}

/// The FIFO watchdog after a transfer of `n` bytes: enough empty polls in
/// a row re-arm the sensors. The control and status registers are read
/// first.
pub open spec fn watching(s: Session, h: Hub, n: int) -> (Session, Hub) {
    if n == 0 && h.st is None {
        if h.empty + 1 >= EMPTY_POLLS {
            let s1 = bhi260::reading(s, h.addr, bhi260::reg::HOST_INTERFACE_CTRL).0;
            let s2 = bhi260::reading(s1, h.addr, bhi260::reg::INTERRUPT_STATUS).0;
            (restoring(s2, h), Hub { empty: 0, ..h })
        } else {
            (s, Hub { empty: (h.empty + 1) as u16, ..h })
        }
    } else {
        (s, Hub { empty: 0, ..h })
    }
}

/// The non-wake-up transfer aborted, where the stream was out of sync.
pub open spec fn resyncing(s: Session, addr: u8, lost: Option<u8>) -> Session {
    if lost is Some {
        let s1 = bhi260::writing(s, addr, bhi260::reg::HOST_INTERFACE_CTRL, bhi260::hif_control::ABORT_CH2).0;
        bhi260::writing(s1, addr, bhi260::reg::HOST_INTERFACE_CTRL, 0).0
    } else {
        s
    }
}

/// One awake poll.
pub open spec fn sampling(s: Session, h: Hub) -> (Session, Hub, Result<ImuData, ()>) {
    if h.phase != Phase::Ready {
        (s, h, Err(()))
    } else {
        let h1 = Hub { announce: None, ..h };
        let s1 = draining(s, h.addr).0;
        let (s2, buf, r) = bhi260::fifo_reading(
            s1,
            h.addr,
            bhi260::reg::CHANNEL_NONWAKE_FIFO,
            bhi260::zeros(512),
        );
        match r {
            Err(_) => (s2, h1, Err(())),
            Ok(n) => {
                let stream = buf.take(n as int);
                let (s3, h2) = watching(s2, h1, n as int);
                let h3 = absorbed_all(h2, fifo::events(stream));
                (resyncing(s3, h.addr, fifo::lost_in(stream)), h3, Ok(h3.last))
            },
        }
    }
}

// ---- Self-test --------------------------------------------------------------

/// The physical sensor that a self-test is about.
pub open spec fn tested_sensor(kind: SelfTestKind) -> u8 {
    match kind {
        SelfTestKind::Accel => bhi260::phys::ACCEL,
        SelfTestKind::Gyro => bhi260::phys::GYRO,
    }
}

/// A self-test started: every client of the physical sensors turned off.
pub open spec fn test_starting(s: Session, h: Hub, kind: SelfTestKind) -> (Session, Hub, bool) {
    if h.phase != Phase::Ready || h.st is Some {
        (s, h, false)
    } else {
        let (s1, r) = quieting(s, h);
        match r {
            Ok(_) => (s1, Hub { st: Some(StState::Quiesce { kind, polls: 0 }), ..h }, true),
            Err(_) => (restoring(s1, h), h, false),
        }
    }
}

/// A self-test given up: running sensors back on.
pub open spec fn concluding(s: Session, h: Hub) -> (Session, Hub, Progress) {
    (restoring(s, h), Hub { st: None, ..h }, Progress::Error)
}

/// A self-test poll while the physical sensor winds down. Bits 5-7 of
/// byte 6 of its information are the power mode: 1 Power Down, 2 Suspend.
pub open spec fn quiescing(s: Session, h: Hub, kind: SelfTestKind, polls: u8) -> (Session, Hub, Progress) {
    let phys = tested_sensor(kind);
    let (s1, info, r) = bhi260::param_reading(
        s,
        h.addr,
        (bhi260::param::PHYS_SENSOR_INFO_BASE + phys) as u16,
        bhi260::zeros(20),
    );
    let mode = info[6] >> 5;
    if (r matches Ok(n) && n >= 20) && (mode == 1 || mode == 2) {
        let (s2, r2) = bhi260::commanding(
            clearing(s1, h.addr),
            h.addr,
            bhi260::cmd::REQUEST_SELF_TEST,
            seq![phys, 0u8, 0u8, 0u8],
        );
        match r2 {
            Ok(_) => (s2, Hub { st: Some(StState::Waiting { phys }), ..h }, Progress::Pending),
            Err(_) => concluding(s2, h),
        }
    } else if polls >= QUIESCE_POLLS {
        concluding(s1, h)
    } else {
        (s1, Hub { st: Some(StState::Quiesce { kind, polls: (polls + 1) as u8 }), ..h }, Progress::Pending)
    }
}

/// The three offsets of a self-test result packet.
pub open spec fn offsets(p: Seq<u8>) -> Seq<i32> {
    Seq::new(3, |i: int| signed(le16(p[2 + 2 * i], p[3 + 2 * i]), 0x8000) as i32)
}

/// A self-test poll while the result is awaited: a result of another
/// sensor is skipped; a rejected request answers through the error
/// register.
pub open spec fn awaiting(s: Session, h: Hub, phys: u8) -> (Session, Hub, Progress) {
    let (s1, p, r) = bhi260::status_check(s, h.addr, bhi260::zeros(12));
    match r {
        Err(_) => concluding(s1, h),
        Ok(found) => if found matches Some(packet) && packet.0 == bhi260::status::SELF_TEST_RESULTS {
            if p[0] != phys {
                (s1, h, Progress::Pending)
            } else if p[1] < 8 {
                (
                    restoring(s1, h),
                    Hub { st: None, ..h },
                    Progress::Done { passed: p[1] == 0, values: offsets(p) },
                )
            } else {
                concluding(s1, h)
            }
        } else {
            let (s2, r2) = bhi260::reading(s1, h.addr, bhi260::reg::ERROR_VALUE);
            match r2 {
                Err(_) => (s2, h, Progress::Pending),
                Ok(code) => if code == 0 {
                    (s2, h, Progress::Pending)
                } else if transient(code) {
                    (clearing(s2, h.addr), h, Progress::Pending)
                } else {
                    concluding(clearing(s2, h.addr), h)
                },
            }
        },
    }
}

/// One progress check of a self-test.
pub open spec fn polling(s: Session, h: Hub) -> (Session, Hub, Progress) {
    match h.st {
        None => (s, h, Progress::Error),
        Some(StState::Quiesce { kind, polls }) => quiescing(s, h, kind, polls),
        Some(StState::Waiting { phys }) => awaiting(s, h, phys),
    }
}

/// A self-test aborted.
pub open spec fn aborting(s: Session, h: Hub) -> (Session, Hub) {
    if h.st is Some {
        (restoring(s, h), Hub { st: None, ..h })
    } else {
        (s, h)
    }
}

// ---- Bring-up ---------------------------------------------------------------

/// On to `phase`, after a delay.
pub open spec fn onward(s: Session, h: Hub, phase: Phase, delay_ms: u32) -> (Session, Hub, BootStep) {
    (s, Hub { phase, ..h }, BootStep::Pending { delay_ms })
}

/// The bring-up failed.
pub open spec fn failing(s: Session, h: Hub, why: &'static str) -> (Session, Hub, BootStep) {
    (s, Hub { phase: Phase::Failed(why), ..h }, BootStep::Failed(why))
}

/// The identity read, the interrupt pin set up, the upload announced.
pub open spec fn upload_starting(s: Session, h: Hub, firmware: Seq<u8>) -> (Session, Hub, BootStep) {
    let s1 = s.read_regs(h.addr, bhi260::reg::PRODUCT_ID, 9).0;
    let (s2, r2) = bhi260::writing(s1, h.addr, bhi260::reg::HOST_INTERRUPT_CTRL, 0);
    let (s3, r3) = bhi260::begin_upload(s2, h.addr, firmware.len() as int);
    if s.answer(9) is Err {
        failing(s1, h, "identity read failed")
    } else if r2 is Err {
        failing(s2, h, "interrupt config failed")
    } else if r3 is Err {
        failing(s3, h, "upload start failed")
    } else {
        onward(s3, h, Phase::Upload { offset: 0 }, 1)
    }
}

/// The chunk at `offset` uploaded.
pub open spec fn uploading(s: Session, h: Hub, firmware: Seq<u8>, offset: int) -> (Session, Hub, BootStep) {
    let chunk = bhi260::chunk_of(firmware, offset);
    let (s1, r1) = bhi260::chunk_upload(s, h.addr, chunk);
    let end = offset + chunk.len();
    if r1 is Err {
        failing(s1, h, "upload chunk failed")
    } else if end == firmware.len() {
        onward(s1, h, Phase::WaitVerify { tries: 0 }, 1)
    } else {
        onward(s1, h, Phase::Upload { offset: end as usize }, 1)
    }
}

/// Both FIFOs drained of the Initialized events, the error register
/// checked.
pub open spec fn init_draining(s: Session, h: Hub) -> (Session, Hub, BootStep) {
    let s1 = bhi260::fifo_reading(s, h.addr, bhi260::reg::CHANNEL_WAKE_FIFO, bhi260::zeros(64)).0;
    let s2 = bhi260::fifo_reading(s1, h.addr, bhi260::reg::CHANNEL_NONWAKE_FIFO, bhi260::zeros(64)).0;
    let (s3, r3) = bhi260::reading(s2, h.addr, bhi260::reg::ERROR_VALUE);
    match r3 {
        Err(_) => failing(s3, h, "error register read failed"),
        Ok(code) => if code == 0 {
            onward(s3, h, Phase::Discover { tries: 0 }, 50)
        } else if transient(code) {
            onward(clearing(s3, h.addr), h, Phase::Discover { tries: 0 }, 50)
        } else {
            failing(s3, h, "firmware error after boot")
        },
    }
}

/// The sensors of `ids` that a bitmap offers, in the order of `ids`.
pub open spec fn offered(map: Seq<u8>, ids: Seq<u8>) -> Seq<u8> {
    ids.filter(|id: u8| bhi260::present(map, id))
}

/// The wake sensors to use: all preferred ones there are, else the
/// fallback, if it is there.
pub open spec fn wake_set(map: Seq<u8>) -> Seq<u8> {
    let preferred = offered(map, WOM_PREFERRED@);
    if preferred.len() == 0 && bhi260::present(map, WOM_FALLBACK) {
        seq![WOM_FALLBACK]
    } else {
        preferred
    }
}

/// The step counter to use: the first of the candidates there is.
pub open spec fn step_pick(map: Seq<u8>) -> Option<u8> {
    if bhi260::present(map, STEP_PREFERRED[0]) {
        Some(STEP_PREFERRED[0])
    } else if bhi260::present(map, STEP_PREFERRED[1]) {
        Some(STEP_PREFERRED[1])
    } else {
        None
    }
}

/// The state registers read for a diagnosis.
pub open spec fn diagnosing(s: Session, addr: u8) -> Session {
    let s1 = bhi260::reading(s, addr, bhi260::reg::BOOT_STATUS).0;
    let s2 = bhi260::reading(s1, addr, bhi260::reg::INTERRUPT_STATUS).0;
    let s3 = bhi260::reading(s2, addr, bhi260::reg::ERROR_VALUE).0;
    let s4 = bhi260::reading(s3, addr, bhi260::reg::ERROR_AUX).0;
    bhi260::reading(s4, addr, bhi260::reg::DEBUG_STATE).0
}

/// The firmware's sensors asked for.
pub open spec fn discovering(s: Session, h: Hub, tries: u8) -> (Session, Hub, BootStep) {
    let (s1, map, r) = bhi260::param_reading(
        s,
        h.addr,
        bhi260::param::VIRT_SENSORS_PRESENT,
        bhi260::zeros(32),
    );
    if r matches Ok(n) && n >= 32 {
        if !bhi260::present(map, STREAM_ACCEL) || !bhi260::present(map, STREAM_GYRO) {
            failing(s1, h, "firmware lacks accel/gyro sensors")
        } else {
            onward(s1, Hub { wake: wake_set(map), step: step_pick(map), ..h }, Phase::Enable, 1)
        }
    } else if tries < DISCOVER_TRIES {
        onward(s1, h, Phase::Discover { tries: (tries + 1) as u8 }, 50)
    } else {
        failing(diagnosing(s1, h.addr), h, "sensor discovery failed")
    }
}

/// Both physical sensors remapped to the device frame.
pub open spec fn orienting(s: Session, h: Hub) -> (Session, Result<(), Error<Fault>>) {
    chain(
        bhi260::matrix_writing(s, h.addr, bhi260::phys::ACCEL, h.orientation),
        |s1: Session, u: ()| bhi260::matrix_writing(s1, h.addr, bhi260::phys::GYRO, h.orientation),
    )
}

/// A dynamic range requested.
pub open spec fn range_request(s: Session, addr: u8, id: u8, range: u16) -> (Session, Result<(), Error<Fault>>) {
    bhi260::commanding(
        s,
        addr,
        bhi260::cmd::CHANGE_DYNAMIC_RANGE,
        seq![id] + crate::bytes::bytes_le16(range) + seq![0u8],
    )
}

/// The mounting remap, no meta events in the wake-up FIFO, the dynamic
/// ranges, the streaming pair on.
pub open spec fn stream_setup(s: Session, h: Hub) -> (Session, Result<(), Error<Fault>>) {
    chain(
        orienting(s, h),
        |s1: Session, u1: ()|
            chain(
                bhi260::param_writing(s1, h.addr, bhi260::param::META_EVENT_CTRL_WAKE, bhi260::zeros(8)),
                |s2: Session, u2: ()|
                    chain(
                        range_request(s2, h.addr, STREAM_ACCEL, REQ_ACCEL_RANGE_G),
                        |s3: Session, u3: ()|
                            chain(
                                range_request(s3, h.addr, STREAM_GYRO, REQ_GYRO_RANGE_DPS),
                                |s4: Session, u4: ()| streaming(s4, h.addr, AWAKE_RATE_HZ),
                            ),
                    ),
            ),
    )
}

/// The sensors enabled.
pub open spec fn enabling(s: Session, h: Hub) -> (Session, Hub, BootStep) {
    let (s1, r1) = stream_setup(s, h);
    if r1 is Err {
        failing(s1, h, "sensor enable failed")
    } else {
        let s2 = configuring_each(s1, h.addr, h.wake, 0, WOM_RATE_HZ);
        let s3 = stepping(s2, h.addr, h.step, STEP_RATE_HZ).0;
        onward(acknowledging(s3, h.addr), h, Phase::Recycle { enabled: false }, 100)
    }
}

/// The streaming pair turned off, then on again.
pub open spec fn recycling(s: Session, h: Hub, enabled: bool) -> (Session, Hub, BootStep) {
    let (s1, r1) = streaming(s, h.addr, if enabled { AWAKE_RATE_HZ } else { RATE_OFF });
    if r1 is Err {
        failing(s1, h, "re-arbitration cycle failed")
    } else if enabled {
        onward(s1, h, Phase::ReadRanges { tries: 0 }, 50)
    } else {
        onward(s1, h, Phase::Recycle { enabled: true }, 100)
    }
}

/// The dynamic range of a sensor read back: nothing while it reads 0 or
/// the read fails.
pub open spec fn range_reading(s: Session, addr: u8, id: u8) -> (Session, Option<int>) {
    let (s1, buf, r) = bhi260::param_reading(
        s,
        addr,
        (bhi260::param::VIRT_SENSOR_CONF_BASE + id) as u16,
        bhi260::zeros(12),
    );
    let range = le16(buf[10], buf[11]);
    (s1, if (r matches Ok(n) && n >= 12) && range > 0 { Some(range) } else { None })
}

/// Both dynamic ranges read back; once the tries are used up the
/// requested ones are taken.
pub open spec fn ranges_reading(s: Session, h: Hub, tries: u8) -> (Session, Hub, BootStep) {
    let (s1, a) = range_reading(s, h.addr, STREAM_ACCEL);
    let (s2, g) = range_reading(s1, h.addr, STREAM_GYRO);
    if a is Some && g is Some {
        onward(
            s2,
            Hub { accel_range: a->0, gyro_range: g->0, ..h },
            Phase::BootWom { entered: false },
            50,
        )
    } else if tries < RANGE_TRIES {
        onward(s2, h, Phase::ReadRanges { tries: (tries + 1) as u8 }, 50)
    } else {
        onward(
            s2,
            Hub { accel_range: REQ_ACCEL_RANGE_G as int, gyro_range: REQ_GYRO_RANGE_DPS as int, ..h },
            Phase::BootWom { entered: false },
            50,
        )
    }
}

/// The simulated sleep entered, then left.
pub open spec fn sleep_cycling(s: Session, h: Hub, entered: bool) -> (Session, Hub, BootStep) {
    if entered {
        let (s1, h1) = exiting(s, Hub { phase: Phase::Ready, ..h });
        (s1, Hub { announce: None, ..h1 }, BootStep::Ready)
    } else {
        let (s1, h1) = entering(s, Hub { phase: Phase::Ready, ..h });
        onward(s1, h1, Phase::BootWom { entered: true }, 3000)
    }
}

/// One step of the bring-up.
pub open spec fn boot(s: Session, h: Hub, firmware: Seq<u8>) -> (Session, Hub, BootStep) {
    match h.phase {
        Phase::Reset => {
            let (s1, r) = bhi260::writing(s, h.addr, bhi260::reg::RESET_REQUEST, 0x01);
            match r {
                Ok(_) => onward(s1, h, Phase::WaitBootloader { tries: 0 }, 2),
                Err(_) => failing(s1, h, "no response on I2C (reset)"),
            }
        },
        Phase::WaitBootloader { tries } => {
            let (s1, r) = bhi260::ready_check(s, h.addr);
            match r {
                Ok(ready) => if ready {
                    onward(s1, h, Phase::StartUpload, 1)
                } else if tries < BOOTLOADER_TRIES {
                    onward(s1, h, Phase::WaitBootloader { tries: (tries + 1) as u8 }, 1)
                } else {
                    failing(s1, h, "bootloader never became ready")
                },
                Err(_) => failing(s1, h, "bootloader never became ready"),
            }
        },
        Phase::StartUpload => upload_starting(s, h, firmware),
        Phase::Upload { offset } => uploading(s, h, firmware, offset as int),
        Phase::WaitVerify { tries } => {
            let (s1, r) = bhi260::verify_check(s, h.addr);
            match r {
                Ok(done) => if done {
                    onward(s1, h, Phase::Boot, 1)
                } else if tries < VERIFY_TRIES {
                    onward(s1, h, Phase::WaitVerify { tries: (tries + 1) as u8 }, 5)
                } else {
                    failing(s1, h, "firmware verify timed out")
                },
                Err(_) => failing(s1, h, "firmware verify failed"),
            }
        },
        Phase::Boot => {
            let (s1, r) = bhi260::commanding(s, h.addr, bhi260::cmd::BOOT_PROGRAM_RAM, Seq::empty());
            match r {
                Ok(_) => onward(s1, h, Phase::WaitFirmware { tries: 0 }, 20),
                Err(_) => failing(s1, h, "boot command failed"),
            }
        },
        Phase::WaitFirmware { tries } => {
            let (s1, r) = bhi260::ready_check(s, h.addr);
            match r {
                Ok(ready) => if ready {
                    onward(s1, h, Phase::DrainInit, 1)
                } else if tries < FW_BOOT_TRIES {
                    onward(s1, h, Phase::WaitFirmware { tries: (tries + 1) as u8 }, 10)
                } else {
                    failing(s1, h, "firmware never came up")
                },
                Err(_) => failing(s1, h, "firmware never came up"),
            }
        },
        Phase::DrainInit => init_draining(s, h),
        Phase::Discover { tries } => discovering(s, h, tries),
        Phase::Enable => enabling(s, h),
        Phase::Recycle { enabled } => recycling(s, h, enabled),
        Phase::ReadRanges { tries } => ranges_reading(s, h, tries),
        Phase::BootWom { entered } => sleep_cycling(s, h, entered),
        Phase::Ready => (s, h, BootStep::Ready),
        Phase::Failed(why) => (s, h, BootStep::Failed(why)),
    }
}

// ---- The adapter ------------------------------------------------------------

#[derive(Debug, Clone)]
pub struct Bhi260Imu {
    drv: Bhi260,
    phase: Phase,
    /// Wake-up motion sensors picked at discovery (all present members of
    /// [`WOM_PREFERRED`], else [`WOM_FALLBACK`]); empty if the firmware
    /// offers none (sleep then has no motion wake - GPIO wake sources
    /// still apply).
    wake_sensors: Vec<u8>,
    /// Step-counter virtual sensor picked at discovery (first present
    /// member of [`STEP_PREFERRED`]); `None` if the firmware offers none
    /// - `ImuData::steps` then stays `None`.
    step_sensor: Option<u8>,
    /// The sensor id drained at wake, until the first awake `read`.
    announce_wake: Option<u8>,
    /// Current dynamic ranges (SI units) read back from the Virtual
    /// Sensor Configuration parameters - the scale reference for incoming
    /// raw samples.
    accel_range_si: i32,
    gyro_range_si: i32,
    /// Latest normalized sample, repeated when a poll finds no fresh FIFO
    /// data.
    last: ImuData,
    /// In-flight self-test state, if any (see
    /// [`Bhi260Imu::self_test_start`]).
    st: Option<StState>,
    /// Viewing-pose classifier fed by every parsed accel sample.
    wear: WearClassifier,
    /// Board-provided mounting remap, applied to the physical accel and
    /// gyro during bring-up. The gesture algorithms - wake gesture above
    /// all - evaluate motion in the device frame and are blind when this
    /// is wrong.
    orientation: [u8; 5],
    /// FIFO watchdog: consecutive empty awake polls.
    empty_streak: u16,
}

impl View for Bhi260Imu {
    type V = Hub;

    closed spec fn view(&self) -> Hub {
        Hub {
            addr: self.drv.address(),
            phase: self.phase,
            wake: self.wake_sensors@,
            step: self.step_sensor,
            announce: self.announce_wake,
            accel_range: self.accel_range_si as int,
            gyro_range: self.gyro_range_si as int,
            last: self.last,
            st: self.st,
            wear: self.wear@,
            orientation: self.orientation@,
            empty: self.empty_streak,
        }
    }
}

/// Whether an error code is of the benign channel-flow class.
fn is_transient(code: u8) -> (r: bool)
    ensures
        r == transient(code),
{
    matches!(code, 0x75 | 0x76 | 0x77)
}

/// One-shot sensors self-DISABLE after firing (datasheet Table 88
/// reporting mode) and must be re-armed to fire again.
fn is_one_shot(id: u8) -> (r: bool)
    ensures
        r == one_shot(id),
{
    match id {
        bhi260::event_id::SIGNIFICANT_MOTION_WU | bhi260::event_id::WAKE_GESTURE_WU
        | bhi260::event_id::GLANCE_GESTURE_WU | bhi260::event_id::PICKUP_GESTURE_WU => true,
        _ => false,
    }
}

/// Rescale a raw i16 sample from the chip's dynamic range to the
/// normalized full-scale range, saturating at the i16 rails.
fn rescale(raw: i16, from_range: i32, to_range: i32) -> (r: i16)
    requires
        0 <= from_range <= 0xFFFF,
        to_range > 0,
    ensures
        r == rescaled(raw, from_range as int, to_range as int),
{
    assert(-0x8000_0000 <= raw * from_range <= 0x8000_0000) by (nonlinear_arith)
        requires
            -32768 <= raw <= 32767,
            0 <= from_range <= 0xFFFF,
    ;
    clamp16(div_toward_zero(raw as i64 * from_range as i64, to_range as i64))
}

impl Bhi260Imu {
    /// `orientation` is the board's mounting remap, packed via
    /// [`Bhi260::pack_orientation_matrix`] (identity for a chip mounted
    /// in the datasheet's default frame). `wear` is the wear calibration
    /// for the viewing-pose classifier.
    pub fn new(orientation: [u8; 5], wear: WearCalibration) -> (r: Bhi260Imu)
        ensures
            r@ == Hub::fresh(orientation@, wear),
            r@.valid(),
    {
        let r = Bhi260Imu {
            wear: WearClassifier::new(wear),
            drv: Bhi260::new(),
            phase: Phase::Reset,
            orientation,
            accel_range_si: NORM_ACCEL_RANGE_G,
            gyro_range_si: 2000,  // chip default until read back
            wake_sensors: Vec::new(),
            step_sensor: None,
            announce_wake: None,
            last: Default::default(),
            st: None,
            empty_streak: 0,
        };
        assert(r@.wake =~= Seq::empty());
        r
    }

    pub fn is_ready(&self) -> (r: bool)
        ensures
            r == (self@.phase == Phase::Ready),
    {
        match self.phase {
            Phase::Ready => true,
            _ => false,
        }
    }

    // ---- Bring-up -----------------------------------------------------------

    /// Advance the bring-up by one short bus transaction. `firmware` is
    /// the image that is uploaded: the same one on every call.
    pub fn boot_step(&mut self, i2c: &mut Bus, firmware: &[u8]) -> (r: BootStep)
        requires
            old(self)@.valid(),
            old(self)@.within(firmware@),
        ensures
            (final(i2c)@, final(self)@, r) == boot(old(i2c)@, old(self)@, firmware@),
            final(self)@.valid(),
            final(self)@.within(firmware@),
    {
        match self.phase {
            Phase::Reset => match self.drv.host_reset(i2c) {
                Ok(()) => self.go(Phase::WaitBootloader { tries: 0 }, 2),
                Err(_) => self.fail("no response on I2C (reset)"),
            },
            Phase::WaitBootloader { tries } => match self.drv.host_interface_ready(i2c) {
                Ok(true) => self.go(Phase::StartUpload, 1),
                Ok(false) => if tries < BOOTLOADER_TRIES {
                    self.go(Phase::WaitBootloader { tries: tries + 1 }, 1)
                } else {
                    self.fail("bootloader never became ready")
                },
                Err(_) => self.fail("bootloader never became ready"),
            },
            Phase::StartUpload => self.start_upload(i2c, firmware),
            Phase::Upload { offset } => self.upload(i2c, firmware, offset),
            Phase::WaitVerify { tries } => match self.drv.firmware_verify_done(i2c) {
                Ok(true) => self.go(Phase::Boot, 1),
                Ok(false) => if tries < VERIFY_TRIES {
                    self.go(Phase::WaitVerify { tries: tries + 1 }, 5)
                } else {
                    self.fail("firmware verify timed out")
                },
                Err(_) => self.fail("firmware verify failed"),
            },
            Phase::Boot => match self.drv.boot_program_ram(i2c) {
                Ok(()) => self.go(Phase::WaitFirmware { tries: 0 }, 20),
                Err(_) => self.fail("boot command failed"),
            },
            Phase::WaitFirmware { tries } => match self.drv.host_interface_ready(i2c) {
                Ok(true) => self.go(Phase::DrainInit, 1),
                Ok(false) => if tries < FW_BOOT_TRIES {
                    self.go(Phase::WaitFirmware { tries: tries + 1 }, 10)
                } else {
                    self.fail("firmware never came up")
                },
                Err(_) => self.fail("firmware never came up"),
            },
            Phase::DrainInit => self.drain_init(i2c),
            Phase::Discover { tries } => self.discover(i2c, tries),
            Phase::Enable => self.enable(i2c),
            Phase::Recycle { enabled } => self.recycle(i2c, enabled),
            Phase::ReadRanges { tries } => self.read_ranges(i2c, tries),
            Phase::BootWom { entered } => self.boot_wom(i2c, entered),
            Phase::Ready => BootStep::Ready,
            Phase::Failed(why) => BootStep::Failed(why),
        }
    }

    fn go(&mut self, phase: Phase, delay_ms: u32) -> (r: BootStep)
        ensures
            final(self)@ == (Hub { phase, ..old(self)@ }),
            r == (BootStep::Pending { delay_ms }),
    {
        self.phase = phase;
        BootStep::Pending { delay_ms }
    }

    fn fail(&mut self, why: &'static str) -> (r: BootStep)
        ensures
            final(self)@ == (Hub { phase: Phase::Failed(why), ..old(self)@ }),
            r == BootStep::Failed(why),
    {
        self.phase = Phase::Failed(why);
        BootStep::Failed(why)
    }

    fn start_upload(&mut self, i2c: &mut Bus, firmware: &[u8]) -> (r: BootStep)
        ensures
            (final(i2c)@, final(self)@, r) == upload_starting(old(i2c)@, old(self)@, firmware@),
    {
        if self.drv.probe(i2c).is_err() {
            return self.fail("identity read failed");
        }
        // Interrupt pin config: reset default (active high, level,
        // push-pull, all sources) matches the board wiring; written
        // explicitly per the boot procedure.
        if self.drv.configure_host_interrupt(i2c, 0).is_err() {
            return self.fail("interrupt config failed");
        }
        match self.drv.begin_ram_upload(i2c, firmware.len()) {
            Ok(()) => self.go(Phase::Upload { offset: 0 }, 1),
            Err(_) => self.fail("upload start failed"),
        }
    }

    fn upload(&mut self, i2c: &mut Bus, firmware: &[u8], offset: usize) -> (r: BootStep)
        requires
            offset <= firmware@.len(),
        ensures
            (final(i2c)@, final(self)@, r) == uploading(old(i2c)@, old(self)@, firmware@, offset as int),
            final(self)@.within(firmware@),
    {
        let left: usize = firmware.len() - offset;
        let end: usize = if left > bhi260::UPLOAD_CHUNK {
            offset + bhi260::UPLOAD_CHUNK
        } else {
            firmware.len()
        };
        let chunk: &[u8] = &firmware[offset..end];
        assert(chunk@ =~= bhi260::chunk_of(firmware@, offset as int));
        if self.drv.upload_chunk(i2c, chunk).is_err() {
            return self.fail("upload chunk failed");
        }
        if end == firmware.len() {
            self.go(Phase::WaitVerify { tries: 0 }, 1)
        } else {
            self.go(Phase::Upload { offset: end }, 1)
        }
    }

    /// Both FIFOs hold an Initialized meta event that must be read out
    /// before any configuration (Section 15.3.11); this also releases the
    /// first interrupt.
    fn drain_init(&mut self, i2c: &mut Bus) -> (r: BootStep)
        ensures
            (final(i2c)@, final(self)@, r) == init_draining(old(i2c)@, old(self)@),
    {
        let mut wake: [u8; 64] = [0; 64];
        assert(wake@ =~= bhi260::zeros(64));
        let _ = self.drv.read_fifo(i2c, bhi260::reg::CHANNEL_WAKE_FIFO, &mut wake);
        let mut nonwake: [u8; 64] = [0; 64];
        assert(nonwake@ =~= bhi260::zeros(64));
        let _ = self.drv.read_fifo(i2c, bhi260::reg::CHANNEL_NONWAKE_FIFO, &mut nonwake);
        match self.drv.error_value(i2c) {
            Ok(code) => {
                if code == 0 || is_transient(code) {
                    if code != 0 {
                        let _ = self.drv.clear_error_regs(i2c);
                    }
                    // Grace before the first parameter read - the
                    // framework is still initializing BSX at this point
                    // and answers commands late.
                    self.go(Phase::Discover { tries: 0 }, 50)
                } else {
                    self.fail("firmware error after boot")
                }
            },
            Err(_) => self.fail("error register read failed"),
        }
    }

    fn discover(&mut self, i2c: &mut Bus, tries: u8) -> (r: BootStep)
        ensures
            (final(i2c)@, final(self)@, r) == discovering(old(i2c)@, old(self)@, tries),
    {
        let map: [u8; 32] = match self.drv.virt_sensors_present(i2c) {
            Ok(m) => m,
            Err(_) => {
                if tries < DISCOVER_TRIES {
                    return self.go(Phase::Discover { tries: tries + 1 }, 50);
                }
                self.read_diagnostics(i2c);
                return self.fail("sensor discovery failed");
            },
        };
        if !Bhi260::sensor_present(&map, STREAM_ACCEL) || !Bhi260::sensor_present(&map, STREAM_GYRO) {
            return self.fail("firmware lacks accel/gyro sensors");
        }
        // Arm every preferred wake sensor the firmware offers - they
        // compose (any wake FIFO event wakes).
        self.wake_sensors = pick_wake(&map);
        self.step_sensor = pick_step(&map);
        self.go(Phase::Enable, 1)
    }

    /// Read the state registers, so that the traffic of a failed bring-up
    /// carries its own diagnosis.
    fn read_diagnostics(&self, i2c: &mut Bus)
        ensures
            final(i2c)@ == diagnosing(old(i2c)@, self@.addr),
    {
        let _ = self.drv.boot_status(i2c);
        let _ = self.drv.interrupt_status(i2c);
        let _ = self.drv.error_value(i2c);
        let _ = self.drv.read_reg(i2c, bhi260::reg::ERROR_AUX);
        let _ = self.drv.read_reg(i2c, bhi260::reg::DEBUG_STATE);
    }

    fn enable(&mut self, i2c: &mut Bus) -> (r: BootStep)
        ensures
            (final(i2c)@, final(self)@, r) == enabling(old(i2c)@, old(self)@),
    {
        if self.set_up_stream(i2c).is_err() {
            return self.fail("sensor enable failed");
        }
        // The gesture/wake sensors run CONTINUOUSLY, awake and asleep:
        // asleep they are the wake source, awake their events count as
        // user activity (dim recovery). Non-fatal if one fails - the FIFO
        // watchdog and sleep entry re-arm them.
        self.configure_each_wake(i2c);
        // Step counter joins the always-on set (it survives sleep entry
        // untouched). Non-fatal like the gestures.
        let _ = self.configure_step(i2c, STEP_RATE_HZ);
        // The gesture enables may latch a benign rate complaint (the
        // framework grumbles about the requested rate and runs the sensor
        // anyway). Acknowledge it here so later error-register checks
        // (self-tests above all) only see their own errors.
        self.acknowledge(i2c);
        // Settle after the first enable burst before the re-arbitration
        // cycle.
        self.go(Phase::Recycle { enabled: false }, 100)
    }

    /// Board mounting remap first - everything downstream (samples AND
    /// the wake-gesture algorithms) consumes the device frame this
    /// establishes. Then no meta events in the wake-up FIFO: during sleep
    /// the interrupt line doubles as the host wake source, and only REAL
    /// wake-sensor events may assert it. Then the normalization-friendly
    /// dynamic ranges, then continuous accel+gyro.
    fn set_up_stream(&self, i2c: &mut Bus) -> (e: Result<(), Error<Fault>>)
        ensures
            (final(i2c)@, e) == stream_setup(old(i2c)@, self@),
    {
        self.drv.set_orientation_matrix(i2c, bhi260::phys::ACCEL, self.orientation)?;
        self.drv.set_orientation_matrix(i2c, bhi260::phys::GYRO, self.orientation)?;
        let none: [u8; 8] = [0; 8];
        assert(none@ =~= bhi260::zeros(8));
        self.drv.set_meta_event_control(i2c, true, none)?;
        self.drv.change_dynamic_range(i2c, STREAM_ACCEL, REQ_ACCEL_RANGE_G)?;
        self.drv.change_dynamic_range(i2c, STREAM_GYRO, REQ_GYRO_RANGE_DPS)?;
        self.stream(i2c, AWAKE_RATE_HZ)
    }

    /// Reproduce the healing disable->re-enable transition once.
    fn recycle(&mut self, i2c: &mut Bus, enabled: bool) -> (r: BootStep)
        ensures
            (final(i2c)@, final(self)@, r) == recycling(old(i2c)@, old(self)@, enabled),
    {
        if self.stream(i2c, if enabled { AWAKE_RATE_HZ } else { RATE_OFF }).is_err() {
            return self.fail("re-arbitration cycle failed");
        }
        if !enabled {
            self.go(Phase::Recycle { enabled: true }, 100)
        } else {
            // Give the framework a beat to apply rate + range before
            // reading the actual values back.
            self.go(Phase::ReadRanges { tries: 0 }, 50)
        }
    }

    /// The framework answers parameter reads late while it digests the
    /// enable burst - retry on this machine's pacing.
    fn read_ranges(&mut self, i2c: &mut Bus, tries: u8) -> (r: BootStep)
        requires
            old(self)@.valid(),
        ensures
            (final(i2c)@, final(self)@, r) == ranges_reading(old(i2c)@, old(self)@, tries),
            final(self)@.valid(),
    {
        let a: Option<i32> = self.try_read_range(i2c, STREAM_ACCEL);
        let g: Option<i32> = self.try_read_range(i2c, STREAM_GYRO);
        match (a, g) {
            (Some(ar), Some(gr)) => {
                self.accel_range_si = ar;
                self.gyro_range_si = gr;
            },
            _ => {
                if tries < RANGE_TRIES {
                    return self.go(Phase::ReadRanges { tries: tries + 1 }, 50);
                }
                // Terminal fallback: assume the REQUESTED values -
                // assuming default 2000 dps against an applied 250 would
                // scale the gyro 8x hot.
                self.accel_range_si = REQ_ACCEL_RANGE_G as i32;
                self.gyro_range_si = REQ_GYRO_RANGE_DPS as i32;
            },
        }
        self.go(Phase::BootWom { entered: false }, 50)
    }

    /// Current dynamic range of a virtual sensor from its configuration
    /// parameter (Table 75: range u16 at payload offset 10). `None` when
    /// the read fails or the range still reads 0 (not applied yet) - the
    /// caller retries.
    fn try_read_range(&self, i2c: &mut Bus, sensor_id: u8) -> (r: Option<i32>)
        ensures
            final(i2c)@ == range_reading(old(i2c)@, self@.addr, sensor_id).0,
            match range_reading(old(i2c)@, self@.addr, sensor_id).1 {
                Some(n) => r matches Some(v) && v == n && 0 < n <= 0xFFFF,
                None => r is None,
            },
    {
        let mut buf: [u8; 12] = [0; 12];
        assert(buf@ =~= bhi260::zeros(12));
        let p: u16 = bhi260::param::VIRT_SENSOR_CONF_BASE + sensor_id as u16;
        match self.drv.param_read(i2c, p, &mut buf) {
            Ok(n) => {
                let range: i32 = u16_le(buf[10], buf[11]) as i32;
                if n >= 12 && range > 0 {
                    Some(range)
                } else {
                    None
                }
            },
            Err(_) => None,
        }
    }

    fn boot_wom(&mut self, i2c: &mut Bus, entered: bool) -> (r: BootStep)
        requires
            old(self)@.valid(),
        ensures
            (final(i2c)@, final(self)@, r) == sleep_cycling(old(i2c)@, old(self)@, entered),
            final(self)@.valid(),
            final(self)@.phase !is Upload,
    {
        // Phase must be Ready for the guards of enter/exit_wom.
        self.phase = Phase::Ready;
        if !entered {
            self.enter_wom(i2c);
            // The silent gap: the task sleeps on this delay and touches
            // nothing.
            self.go(Phase::BootWom { entered: true }, 3000)
        } else {
            self.exit_wom(i2c);
            // Housekeeping drain, not a real wake.
            self.announce_wake = None;
            BootStep::Ready
        }
    }

    // ---- Sensor programming -------------------------------------------------

    /// Set both streaming sensors to a rate.
    fn stream(&self, i2c: &mut Bus, rate: u32) -> (e: Result<(), Error<Fault>>)
        ensures
            (final(i2c)@, e) == streaming(old(i2c)@, self@.addr, rate),
    {
        self.drv.configure_sensor(i2c, STREAM_ACCEL, rate, 0)?;
        self.drv.configure_sensor(i2c, STREAM_GYRO, rate, 0)
    }

    /// Set the wake sensors to a rate, up to the first failure.
    fn configure_wake(&self, i2c: &mut Bus, rate: u32) -> (e: Result<(), Error<Fault>>)
        ensures
            (final(i2c)@, e) == configuring(old(i2c)@, self@.addr, self@.wake, 0, rate),
    {
        let mut i: usize = 0;
        while i < self.wake_sensors.len()
            invariant
                i <= self.wake_sensors@.len(),
                configuring(old(i2c)@, self@.addr, self@.wake, 0, rate) == configuring(
                    i2c@,
                    self@.addr,
                    self@.wake,
                    i as int,
                    rate,
                ),
            decreases self.wake_sensors@.len() - i,
        {
            self.drv.configure_sensor(i2c, self.wake_sensors[i], rate, 0)?;
            i = i + 1;
        }
        Ok(())
    }

    /// Arm the wake sensors, ignoring failures.
    fn configure_each_wake(&self, i2c: &mut Bus)
        ensures
            final(i2c)@ == configuring_each(old(i2c)@, self@.addr, self@.wake, 0, WOM_RATE_HZ),
    {
        let mut i: usize = 0;
        while i < self.wake_sensors.len()
            invariant
                i <= self.wake_sensors@.len(),
                configuring_each(old(i2c)@, self@.addr, self@.wake, 0, WOM_RATE_HZ) == configuring_each(
                    i2c@,
                    self@.addr,
                    self@.wake,
                    i as int,
                    WOM_RATE_HZ,
                ),
            decreases self.wake_sensors@.len() - i,
        {
            let _ = self.drv.configure_sensor(i2c, self.wake_sensors[i], WOM_RATE_HZ, 0);
            i = i + 1;
        }
    }

    /// Set the step counter, if there is one, to a rate.
    fn configure_step(&self, i2c: &mut Bus, rate: u32) -> (e: Result<(), Error<Fault>>)
        ensures
            (final(i2c)@, e) == stepping(old(i2c)@, self@.addr, self@.step, rate),
    {
        match self.step_sensor {
            Some(id) => self.drv.configure_sensor(i2c, id, rate, 0),
            None => Ok(()),
        }
    }

    /// Read the error register and clear what it holds. Configure has no
    /// response packet; rejections land in the error register only.
    fn acknowledge(&self, i2c: &mut Bus)
        ensures
            final(i2c)@ == acknowledging(old(i2c)@, self@.addr),
    {
        if let Ok(code) = self.drv.error_value(i2c) {
            if code != 0 {
                let _ = self.drv.clear_error_regs(i2c);
            }
        }
    }

    /// Bring the running sensor set back after a self-test (or the
    /// watchdog): wake/gesture sensors first, then the step counter and
    /// the continuous pair. A rejection (e.g. the physical sensor is
    /// still busy with a self-test the host gave up waiting on) only
    /// lands in the error register, which is acknowledged. The FIFO
    /// watchdog in [`Self::read`] re-arms if this did not stick.
    fn restore_running(&self, i2c: &mut Bus)
        ensures
            final(i2c)@ == restoring(old(i2c)@, self@),
    {
        if self.configure_wake(i2c, WOM_RATE_HZ).is_err() {
            return ;
        }
        if self.configure_step(i2c, STEP_RATE_HZ).is_err() {
            return ;
        }
        if self.stream(i2c, AWAKE_RATE_HZ).is_err() {
            return ;
        }
        self.acknowledge(i2c);
    }

    // ---- Task contract ------------------------------------------------------

    /// Drain the non-wake-up FIFO, keep the newest accel/gyro sample, and
    /// return it rescaled to the normalized raw ranges. With no fresh
    /// data the previous sample is returned (the chip samples at 25 Hz
    /// against the task's 20 Hz poll).
    pub fn read(&mut self, i2c: &mut Bus) -> (r: Result<ImuData, ()>)
        requires
            old(self)@.valid(),
        ensures
            (final(i2c)@, final(self)@, r) == sampling(old(i2c)@, old(self)@),
            final(self)@.valid(),
            r matches Ok(d) ==> d.temp_raw == 0,
    {
        if !self.is_ready() {
            return Err(());
        }
        self.announce_wake = None;
        // Service the wake-up FIFO whenever the chip offers it - an
        // unserviced wake transfer keeps the interrupt asserted and
        // wedges the non-wake pipeline.
        let _ = self.drain_wake_if_pending(i2c);
        // Read the non-wake channel unconditionally - gating on the
        // transfer-offer bit races the poll cadence and starves the
        // stream. Reading an empty channel latches a benign code; every
        // error-register check filters that class.
        let mut buf: [u8; 512] = [0; 512];
        assert(buf@ =~= bhi260::zeros(512));
        let n: usize = match self.drv.read_fifo(i2c, bhi260::reg::CHANNEL_NONWAKE_FIFO, &mut buf) {
            Ok(n) => n,
            Err(_) => {
                return Err(());
            },
        };
        self.watch(i2c, n);
        let all: &[u8] = &buf;
        let stream: &[u8] = &all[0..n];
        assert(stream@ == buf@.take(n as int));
        proof {
            samples_change_nothing_else(self@, fifo::events(stream@));
        }
        let lost: Option<u8> = self.absorb(stream);
        if lost.is_some() {
            // Loss-of-sync recovery per Section 16.4: abort the channel
            // transfer; the next transfer restarts cleanly at a block
            // boundary.
            let _ = self.drv.write_reg(i2c, bhi260::reg::HOST_INTERFACE_CTRL, bhi260::hif_control::ABORT_CH2);
            let _ = self.drv.write_reg(i2c, bhi260::reg::HOST_INTERFACE_CTRL, 0);
        }
        Ok(self.last)
    }

    /// FIFO watchdog: an enabled 25 Hz sensor pair that delivers nothing
    /// for ~10 s of polling means an enable was silently dropped - re-arm
    /// the sensors (no-op cost when healthy).
    fn watch(&mut self, i2c: &mut Bus, n: usize)
        ensures
            (final(i2c)@, final(self)@) == watching(old(i2c)@, old(self)@, n as int),
    {
        if n == 0 && self.st.is_none() {
            if self.empty_streak >= EMPTY_POLLS - 1 {
                let _ = self.drv.read_reg(i2c, bhi260::reg::HOST_INTERFACE_CTRL);
                let _ = self.drv.interrupt_status(i2c);
                self.restore_running(i2c);
                self.empty_streak = 0;
            } else {
                self.empty_streak = self.empty_streak + 1;
            }
        } else {
            self.empty_streak = 0;
        }
    }

    /// Take in the events of a transfer. Gives the unknown event id the
    /// stream went out of sync at, if it did.
    fn absorb(&mut self, stream: &[u8]) -> (lost: Option<u8>)
        requires
            old(self)@.valid(),
        ensures
            final(self)@ == absorbed_all(old(self)@, fifo::events(stream@)),
            final(self)@.valid(),
            lost == fifo::lost_in(stream@),
    {
        let mut p: fifo::Parser = fifo::Parser::new(stream);
        loop
            invariant
                self@.valid(),
                p.valid(),
                p.stream() == stream@,
                p.lost() is None,
                absorbed_all(old(self)@, fifo::events(stream@)) == absorbed_all(
                    self@,
                    fifo::events_from(stream@, p.consumed(), p.ticks()),
                ),
                fifo::stop_of(stream@, 0, 0) == fifo::stop_of(stream@, p.consumed(), p.ticks()),
            decreases stream@.len() - p.consumed(),
        {
            let ghost from = p.consumed();
            let ghost ticks = p.ticks();
            proof {
                fifo::skipping_passes_whole_events(stream@, from, ticks);
            }
            match p.next_event() {
                Some(ev) => {
                    proof {
                        let at = fifo::skip_internal(stream@, from, ticks).0;
                        let rest = fifo::events_from(stream@, p.consumed(), p.ticks());
                        let here = fifo::events_from(stream@, from, ticks);
                        assert(here[0] == (stream@[at], fifo::payload_at(stream@, at)));
                        assert(here.skip(1) =~= rest);
                    }
                    self.absorb_event(ev);
                },
                None => {
                    return p.lost_id();
                },
            }
        }
    }

    /// Take in one event.
    fn absorb_event(&mut self, ev: fifo::Event)
        requires
            old(self)@.valid(),
        ensures
            final(self)@.valid(),
            forall|id: u8, p: Seq<u8>| #[trigger]
                ev.is(id, p) && fifo::size_of(id) > 0 ==> final(self)@ == absorbed(old(self)@, id, p),
    {
        match ev {
            fifo::Event::Vector3 { id, x, y, z } => {
                if id == STREAM_ACCEL {
                    let ax: i16 = rescale(x, self.accel_range_si, NORM_ACCEL_RANGE_G);
                    let ay: i16 = rescale(y, self.accel_range_si, NORM_ACCEL_RANGE_G);
                    let az: i16 = rescale(z, self.accel_range_si, NORM_ACCEL_RANGE_G);
                    self.last.accel_x = ax;
                    self.last.accel_y = ay;
                    self.last.accel_z = az;
                    self.wear.feed(ax, ay, az);
                } else if id == STREAM_GYRO {
                    self.last.gyro_x = rescale(x, self.gyro_range_si, NORM_GYRO_RANGE_DPS);
                    self.last.gyro_y = rescale(y, self.gyro_range_si, NORM_GYRO_RANGE_DPS);
                    self.last.gyro_z = rescale(z, self.gyro_range_si, NORM_GYRO_RANGE_DPS);
                }
            },
            // On-change total from the step counter; the newest event
            // wins within a drain.
            fifo::Event::StepCount { id: _, steps } => {
                self.last.steps = Some(steps);
            },
            _ => {},
        }
    }

    /// Sleep mode: continuous sensors off (the step counter stays running
    /// - it is non-wake-up and counts through host sleep), wake-up motion
    /// sensors on, hub told the host is suspending (only wake-up sensors
    /// then assert the interrupt - Section 16.3).
    pub fn enter_wom(&mut self, i2c: &mut Bus)
        requires
            old(self)@.valid(),
        ensures
            (final(i2c)@, final(self)@) == entering(old(i2c)@, old(self)@),
            final(self)@.valid(),
    {
        if !self.is_ready() {
            return ;
        }
        // Pose history dies with the sleep: the first raise after wake
        // must always produce a fresh transition.
        self.wear.reset();
        if self.silence(i2c).is_err() {
            return ;
        }
        let mut i: usize = 0;
        let ghost s1 = i2c@;
        let ghost h1 = self@;
        while i < self.wake_sensors.len()
            invariant
                i <= self.wake_sensors@.len(),
                self@ == h1,
                h1.phase == Phase::Ready,
                old(self)@.phase == Phase::Ready,
                h1 == (Hub { wear: Wear::fresh(old(self)@.wear.cal), ..old(self)@ }),
                h1.valid(),
                silencing(old(i2c)@, h1.addr).0 == s1,
                silencing(old(i2c)@, h1.addr).1 is Ok,
                arming(s1, h1.addr, h1.wake, 0) == arming(i2c@, h1.addr, h1.wake, i as int),
            decreases self.wake_sensors@.len() - i,
        {
            if self.drv.configure_sensor(i2c, self.wake_sensors[i], WOM_RATE_HZ, 0).is_err() {
                return ;
            }
            // Configure has no response packet; rejections land in the
            // error register only.
            self.acknowledge(i2c);
            i = i + 1;
        }
        // Final drain before suspending: catch anything the enables
        // pushed into the wake FIFO so the armed interrupt line starts
        // from a clean, deasserted state.
        let _ = self.drain_wake_if_pending(i2c);
        let _ = self.drv.set_ap_suspended(i2c, true);
    }

    /// Turn the streaming pair off and empty both FIFOs.
    fn silence(&self, i2c: &mut Bus) -> (e: Result<(), Error<Fault>>)
        ensures
            (final(i2c)@, e) == silencing(old(i2c)@, self@.addr),
    {
        self.stream(i2c, RATE_OFF)?;
        self.drv.flush_fifo(i2c, flush::DISCARD_WAKE)?;
        self.drv.flush_fifo(i2c, flush::DISCARD_NONWAKE)
    }

    /// Check for a latched wake-up event: any virtual sensor event in the
    /// wake-up FIFO counts (only the wake sensors feed it during sleep).
    /// Reading the FIFO clears the condition.
    pub fn wom_event(&mut self, i2c: &mut Bus) -> (r: bool)
        requires
            old(self)@.valid(),
        ensures
            (final(i2c)@, final(self)@, r) == wom_checking(old(i2c)@, old(self)@),
            final(self)@.valid(),
    {
        if !self.is_ready() {
            return false;
        }
        let st: u8 = match self.drv.interrupt_status(i2c) {
            Ok(s) => s,
            Err(_) => {
                return false;
            },
        };
        if (st >> bhi260::int_status::WAKE_FIFO_SHIFT) & bhi260::int_status::FIFO_FIELD_MASK == 0 {
            return false;
        }
        let mut buf: [u8; 128] = [0; 128];
        assert(buf@ =~= bhi260::zeros(128));
        let n: usize = match self.drv.read_fifo(i2c, bhi260::reg::CHANNEL_WAKE_FIFO, &mut buf) {
            Ok(n) => n,
            Err(_) => {
                return false;
            },
        };
        let all: &[u8] = &buf;
        let stream: &[u8] = &all[0..n];
        assert(stream@ == buf@.take(n as int));
        match find_sensor_event(stream) {
            None => false,
            Some((id, fired)) => {
                if fired {
                    self.announce_wake = Some(id);
                }
                true
            },
        }
    }

    /// Wake mode: hub told the host is awake again, wake sensors
    /// re-armed, continuous accel+gyro back on.
    pub fn exit_wom(&mut self, i2c: &mut Bus)
        requires
            old(self)@.valid(),
        ensures
            (final(i2c)@, final(self)@) == exiting(old(i2c)@, old(self)@),
            final(self)@.valid(),
    {
        if !self.is_ready() {
            return ;
        }
        let _ = self.drv.set_ap_suspended(i2c, false);
        // Re-arm the full wake/gesture set: they stay enabled while awake
        // (dim recovery), and whichever one-shot fired to cause this wake
        // has disarmed itself.
        self.configure_each_wake(i2c);
        // Drain whatever the wake-up FIFO still holds. A wake that came
        // through the interrupt line (instead of the latch poll) leaves
        // the wake transfer unserviced, and an unserviced transfer keeps
        // the interrupt asserted and blocks new transfers. Draining also
        // tells us what fired.
        let hit: Option<u8> = self.drain_wake_if_pending(i2c);
        if hit.is_some() {
            self.announce_wake = hit;
        }
        let _ = self.stream(i2c, AWAKE_RATE_HZ);
    }

    /// Begin a physical self-test (Section 13.2.5): disable the sensors
    /// and enter the quiesce phase - the actual request is issued by
    /// [`Self::self_test_poll`] once the PHYSICAL sensor reports it has
    /// powered down. Returns `false` if it could not start.
    pub fn self_test_start(&mut self, i2c: &mut Bus, kind: SelfTestKind) -> (r: bool)
        requires
            old(self)@.valid(),
        ensures
            (final(i2c)@, final(self)@, r) == test_starting(old(i2c)@, old(self)@, kind),
            final(self)@.valid(),
    {
        if !self.is_ready() || self.st.is_some() {
            return false;
        }
        if self.quiet(i2c).is_err() {
            self.restore_running(i2c);
            return false;
        }
        self.st = Some(StState::Quiesce { kind, polls: 0 });
        true
    }

    /// EVERY client of the physical sensors must quiesce - the continuous
    /// accel/gyro AND the gesture/wake sensors AND the step counter: any
    /// of them holds the physical accel Active, and the self-test can
    /// never start.
    fn quiet(&self, i2c: &mut Bus) -> (e: Result<(), Error<Fault>>)
        ensures
            (final(i2c)@, e) == quieting(old(i2c)@, self@),
    {
        self.stream(i2c, RATE_OFF)?;
        self.configure_wake(i2c, RATE_OFF)?;
        self.configure_step(i2c, RATE_OFF)
    }

    /// One short progress check of an in-flight self-test - the caller
    /// paces the polls and keeps the bus free in between. Accel reports
    /// its offsets in mg; the gyro reports none (values stay 0 -
    /// pass/fail is the result).
    pub fn self_test_poll(&mut self, i2c: &mut Bus) -> (r: SelfTestPoll)
        requires
            old(self)@.valid(),
        ensures
            (final(i2c)@, final(self)@, r@) == polling(old(i2c)@, old(self)@),
            final(self)@.valid(),
    {
        match self.st {
            None => SelfTestPoll::Error,
            Some(StState::Quiesce { kind, polls }) => self.poll_quiesce(i2c, kind, polls),
            Some(StState::Waiting { phys }) => self.poll_result(i2c, phys),
        }
    }

    fn poll_quiesce(&mut self, i2c: &mut Bus, kind: SelfTestKind, polls: u8) -> (r: SelfTestPoll)
        requires
            old(self)@.valid(),
        ensures
            (final(i2c)@, final(self)@, r@) == quiescing(old(i2c)@, old(self)@, kind, polls),
            final(self)@.valid(),
    {
        let phys: u8 = match kind {
            SelfTestKind::Accel => bhi260::phys::ACCEL,
            SelfTestKind::Gyro => bhi260::phys::GYRO,
        };
        let mut info: [u8; 20] = [0; 20];
        assert(info@ =~= bhi260::zeros(20));
        // The framework answers parameter reads late while it is
        // mid-transition - a failed read is retried on the task's pacing
        // within the quiesce budget.
        let known: bool = self.drv.phys_sensor_info(i2c, phys, &mut info).is_ok();
        let mode: u8 = info[6] >> 5;
        if known && (mode == 1 || mode == 2) {
            // Start from a clean error register so the wait only ever
            // reacts to errors this test produces (the quiesce disables
            // can latch benign rate complaints).
            let _ = self.drv.clear_error_regs(i2c);
            if self.drv.request_self_test(i2c, phys).is_err() {
                return self.st_conclude_error(i2c);
            }
            self.st = Some(StState::Waiting { phys });
            return SelfTestPoll::Pending;
        }
        if polls >= QUIESCE_POLLS {
            return self.st_conclude_error(i2c);
        }
        self.st = Some(StState::Quiesce { kind, polls: polls + 1 });
        SelfTestPoll::Pending
    }

    fn poll_result(&mut self, i2c: &mut Bus, phys: u8) -> (r: SelfTestPoll)
        requires
            old(self)@.valid(),
        ensures
            (final(i2c)@, final(self)@, r@) == awaiting(old(i2c)@, old(self)@, phys),
            final(self)@.valid(),
    {
        let mut payload: [u8; 12] = [0; 12];
        assert(payload@ =~= bhi260::zeros(12));
        let found: Option<(u16, usize)> = match self.drv.try_read_status_packet(i2c, &mut payload) {
            Ok(f) => f,
            Err(_) => {
                return self.st_conclude_error(i2c);
            },
        };
        if let Some((code, _)) = found {
            if code == bhi260::status::SELF_TEST_RESULTS {
                return match Bhi260::decode_test_result(&payload) {
                    Some(t) => {
                        if t.sensor_id != phys {
                            // Stale result from a different sensor's
                            // aborted run - discard, keep waiting.
                            SelfTestPoll::Pending
                        } else if t.status < 8 {
                            self.st = None;
                            self.restore_running(i2c);
                            let values: [i32; 3] = [
                                t.offsets[0] as i32,
                                t.offsets[1] as i32,
                                t.offsets[2] as i32,
                            ];
                            assert(values@ =~= offsets(payload@)) by {
                                assert(t.offsets@[0] == signed(le16(payload@[2], payload@[3]), 0x8000));
                                assert(t.offsets@[1] == signed(le16(payload@[4], payload@[5]), 0x8000));
                                assert(t.offsets@[2] == signed(le16(payload@[6], payload@[7]), 0x8000));
                            }
                            SelfTestPoll::Done(SelfTestAxes { passed: t.status == 0, values })
                        } else {
                            // Status 8/9 mean unsupported / no device -
                            // not a pass/fail verdict about the sensor.
                            self.st_conclude_error(i2c)
                        }
                    },
                    None => self.st_conclude_error(i2c),
                };
            }
        }
        // A rejected request answers through the error register instead
        // of a status packet.
        if let Ok(code) = self.drv.error_value(i2c) {
            if is_transient(code) {
                let _ = self.drv.clear_error_regs(i2c);
            } else if code != 0 {
                let _ = self.drv.clear_error_regs(i2c);
                return self.st_conclude_error(i2c);
            }
        }
        SelfTestPoll::Pending
    }

    /// Abort an in-flight self-test (the caller's poll budget ran out)
    /// and restore the running configuration. No-op when nothing is in
    /// flight.
    pub fn self_test_abort(&mut self, i2c: &mut Bus)
        requires
            old(self)@.valid(),
        ensures
            (final(i2c)@, final(self)@) == aborting(old(i2c)@, old(self)@),
            final(self)@.valid(),
    {
        if self.st.is_some() {
            self.st = None;
            self.restore_running(i2c);
        }
    }

    /// Collect the classifier's pending wrist intent, if any. No bus
    /// traffic; the samples were consumed during `read`.
    pub fn take_intent(&mut self) -> (r: Option<WristIntent>)
        ensures
            r == old(self)@.wear.pending,
            final(self)@ == (Hub { wear: Wear { pending: None, ..old(self)@.wear }, ..old(self)@ }),
    {
        self.wear.take()
    }

    /// Common self-test failure exit: clear the state, restore the
    /// running sensors, report `Error`.
    fn st_conclude_error(&mut self, i2c: &mut Bus) -> (r: SelfTestPoll)
        ensures
            (final(i2c)@, final(self)@, r@) == concluding(old(i2c)@, old(self)@),
    {
        self.st = None;
        self.restore_running(i2c);
        SelfTestPoll::Error
    }

    /// Drain the wake-up FIFO only when Interrupt Status says it has
    /// data. Reading an EMPTY channel latches a harmless "download
    /// channel empty" code into the error register, which then pollutes
    /// later error-register checks - so never drain blind. Returns the
    /// sensor id of the last wake event drained, for wake attribution.
    fn drain_wake_if_pending(&self, i2c: &mut Bus) -> (r: Option<u8>)
        ensures
            (final(i2c)@, r) == draining(old(i2c)@, self@.addr),
    {
        let st: u8 = match self.drv.interrupt_status(i2c) {
            Ok(s) => s,
            Err(_) => {
                return None;
            },
        };
        if (st >> bhi260::int_status::WAKE_FIFO_SHIFT) & bhi260::int_status::FIFO_FIELD_MASK == 0 {
            return None;
        }
        let mut buf: [u8; 128] = [0; 128];
        assert(buf@ =~= bhi260::zeros(128));
        let n: usize = match self.drv.read_fifo(i2c, bhi260::reg::CHANNEL_WAKE_FIFO, &mut buf) {
            Ok(n) => n,
            Err(_) => {
                return None;
            },
        };
        let all: &[u8] = &buf;
        let stream: &[u8] = &all[0..n];
        assert(stream@ == buf@.take(n as int));
        self.rearm(i2c, stream)
    }

    /// Go through drained wake-up events. One-shot sensors disarmed
    /// themselves by firing - re-arm immediately or they never fire
    /// again.
    fn rearm(&self, i2c: &mut Bus, stream: &[u8]) -> (hit: Option<u8>)
        ensures
            (final(i2c)@, hit) == rearming(old(i2c)@, self@.addr, fifo::events(stream@), None),
    {
        let mut hit: Option<u8> = None;
        let mut p: fifo::Parser = fifo::Parser::new(stream);
        loop
            invariant
                p.valid(),
                p.stream() == stream@,
                rearming(old(i2c)@, self@.addr, fifo::events(stream@), None) == rearming(
                    i2c@,
                    self@.addr,
                    fifo::events_from(stream@, p.consumed(), p.ticks()),
                    hit,
                ),
            decreases stream@.len() - p.consumed(),
        {
            let ghost from = p.consumed();
            let ghost ticks = p.ticks();
            proof {
                fifo::skipping_passes_whole_events(stream@, from, ticks);
            }
            match p.next_event() {
                Some(ev) => {
                    proof {
                        let at = fifo::skip_internal(stream@, from, ticks).0;
                        let rest = fifo::events_from(stream@, p.consumed(), p.ticks());
                        let here = fifo::events_from(stream@, from, ticks);
                        assert(here[0] == (stream@[at], fifo::payload_at(stream@, at)));
                        assert(here.skip(1) =~= rest);
                    }
                    if let fifo::Event::Occurrence { id } = ev {
                        hit = Some(id);
                        if is_one_shot(id) {
                            let _ = self.drv.configure_sensor(i2c, id, WOM_RATE_HZ, 0);
                        }
                    }
                },
                None => {
                    return hit;
                },
            }
        }
    }
}

/// The id of the first event of a stream that is no meta event, and
/// whether it is a payload-less occurrence.
fn find_sensor_event(stream: &[u8]) -> (r: Option<(u8, bool)>)
    ensures
        r == (match first_sensor_event(fifo::events(stream@)) {
            Some(id) => Some((id, fifo::is_occurrence(id))),
            None => None,
        }),
{
    let mut p: fifo::Parser = fifo::Parser::new(stream);
    loop
        invariant
            p.valid(),
            p.stream() == stream@,
            first_sensor_event(fifo::events(stream@)) == first_sensor_event(
                fifo::events_from(stream@, p.consumed(), p.ticks()),
            ),
        decreases stream@.len() - p.consumed(),
    {
        let ghost from = p.consumed();
        let ghost ticks = p.ticks();
        proof {
            fifo::skipping_passes_whole_events(stream@, from, ticks);
        }
        match p.next_event() {
            Some(ev) => {
                proof {
                    let at = fifo::skip_internal(stream@, from, ticks).0;
                    let rest = fifo::events_from(stream@, p.consumed(), p.ticks());
                    let here = fifo::events_from(stream@, from, ticks);
                    assert(here[0] == (stream@[at], fifo::payload_at(stream@, at)));
                    assert(here.skip(1) =~= rest);
                }
                let (id, meta, fired): (u8, bool, bool) = event_kind(&ev);
                if !meta {
                    return Some((id, fired));
                }
            },
            None => {
                return None;
            },
        }
    }
}

/// The id of an event, whether it is a meta event, and whether it is a
/// payload-less occurrence.
fn event_kind(ev: &fifo::Event) -> (r: (u8, bool, bool))
    ensures
        forall|id: u8, p: Seq<u8>| #[trigger]
            ev.is(id, p) ==> r == (id, fifo::is_meta(id), fifo::is_occurrence(id)),
{
    match *ev {
        fifo::Event::Meta { id, .. } => (id, true, false),
        fifo::Event::Occurrence { id } => (id, false, true),
        fifo::Event::Vector3 { id, .. } => (id, false, false),
        fifo::Event::Quaternion { id, .. } => (id, false, false),
        fifo::Event::Euler { id, .. } => (id, false, false),
        fifo::Event::StepCount { id, .. } => (id, false, false),
        fifo::Event::Activity { id, .. } => (id, false, false),
        fifo::Event::Raw { id, .. } => (id, false, false),
    }
}

/// The wake sensors to use out of a bitmap.
fn pick_wake(map: &[u8; 32]) -> (r: Vec<u8>)
    ensures
        r@ == wake_set(map@),
{
    let mut picked: Vec<u8> = Vec::new();
    let ids: [u8; 6] = WOM_PREFERRED;
    let mut i: usize = 0;
    proof {
        reveal_with_fuel(Seq::filter, 1);
        assert(ids@.take(0) =~= Seq::<u8>::empty());
        assert(picked@ =~= offered(map@, ids@.take(0)));
    }
    while i < 6
        invariant
            i <= 6,
            ids@ == WOM_PREFERRED@,
            ids@.len() == 6,
            picked@ == offered(map@, ids@.take(i as int)),
        decreases 6 - i,
    {
        proof {
            reveal_with_fuel(Seq::filter, 2);
            assert(ids@.take(i + 1).drop_last() =~= ids@.take(i as int));
        }
        if Bhi260::sensor_present(map, ids[i]) {
            picked.push(ids[i]);
        }
        i = i + 1;
    }
    assert(ids@.take(6) =~= ids@);
    if picked.len() == 0 && Bhi260::sensor_present(map, WOM_FALLBACK) {
        picked.push(WOM_FALLBACK);
        assert(picked@ =~= seq![WOM_FALLBACK]);
    }
    picked
}

/// The step counter to use out of a bitmap.
fn pick_step(map: &[u8; 32]) -> (r: Option<u8>)
    ensures
        r == step_pick(map@),
{
    if Bhi260::sensor_present(map, STEP_PREFERRED[0]) {
        Some(STEP_PREFERRED[0])
    } else if Bhi260::sensor_present(map, STEP_PREFERRED[1]) {
        Some(STEP_PREFERRED[1])
    } else {
        None
    }
}

// ---- Laws of the adapter ----------------------------------------------------

/// Taking in events changes the latest sample and the pose, and nothing
/// else.
pub proof fn samples_change_nothing_else(h: Hub, events: Seq<(u8, Seq<u8>)>)
    ensures
        absorbed_all(h, events) == (Hub {
            last: absorbed_all(h, events).last,
            wear: absorbed_all(h, events).wear,
            ..h
        }),
    decreases events.len(),
{
    if events.len() > 0 {
        samples_change_nothing_else(absorbed(h, events[0].0, events[0].1), events.skip(1));
    }
}

/// The temperature of the hub's snapshots stays 0.
pub proof fn temperature_stays_zero(h: Hub, events: Seq<(u8, Seq<u8>)>)
    requires
        h.last.temp_raw == 0,
    ensures
        absorbed_all(h, events).last.temp_raw == 0,
    decreases events.len(),
{
    if events.len() > 0 {
        temperature_stays_zero(absorbed(h, events[0].0, events[0].1), events.skip(1));
    }
}

/// With no fresh data the previous sample is returned.
pub proof fn empty_transfer_repeats_the_sample(h: Hub)
    ensures
        absorbed_all(h, fifo::events(Seq::empty())) == h,
{
}

/// A sample whose range is the normalized one is kept as it is.
pub proof fn normalized_samples_are_kept(raw: i16, range: int)
    requires
        range > 0,
    ensures
        rescaled(raw, range, range) == raw,
{
    if raw >= 0 {
        assert((raw * range) / range == raw) by (nonlinear_arith)
            requires
                range > 0,
        ;
        assert(raw * range >= 0) by (nonlinear_arith)
            requires
                range > 0,
                raw >= 0,
        ;
    } else {
        let m = -raw;
        assert((m * range) / range == m) by (nonlinear_arith)
            requires
                range > 0,
        ;
        assert(raw * range == -(m * range) && raw * range < 0) by (nonlinear_arith)
            requires
                range > 0,
                raw < 0,
                m == -raw,
        ;
    }
}

/// A failed bring-up stays failed, and touches the bus no more.
pub proof fn failure_is_permanent(s: Session, h: Hub, firmware: Seq<u8>, why: &'static str)
    requires
        h.phase == Phase::Failed(why),
    ensures
        boot(s, h, firmware) == (s, h, BootStep::Failed(why)),
{
}

/// A ready hub stays ready, and a bring-up step leaves it alone.
pub proof fn readiness_is_permanent(s: Session, h: Hub, firmware: Seq<u8>)
    requires
        h.phase == Phase::Ready,
    ensures
        boot(s, h, firmware) == (s, h, BootStep::Ready),
{
}

/// A bring-up step reports `Ready` exactly when it leaves the hub ready,
/// and a failure exactly when it leaves the hub failed.
pub proof fn steps_report_the_phase(s: Session, h: Hub, firmware: Seq<u8>)
    ensures
        boot(s, h, firmware).2 is Ready <==> boot(s, h, firmware).1.phase == Phase::Ready,
        boot(s, h, firmware).2 is Failed <==> boot(s, h, firmware).1.phase is Failed,
{
}

/// Before bring-up is done nothing but the bring-up touches the bus, and
/// no sample, sleep mode or self-test is to be had.
pub proof fn not_ready_is_inert(s: Session, h: Hub, kind: SelfTestKind)
    requires
        h.phase != Phase::Ready,
    ensures
        sampling(s, h) == (s, h, Err::<ImuData, ()>(())),
        entering(s, h) == (s, h),
        exiting(s, h) == (s, h),
        wom_checking(s, h) == (s, h, false),
        test_starting(s, h, kind) == (s, h, false),
{
}

/// The upload moves on by whole chunks and ends in the verify wait: after
/// a chunk that went through, either the image is out or the next offset
/// is one chunk further.
pub proof fn upload_moves_on(s: Session, h: Hub, firmware: Seq<u8>, offset: usize)
    requires
        h.phase == (Phase::Upload { offset }),
        offset < firmware.len() <= usize::MAX,
    ensures
        ({
            let (_, h1, step) = boot(s, h, firmware);
            step is Pending ==> if offset + bhi260::UPLOAD_CHUNK >= firmware.len() {
                h1.phase == (Phase::WaitVerify { tries: 0 })
            } else {
                h1.phase == (Phase::Upload { offset: (offset + bhi260::UPLOAD_CHUNK) as usize })
            }
        }),
{
}

/// How much of a wait budget is left in a phase that waits.
pub open spec fn waits_left(phase: Phase) -> int {
    match phase {
        Phase::WaitBootloader { tries } => BOOTLOADER_TRIES - tries,
        Phase::WaitVerify { tries } => VERIFY_TRIES - tries,
        Phase::WaitFirmware { tries } => FW_BOOT_TRIES - tries,
        Phase::Discover { tries } => DISCOVER_TRIES - tries,
        Phase::ReadRanges { tries } => RANGE_TRIES - tries,
        _ => 0,
    }
}

/// The place of a phase in the bring-up.
pub open spec fn stage(phase: Phase) -> int {
    match phase {
        Phase::Reset => 0,
        Phase::WaitBootloader { .. } => 1,
        Phase::StartUpload => 2,
        Phase::Upload { .. } => 3,
        Phase::WaitVerify { .. } => 4,
        Phase::Boot => 5,
        Phase::WaitFirmware { .. } => 6,
        Phase::DrainInit => 7,
        Phase::Discover { .. } => 8,
        Phase::Enable => 9,
        Phase::Recycle { enabled } => if enabled { 11 } else { 10 },
        Phase::ReadRanges { .. } => 12,
        Phase::BootWom { entered } => if entered { 14 } else { 13 },
        Phase::Ready => 15,
        Phase::Failed(_) => 15,
    }
}

/// Every bring-up step makes progress: it goes to a later phase, or waits
/// with less of its budget left, or uploads with a greater offset. So the
/// bring-up ends, ready or failed, whatever the chip answers.
pub proof fn bring_up_makes_progress(s: Session, h: Hub, firmware: Seq<u8>)
    requires
        h.phase !is Ready,
        h.phase !is Failed,
        h.within(firmware),
        firmware.len() <= usize::MAX,
    ensures
        ({
            let now = boot(s, h, firmware).1.phase;
            ||| stage(now) > stage(h.phase)
            ||| stage(now) == stage(h.phase) && 0 <= waits_left(now) < waits_left(h.phase)
            ||| now matches Phase::Upload { offset: b } && h.phase matches Phase::Upload { offset: a } && a < b
                <= firmware.len()
        }),
{
}

/// The wake sensors in use are all offered by the firmware.
pub proof fn wake_sensors_are_offered(map: Seq<u8>, i: int)
    requires
        0 <= i < wake_set(map).len(),
    ensures
        bhi260::present(map, wake_set(map)[i]),
{
    offered_are_present(map, WOM_PREFERRED@);
}

/// Every sensor picked out of a bitmap is in it.
pub proof fn offered_are_present(map: Seq<u8>, ids: Seq<u8>)
    ensures
        forall|i: int| 0 <= i < offered(map, ids).len() ==> bhi260::present(map, #[trigger] offered(map, ids)[i]),
    decreases ids.len(),
{
    reveal_with_fuel(Seq::filter, 2);
    if ids.len() > 0 {
        offered_are_present(map, ids.drop_last());
        let before = offered(map, ids.drop_last());
        assert forall|i: int| 0 <= i < offered(map, ids).len() implies bhi260::present(
            map,
            #[trigger] offered(map, ids)[i],
        ) by {
            if i < before.len() {
                assert(offered(map, ids)[i] == before[i]);
            }
        }
    }
}

/// A self-test poll changes nothing of the hub but where the test stands.
/// One that ends the test, in whatever way, leaves none in flight, and
/// the last thing on the bus is the running configuration brought back.
pub proof fn ended_tests_restore(s: Session, h: Hub)
    requires
        h.st is Some,
    ensures
        polling(s, h).1 == (Hub { st: polling(s, h).1.st, ..h }),
        polling(s, h).2 is Pending <==> polling(s, h).1.st is Some,
        polling(s, h).2 !is Pending ==> exists|t: Session| polling(s, h).0 == #[trigger] restoring(t, h),
{
}

/// The wait for the physical sensor to wind down ends: each poll in it
/// leaves it or uses up one of the polls it has.
pub proof fn winding_down_ends(s: Session, h: Hub, kind: SelfTestKind, polls: u8)
    requires
        h.st == Some(StState::Quiesce { kind, polls }),
    ensures
        polling(s, h).1.st matches Some(StState::Quiesce { kind: k, polls: p }) ==> k == kind && p == polls + 1 && p
            <= QUIESCE_POLLS,
{
}

/// Going to sleep forgets the pose, so that the first settled pose after
/// a wake counts as a transition, and changes nothing else of the hub.
/// Waking changes nothing but what is to be announced, and brings the
/// continuous stream back as the last thing on the bus.
pub proof fn sleep_keeps_the_hub(s: Session, t: Session, h: Hub)
    requires
        h.phase == Phase::Ready,
    ensures
        entering(s, h).1 == (Hub { wear: Wear::fresh(h.wear.cal), ..h }),
        exiting(t, h).1 == (Hub { announce: exiting(t, h).1.announce, ..h }),
        exists|u: Session| exiting(t, h).0 == (#[trigger] streaming(u, h.addr, AWAKE_RATE_HZ)).0,
{
}

} // verus!
