//! BHI260AP FIFO stream parsing.
//!
//! Both sensor FIFOs (wake-up and non-wake-up) carry the same wire
//! format: a stream of events, each a 1-byte FIFO Event ID followed by a
//! payload whose size is fixed per ID. The stream a host transfer
//! delivers is `[small delta ts (2)] [block: meta(4) + full ts(6) +
//! events..]..` with 0xFF filler between blocks and 0x00 padding at the
//! end - all of which are themselves just events with known sizes, so one
//! sequential walk handles everything.
//!
//! The parser tracks the running 40-bit timestamp (1/64000 s units, wraps
//! after ~198 days): a full timestamp replaces it, small/large deltas
//! advance it, and it applies to every following event until the next
//! timestamp event.

use vstd::prelude::*;
use super::event_id;
use crate::bytes::{i16_le, le16, le32, signed, u16_le, u32_le};

verus! {

/// An event of the quaternion format.
pub open spec fn is_quaternion(id: u8) -> bool {
    ||| id == event_id::ROTATION_VECTOR || id == event_id::ROTATION_VECTOR_WU
    ||| id == event_id::GAME_ROTATION_VECTOR || id == event_id::GAME_ROTATION_VECTOR_WU
    ||| id == event_id::GEO_ROTATION_VECTOR || id == event_id::GEO_ROTATION_VECTOR_WU
}

/// An event of the Euler format.
pub open spec fn is_euler(id: u8) -> bool {
    id == event_id::ORIENTATION || id == event_id::ORIENTATION_WU
}

/// An event of the 3D vector format.
pub open spec fn is_vector(id: u8) -> bool {
    ||| id == event_id::ACCEL_PASSTHROUGH || id == event_id::ACCEL_RAW || id == event_id::ACCEL_CORRECTED
    ||| id == event_id::ACCEL_OFFSET || id == event_id::ACCEL_CORRECTED_WU || id == event_id::ACCEL_RAW_WU
    ||| id == event_id::GYRO_PASSTHROUGH || id == event_id::GYRO_RAW || id == event_id::GYRO_CORRECTED
    ||| id == event_id::GYRO_OFFSET || id == event_id::GYRO_CORRECTED_WU || id == event_id::GYRO_RAW_WU
    ||| id == event_id::MAG_PASSTHROUGH || id == event_id::MAG_RAW || id == event_id::MAG_CORRECTED
    ||| id == event_id::MAG_OFFSET || id == event_id::MAG_CORRECTED_WU || id == event_id::MAG_RAW_WU
    ||| id == event_id::GRAVITY || id == event_id::GRAVITY_WU
    ||| id == event_id::LINEAR_ACCEL || id == event_id::LINEAR_ACCEL_WU
    ||| id == event_id::ACCEL_OFFSET_WU || id == event_id::GYRO_OFFSET_WU || id == event_id::MAG_OFFSET_WU
}

/// A step counter event.
pub open spec fn is_step_count(id: u8) -> bool {
    ||| id == event_id::STEP_COUNTER || id == event_id::STEP_COUNTER_WU
    ||| id == event_id::AUX_STEP_COUNTER || id == event_id::AUX_STEP_COUNTER_WU
}

/// A payload-less event.
pub open spec fn is_occurrence(id: u8) -> bool {
    ||| id == event_id::TILT_DETECTOR_WU || id == event_id::STEP_DETECTOR || id == event_id::SIGNIFICANT_MOTION_WU
    ||| id == event_id::WAKE_GESTURE_WU || id == event_id::GLANCE_GESTURE_WU || id == event_id::PICKUP_GESTURE_WU
    ||| id == event_id::WRIST_TILT_GESTURE_WU || id == event_id::STATIONARY_DETECT_WU
    ||| id == event_id::MOTION_DETECT_WU || id == event_id::STEP_DETECTOR_WU || id == event_id::AUX_STEP_DETECTOR
    ||| id == event_id::AUX_SIGNIFICANT_MOTION || id == event_id::AUX_STEP_DETECTOR_WU
    ||| id == event_id::AUX_SIGNIFICANT_MOTION_WU || id == event_id::AUX_ANY_MOTION || id == event_id::AUX_ANY_MOTION_WU
}

/// A meta event.
pub open spec fn is_meta(id: u8) -> bool {
    id == event_id::META_EVENT || id == event_id::META_EVENT_WU
}

/// A small timestamp delta.
pub open spec fn is_small_delta(id: u8) -> bool {
    id == event_id::TS_SMALL_DELTA || id == event_id::TS_SMALL_DELTA_WU
}

/// A large timestamp delta.
pub open spec fn is_large_delta(id: u8) -> bool {
    id == event_id::TS_LARGE_DELTA || id == event_id::TS_LARGE_DELTA_WU
}

/// A full timestamp.
pub open spec fn is_full_timestamp(id: u8) -> bool {
    id == event_id::TS_FULL || id == event_id::TS_FULL_WU
}

/// The size of an event in the FIFO, ID byte counted; 0 for an ID that is
/// not known.
pub open spec fn size_of(id: u8) -> int {
    if id == event_id::PADDING || id == event_id::FILLER || is_occurrence(id) {
        1
    } else if is_quaternion(id) || id == event_id::SELF_LEARNING_AI {
        11
    } else if is_euler(id) || is_vector(id) {
        7
    } else if id == event_id::PROXIMITY || id == event_id::PROXIMITY_WU || id == event_id::HUMIDITY || id
        == event_id::HUMIDITY_WU || id == event_id::DEVICE_ORIENTATION || id == event_id::DEVICE_ORIENTATION_WU || id
        == event_id::CAMERA_SHUTTER || is_small_delta(id) {
        2
    } else if id == event_id::LIGHT || id == event_id::LIGHT_WU || id == event_id::TEMPERATURE || id
        == event_id::TEMPERATURE_WU || id == event_id::ACTIVITY || is_large_delta(id) {
        3
    } else if id == event_id::BAROMETER || id == event_id::BAROMETER_WU || is_meta(id) {
        4
    } else if is_step_count(id) || id == event_id::GAS || id == event_id::GAS_WU {
        5
    } else if is_full_timestamp(id) {
        6
    } else if id == event_id::SWIM {
        15
    } else if id == event_id::PDR_WU {
        16
    } else if id == event_id::DEBUG_DATA {
        18
    } else if id == event_id::GPS {
        27
    } else {
        0
    }
}

/// Total size in the FIFO (ID byte included) for an event ID. `None` =
/// unknown ID: the host has lost sync and must abort/resync - guessing a
/// size would corrupt every event after it.
pub fn event_size(id: u8) -> (r: Option<usize>)
    ensures
        r == (if size_of(id) == 0 { None } else { Some(size_of(id) as usize) }),
{
    Some(
        match id {
            event_id::PADDING | event_id::FILLER => 1,
            // Quaternion+
            event_id::ROTATION_VECTOR | event_id::ROTATION_VECTOR_WU | event_id::GAME_ROTATION_VECTOR
            | event_id::GAME_ROTATION_VECTOR_WU | event_id::GEO_ROTATION_VECTOR
            | event_id::GEO_ROTATION_VECTOR_WU => 11,
            // Euler
            event_id::ORIENTATION | event_id::ORIENTATION_WU => 7,
            // 3D vectors
            event_id::ACCEL_PASSTHROUGH | event_id::ACCEL_RAW | event_id::ACCEL_CORRECTED | event_id::ACCEL_OFFSET
            | event_id::ACCEL_CORRECTED_WU | event_id::ACCEL_RAW_WU | event_id::GYRO_PASSTHROUGH | event_id::GYRO_RAW
            | event_id::GYRO_CORRECTED | event_id::GYRO_OFFSET | event_id::GYRO_CORRECTED_WU | event_id::GYRO_RAW_WU
            | event_id::MAG_PASSTHROUGH | event_id::MAG_RAW | event_id::MAG_CORRECTED | event_id::MAG_OFFSET
            | event_id::MAG_CORRECTED_WU | event_id::MAG_RAW_WU | event_id::GRAVITY | event_id::GRAVITY_WU
            | event_id::LINEAR_ACCEL | event_id::LINEAR_ACCEL_WU | event_id::ACCEL_OFFSET_WU
            | event_id::GYRO_OFFSET_WU | event_id::MAG_OFFSET_WU => 7,
            // Scalars
            event_id::LIGHT | event_id::LIGHT_WU | event_id::TEMPERATURE | event_id::TEMPERATURE_WU => 3,
            event_id::PROXIMITY | event_id::PROXIMITY_WU | event_id::HUMIDITY | event_id::HUMIDITY_WU => 2,
            event_id::STEP_COUNTER | event_id::STEP_COUNTER_WU | event_id::AUX_STEP_COUNTER
            | event_id::AUX_STEP_COUNTER_WU | event_id::GAS | event_id::GAS_WU => 5,
            event_id::BAROMETER | event_id::BAROMETER_WU => 4,
            // Payload-less
            event_id::TILT_DETECTOR_WU | event_id::STEP_DETECTOR | event_id::SIGNIFICANT_MOTION_WU
            | event_id::WAKE_GESTURE_WU | event_id::GLANCE_GESTURE_WU | event_id::PICKUP_GESTURE_WU
            | event_id::WRIST_TILT_GESTURE_WU | event_id::STATIONARY_DETECT_WU | event_id::MOTION_DETECT_WU
            | event_id::STEP_DETECTOR_WU | event_id::AUX_STEP_DETECTOR | event_id::AUX_SIGNIFICANT_MOTION
            | event_id::AUX_STEP_DETECTOR_WU | event_id::AUX_SIGNIFICANT_MOTION_WU | event_id::AUX_ANY_MOTION
            | event_id::AUX_ANY_MOTION_WU => 1,
            // Structured
            event_id::ACTIVITY => 3,
            event_id::DEVICE_ORIENTATION | event_id::DEVICE_ORIENTATION_WU | event_id::CAMERA_SHUTTER => 2,
            event_id::GPS => 27,
            event_id::SELF_LEARNING_AI => 11,
            event_id::PDR_WU => 16,
            event_id::SWIM => 15,
            // Stream structure
            event_id::DEBUG_DATA => 18,
            event_id::TS_SMALL_DELTA | event_id::TS_SMALL_DELTA_WU => 2,
            event_id::TS_LARGE_DELTA | event_id::TS_LARGE_DELTA_WU => 3,
            event_id::TS_FULL | event_id::TS_FULL_WU => 6,
            event_id::META_EVENT | event_id::META_EVENT_WU => 4,
            _ => return None,
        },
    )
}

/// One parsed FIFO event. Payload interpretation for the formats the
/// system consumes; everything else is surfaced raw so callers can still
/// handle any sensor the firmware offers.
#[derive(Debug, Clone, Copy, PartialEq)]
pub enum Event<'a> {
    /// 3D vector sample (accel/gyro/mag family), raw i16 axes. Scale to
    /// SI: value x dynamic_range / 32768.
    Vector3 { id: u8, x: i16, y: i16, z: i16 },
    /// Quaternion+ sample, components scaled by 2^-14; accuracy in
    /// radians scaled by 2^-14 (0 for Game Rotation).
    Quaternion { id: u8, x: i16, y: i16, z: i16, w: i16, accuracy: u16 },
    /// Euler orientation, each scaled by 360 deg / 2^15.
    Euler { id: u8, heading: i16, pitch: i16, roll: i16 },
    /// Step counter total (u32 wire value).
    StepCount { id: u8, steps: u32 },
    /// Activity-change bitmap.
    Activity { id: u8, bitmap: u16 },
    /// A payload-less occurrence event (wake gesture, any motion,
    /// significant motion, step detector, ...).
    Occurrence { id: u8 },
    /// Meta event with its type and two payload bytes.
    Meta { id: u8, kind: u8, b2: u8, b3: u8 },
    /// Any other known-size event, raw payload (scalars, GPS, PDR, swim,
    /// self-learning AI, debug data, device orientation, ...).
    Raw { id: u8, payload: &'a [u8] },
}

/// The 16-bit signed number at offset `o` of a payload.
pub open spec fn axis(p: Seq<u8>, o: int) -> i16 {
    signed(le16(p[o], p[o + 1]), 0x8000) as i16
}

impl<'a> Event<'a> {
    /// The event is what ID `id` and payload `p` stand for.
    pub open spec fn is(self, id: u8, p: Seq<u8>) -> bool {
        if is_meta(id) {
            self == (Event::Meta { id, kind: p[0], b2: p[1], b3: p[2] })
        } else if is_vector(id) {
            self == (Event::Vector3 { id, x: axis(p, 0), y: axis(p, 2), z: axis(p, 4) })
        } else if is_euler(id) {
            self == (Event::Euler { id, heading: axis(p, 0), pitch: axis(p, 2), roll: axis(p, 4) })
        } else if is_quaternion(id) {
            self == (Event::Quaternion {
                id,
                x: axis(p, 0),
                y: axis(p, 2),
                z: axis(p, 4),
                w: axis(p, 6),
                accuracy: le16(p[8], p[9]) as u16,
            })
        } else if is_step_count(id) {
            self == (Event::StepCount { id, steps: le32(p[0], p[1], p[2], p[3]) as u32 })
        } else if id == event_id::ACTIVITY {
            self == (Event::Activity { id, bitmap: le16(p[0], p[1]) as u16 })
        } else if is_occurrence(id) {
            self == (Event::Occurrence { id })
        } else {
            self matches Event::Raw { id: i, payload } && i == id && payload@ == p
        }
    }
}

/// An event that a parser consumes itself: filler and timestamps.
pub open spec fn is_internal(id: u8) -> bool {
    id == event_id::FILLER || is_small_delta(id) || is_large_delta(id) || is_full_timestamp(id)
}

/// One past the largest timestamp.
pub const TIMESTAMP_WRAP: u64 = 0x100_0000_0000;

/// The running timestamp once the event with ID `id` and payload `p` is
/// consumed.
pub open spec fn timestamp_after(ticks: u64, id: u8, p: Seq<u8>) -> u64 {
    if is_small_delta(id) {
        ((ticks + p[0]) % 0x100_0000_0000) as u64
    } else if is_large_delta(id) {
        ((ticks + le16(p[0], p[1])) % 0x100_0000_0000) as u64
    } else if is_full_timestamp(id) {
        (le32(p[0], p[1], p[2], p[3]) + 0x1_0000_0000 * p[4]) as u64
    } else {
        ticks
    }
}

/// A whole event stands at `pos`: its ID is known, it is no padding, and
/// all its bytes are there.
pub open spec fn whole_at(buf: Seq<u8>, pos: int) -> bool {
    &&& 0 <= pos < buf.len()
    &&& buf[pos] != event_id::PADDING
    &&& size_of(buf[pos]) > 0
    &&& pos + size_of(buf[pos]) <= buf.len()
}

/// The payload of the event at `pos`.
pub open spec fn payload_at(buf: Seq<u8>, pos: int) -> Seq<u8> {
    buf.subrange(pos + 1, pos + size_of(buf[pos]))
}

/// The first position at or after `pos` that holds no whole internal
/// event, and the running timestamp there.
pub open spec fn skip_internal(buf: Seq<u8>, pos: int, ticks: u64) -> (int, u64)
    decreases buf.len() - pos,
{
    if whole_at(buf, pos) && is_internal(buf[pos]) {
        skip_internal(buf, pos + size_of(buf[pos]), timestamp_after(ticks, buf[pos], payload_at(buf, pos)))
    } else {
        (pos, ticks)
    }
}

/// The events of a stream from `pos` on, in order: what a parser hands
/// out, each as its ID and payload.
pub open spec fn events_from(buf: Seq<u8>, pos: int, ticks: u64) -> Seq<(u8, Seq<u8>)>
    decreases super::remaining(buf.len() as int, pos),
{
    proof {
        if 0 <= pos <= buf.len() {
            skipping_passes_whole_events(buf, pos, ticks);
        }
    }
    let (at, t) = skip_internal(buf, pos, ticks);
    if 0 <= pos && whole_at(buf, at) {
        seq![(buf[at], payload_at(buf, at))] + events_from(buf, at + size_of(buf[at]), t)
    } else {
        Seq::empty()
    }
}

/// Where parsing stops that starts at `pos`.
pub open spec fn stop_of(buf: Seq<u8>, pos: int, ticks: u64) -> int
    decreases super::remaining(buf.len() as int, pos),
{
    proof {
        if 0 <= pos <= buf.len() {
            skipping_passes_whole_events(buf, pos, ticks);
        }
    }
    let (at, t) = skip_internal(buf, pos, ticks);
    if 0 <= pos && whole_at(buf, at) {
        stop_of(buf, at + size_of(buf[at]), t)
    } else {
        at
    }
}

/// The events of a stream.
pub open spec fn events(buf: Seq<u8>) -> Seq<(u8, Seq<u8>)> {
    events_from(buf, 0, 0)
}

/// The unknown ID at position `at`, if there is one.
pub open spec fn unknown_at(buf: Seq<u8>, at: int) -> Option<u8> {
    if 0 <= at < buf.len() && size_of(buf[at]) == 0 { Some(buf[at]) } else { None }
}

/// The unknown ID that parsing a stream stops at, if it stops at one.
pub open spec fn lost_in(buf: Seq<u8>) -> Option<u8> {
    unknown_at(buf, stop_of(buf, 0, 0))
}

/// Sequential FIFO stream parser. Feed it the bytes of one host transfer
/// (after the 2-byte transfer length); iterate events.
pub struct Parser<'a> {
    buf: &'a [u8],
    pos: usize,
    /// Running 40-bit timestamp in 1/64000 s ticks, valid for every event
    /// returned until the next timestamp event updates it.
    pub timestamp_ticks: u64,
    /// Set when an unknown event ID was hit - stream is out of sync
    /// beyond this point and parsing stopped.
    pub lost_sync: Option<u8>,
}

impl<'a> Parser<'a> {
    /// The bytes being parsed.
    pub closed spec fn stream(&self) -> Seq<u8> {
        self.buf@
    }

    /// The number of bytes consumed.
    pub closed spec fn consumed(&self) -> int {
        self.pos as int
    }

    /// The running timestamp.
    pub closed spec fn ticks(&self) -> u64 {
        self.timestamp_ticks
    }

    /// The unknown ID that parsing stopped at.
    pub closed spec fn lost(&self) -> Option<u8> {
        self.lost_sync
    }

    /// What was consumed lies within the stream.
    pub open spec fn valid(&self) -> bool {
        0 <= self.consumed() <= self.stream().len()
    }

    pub fn new(buf: &'a [u8]) -> (p: Parser<'a>)
        ensures
            p.valid(),
            p.stream() == buf@,
            p.consumed() == 0,
            p.ticks() == 0,
            p.lost() is None,
    {
        Parser { buf, pos: 0, timestamp_ticks: 0, lost_sync: None }
    }

    /// The unknown event ID that parsing stopped at, if any.
    pub fn lost_id(&self) -> (r: Option<u8>)
        ensures
            r == self.lost(),
    {
        self.lost_sync
    }

    /// The running timestamp: [`Self::timestamp_ticks`].
    pub fn running_ticks(&self) -> (r: u64)
        ensures
            r == self.ticks(),
    {
        self.timestamp_ticks
    }

    /// Next parsed event, or `None` at end of stream / padding / loss of
    /// sync. Timestamp and filler/padding events are consumed internally
    /// (timestamps update [`Self::timestamp_ticks`]).
    pub fn next_event(&mut self) -> (r: Option<Event<'a>>)
        requires
            old(self).valid(),
        ensures
            final(self).valid(),
            final(self).stream() == old(self).stream(),
            ({
                let buf = old(self).stream();
                let (pos, ticks) = skip_internal(buf, old(self).consumed(), old(self).ticks());
                &&& final(self).ticks() == ticks
                &&& match r {
                    Some(event) => {
                        &&& whole_at(buf, pos)
                        &&& event.is(buf[pos], payload_at(buf, pos))
                        &&& final(self).consumed() == pos + size_of(buf[pos])
                        &&& final(self).lost() == old(self).lost()
                    },
                    None => {
                        &&& !whole_at(buf, pos)
                        &&& final(self).consumed() == pos
                        &&& final(self).lost() == (if pos < buf.len() && size_of(buf[pos]) == 0 {
                            Some(buf[pos])
                        } else {
                            old(self).lost()
                        })
                    },
                }
            }),
    {
        loop
            invariant
                self.valid(),
                self.buf@ == old(self).buf@,
                self.lost_sync == old(self).lost_sync,
                skip_internal(old(self).buf@, old(self).pos as int, old(self).timestamp_ticks) == skip_internal(
                    self.buf@,
                    self.pos as int,
                    self.timestamp_ticks,
                ),
            decreases self.buf@.len() - self.pos,
        {
            if self.pos >= self.buf.len() {
                return None;
            }
            let id: u8 = self.buf[self.pos];
            // Padding only occurs at the end of the packed data - stop
            // parsing entirely.
            if id == event_id::PADDING {
                return None;
            }
            let size: usize = match event_size(id) {
                Some(s) => s,
                None => {
                    self.lost_sync = Some(id);
                    return None;
                },
            };
            if self.buf.len() - self.pos < size {
                // Truncated tail - the remainder arrives in the next
                // transfer; nothing more to parse here.
                return None;
            }
            let p: &'a [u8] = &self.buf[self.pos + 1..self.pos + size];
            assert(p@ == payload_at(self.buf@, self.pos as int));
            self.pos = self.pos + size;
            if !internal(id) {
                return Some(event_of(id, p));
            }
            self.timestamp_ticks = advance(self.timestamp_ticks, id, p);
        }
    }
}

/// Whether the parser consumes an event itself.
fn internal(id: u8) -> (r: bool)
    ensures
        r == is_internal(id),
{
    match id {
        event_id::FILLER => true,
        event_id::TS_SMALL_DELTA | event_id::TS_SMALL_DELTA_WU => true,
        event_id::TS_LARGE_DELTA | event_id::TS_LARGE_DELTA_WU => true,
        event_id::TS_FULL | event_id::TS_FULL_WU => true,
        _ => false,
    }
}

/// The running timestamp once an internal event is consumed.
fn advance(ticks: u64, id: u8, p: &[u8]) -> (r: u64)
    requires
        size_of(id) == p@.len() + 1,
        is_internal(id),
    ensures
        r == timestamp_after(ticks, id, p@),
{
    let now: u64 = ticks % TIMESTAMP_WRAP;
    match id {
        event_id::TS_SMALL_DELTA | event_id::TS_SMALL_DELTA_WU => (now + p[0] as u64) % TIMESTAMP_WRAP,
        event_id::TS_LARGE_DELTA | event_id::TS_LARGE_DELTA_WU => (now + u16_le(p[0], p[1]) as u64) % TIMESTAMP_WRAP,
        event_id::TS_FULL | event_id::TS_FULL_WU => u32_le(p[0], p[1], p[2], p[3]) as u64 + 0x1_0000_0000
            * p[4] as u64,
        _ => ticks,
    }
}

/// The event that ID `id` and payload `p` stand for.
fn event_of<'a>(id: u8, p: &'a [u8]) -> (r: Event<'a>)
    requires
        size_of(id) == p@.len() + 1,
        id != event_id::PADDING,
        !is_internal(id),
    ensures
        r.is(id, p@),
{
    match id {
        event_id::META_EVENT | event_id::META_EVENT_WU => Event::Meta { id, kind: p[0], b2: p[1], b3: p[2] },
        event_id::ORIENTATION | event_id::ORIENTATION_WU => Event::Euler {
            id,
            heading: i16_le(p[0], p[1]),
            pitch: i16_le(p[2], p[3]),
            roll: i16_le(p[4], p[5]),
        },
        event_id::STEP_COUNTER | event_id::STEP_COUNTER_WU | event_id::AUX_STEP_COUNTER
        | event_id::AUX_STEP_COUNTER_WU => Event::StepCount { id, steps: u32_le(p[0], p[1], p[2], p[3]) },
        event_id::ACTIVITY => Event::Activity { id, bitmap: u16_le(p[0], p[1]) },
        event_id::SELF_LEARNING_AI => Event::Raw { id, payload: p },
        _ => if p.len() == 6 {
            Event::Vector3 { id, x: i16_le(p[0], p[1]), y: i16_le(p[2], p[3]), z: i16_le(p[4], p[5]) }
        } else if p.len() == 10 {
            Event::Quaternion {
                id,
                x: i16_le(p[0], p[1]),
                y: i16_le(p[2], p[3]),
                z: i16_le(p[4], p[5]),
                w: i16_le(p[6], p[7]),
                accuracy: u16_le(p[8], p[9]),
            }
        } else if p.len() == 0 {
            Event::Occurrence { id }
        } else {
            Event::Raw { id, payload: p }
        },
    }
}

// ---- Laws of the stream -----------------------------------------------------

/// The bytes `from .. to` of a stream are whole events, back to back.
pub open spec fn whole_events(buf: Seq<u8>, from: int, to: int) -> bool
    decreases super::remaining(to, from),
{
    if from < to && whole_at(buf, from) {
        whole_events(buf, from + size_of(buf[from]), to)
    } else {
        from == to
    }
}

/// Skipping internal events never runs past the stream, and passes over
/// whole events only: a truncated tail is left for the next transfer.
pub proof fn skipping_passes_whole_events(buf: Seq<u8>, pos: int, ticks: u64)
    requires
        0 <= pos <= buf.len(),
    ensures
        pos <= skip_internal(buf, pos, ticks).0 <= buf.len(),
        whole_events(buf, pos, skip_internal(buf, pos, ticks).0),
    decreases buf.len() - pos,
{
    if whole_at(buf, pos) && is_internal(buf[pos]) {
        let next = pos + size_of(buf[pos]);
        let t = timestamp_after(ticks, buf[pos], payload_at(buf, pos));
        skipping_passes_whole_events(buf, next, t);
    }
}

/// A timestamp within 40 bits stays so, whatever is consumed.
pub proof fn timestamps_stay_within_forty_bits(buf: Seq<u8>, pos: int, ticks: u64)
    requires
        0 <= pos <= buf.len(),
        ticks < TIMESTAMP_WRAP,
    ensures
        skip_internal(buf, pos, ticks).1 < TIMESTAMP_WRAP,
    decreases buf.len() - pos,
{
    if whole_at(buf, pos) && is_internal(buf[pos]) {
        let next = pos + size_of(buf[pos]);
        let t = timestamp_after(ticks, buf[pos], payload_at(buf, pos));
        timestamps_stay_within_forty_bits(buf, next, t);
    }
}

/// A full timestamp replaces the running one: what was there before it no
/// longer matters.
pub proof fn full_timestamp_replaces(ticks1: u64, ticks2: u64, id: u8, p: Seq<u8>)
    requires
        is_full_timestamp(id),
    ensures
        timestamp_after(ticks1, id, p) == timestamp_after(ticks2, id, p),
{
}

/// An event that is not a timestamp leaves the running timestamp alone.
pub proof fn other_events_keep_the_timestamp(ticks: u64, id: u8, p: Seq<u8>)
    requires
        !is_small_delta(id),
        !is_large_delta(id),
        !is_full_timestamp(id),
    ensures
        timestamp_after(ticks, id, p) == ticks,
{
}

} // verus!
