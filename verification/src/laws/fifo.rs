//! The motion hub's event stream.

use vstd::prelude::*;
use crate::bhi260::fifo::{
    events_from, is_euler, is_internal, is_meta, is_occurrence, is_quaternion, is_step_count, is_vector, lost_in, payload_at,
    size_of, skip_internal, stop_of, timestamp_after, unknown_at, whole_at, Event,
};

verus! {

// ---- Event IDs --------------------------------------------------------------

/// The IDs of the 3D vector events.
pub open spec fn vector_id(id: u8) -> bool {
    ||| id == 1 || 3 <= id <= 7
    ||| id == 10 || 12 <= id <= 16
    ||| id == 19 || 21 <= id <= 25
    ||| id == 28 || id == 29 || id == 31 || id == 32
    ||| 91 <= id <= 93
}

/// The IDs of the quaternion events.
pub open spec fn quaternion_id(id: u8) -> bool {
    id == 34 || id == 35 || id == 37 || id == 38 || id == 40 || id == 41
}

/// The IDs of the events without a payload.
pub open spec fn occurrence_id(id: u8) -> bool {
    ||| id == 48 || id == 50 || id == 55 || id == 57 || id == 59 || id == 61 || id == 67 || id == 75 || id == 77
    ||| id == 94 || id == 137 || id == 138 || 140 <= id <= 143
}

/// The IDs of the step counters.
pub open spec fn step_id(id: u8) -> bool {
    id == 52 || id == 53 || id == 136 || id == 139
}

/// The number of payload bytes of an event, or -1 for an ID that is not
/// known.
pub open spec fn payload_bytes(id: u8) -> int {
    if id == 0 || id == 255 || occurrence_id(id) {
        0
    } else if id == 69 || id == 70 || id == 130 || id == 134 || id == 144 || id == 147 || id == 149 || id == 245 || id
        == 251 {
        1
    } else if id == 63 || id == 128 || id == 132 || id == 146 || id == 148 || id == 246 || id == 252 {
        2
    } else if id == 129 || id == 133 || id == 248 || id == 254 {
        3
    } else if step_id(id) || id == 131 || id == 135 {
        4
    } else if id == 247 || id == 253 {
        5
    } else if id == 43 || id == 44 || vector_id(id) {
        6
    } else if id == 112 || quaternion_id(id) {
        10
    } else if id == 114 {
        14
    } else if id == 113 {
        15
    } else if id == 250 {
        17
    } else if id == 145 {
        26
    } else {
        -1
    }
}

/// An event takes its ID byte and its payload; an ID without a format has
/// no size.
pub proof fn sizes_by_id(id: u8)
    ensures
        size_of(id) == 1 + payload_bytes(id),
{
}

/// Which IDs have which format.
pub proof fn formats_by_id(id: u8)
    ensures
        is_vector(id) == vector_id(id),
        is_quaternion(id) == quaternion_id(id),
        is_occurrence(id) == occurrence_id(id),
        is_step_count(id) == step_id(id),
        is_euler(id) == (id == 43 || id == 44),
        is_meta(id) == (id == 248 || id == 254),
        is_internal(id) == (id == 255 || 245 <= id <= 247 || 251 <= id <= 253),
{
}

// ---- Timestamps -------------------------------------------------------------

/// A full timestamp whose five bytes are the digits of `t` to the base
/// 256, lowest first, leaves the running timestamp at `t`.
pub proof fn full_timestamp_by_digits(ticks: u64, id: u8, p: Seq<u8>, t: int)
    requires
        id == 253 || id == 247,
        p.len() == 5,
        0 <= t < 0x100_0000_0000,
        p[0] == t % 0x100,
        p[1] == t / 0x100 % 0x100,
        p[2] == t / 0x1_0000 % 0x100,
        p[3] == t / 0x100_0000 % 0x100,
        p[4] == t / 0x1_0000_0000 % 0x100,
    ensures
        timestamp_after(ticks, id, p) == t,
{
    let q1 = t / 0x100;
    let q2 = q1 / 0x100;
    let q3 = q2 / 0x100;
    let q4 = q3 / 0x100;
    vstd::arithmetic::div_mod::lemma_div_denominator(t, 0x100, 0x100);
    vstd::arithmetic::div_mod::lemma_div_denominator(t, 0x1_0000, 0x100);
    vstd::arithmetic::div_mod::lemma_div_denominator(t, 0x100_0000, 0x100);
    assert(t / 0x1_0000 == q2 && t / 0x100_0000 == q3 && t / 0x1_0000_0000 == q4);
    assert(t == 0x100 * q1 + p[0] && q1 == 0x100 * q2 + p[1] && q2 == 0x100 * q3 + p[2] && q3 == 0x100 * q4 + p[3]);
    assert(q4 == p[4]);
}

/// A timestamp delta moves the running timestamp on by its one or two
/// bytes, lowest first, and the sum wraps at 40 bits.
pub proof fn deltas_move_the_timestamp_on(ticks: u64, id: u8, p: Seq<u8>)
    requires
        ticks < 0x100_0000_0000,
    ensures
        (id == 251 || id == 245) && p.len() == 1 ==> timestamp_after(ticks, id, p) == ticks + p[0] || timestamp_after(
            ticks,
            id,
            p,
        ) == ticks + p[0] - 0x100_0000_0000,
        (id == 252 || id == 246) && p.len() == 2 ==> timestamp_after(ticks, id, p) == ticks + p[0] + 256 * p[1]
            || timestamp_after(ticks, id, p) == ticks + p[0] + 256 * p[1] - 0x100_0000_0000,
        timestamp_after(ticks, id, p) < 0x100_0000_0000 || id == 253 || id == 247,
        !(245 <= id <= 247 || 251 <= id <= 253) ==> timestamp_after(ticks, id, p) == ticks,
{
}

/// How the walk over timestamps and filler goes on at `pos`, by the ID
/// that stands there.
pub proof fn walk_by_id(buf: Seq<u8>, pos: int, ticks: u64)
    requires
        0 <= pos < buf.len(),
        ticks < 0x100_0000_0000,
    ensures
        buf[pos] == 255 ==> skip_internal(buf, pos, ticks) == skip_internal(buf, pos + 1, ticks),
        (buf[pos] == 251 || buf[pos] == 245) && pos + 2 <= buf.len() ==> skip_internal(buf, pos, ticks) == skip_internal(
            buf,
            pos + 2,
            ((ticks + buf[pos + 1]) % 0x100_0000_0000) as u64,
        ),
        (buf[pos] == 252 || buf[pos] == 246) && pos + 3 <= buf.len() ==> skip_internal(buf, pos, ticks) == skip_internal(
            buf,
            pos + 3,
            ((ticks + buf[pos + 1] + 256 * buf[pos + 2]) % 0x100_0000_0000) as u64,
        ),
        (buf[pos] == 253 || buf[pos] == 247) && pos + 6 <= buf.len() ==> skip_internal(buf, pos, ticks) == skip_internal(
            buf,
            pos + 6,
            (buf[pos + 1] + 0x100 * buf[pos + 2] + 0x1_0000 * buf[pos + 3] + 0x100_0000 * buf[pos + 4] + 0x1_0000_0000
                * buf[pos + 5]) as u64,
        ),
        !(buf[pos] == 255 || 245 <= buf[pos] <= 247 || 251 <= buf[pos] <= 253) ==> skip_internal(buf, pos, ticks) == (
            pos,
            ticks,
        ),
        pos + 1 + payload_bytes(buf[pos]) > buf.len() ==> skip_internal(buf, pos, ticks) == (pos, ticks),
{
}

// ---- Events -----------------------------------------------------------------

/// `x` has the two bytes of `p` from `o` on as its two's complement, low
/// byte first.
pub open spec fn signed16_at(p: Seq<u8>, o: int, x: i16) -> bool {
    (x + 0x1_0000) % 0x1_0000 == p[o] + 0x100 * p[o + 1]
}

/// What an event carries, by its ID and the digits of its payload.
pub proof fn events_by_digits(e: Event, id: u8, p: Seq<u8>)
    requires
        e.is(id, p),
        p.len() == payload_bytes(id),
        !is_internal(id),
        id != 0,
    ensures
        vector_id(id) ==> (e matches Event::Vector3 { id: i, x, y, z } && i == id && signed16_at(p, 0, x) && signed16_at(
            p,
            2,
            y,
        ) && signed16_at(p, 4, z)),
        id == 43 || id == 44 ==> (e matches Event::Euler { id: i, heading, pitch, roll } && i == id && signed16_at(
            p,
            0,
            heading,
        ) && signed16_at(p, 2, pitch) && signed16_at(p, 4, roll)),
        quaternion_id(id) ==> (e matches Event::Quaternion { id: i, x, y, z, w, accuracy } && i == id && signed16_at(
            p,
            0,
            x,
        ) && signed16_at(p, 2, y) && signed16_at(p, 4, z) && signed16_at(p, 6, w) && accuracy == p[8] + 0x100 * p[9]),
        step_id(id) ==> (e matches Event::StepCount { id: i, steps } && i == id && steps == p[0] + 0x100 * p[1]
            + 0x1_0000 * p[2] + 0x100_0000 * p[3]),
        id == 63 ==> (e matches Event::Activity { id: i, bitmap } && i == id && bitmap == p[0] + 0x100 * p[1]),
        occurrence_id(id) ==> (e matches Event::Occurrence { id: i } && i == id),
        id == 248 || id == 254 ==> (e matches Event::Meta { id: i, kind, b2, b3 } && i == id && kind == p[0] && b2
            == p[1] && b3 == p[2]),
        e is Raw ==> (e matches Event::Raw { id: i, payload } && i == id && payload@ == p),
        e is Raw <==> !(vector_id(id) || id == 43 || id == 44 || quaternion_id(id) || step_id(id) || id == 63
            || occurrence_id(id) || id == 248 || id == 254),
{
}

/// The events of a stream in order: a whole event that is no timestamp,
/// filler or padding comes first, with the bytes behind its ID as its
/// payload, and the rest of the stream follows.
pub proof fn events_in_order(buf: Seq<u8>, pos: int, ticks: u64)
    requires
        0 <= pos < buf.len(),
        buf[pos] != 0,
        payload_bytes(buf[pos]) >= 0,
        !(buf[pos] == 255 || 245 <= buf[pos] <= 247 || 251 <= buf[pos] <= 253),
        pos + 1 + payload_bytes(buf[pos]) <= buf.len(),
    ensures
        events_from(buf, pos, ticks).len() > 0,
        events_from(buf, pos, ticks)[0] == (buf[pos], buf.subrange(pos + 1, pos + 1 + payload_bytes(buf[pos]))),
        events_from(buf, pos, ticks).skip(1) == events_from(buf, pos + 1 + payload_bytes(buf[pos]), ticks),
{
    sizes_by_id(buf[pos]);
    let rest = events_from(buf, pos + size_of(buf[pos]), ticks);
    assert(skip_internal(buf, pos, ticks) == (pos, ticks));
    assert(events_from(buf, pos, ticks) == seq![(buf[pos], payload_at(buf, pos))] + rest);
    assert(events_from(buf, pos, ticks).skip(1) =~= rest);
}

/// Padding, an unknown ID and an event cut short end the events; only the
/// unknown ID is a loss of sync.
pub proof fn events_end(buf: Seq<u8>, pos: int, ticks: u64)
    requires
        0 <= pos <= buf.len(),
        pos == buf.len() || buf[pos] == 0 || payload_bytes(buf[pos]) < 0 || pos + 1 + payload_bytes(buf[pos])
            > buf.len(),
    ensures
        events_from(buf, pos, ticks).len() == 0,
        unknown_at(buf, pos) == (if pos < buf.len() && payload_bytes(buf[pos]) < 0 { Some(buf[pos]) } else { None }),
{
    if pos < buf.len() {
        sizes_by_id(buf[pos]);
    }
    assert(!whole_at(buf, pos));
}

/// Where parsing stops: behind a whole event it goes on, and what ends the
/// events is where it stops.
pub proof fn parsing_stops(buf: Seq<u8>, pos: int, ticks: u64)
    requires
        0 <= pos <= buf.len(),
    ensures
        pos == buf.len() || buf[pos] == 0 || payload_bytes(buf[pos]) < 0 || pos + 1 + payload_bytes(buf[pos]) > buf.len()
            ==> stop_of(buf, pos, ticks) == pos,
        pos < buf.len() && buf[pos] != 0 && payload_bytes(buf[pos]) >= 0 && pos + 1 + payload_bytes(buf[pos]) <= buf.len()
            && !(buf[pos] == 255 || 245 <= buf[pos] <= 247 || 251 <= buf[pos] <= 253) ==> stop_of(buf, pos, ticks)
            == stop_of(buf, pos + 1 + payload_bytes(buf[pos]), ticks),
{
    if pos < buf.len() {
        sizes_by_id(buf[pos]);
    }
}

/// Timestamps and filler are passed over: what follows them is parsed as
/// if they were not there, but for the time.
pub proof fn internal_events_are_passed(buf: Seq<u8>, pos: int, ticks: u64)
    requires
        0 <= pos < buf.len(),
        buf[pos] == 255 || 245 <= buf[pos] <= 247 || 251 <= buf[pos] <= 253,
        pos + 1 + payload_bytes(buf[pos]) <= buf.len(),
    ensures
        ({
            let next = pos + 1 + payload_bytes(buf[pos]);
            let t = timestamp_after(ticks, buf[pos], buf.subrange(pos + 1, next));
            &&& events_from(buf, pos, ticks) == events_from(buf, next, t)
            &&& stop_of(buf, pos, ticks) == stop_of(buf, next, t)
        }),
{
    sizes_by_id(buf[pos]);
    let next = pos + size_of(buf[pos]);
    let t = timestamp_after(ticks, buf[pos], payload_at(buf, pos));
    assert(skip_internal(buf, pos, ticks) == skip_internal(buf, next, t));
}

/// Sync is lost exactly where parsing stops at an ID that has no format.
pub proof fn sync_is_lost_at_unknown_ids(buf: Seq<u8>)
    ensures
        ({
            let at = stop_of(buf, 0, 0);
            lost_in(buf) == (if 0 <= at < buf.len() && payload_bytes(buf[at]) < 0 { Some(buf[at]) } else { None })
        }),
{
    let at = stop_of(buf, 0, 0);
    if 0 <= at < buf.len() {
        sizes_by_id(buf[at]);
    }
}

} // verus!
