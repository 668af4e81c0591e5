//! UBX frames and messages.

use vstd::prelude::*;
use crate::ublox::cfg::{key_width, Built};
use crate::ublox::frame::{
    body, declared, encoded_frame_is_parsed, fletcher, frame, only_whole_frames_come_out, Phase, Poll,
};
use crate::ublox::nav::{i32_field, u32_field, FixType, NavPvt};
use crate::ublox::pmreq_backup_payload;

verus! {

// ---- Checksum ---------------------------------------------------------------

/// The sum of the first `k` bytes of `s`.
pub open spec fn total(s: Seq<u8>, k: nat) -> int
    decreases k,
{
    if k == 0 {
        0
    } else {
        total(s, (k - 1) as nat) + s[k - 1]
    }
}

/// The sum of the first `k` bytes of `s`, byte `i` taken `n - i` times.
pub open spec fn weighted(s: Seq<u8>, k: nat, n: int) -> int
    decreases k,
{
    if k == 0 {
        0
    } else {
        weighted(s, (k - 1) as nat, n) + (n - (k - 1)) * s[k - 1]
    }
}

proof fn sums_of_a_prefix(s: Seq<u8>, t: Seq<u8>, k: nat, n: int)
    requires
        k <= s.len(),
        k <= t.len(),
        forall|i: int| 0 <= i < k ==> s[i] == t[i],
    ensures
        total(s, k) == total(t, k),
        weighted(s, k, n) == weighted(t, k, n),
    decreases k,
{
    if k > 0 {
        sums_of_a_prefix(s, t, (k - 1) as nat, n);
    }
}

proof fn one_more_of_each(s: Seq<u8>, k: nat, n: int)
    ensures
        weighted(s, k, n + 1) == weighted(s, k, n) + total(s, k),
    decreases k,
{
    if k > 0 {
        one_more_of_each(s, (k - 1) as nat, n);
        let w = n - (k - 1);
        let b = s[k - 1] as int;
        assert((w + 1) * b == w * b + b) by (nonlinear_arith);
    }
}

proof fn sums_stay_congruent(a: int, w: int, b: int)
    ensures
        (a % 256 + b) % 256 == (a + b) % 256,
        (w % 256 + (a + b) % 256) % 256 == (w + a + b) % 256,
{
}

/// The first checksum byte is the sum of all bytes, the second the sum of
/// all bytes, each taken as often as there are bytes from it on, both
/// modulo 256.
pub proof fn checksum_sums_every_byte(s: Seq<u8>)
    ensures
        fletcher(s).0 as int == total(s, s.len()) % 256,
        fletcher(s).1 as int == weighted(s, s.len(), s.len() as int) % 256,
    decreases s.len(),
{
    if s.len() > 0 {
        let t = s.drop_last();
        let n = t.len();
        checksum_sums_every_byte(t);
        sums_of_a_prefix(s, t, n, n as int);
        one_more_of_each(s, n, n as int);
        let (a, w, b) = (total(s, n), weighted(s, n, n as int), s[n as int] as int);
        assert(total(s, n + 1) == a + b);
        assert(weighted(s, n + 1, (n + 1) as int) == weighted(s, n, (n + 1) as int) + 1 * b);
        sums_stay_congruent(a, w, b);
    }
}

proof fn total_of_an_update(s: Seq<u8>, i: int, b: u8, k: nat)
    requires
        0 <= i < s.len(),
        k <= s.len(),
    ensures
        total(s.update(i, b), k) == total(s, k) + (if i < k { b - s[i] } else { 0 }),
    decreases k,
{
    if k > 0 {
        total_of_an_update(s, i, b, (k - 1) as nat);
    }
}

/// Changing any single byte changes the first checksum byte.
pub proof fn any_change_shows(s: Seq<u8>, i: int, b: u8)
    requires
        0 <= i < s.len(),
        b != s[i],
    ensures
        fletcher(s.update(i, b)).0 != fletcher(s).0,
{
    checksum_sums_every_byte(s);
    checksum_sums_every_byte(s.update(i, b));
    total_of_an_update(s, i, b, s.len());
}

// ---- Frames -----------------------------------------------------------------

/// Where everything stands in a frame: two sync bytes, class, id, the
/// payload's length with its low byte first, the payload, and the two
/// sums over all that stands between sync bytes and checksum.
pub proof fn frame_layout(class: u8, id: u8, payload: Seq<u8>)
    requires
        payload.len() < 0x1_0000,
    ensures
        ({
            let s = frame(class, id, payload);
            let n = payload.len() as int;
            let b = s.subrange(2, n + 6);
            &&& s.len() == n + 8
            &&& s[0] == 0xB5 && s[1] == 0x62
            &&& s[2] == class && s[3] == id
            &&& s[4] + 256 * s[5] == n
            &&& s.subrange(6, n + 6) == payload
            &&& s[n + 6] as int == total(b, b.len()) % 256
            &&& s[n + 7] as int == weighted(b, b.len(), b.len() as int) % 256
        }),
{
    let s = frame(class, id, payload);
    let n = payload.len() as int;
    assert(s.subrange(2, n + 6) =~= body(class, id, payload));
    assert(s.subrange(6, n + 6) =~= payload);
    checksum_sums_every_byte(body(class, id, payload));
}

/// The bytes of `s` are a frame with a payload of `n` bytes and the right
/// sums.
pub open spec fn well_formed(s: Seq<u8>, n: int) -> bool {
    let b = s.subrange(2, n + 6);
    &&& s.len() == n + 8
    &&& s[0] == 0xB5 && s[1] == 0x62
    &&& s[4] + 256 * s[5] == n
    &&& s[n + 6] as int == total(b, b.len()) % 256
    &&& s[n + 7] as int == weighted(b, b.len(), b.len() as int) % 256
}

proof fn well_formed_is_a_frame(s: Seq<u8>, n: int)
    requires
        well_formed(s, n),
    ensures
        s == frame(s[2], s[3], s.subrange(6, n + 6)),
{
    let payload = s.subrange(6, n + 6);
    let f = frame(s[2], s[3], payload);
    frame_layout(s[2], s[3], payload);
    let b = s.subrange(2, n + 6);
    assert(b =~= f.subrange(2, n + 6)) by {
        assert forall|i: int| 0 <= i < n + 4 implies b[i] == f[i + 2] by {
            if i >= 4 {
                assert(f.subrange(6, n + 6)[i - 4] == payload[i - 4]);
            }
        }
    }
    assert(s =~= f) by {
        assert forall|i: int| 0 <= i < n + 8 implies s[i] == f[i] by {
            if 2 <= i < n + 6 {
                assert(b[i - 2] == f.subrange(2, n + 6)[i - 2]);
            }
        }
    }
}

/// A receiver's frame of up to 256 bytes with the right sums is reported
/// at its last byte, under the class and id it carries, with the bytes of
/// its payload, and nothing is reported before.
pub proof fn right_frame_is_reported(s: Seq<u8>, n: int)
    requires
        well_formed(s, n),
        n <= 256,
    ensures
        forall|i: int| 0 <= i < n + 7 ==> Phase::Idle.report(s, i) == Poll::Pending,
        Phase::Idle.report(s, n + 7) == (Poll::Frame { class: s[2], id: s[3] }),
        Phase::Idle.push_all(s.take(n + 7)) matches Phase::Inside(seen) && declared(seen) == n && seen.subrange(
            4,
            4 + n,
        ) == s.subrange(6, n + 6),
        Phase::Idle.push_all(s) == Phase::Idle,
{
    well_formed_is_a_frame(s, n);
    encoded_frame_is_parsed(s[2], s[3], s.subrange(6, n + 6));
}

/// Where a frame is reported, the bytes since the sync sequence have the
/// right sums.
pub proof fn reported_frame_is_right(before: Seq<u8>, b: u8, class: u8, id: u8)
    requires
        Phase::Inside(before).sound(),
        Phase::Inside(before).push(b).1 == (Poll::Frame { class, id }),
    ensures
        well_formed(seq![0xB5u8, 0x62u8] + before.push(b), before.len() - 5),
        before.len() - 5 <= 256,
        class == before[0],
        id == before[1],
{
    only_whole_frames_come_out(before, b, class, id);
    let n = declared(before);
    let payload = before.subrange(4, 4 + n);
    frame_layout(class, id, payload);
    let s = seq![0xB5u8, 0x62u8] + before.push(b);
    assert(s =~= frame(class, id, payload));
    assert(before[0] == s[2] && before[1] == s[3]);
}

/// A frame of which a single byte between sync sequence and checksum was
/// altered is not a frame: the checksum it carries is not its own.
pub proof fn altered_frame_is_not_reported(s: Seq<u8>, n: int, i: int, b: u8)
    requires
        well_formed(s, n),
        2 <= i < n + 6,
        b != s[i],
    ensures
        !well_formed(s.update(i, b), n),
{
    let t = s.update(i, b);
    assert(t.subrange(2, n + 6) =~= s.subrange(2, n + 6).update(i - 2, b));
    checksum_sums_every_byte(s.subrange(2, n + 6));
    checksum_sums_every_byte(t.subrange(2, n + 6));
    any_change_shows(s.subrange(2, n + 6), i - 2, b);
}

/// What becomes of a frame by its declared length alone: above 1024 it is
/// given up at the length field, above 256 it is taken in to its end and
/// skipped, else its checksum decides.
pub proof fn length_decides(before: Seq<u8>, b: u8)
    requires
        before.len() >= 3,
    ensures
        ({
            let seen = before.push(b);
            let n = seen[2] + 256 * seen[3];
            let (after, r) = Phase::Inside(before).push(b);
            &&& n > 1024 ==> after == Phase::Idle && r == (Poll::Skipped { class: seen[0], id: seen[1], len: n as u16 })
            &&& 256 < n <= 1024 && seen.len() < n + 6 ==> after == Phase::Inside(seen) && r == Poll::Pending
            &&& 256 < n <= 1024 && seen.len() == n + 6 ==> after == Phase::Idle && r == (Poll::Skipped {
                class: seen[0],
                id: seen[1],
                len: n as u16,
            })
            &&& n <= 256 && seen.len() <= n + 4 ==> after == Phase::Inside(seen) && r == Poll::Pending
        }),
{
}

/// The sync sequence is the byte 0xB5 directly followed by 0x62, and a
/// repeated 0xB5 does not lose it.
pub proof fn sync_sequence(b: u8)
    ensures
        (Phase::Idle.push(b).0 == Phase::HalfSync) == (b == 0xB5),
        (Phase::Idle.push(b).0 == Phase::Idle) == (b != 0xB5),
        (Phase::HalfSync.push(b).0 == Phase::Inside(Seq::empty())) == (b == 0x62),
        (Phase::HalfSync.push(b).0 == Phase::HalfSync) == (b == 0xB5),
        (Phase::HalfSync.push(b).0 == Phase::Idle) == (b != 0xB5 && b != 0x62),
        Phase::Idle.push(b).1 == Poll::Pending,
        Phase::HalfSync.push(b).1 == Poll::Pending,
{
}

// ---- Messages ---------------------------------------------------------------

/// `x` has the four bytes of `p` from `o` on as its two's complement, low
/// byte first.
#[verifier::opaque]
pub open spec fn signed_at(p: Seq<u8>, o: int, x: int) -> bool {
    (x + 0x1_0000_0000) % 0x1_0000_0000 == p[o] + 0x100 * p[o + 1] + 0x1_0000 * p[o + 2] + 0x100_0000 * p[o + 3]
}

/// `x` has the four bytes of `p` from `o` on as its digits, low byte
/// first.
#[verifier::opaque]
pub open spec fn unsigned_at(p: Seq<u8>, o: int, x: int) -> bool {
    x == p[o] + 0x100 * p[o + 1] + 0x1_0000 * p[o + 2] + 0x100_0000 * p[o + 3]
}

proof fn fields_at(p: Seq<u8>, o: int)
    ensures
        unsigned_at(p, o, u32_field(p, o)),
        signed_at(p, o, i32_field(p, o)),
{
    reveal(unsigned_at);
    reveal(signed_at);
}

/// Every number of a parsed NAV-PVT stands at its offset of the payload.
pub proof fn pvt_fields_by_offset(v: NavPvt, p: Seq<u8>)
    requires
        v.reads(p),
        p.len() >= 92,
    ensures
        unsigned_at(p, 0, v.itow_ms as int),
        v.year == p[4] + 256 * p[5],
        v.month == p[6] && v.day == p[7] && v.hour == p[8] && v.min == p[9] && v.sec == p[10],
        v.valid == p[11],
        unsigned_at(p, 12, v.t_acc_ns as int),
        signed_at(p, 16, v.nano_ns as int),
        v.flags == p[21] && v.flags2 == p[22] && v.num_sv == p[23],
        signed_at(p, 24, v.lon_1e7 as int),
        signed_at(p, 28, v.lat_1e7 as int),
        signed_at(p, 32, v.height_mm as int),
        signed_at(p, 36, v.hmsl_mm as int),
        unsigned_at(p, 40, v.h_acc_mm as int),
        unsigned_at(p, 44, v.v_acc_mm as int),
        signed_at(p, 48, v.vel_n_mms as int),
        signed_at(p, 52, v.vel_e_mms as int),
        signed_at(p, 56, v.vel_d_mms as int),
        signed_at(p, 60, v.gspeed_mms as int),
        signed_at(p, 64, v.head_motion_1e5 as int),
        unsigned_at(p, 68, v.s_acc_mms as int),
        unsigned_at(p, 72, v.head_acc_1e5 as int),
        v.pdop_1e2 == p[76] + 256 * p[77],
        v.flags3 == p[78] + 256 * p[79],
        number_of(v.fix_type) == p[20],
{
    fields_at(p, 0);
    fields_at(p, 12);
    fields_at(p, 16);
    fields_at(p, 24);
    fields_at(p, 28);
    fields_at(p, 32);
    fields_at(p, 36);
    fields_at(p, 40);
    fields_at(p, 44);
    fields_at(p, 48);
    fields_at(p, 52);
    fields_at(p, 56);
    fields_at(p, 60);
    fields_at(p, 64);
    fields_at(p, 68);
    fields_at(p, 72);
}

/// The number of a fix type in the interface description.
pub open spec fn number_of(t: FixType) -> int {
    match t {
        FixType::NoFix => 0,
        FixType::DeadReckoning => 1,
        FixType::Fix2D => 2,
        FixType::Fix3D => 3,
        FixType::GnssDeadReckoning => 4,
        FixType::TimeOnly => 5,
        FixType::Unknown(v) => v as int,
    }
}

/// Every fix type read has the number that was read, and is unknown only
/// where the number is not defined.
pub proof fn fix_types_by_number(v: u8)
    ensures
        number_of(FixType::numbered(v)) == v,
        (FixType::numbered(v) is Unknown) == (v > 5),
{
}

// ---- Configuration ----------------------------------------------------------

/// The width of a key's value: bits 30..28 of the key are 1 for a bit,
/// stored as a byte, and `2 + k` for a value of `2^k` bytes.
pub proof fn key_widths_by_number(key: u32)
    ensures
        ({
            let c = key as int / 0x1000_0000 % 8;
            &&& (key_width(key) == 1) == (c == 1 || c == 2)
            &&& (key_width(key) == 2) == (c == 3)
            &&& (key_width(key) == 4) == (c == 4)
            &&& (key_width(key) == 8) == (c == 5)
            &&& (key_width(key) == 0) == (c == 0 || c > 5)
        }),
{
    assert((key >> 28) & 0x7 == key / 0x1000_0000 % 8) by (bit_vector);
}

/// A chunk is taken whole exactly where there is room for all of it;
/// where there is not, nothing is taken and that is remembered.
pub proof fn chunk_is_taken_whole_or_not(b: Built, chunk: Seq<u8>)
    ensures
        b.bytes.len() + chunk.len() <= b.capacity ==> b.with(chunk).bytes == b.bytes + chunk && b.with(chunk).overflow
            == b.overflow,
        b.bytes.len() + chunk.len() > b.capacity ==> b.with(chunk).bytes == b.bytes && b.with(chunk).overflow,
        b.with(chunk).capacity == b.capacity,
{
}

/// An item that fits stands behind what was there: four bytes of key, low
/// byte first, then the value.
pub proof fn item_layout(b: Built, key: u32, value: Seq<u8>)
    requires
        b.bytes.len() + 4 + value.len() <= b.capacity,
    ensures
        ({
            let s = b.with_item(key, value).bytes;
            let n = b.bytes.len() as int;
            &&& s.len() == n + 4 + value.len()
            &&& s.take(n) == b.bytes
            &&& unsigned_at(s, n, key as int)
            &&& s.skip(n + 4) == value
            &&& b.with_item(key, value).overflow == b.overflow
        }),
{
    let s = b.with_item(key, value).bytes;
    let n = b.bytes.len() as int;
    assert(s.take(n) =~= b.bytes);
    assert(s.skip(n + 4) =~= value);
    reveal(unsigned_at);
}

/// The standby request: version 0 and no duration, the flags `backup`
/// (bit 1) and `force` (bit 2), woken by the UART (bit 3).
pub proof fn standby_request_fields(i: int)
    requires
        0 <= i < 16,
    ensures
        pmreq_backup_payload().len() == 16,
        pmreq_backup_payload()[i] == (if i == 8 { 6int } else if i == 12 { 8 } else { 0 }),
{
}

} // verus!
