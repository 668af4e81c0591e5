//! UBX frame codec.
//!
//! Frame layout: `B5 62 <class> <id> <len lo> <len hi> <payload...>
//! <ck_a> <ck_b>`, length = payload bytes only, checksum = 8-bit
//! Fletcher over class..payload inclusive.

use vstd::prelude::*;
use crate::bytes::{bytes_le16, le16};

verus! {

/// First sync byte of every UBX frame.
pub const SYNC1: u8 = 0xb5;
/// Second sync byte of every UBX frame.
pub const SYNC2: u8 = 0x62;

/// Largest payload the streaming parser buffers. Frames beyond this are
/// consumed and reported as [`Poll::Skipped`] rather than corrupting the
/// stream.
pub const MAX_PAYLOAD: usize = 256;

/// Longest frame the parser will silently drain past [`MAX_PAYLOAD`]. A
/// declared length above this is treated as a false sync rather than a
/// real frame: `B5 62` is legal inside binary payloads, and draining up
/// to 64 KB on one would swallow minutes of real stream.
pub const DRAIN_CAP: usize = 1024;

/// The 8-bit Fletcher checksum of `s`.
pub open spec fn fletcher(s: Seq<u8>) -> (u8, u8)
    decreases s.len(),
{
    if s.len() == 0 {
        (0, 0)
    } else {
        fletcher_next(fletcher(s.drop_last()), s.last())
    }
}

/// The checksum once one more byte is taken in.
pub open spec fn fletcher_next(ck: (u8, u8), b: u8) -> (u8, u8) {
    let a = ((ck.0 + b) % 256) as u8;
    (a, ((ck.1 + a) % 256) as u8)
}

/// 8-bit Fletcher checksum over `bytes` (class through payload).
pub fn checksum(bytes: &[u8]) -> (r: (u8, u8))
    ensures
        r == fletcher(bytes@),
{
    let mut ck_a: u8 = 0;
    let mut ck_b: u8 = 0;
    let mut i: usize = 0;
    while i < bytes.len()
        invariant
            i <= bytes@.len(),
            (ck_a, ck_b) == fletcher(bytes@.take(i as int)),
        decreases bytes@.len() - i,
    {
        ck_a = ck_a.wrapping_add(bytes[i]);
        ck_b = ck_b.wrapping_add(ck_a);
        i = i + 1;
        assert(bytes@.take(i as int).drop_last() =~= bytes@.take(i - 1));
    }
    assert(bytes@.take(i as int) =~= bytes@);
    (ck_a, ck_b)
}

/// The checksummed part of a frame: class, id, length and payload. The
/// length field holds the low 16 bits of the payload's length.
pub open spec fn body(class: u8, id: u8, payload: Seq<u8>) -> Seq<u8> {
    seq![class, id] + bytes_le16((payload.len() % 0x1_0000) as u16) + payload
}

/// A whole frame.
pub open spec fn frame(class: u8, id: u8, payload: Seq<u8>) -> Seq<u8> {
    let b = body(class, id, payload);
    seq![SYNC1, SYNC2] + b + seq![fletcher(b).0, fletcher(b).1]
}

/// What [`encode`] does: the frame stands at the start of the buffer and
/// is returned, or the buffer was too small and stays as it was.
pub open spec fn encoded(
    class: u8,
    id: u8,
    payload: Seq<u8>,
    before: Seq<u8>,
    after: Seq<u8>,
    r: Option<&[u8]>,
) -> bool {
    if before.len() < payload.len() + 8 {
        r is None && after == before
    } else {
        &&& r matches Some(s) && s@ == frame(class, id, payload)
        &&& after == frame(class, id, payload) + before.skip((payload.len() + 8) as int)
    }
}

/// The length field holds the two low bytes of the length.
proof fn length_field(n: nat)
    ensures
        bytes_le16((n % 0x1_0000) as u16) == seq![(n % 256) as u8, ((n / 256) % 256) as u8],
{
    let low = n % 0x1_0000;
    assert(low % 256 == n % 256);
    assert(low / 256 == (n / 256) % 256);
    assert(bytes_le16(low as u16) =~= seq![(low % 256) as u8, (low / 256) as u8]);
}

/// Write the sync bytes and the checksummed part of a frame to the start
/// of `buf`.
#[verifier::spinoff_prover]
fn put_body(class: u8, id: u8, payload: &[u8], buf: &mut [u8])
    requires
        payload@.len() + 8 <= old(buf)@.len(),
    ensures
        final(buf)@ == seq![SYNC1, SYNC2] + body(class, id, payload@) + old(buf)@.skip((6 + payload@.len()) as int),
{
    let n: usize = payload.len();
    let total: usize = buf.len();
    buf[0] = SYNC1;
    buf[1] = SYNC2;
    buf[2] = class;
    buf[3] = id;
    buf[4] = (n % 256) as u8;
    buf[5] = ((n / 256) % 256) as u8;
    let mut i: usize = 0;
    while i < n
        invariant
            i <= n,
            n == payload@.len(),
            n + 8 <= total,
            total == buf@.len(),
            total == old(buf)@.len(),
            buf@[0] == SYNC1,
            buf@[1] == SYNC2,
            buf@[2] == class,
            buf@[3] == id,
            buf@[4] == (n % 256) as u8,
            buf@[5] == ((n / 256) % 256) as u8,
            forall|j: int| 6 <= j < 6 + i ==> buf@[j] == payload@[j - 6],
            forall|j: int| 6 + n <= j < buf@.len() ==> buf@[j] == old(buf)@[j],
        decreases n - i,
    {
        buf[6 + i] = payload[i];
        i = i + 1;
    }
    proof {
        length_field(n as nat);
        let head = seq![SYNC1, SYNC2] + body(class, id, payload@);
        assert(buf@.take(6 + n) =~= head);
        assert(buf@.skip(6 + n) =~= old(buf)@.skip(6 + n));
        assert(buf@ =~= buf@.take(6 + n) + buf@.skip(6 + n));
    }
}

/// Encode a complete frame into `buf`, returning the framed bytes. `None`
/// if `buf` is too small (needs `payload.len() + 8`).
pub fn encode<'a>(class: u8, id: u8, payload: &[u8], buf: &'a mut [u8]) -> (r: Option<&'a [u8]>)
    ensures
        encoded(class, id, payload@, old(buf)@, final(buf)@, r),
{
    if buf.len() < 8 || buf.len() - 8 < payload.len() {
        return None;
    }
    let n: usize = payload.len();
    put_body(class, id, payload, buf);
    let ghost b = body(class, id, payload@);
    assert(buf@.subrange(2, 6 + n) =~= b);
    let (ck_a, ck_b) = checksum(&buf[2..6 + n]);
    buf[6 + n] = ck_a;
    buf[7 + n] = ck_b;
    assert(buf@ =~= frame(class, id, payload@) + old(buf)@.skip(n + 8));
    assert(buf@.subrange(0, n + 8) =~= frame(class, id, payload@));
    Some(vstd::slice::slice_subrange(buf, 0, n + 8))
}

/// Result of feeding one byte to the [`Parser`].
#[derive(Debug, Clone, Copy, PartialEq, Eq, Structural)]
pub enum Poll {
    /// Nothing complete yet.
    Pending,
    /// A frame with a valid checksum completed; its payload is available
    /// via [`Parser::payload`] until the next `push`.
    Frame { class: u8, id: u8 },
    /// A frame that could not be buffered was dropped. Two cases, told
    /// apart by `len`: between [`MAX_PAYLOAD`] and [`DRAIN_CAP`] the
    /// frame was real-looking and fully consumed; above [`DRAIN_CAP`] it
    /// was treated as a false sync and the parser resynchronized
    /// immediately instead of draining.
    Skipped { class: u8, id: u8, len: u16 },
    /// A frame arrived with a bad checksum and was dropped.
    BadChecksum { class: u8, id: u8 },
}

#[derive(Debug, Clone, Copy)]
enum State {
    Sync1,
    Sync2,
    Class,
    Id,
    LenLo,
    LenHi,
    Payload,
    CkA,
    CkB,
    /// Draining an oversized payload (+ its 2 checksum bytes).
    Drain,
}

/// Where a parser stands in the stream.
pub ghost enum Phase {
    /// Looking for the first sync byte.
    Idle,
    /// The last byte was the first sync byte.
    HalfSync,
    /// Inside a frame: the bytes since the sync sequence.
    Inside(Seq<u8>),
}

/// The payload length that the bytes since the sync sequence declare.
pub open spec fn declared(seen: Seq<u8>) -> int {
    le16(seen[2], seen[3])
}

impl Phase {
    /// The phase after byte `b`, and what is reported.
    pub open spec fn push(self, b: u8) -> (Phase, Poll) {
        match self {
            Phase::Idle => (if b == SYNC1 { Phase::HalfSync } else { Phase::Idle }, Poll::Pending),
            Phase::HalfSync => (
                if b == SYNC2 {
                    Phase::Inside(Seq::empty())
                } else if b == SYNC1 {
                    Phase::HalfSync
                } else {
                    Phase::Idle
                },
                Poll::Pending,
            ),
            Phase::Inside(before) => {
                let seen = before.push(b);
                let n = declared(seen);
                let (class, id) = (seen[0], seen[1]);
                if seen.len() < 4 {
                    (Phase::Inside(seen), Poll::Pending)
                } else if n > DRAIN_CAP {
                    (Phase::Idle, Poll::Skipped { class, id, len: n as u16 })
                } else if n > MAX_PAYLOAD {
                    if seen.len() == n + 6 {
                        (Phase::Idle, Poll::Skipped { class, id, len: n as u16 })
                    } else {
                        (Phase::Inside(seen), Poll::Pending)
                    }
                } else if seen.len() <= n + 4 {
                    (Phase::Inside(seen), Poll::Pending)
                } else if seen.len() == n + 5 {
                    if b == fletcher(before).0 {
                        (Phase::Inside(seen), Poll::Pending)
                    } else {
                        (Phase::Idle, Poll::BadChecksum { class, id })
                    }
                } else if b == fletcher(before.drop_last()).1 {
                    (Phase::Idle, Poll::Frame { class, id })
                } else {
                    (Phase::Idle, Poll::BadChecksum { class, id })
                }
            },
        }
    }

    /// The phase after the bytes of `s`.
    pub open spec fn push_all(self, s: Seq<u8>) -> Phase
        decreases s.len(),
    {
        if s.len() == 0 {
            self
        } else {
            self.push_all(s.drop_last()).push(s.last()).0
        }
    }

    /// What is reported at the `i`-th byte of `s`.
    pub open spec fn report(self, s: Seq<u8>, i: int) -> Poll {
        self.push_all(s.take(i)).push(s[i]).1
    }
}

/// Streaming UBX parser: feed raw interface bytes (interleaved NMEA text
/// included - anything outside a sync sequence is ignored), get
/// checksum-verified frames out. No allocation; one fixed buffer.
pub struct Parser {
    state: State,
    class: u8,
    id: u8,
    len: u16,
    got: u16,
    ck_a: u8,
    ck_b: u8,
    payload: [u8; 256],
    seen: Ghost<Seq<u8>>,
}

impl View for Parser {
    type V = Phase;

    closed spec fn view(&self) -> Phase {
        match self.state {
            State::Sync1 => Phase::Idle,
            State::Sync2 => Phase::HalfSync,
            _ => Phase::Inside(self.seen@),
        }
    }
}

impl Parser {
    /// The fields agree with the bytes seen.
    #[verifier::type_invariant]
    spec fn consistent(self) -> bool {
        let seen = self.seen@;
        let header = seen.len() >= 4 && self.class == seen[0] && self.id == seen[1] && self.len == declared(seen);
        match self.state {
            State::Sync1 | State::Sync2 => true,
            State::Class => seen.len() == 0,
            State::Id => seen.len() == 1 && self.class == seen[0] && (self.ck_a, self.ck_b) == fletcher(seen),
            State::LenLo => {
                &&& seen.len() == 2
                &&& self.class == seen[0]
                &&& self.id == seen[1]
                &&& (self.ck_a, self.ck_b) == fletcher(seen)
            },
            State::LenHi => {
                &&& seen.len() == 3
                &&& self.class == seen[0]
                &&& self.id == seen[1]
                &&& self.len == seen[2]
                &&& (self.ck_a, self.ck_b) == fletcher(seen)
            },
            State::Payload => {
                &&& header
                &&& self.got < self.len <= MAX_PAYLOAD
                &&& seen.len() == 4 + self.got
                &&& (self.ck_a, self.ck_b) == fletcher(seen)
                &&& forall|i: int| 0 <= i < self.got ==> self.payload@[i] == seen[4 + i]
            },
            State::CkA => {
                &&& header
                &&& self.len <= MAX_PAYLOAD
                &&& seen.len() == 4 + self.len
                &&& (self.ck_a, self.ck_b) == fletcher(seen)
                &&& forall|i: int| 0 <= i < self.len ==> self.payload@[i] == seen[4 + i]
            },
            State::CkB => {
                &&& header
                &&& self.len <= MAX_PAYLOAD
                &&& seen.len() == 5 + self.len
                &&& (self.ck_a, self.ck_b) == fletcher(seen.drop_last())
                &&& forall|i: int| 0 <= i < self.len ==> self.payload@[i] == seen[4 + i]
            },
            State::Drain => {
                &&& header
                &&& MAX_PAYLOAD < self.len <= DRAIN_CAP
                &&& seen.len() == 4 + self.got
                &&& self.got < self.len + 2
            },
        }
    }

    /// The length field last read.
    pub closed spec fn length(self) -> int {
        self.len as int
    }

    /// The first `length` bytes of the payload buffer.
    pub closed spec fn held(self) -> Seq<u8> {
        self.payload@.take(self.len as int)
    }

    pub fn new() -> (p: Parser)
        ensures
            p@ == Phase::Idle,
            p.length() == 0,
    {
        Parser {
            state: State::Sync1,
            class: 0,
            id: 0,
            len: 0,
            got: 0,
            ck_a: 0,
            ck_b: 0,
            payload: [0u8; 256],
            seen: Ghost(Seq::empty()),
        }
    }

    /// Payload of the frame most recently reported as [`Poll::Frame`].
    /// Valid until the next [`Self::push`].
    pub fn payload(&self) -> (r: &[u8])
        requires
            self.length() <= MAX_PAYLOAD,
        ensures
            r@ == self.held(),
            r@.len() == self.length(),
    {
        let p: &[u8] = &self.payload;
        &p[0..self.len as usize]
    }

    /// Feed one received byte.
    pub fn push(&mut self, b: u8) -> (r: Poll)
        ensures
            (final(self)@, r) == old(self)@.push(b),
            r is Frame ==> {
                &&& old(self)@ matches Phase::Inside(seen)
                &&& final(self).length() == declared(seen)
                &&& final(self).length() <= MAX_PAYLOAD
                &&& final(self).held() == seen.subrange(4, 4 + declared(seen))
            },
            r is Pending && old(self)@ !is Inside ==> final(self).length() == old(self).length(),
    {
        proof {
            use_type_invariant(&*self);
        }
        let ghost before = self.seen@;
        let ghost after = before.push(b);
        assert(after.drop_last() =~= before);
        match self.state {
            State::Sync1 => {
                if b == SYNC1 {
                    self.state = State::Sync2;
                }
                Poll::Pending
            },
            State::Sync2 => {
                if b == SYNC2 {
                    self.restart();
                } else if b == SYNC1 {
                    // `B5 B5 62 ...` - stay one byte into the sync.
                    self.state = State::Sync2;
                } else {
                    self.state = State::Sync1;
                }
                Poll::Pending
            },
            State::Class => {
                let a: u8 = b;
                proof {
                    reveal_with_fuel(fletcher, 2);
                    assert(after.drop_last() =~= Seq::<u8>::empty());
                    assert(fletcher(after) == (b, b));
                }
                *self = Parser {
                    state: State::Id,
                    class: b,
                    id: self.id,
                    len: self.len,
                    got: self.got,
                    ck_a: a,
                    ck_b: b,
                    payload: self.payload,
                    seen: Ghost(after),
                };
                Poll::Pending
            },
            State::Id => {
                let (ck_a, ck_b) = self.ck(b);
                *self = Parser {
                    state: State::LenLo,
                    class: self.class,
                    id: b,
                    len: self.len,
                    got: self.got,
                    ck_a,
                    ck_b,
                    payload: self.payload,
                    seen: Ghost(after),
                };
                Poll::Pending
            },
            State::LenLo => {
                let (ck_a, ck_b) = self.ck(b);
                *self = Parser {
                    state: State::LenHi,
                    class: self.class,
                    id: self.id,
                    len: b as u16,
                    got: self.got,
                    ck_a,
                    ck_b,
                    payload: self.payload,
                    seen: Ghost(after),
                };
                Poll::Pending
            },
            State::LenHi => {
                let (ck_a, ck_b) = self.ck(b);
                let len: u16 = self.len + 256 * (b as u16);
                let state: State = if len as usize > DRAIN_CAP {
                    // False sync, in all likelihood - resync from the
                    // very next byte, do not drain (see DRAIN_CAP).
                    State::Sync1
                } else if len as usize > MAX_PAYLOAD {
                    State::Drain
                } else if len == 0 {
                    State::CkA
                } else {
                    State::Payload
                };
                *self = Parser {
                    state,
                    class: self.class,
                    id: self.id,
                    len,
                    got: 0,
                    ck_a,
                    ck_b,
                    payload: self.payload,
                    seen: Ghost(after),
                };
                if len as usize > DRAIN_CAP {
                    Poll::Skipped { class: self.class, id: self.id, len }
                } else {
                    Poll::Pending
                }
            },
            State::Payload => {
                let (ck_a, ck_b) = self.ck(b);
                let mut payload: [u8; 256] = self.payload;
                payload[self.got as usize] = b;
                let got: u16 = self.got + 1;
                *self = Parser {
                    state: if got == self.len { State::CkA } else { State::Payload },
                    class: self.class,
                    id: self.id,
                    len: self.len,
                    got,
                    ck_a,
                    ck_b,
                    payload,
                    seen: Ghost(after),
                };
                Poll::Pending
            },
            State::CkA => {
                if b == self.ck_a {
                    *self = Parser {
                        state: State::CkB,
                        class: self.class,
                        id: self.id,
                        len: self.len,
                        got: self.got,
                        ck_a: self.ck_a,
                        ck_b: self.ck_b,
                        payload: self.payload,
                        seen: Ghost(after),
                    };
                    Poll::Pending
                } else {
                    // The frame's trailing ck_b byte re-enters the sync
                    // scan; a stray 0xB5 there still needs a following
                    // 0x62 to fake a frame start.
                    self.state = State::Sync1;
                    Poll::BadChecksum { class: self.class, id: self.id }
                }
            },
            State::CkB => {
                self.state = State::Sync1;
                if b == self.ck_b {
                    assert(self.held() =~= before.subrange(4, 4 + declared(before)));
                    Poll::Frame { class: self.class, id: self.id }
                } else {
                    Poll::BadChecksum { class: self.class, id: self.id }
                }
            },
            State::Drain => {
                // Consume payload + 2 checksum bytes, then report.
                let got: u16 = self.got + 1;
                let done: bool = got == self.len + 2;
                *self = Parser {
                    state: if done { State::Sync1 } else { State::Drain },
                    class: self.class,
                    id: self.id,
                    len: self.len,
                    got,
                    ck_a: self.ck_a,
                    ck_b: self.ck_b,
                    payload: self.payload,
                    seen: Ghost(after),
                };
                if done {
                    Poll::Skipped { class: self.class, id: self.id, len: self.len }
                } else {
                    Poll::Pending
                }
            },
        }
    }

    /// A frame starts: nothing of it is seen yet.
    fn restart(&mut self)
        ensures
            final(self)@ == Phase::Inside(Seq::empty()),
            final(self).len == old(self).len,
    {
        *self = Parser {
            state: State::Class,
            class: self.class,
            id: self.id,
            len: self.len,
            got: self.got,
            ck_a: self.ck_a,
            ck_b: self.ck_b,
            payload: self.payload,
            seen: Ghost(Seq::empty()),
        };
    }

    /// The running checksum with `b` taken in.
    fn ck(&self, b: u8) -> (r: (u8, u8))
        ensures
            r == fletcher_next((self.ck_a, self.ck_b), b),
    {
        let a: u8 = self.ck_a.wrapping_add(b);
        (a, self.ck_b.wrapping_add(a))
    }
}

/// Inside a frame that declares `payload` and fits the buffer, the bytes
/// up to the checksum are taken in one by one.
proof fn body_is_taken_in(class: u8, id: u8, payload: Seq<u8>, tail: Seq<u8>, k: int)
    requires
        payload.len() <= DRAIN_CAP,
        tail.len() == 2,
        0 <= k <= payload.len() + 4,
    ensures
        ({
            let s = seq![SYNC1, SYNC2] + body(class, id, payload) + tail;
            &&& Phase::Idle.push_all(s.take(k + 2)) == Phase::Inside(body(class, id, payload).take(k))
            &&& forall|i: int| 0 <= i < k + 2 ==> Phase::Idle.report(s, i) == Poll::Pending
        }),
    decreases k,
{
    let b = body(class, id, payload);
    let s = seq![SYNC1, SYNC2] + b + tail;
    if k == 0 {
        assert(s.take(0) =~= Seq::<u8>::empty());
        assert(s.take(1).drop_last() =~= s.take(0));
        assert(s.take(2).drop_last() =~= s.take(1));
        assert(b.take(0) =~= Seq::<u8>::empty());
        reveal_with_fuel(Phase::push_all, 3);
    } else {
        body_is_taken_in(class, id, payload, tail, k - 1);
        assert(s.take(k + 2).drop_last() =~= s.take(k + 1));
        assert(b.take(k - 1).push(b[k - 1]) =~= b.take(k));
        assert(s[k + 1] == b[k - 1]);
        if k >= 4 {
            assert(declared(b.take(k)) == payload.len());
        }
        assert(Phase::Idle.report(s, k + 1) == Poll::Pending);
    }
}

/// What was encoded is parsed back: an idle parser fed a frame whose
/// payload fits reports that frame at its last byte, nothing before, and
/// is idle again.
#[verifier::spinoff_prover]
#[verifier::rlimit(40)]
pub proof fn encoded_frame_is_parsed(class: u8, id: u8, payload: Seq<u8>)
    requires
        payload.len() <= MAX_PAYLOAD,
    ensures
        ({
            let s = frame(class, id, payload);
            &&& forall|i: int| 0 <= i < s.len() - 1 ==> Phase::Idle.report(s, i) == Poll::Pending
            &&& Phase::Idle.report(s, s.len() - 1) == Poll::Frame { class, id }
            &&& Phase::Idle.push_all(s.take(s.len() - 1)) matches Phase::Inside(seen)
            &&& declared(seen) == payload.len()
            &&& seen.subrange(4, 4 + declared(seen)) == payload
            &&& Phase::Idle.push_all(s) == Phase::Idle
        }),
{
    let b = body(class, id, payload);
    let n = payload.len() as int;
    let s = frame(class, id, payload);
    let tail = seq![fletcher(b).0, fletcher(b).1];
    body_is_taken_in(class, id, payload, tail, n + 4);
    assert(b.take(n + 4) =~= b);
    assert(s.take(n + 7).drop_last() =~= s.take(n + 6));
    assert(s.take(n + 7).last() == fletcher(b).0);
    let seen = b.push(fletcher(b).0);
    assert(seen.drop_last() =~= b);
    assert(declared(seen) == n);
    assert(Phase::Idle.push_all(s.take(n + 7)) == Phase::Inside(seen));
    assert(seen.subrange(4, 4 + n) =~= payload);
    assert(s.take(n + 8) =~= s);
    assert(s.drop_last() =~= s.take(n + 7));
    assert(declared(seen.push(s.last())) == n);
    assert forall|i: int| 0 <= i < s.len() - 1 implies Phase::Idle.report(s, i) == Poll::Pending by {
        if i == n + 6 {
            assert(Phase::Idle.report(s, n + 6) == Poll::Pending);
        }
    }
}

/// A frame whose payload is too long for the buffer, but not for
/// draining, is consumed to its last byte and reported as skipped there.
#[verifier::spinoff_prover]
#[verifier::rlimit(40)]
pub proof fn long_frame_is_skipped(class: u8, id: u8, payload: Seq<u8>)
    requires
        MAX_PAYLOAD < payload.len() <= DRAIN_CAP,
    ensures
        ({
            let s = frame(class, id, payload);
            &&& forall|i: int| 0 <= i < s.len() - 1 ==> Phase::Idle.report(s, i) == Poll::Pending
            &&& Phase::Idle.report(s, s.len() - 1) == (Poll::Skipped { class, id, len: payload.len() as u16 })
            &&& Phase::Idle.push_all(s) == Phase::Idle
        }),
{
    let b = body(class, id, payload);
    let n = payload.len() as int;
    let s = frame(class, id, payload);
    let tail = seq![fletcher(b).0, fletcher(b).1];
    body_is_taken_in(class, id, payload, tail, n + 4);
    assert(b.take(n + 4) =~= b);
    assert(s.take(n + 7).drop_last() =~= s.take(n + 6));
    let seen = b.push(fletcher(b).0);
    assert(declared(seen) == n);
    assert(Phase::Idle.push_all(s.take(n + 7)) == Phase::Inside(seen));
    assert(s.take(n + 8) =~= s);
    assert(s.drop_last() =~= s.take(n + 7));
    assert(declared(seen.push(s.last())) == n);
    assert forall|i: int| 0 <= i < s.len() - 1 implies Phase::Idle.report(s, i) == Poll::Pending by {
        if i == n + 6 {
            assert(Phase::Idle.report(s, n + 6) == Poll::Pending);
        }
    }
}

/// A declared length above [`DRAIN_CAP`] is a false sync: it is reported
/// at the length field, and the very next byte is scanned for a sync
/// again.
pub proof fn false_sync_is_not_drained(seen: Seq<u8>, hi: u8)
    requires
        seen.len() == 3,
        le16(seen[2], hi) > DRAIN_CAP,
    ensures
        Phase::Inside(seen).push(hi) == (
            Phase::Idle,
            Poll::Skipped { class: seen[0], id: seen[1], len: le16(seen[2], hi) as u16 },
        ),
{
}

/// Anything outside a sync sequence is ignored: an idle parser stays
/// idle, and reports nothing, over bytes that hold no first sync byte.
pub proof fn noise_is_ignored(s: Seq<u8>)
    requires
        forall|i: int| 0 <= i < s.len() ==> s[i] != SYNC1,
    ensures
        Phase::Idle.push_all(s) == Phase::Idle,
        forall|i: int| 0 <= i < s.len() ==> Phase::Idle.report(s, i) == Poll::Pending,
    decreases s.len(),
{
    if s.len() > 0 {
        let t = s.drop_last();
        noise_is_ignored(t);
        assert forall|i: int| 0 <= i < s.len() implies Phase::Idle.report(s, i) == Poll::Pending by {
            if i < t.len() {
                assert(t.take(i) =~= s.take(i));
                assert(Phase::Idle.report(t, i) == Poll::Pending);
            } else {
                assert(s.take(i) =~= t);
            }
        }
    }
}

impl Phase {
    /// What holds of every phase that a parser gets to: a frame that is
    /// being taken in is not longer than it declares, and one that waits
    /// for its last byte has the right first checksum byte.
    pub open spec fn sound(self) -> bool {
        self matches Phase::Inside(seen) ==> seen.len() >= 4 ==> {
            &&& declared(seen) <= DRAIN_CAP
            &&& seen.len() <= declared(seen) + 5
            &&& declared(seen) <= MAX_PAYLOAD && seen.len() == declared(seen) + 5 ==> seen.last() == fletcher(
                seen.drop_last(),
            ).0
        }
    }
}

/// A parser starts sound and stays so.
pub proof fn parsing_stays_sound(p: Phase, b: u8)
    ensures
        Phase::Idle.sound(),
        p.sound() ==> p.push(b).0.sound(),
{
    if let Phase::Inside(before) = p {
        let seen = before.push(b);
        assert(seen.drop_last() =~= before);
        if before.len() >= 4 {
            assert(declared(seen) == declared(before));
        }
    }
}

/// Only checksummed frames come out: where a frame is reported, the bytes
/// since the sync sequence are exactly those of an encoded frame, and its
/// payload is the one that was taken in.
pub proof fn only_whole_frames_come_out(before: Seq<u8>, b: u8, class: u8, id: u8)
    requires
        Phase::Inside(before).sound(),
        Phase::Inside(before).push(b).1 == (Poll::Frame { class, id }),
    ensures
        seq![SYNC1, SYNC2] + before.push(b) == frame(class, id, before.subrange(4, 4 + declared(before))),
        declared(before) <= MAX_PAYLOAD,
{
    let seen = before.push(b);
    let n = declared(seen);
    let payload = before.subrange(4, 4 + n);
    assert(before.len() == n + 5);
    assert(declared(before) == n);
    let taken = before.drop_last();
    let len = bytes_le16((payload.len() % 0x1_0000) as u16);
    assert(len =~= seq![before[2], before[3]]);
    assert(body(class, id, payload) =~= taken);
    assert(seq![SYNC1, SYNC2] + seen =~= frame(class, id, payload));
}

/// A frame with a wrong checksum is never reported as a frame: it is
/// dropped, as a bad checksum, at the first of the two bytes that is
/// wrong.
pub proof fn wrong_checksum_is_dropped(class: u8, id: u8, payload: Seq<u8>, ck_a: u8, ck_b: u8)
    requires
        payload.len() <= MAX_PAYLOAD,
        (ck_a, ck_b) != fletcher(body(class, id, payload)),
    ensures
        ({
            let b = body(class, id, payload);
            let (after, first) = Phase::Inside(b).push(ck_a);
            if ck_a != fletcher(b).0 {
                after == Phase::Idle && first == (Poll::BadChecksum { class, id })
            } else {
                first == Poll::Pending && after.push(ck_b) == (Phase::Idle, Poll::BadChecksum { class, id })
            }
        }),
{
    let b = body(class, id, payload);
    assert(declared(b.push(ck_a)) == payload.len());
    assert(declared(b.push(ck_a).push(ck_b)) == payload.len());
    assert(b.push(ck_a).drop_last() =~= b);
}

} // verus!
