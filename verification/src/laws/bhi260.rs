//! The sensor hub.

use vstd::prelude::*;
use crate::bhi260::errors::meaning;
use crate::bhi260::{
    awaiting, begin_upload, chunk_of, chunk_upload, chunks_upload, commanding, draining, fifo_reading, matrix_writing,
    on_bus, packed_matrix, packet, padded, param_reading, param_writing, present, ready_check, reading, remaining,
    sensor_config, status_body, status_check, suspending, verify_check, Error,
};
use crate::bus::{fit, overlay, Fault, Req, Session};
use crate::bytes::{bytes_le32, le16};
use crate::chip::{read_gives_the_register, written_register_is_held, Registers};
use crate::laws::bits::{bits_by_place, single_bits, twelve_bits};
use crate::laws::bytes::bytes_by_place_value;
use crate::laws::chip::{comes, get};

verus! {

// ---- Commands ---------------------------------------------------------------

/// The bytes of a command on the wire: channel 0, the command number and
/// the length of what follows, each low byte first, then the content and
/// zeros up to the next multiple of four.
pub open spec fn command_bytes(out: Seq<u8>, command: int, content: Seq<u8>) -> bool {
    &&& out.len() >= 5
    &&& out[0] == 0
    &&& out[1] + 256 * out[2] == command
    &&& out[3] + 256 * out[4] == out.len() - 5
    &&& (out.len() - 5) % 4 == 0
    &&& content.len() <= out.len() - 5 < content.len() + 4
    &&& forall|j: int|
        5 <= j < out.len() ==> #[trigger] out[j] == (if j - 5 < content.len() { content[j - 5] } else { 0 })
}

/// A command of up to 68 bytes goes out in one write; a longer one is
/// refused with nothing sent.
pub proof fn commands_on_the_wire(s: Session, addr: u8, command: u16, content: Seq<u8>)
    requires
        !s.stalled(),
    ensures
        content.len() <= 68 ==> commanding(s, addr, command, content).0.sent.len() == s.sent.len() + 1 && (commanding(
            s,
            addr,
            command,
            content,
        ).0.sent.last() matches Req::Write { addr: a, out } && a == addr && command_bytes(out, command as int, content)),
        content.len() <= 68 && comes(s, 0, Seq::empty()) ==> commanding(s, addr, command, content).1 is Ok,
        content.len() > 68 ==> commanding(s, addr, command, content).1 is Err && commanding(s, addr, command, content).0
            == s,
{
    if content.len() <= 68 {
        let n = padded(content).len();
        bytes_by_place_value(command, 0);
        bytes_by_place_value(n as u16, 0);
        let out = seq![0u8] + packet(command, content);
        assert forall|j: int| 5 <= j < out.len() implies #[trigger] out[j] == (if j - 5 < content.len() {
            content[j - 5]
        } else {
            0
        }) by {
            assert(out[j] == padded(content)[j - 5]);
        }
        assert(command_bytes(out, command as int, content));
    }
}

/// A sensor configuration: the sensor, the rate in four bytes and the
/// latency in three, low byte first.
pub proof fn sensor_configuration(s: Session, addr: u8, id: u8, rate: u32, latency: u32)
    requires
        !s.stalled(),
    ensures
        sensor_config(s, addr, id, rate, latency).0.sent.len() == s.sent.len() + 1,
        sensor_config(s, addr, id, rate, latency).0.sent.last() matches Req::Write { addr: a, out } && a == addr
            && out.len() == 13 && out[1] + 256 * out[2] == 13 && out[5] == id && out[6] + 256 * out[7] + 65536 * out[8]
            + 16777216 * out[9] == rate && out[10] + 256 * out[11] + 65536 * out[12] == latency as int % 16777216,
{
    let content = seq![id] + bytes_le32(rate) + bytes_le32(latency).take(3);
    commands_on_the_wire(s, addr, 13, content);
    bytes_by_place_value(0, rate);
    bytes_by_place_value(0, latency);
    if let Req::Write { addr: a, out } = sensor_config(s, addr, id, rate, latency).0.sent.last() {
        assert(command_bytes(out, 13, content));
        assert(out[5] == content[0] && out[6] == content[1] && out[7] == content[2] && out[8] == content[3] && out[9]
            == content[4] && out[10] == content[5] && out[11] == content[6] && out[12] == content[7]);
    }
}

/// A parameter is written under its own number, bit 12 clear; a matrix
/// under 120h and the number of the sensor.
pub proof fn parameters_on_the_wire(s: Session, addr: u8, param: u16, id: u8, data: Seq<u8>)
    requires
        !s.stalled(),
        param < 0x1000,
        data.len() <= 68,
    ensures
        param_writing(s, addr, param, data).0.sent.last() matches Req::Write { addr: a, out } && a == addr
            && command_bytes(out, param as int, data),
        data.len() == 5 ==> (matrix_writing(s, addr, id, data).0.sent.last() matches Req::Write { addr: a, out } && a
            == addr && command_bytes(out, 288 + id, data + seq![0u8, 0u8, 0u8])),
{
    let q = (288 + id) as u16;
    twelve_bits(param);
    twelve_bits(q);
    commands_on_the_wire(s, addr, param, data);
    commands_on_the_wire(s, addr, q, data + seq![0u8, 0u8, 0u8]);
}

// ---- Upload -----------------------------------------------------------------

/// An upload starts with command 2 and the number of 32-bit words; a
/// length that is no multiple of four, or of more than 65535 words, is
/// refused with nothing sent.
pub proof fn upload_starts(s: Session, addr: u8, len: int)
    requires
        !s.stalled(),
        0 <= len,
    ensures
        len % 4 == 0 && len <= 262140 ==> begin_upload(s, addr, len).0.sent.len() == s.sent.len() + 1 && (begin_upload(
            s,
            addr,
            len,
        ).0.sent.last() matches Req::Write { addr: a, out } && a == addr && out.len() == 5 && out[0] == 0 && out[1] == 2
            && out[2] == 0 && 4 * (out[3] + 256 * out[4]) == len),
        len % 4 != 0 || len > 262140 ==> begin_upload(s, addr, len).1 is Err && begin_upload(s, addr, len).0 == s,
{
    bytes_by_place_value(2, 0);
    bytes_by_place_value((len / 4) as u16, 0);
}

/// A chunk of whole words, 256 bytes at most, goes to channel 0 as it is;
/// any other is refused with nothing sent.
pub proof fn chunk_on_the_wire(s: Session, addr: u8, chunk: Seq<u8>)
    requires
        !s.stalled(),
    ensures
        chunk.len() % 4 == 0 && chunk.len() <= 256 ==> chunk_upload(s, addr, chunk).0.sent == s.sent.push(
            Req::Write { addr, out: seq![0u8] + chunk },
        ),
        chunk.len() % 4 != 0 || chunk.len() > 256 ==> chunk_upload(s, addr, chunk).1 is Err && chunk_upload(
            s,
            addr,
            chunk,
        ).0 == s,
{
}

/// What the writes of channel 0 from request `from` on carry, back to
/// back.
pub open spec fn carried(sent: Seq<Req>, from: nat) -> Seq<u8>
    decreases sent.len() - from,
{
    if from >= sent.len() {
        Seq::empty()
    } else {
        (match sent[from as int] {
            Req::Write { addr, out } => out.skip(1),
            _ => Seq::empty(),
        }) + carried(sent, from + 1)
    }
}

proof fn carried_goes_on(a: Seq<Req>, b: Seq<Req>, from: nat)
    requires
        a.len() <= b.len(),
        from <= a.len(),
        b.take(a.len() as int) == a,
    ensures
        carried(b, from) == carried(a, from) + carried(b, a.len()),
    decreases a.len() - from,
{
    if from < a.len() {
        carried_goes_on(a, b, from + 1);
        assert(b[from as int] == b.take(a.len() as int)[from as int]);
        let head = match a[from as int] {
            Req::Write { addr, out } => out.skip(1),
            _ => Seq::empty(),
        };
        assert(head + (carried(a, from + 1) + carried(b, a.len())) =~= (head + carried(a, from + 1)) + carried(
            b,
            a.len(),
        ));
    } else {
        assert(carried(a, from) =~= Seq::empty());
        assert(Seq::<u8>::empty() + carried(b, a.len()) =~= carried(b, a.len()));
    }
}

/// An upload that succeeds has put the whole image on the wire, in order
/// and once, in writes to channel 0 of at most 256 bytes.
pub proof fn upload_carries_the_image(s: Session, addr: u8, image: Seq<u8>, from: int)
    requires
        !s.stalled(),
        0 <= from <= image.len(),
        chunks_upload(s, addr, image, from).1 is Ok,
    ensures
        ({
            let t = chunks_upload(s, addr, image, from).0;
            &&& !t.stalled()
            &&& s.sent.len() <= t.sent.len()
            &&& t.sent.take(s.sent.len() as int) == s.sent
            &&& carried(t.sent, s.sent.len()) == image.skip(from)
            &&& forall|k: int|
                s.sent.len() <= k < t.sent.len() ==> (#[trigger] t.sent[k] matches Req::Write { addr: a, out } && a == addr
                    && 1 < out.len() <= 257 && out[0] == 0)
        }),
    decreases remaining(image.len() as int, from),
{
    let t = chunks_upload(s, addr, image, from).0;
    if from < image.len() {
        let c = chunk_of(image, from);
        let (s1, r) = chunk_upload(s, addr, c);
        let next = from + 256;
        assert(r is Ok);
        assert(t == chunks_upload(s1, addr, image, next).0);
        let q = Req::Write { addr, out: seq![0u8] + c };
        assert(s1.sent == s.sent.push(q));
        assert((seq![0u8] + c).skip(1) =~= c);
        if next <= image.len() {
            upload_carries_the_image(s1, addr, image, next);
            assert(c + image.skip(next) =~= image.skip(from));
        } else {
            assert(t == s1);
            assert(c =~= image.skip(from));
            assert(c + Seq::<u8>::empty() =~= c);
        }
        assert(t.sent.take(s1.sent.len() as int)[s.sent.len() as int] == q);
        assert(t.sent[s.sent.len() as int] == q);
        assert(t.sent.take(s.sent.len() as int) =~= s.sent) by {
            assert(t.sent.take(s.sent.len() as int) =~= t.sent.take(s1.sent.len() as int).take(s.sent.len() as int));
        }
        assert(carried(t.sent, s.sent.len()) == c + carried(t.sent, s.sent.len() + 1));
    } else {
        assert(t.sent.take(s.sent.len() as int) =~= s.sent);
        assert(image.skip(from) =~= Seq::empty());
    }
}

// ---- Reads of a channel -----------------------------------------------------

/// How many bytes the reads from request `from` on ask for.
pub open spec fn asked(sent: Seq<Req>, from: nat) -> nat
    decreases sent.len() - from,
{
    if from >= sent.len() {
        0
    } else {
        (match sent[from as int] {
            Req::WriteRead { addr, out, len } => len,
            _ => 0,
        }) + asked(sent, from + 1)
    }
}

/// Draining that succeeds has read exactly the bytes that were left, from
/// that channel, a step at a time.
pub proof fn draining_reads_the_rest(s: Session, addr: u8, channel: u8, left: nat, step: nat)
    requires
        !s.stalled(),
        step > 0,
        draining(s, addr, channel, left, step).1 is Ok,
    ensures
        ({
            let t = draining(s, addr, channel, left, step).0;
            &&& !t.stalled()
            &&& s.sent.len() <= t.sent.len()
            &&& t.sent.take(s.sent.len() as int) == s.sent
            &&& asked(t.sent, s.sent.len()) == left
            &&& forall|k: int|
                s.sent.len() <= k < t.sent.len() ==> (#[trigger] t.sent[k] matches Req::WriteRead { addr: a, out, len } && a
                    == addr && out == seq![channel] && 0 < len <= step)
        }),
    decreases left,
{
    let t = draining(s, addr, channel, left, step).0;
    if left > 0 {
        let n = if left < step { left } else { step };
        let (s1, r) = on_bus(s.read_regs(addr, channel, n));
        assert(r is Ok);
        draining_reads_the_rest(s1, addr, channel, (left - n) as nat, step);
        let q = get(addr, channel, n);
        assert(s1.sent == s.sent.push(q));
        assert(t.sent.take(s1.sent.len() as int)[s.sent.len() as int] == q);
        assert(t.sent[s.sent.len() as int] == q);
        assert(t.sent.take(s.sent.len() as int) =~= s.sent) by {
            assert(t.sent.take(s.sent.len() as int) =~= t.sent.take(s1.sent.len() as int).take(s.sent.len() as int));
        }
        assert(asked(t.sent, s.sent.len()) == n + asked(t.sent, s.sent.len() + 1));
    } else {
        assert(t.sent.take(s.sent.len() as int) =~= s.sent);
    }
}

/// A FIFO transfer: the first two bytes give its length, low byte first.
/// Where it fits, its bytes go to the front of the buffer and the rest of
/// the buffer stays; an empty one changes nothing.
pub proof fn fifo_transfer_is_read(s: Session, addr: u8, channel: u8, buf: Seq<u8>, h: Seq<u8>, d: Seq<u8>)
    requires
        !s.stalled(),
        comes(s, 0, h),
        h.len() == 2,
        comes(s, 1, d),
        d.len() == h[0] + 256 * h[1],
        d.len() <= buf.len(),
    ensures
        ({
            let (t, out, r) = fifo_reading(s, addr, channel, buf);
            &&& r == Ok::<usize, Error<Fault>>(d.len() as usize)
            &&& out.len() == buf.len()
            &&& forall|i: int| 0 <= i < buf.len() ==> #[trigger] out[i] == (if i < d.len() { d[i] } else { buf[i] })
            &&& t.sent == (if d.len() == 0 {
                s.sent.push(get(addr, channel, 2))
            } else {
                s.sent.push(get(addr, channel, 2)).push(get(addr, channel, d.len()))
            })
        }),
{
    assert(fit(h, 2) =~= h);
    assert(fit(d, d.len()) =~= d);
}

/// A FIFO transfer that is longer than the buffer fills it; the rest is
/// read and dropped, so that the whole transfer has been taken.
pub proof fn long_transfer_is_drained(s: Session, addr: u8, channel: u8, buf: Seq<u8>, h: Seq<u8>, d: Seq<u8>)
    requires
        !s.stalled(),
        comes(s, 0, h),
        h.len() == 2,
        comes(s, 1, d),
        d.len() == buf.len(),
        buf.len() < h[0] + 256 * h[1],
        fifo_reading(s, addr, channel, buf).2 is Ok,
    ensures
        ({
            let (t, out, r) = fifo_reading(s, addr, channel, buf);
            &&& r == Ok::<usize, Error<Fault>>(buf.len() as usize)
            &&& out == d
            &&& asked(t.sent, s.sent.len() + 1) == h[0] + 256 * h[1]
        }),
{
    assert(fit(h, 2) =~= h);
    assert(fit(d, d.len()) =~= d);
    assert(overlay(buf, d) =~= d);
    let s1 = s.after(get(addr, channel, 2));
    let s2 = s1.after(get(addr, channel, d.len()));
    let left = (h[0] + 256 * h[1] - buf.len()) as nat;
    let t = draining(s2, addr, channel, left, 32).0;
    draining_reads_the_rest(s2, addr, channel, left, 32);
    let k = s.sent.len() + 1;
    assert(s2.sent[k as int] == get(addr, channel, d.len()));
    assert(t.sent.take(s2.sent.len() as int)[k as int] == get(addr, channel, d.len()));
    assert(asked(t.sent, k) == d.len() + asked(t.sent, k + 1));
}

/// A status packet is looked for only where bit 5 of 2Dh is set. Its
/// header gives a code and a length, low bytes first; a payload that fits
/// goes to the front of the buffer.
pub proof fn status_packet_is_read(s: Session, addr: u8, out: Seq<u8>, irq: u8, h: Seq<u8>, d: Seq<u8>)
    requires
        !s.stalled(),
        comes(s, 0, seq![irq]),
        comes(s, 1, h),
        h.len() == 4,
        comes(s, 2, d),
        d.len() == h[2] + 256 * h[3],
        d.len() <= out.len(),
    ensures
        irq as int / 32 % 2 == 0 ==> status_check(s, addr, out) == (
            s.after(get(addr, 0x2D, 1)),
            out,
            Ok::<Option<(u16, usize)>, Error<Fault>>(None),
        ),
        irq as int / 32 % 2 == 1 && h[0] == 0 && h[1] == 0 && d.len() == 0 ==> status_check(s, addr, out).2 == Ok::<
            Option<(u16, usize)>,
            Error<Fault>,
        >(None),
        irq as int / 32 % 2 == 1 && (h[0] != 0 || h[1] != 0 || d.len() > 0) ==> ({
            let (t, o, r) = status_check(s, addr, out);
            &&& r matches Ok(Some(p)) && p.0 == h[0] + 256 * h[1] && p.1 == d.len()
            &&& o.len() == out.len()
            &&& forall|i: int| 0 <= i < out.len() ==> #[trigger] o[i] == (if i < d.len() { d[i] } else { out[i] })
            &&& t.sent == (if d.len() == 0 {
                s.sent.push(get(addr, 0x2D, 1)).push(get(addr, 0x03, 4))
            } else {
                s.sent.push(get(addr, 0x2D, 1)).push(get(addr, 0x03, 4)).push(get(addr, 0x03, d.len()))
            })
        }),
{
    bits_by_place(irq);
    assert(fit(seq![irq], 1) =~= seq![irq]);
    assert(fit(h, 4) =~= h);
    assert(fit(d, d.len()) =~= d);
    if d.len() == 0 {
        assert(overlay(out, Seq::empty()) =~= out);
    }
}

/// A status packet longer than the buffer fills it, and the rest is read
/// and dropped.
pub proof fn long_packet_is_drained(s: Session, addr: u8, out: Seq<u8>, code: u16, d: Seq<u8>, len: int)
    requires
        !s.stalled(),
        comes(s, 0, d),
        0 < d.len() == out.len(),
        out.len() < len <= 65535,
        status_body(s, addr, out, code, len).2 is Ok,
    ensures
        ({
            let (t, o, r) = status_body(s, addr, out, code, len);
            &&& o == d
            &&& r matches Ok(Some(p)) && p.0 == code && p.1 == out.len()
            &&& asked(t.sent, s.sent.len()) == len
        }),
{
    assert(fit(d, d.len()) =~= d);
    assert(overlay(out, d) =~= d);
    let s1 = s.after(get(addr, 0x03, d.len()));
    let left = (len - out.len()) as nat;
    let t = draining(s1, addr, 0x03, left, 16).0;
    draining_reads_the_rest(s1, addr, 0x03, left, 16);
    let k = s.sent.len();
    assert(t.sent.take(s1.sent.len() as int)[k as int] == get(addr, 0x03, d.len()));
    assert(asked(t.sent, k) == d.len() + asked(t.sent, k + 1));
}

/// A parameter read is command 1000h and the number of the parameter, and
/// the next packet of that number answers it; error 15 is passed on, with
/// the command and the code of its payload.
pub proof fn parameter_is_read(s: Session, addr: u8, param: u16, out: Seq<u8>, irq: u8, h: Seq<u8>, d: Seq<u8>)
    requires
        !s.stalled(),
        param < 0x1000,
        comes(s, 0, Seq::empty()),
        comes(s, 1, seq![irq]),
        irq as int / 32 % 2 == 1,
        comes(s, 2, h),
        h.len() == 4,
        comes(s, 3, d),
        0 < d.len() == h[2] + 256 * h[3],
        d.len() <= out.len(),
    ensures
        ({
            let (t, o, r) = param_reading(s, addr, param, out);
            &&& t.sent.len() > s.sent.len()
            &&& t.sent[s.sent.len() as int] matches Req::Write { addr: a, out: q } && a == addr && command_bytes(
                q,
                4096 + param,
                Seq::empty(),
            )
            &&& (h[0] + 256 * h[1]) % 4096 == param ==> r == Ok::<usize, Error<Fault>>(d.len() as usize) && (forall|i: int|
                0 <= i < out.len() ==> #[trigger] o[i] == (if i < d.len() { d[i] } else { out[i] }))
            &&& h[0] == 15 && h[1] == 0 && param != 15 && d.len() >= 3 ==> (r matches Err(
                Error::Command { command, error },
            ) && command == d[0] + 256 * d[1] && error == d[2])
        }),
{
    let c = 0x1000u16 | (param & 0x0FFF);
    twelve_bits(param);
    commands_on_the_wire(s, addr, c, Seq::empty());
    let s1 = commanding(s, addr, c, Seq::empty()).0;
    assert(comes(s1, 0, seq![irq]) && comes(s1, 1, h) && comes(s1, 2, d));
    status_packet_is_read(s1, addr, out, irq, h, d);
    reveal_with_fuel(awaiting, 2);
    let code = (h[0] + 256 * h[1]) as u16;
    twelve_bits(code);
    let t1 = status_check(s1, addr, out).0;
    awaiting_keeps_what_was_sent(s1, addr, param, out, 500);
    assert(s1.sent[s.sent.len() as int] == param_reading(s, addr, param, out).0.sent.take(s1.sent.len() as int)[s.sent.len() as int]);
}

/// What `s` had sent, `t` has sent first.
pub open spec fn goes_on(s: Session, t: Session) -> bool {
    s.sent.len() <= t.sent.len() && t.sent.take(s.sent.len() as int) == s.sent
}

proof fn going_on(a: Session, b: Session, c: Session)
    requires
        goes_on(a, b),
        goes_on(b, c),
    ensures
        goes_on(a, c),
{
    assert(c.sent.take(a.sent.len() as int) =~= c.sent.take(b.sent.len() as int).take(a.sent.len() as int));
}

proof fn check_keeps_what_was_sent(s: Session, addr: u8, out: Seq<u8>)
    ensures
        goes_on(s, status_check(s, addr, out).0),
{
    let t = status_check(s, addr, out).0;
    let (s1, r1) = reading(s, addr, 0x2D);
    kept_by_a_read(s, addr, 0x2D, 1);
    if t != s1 {
        let (s2, r2) = on_bus(s1.read_regs(addr, 0x03, 4));
        kept_by_a_read(s1, addr, 0x03, 4);
        going_on(s, s1, s2);
        if t != s2 {
            let h = r2->Ok_0;
            let len = le16(h[2], h[3]);
            let copy = if len < out.len() { len } else { out.len() as int };
            let left = (len - copy) as nat;
            assert(t == status_body(s2, addr, out, le16(h[0], h[1]) as u16, len).0);
            if copy > 0 {
                let s3 = s2.read_regs(addr, 0x03, copy as nat).0;
                kept_by_a_read(s2, addr, 0x03, copy as nat);
                going_on(s, s2, s3);
                if t != s3 {
                    assert(t == draining(s3, addr, 0x03, left, 16).0);
                    kept_by_draining(s3, addr, 0x03, left, 16);
                    going_on(s, s3, t);
                }
            } else {
                assert(t == draining(s2, addr, 0x03, left, 16).0);
                kept_by_draining(s2, addr, 0x03, left, 16);
                going_on(s, s2, t);
            }
        }
    }
}

proof fn kept_by_a_read(s: Session, addr: u8, r: u8, n: nat)
    ensures
        s.sent.len() <= s.read_regs(addr, r, n).0.sent.len(),
        s.read_regs(addr, r, n).0.sent.take(s.sent.len() as int) == s.sent,
{
    assert(s.read_regs(addr, r, n).0.sent.take(s.sent.len() as int) =~= s.sent);
}

proof fn kept_by_draining(s: Session, addr: u8, channel: u8, left: nat, step: nat)
    ensures
        s.sent.len() <= draining(s, addr, channel, left, step).0.sent.len(),
        draining(s, addr, channel, left, step).0.sent.take(s.sent.len() as int) == s.sent,
    decreases left,
{
    let t = draining(s, addr, channel, left, step).0;
    if left > 0 && step > 0 {
        let n = if left < step { left } else { step };
        let (s1, r) = on_bus(s.read_regs(addr, channel, n));
        kept_by_a_read(s, addr, channel, n);
        if r is Ok {
            kept_by_draining(s1, addr, channel, (left - n) as nat, step);
            assert(t.sent.take(s.sent.len() as int) =~= t.sent.take(s1.sent.len() as int).take(s.sent.len() as int));
        }
    } else {
        assert(t.sent.take(s.sent.len() as int) =~= s.sent);
    }
}

proof fn awaiting_keeps_what_was_sent(s: Session, addr: u8, param: u16, out: Seq<u8>, spins: nat)
    ensures
        ({
            let t = awaiting(s, addr, param, out, spins).0;
            &&& s.sent.len() <= t.sent.len()
            &&& t.sent.take(s.sent.len() as int) == s.sent
        }),
    decreases spins,
{
    let t = awaiting(s, addr, param, out, spins).0;
    if spins > 0 {
        let (s1, out1, r) = status_check(s, addr, out);
        check_keeps_what_was_sent(s, addr, out);
        awaiting_keeps_what_was_sent(s1, addr, param, out1, (spins - 1) as nat);
        assert(t == s1 || t == awaiting(s1, addr, param, out1, (spins - 1) as nat).0);
        assert(t.sent.take(s.sent.len() as int) =~= t.sent.take(s1.sent.len() as int).take(s.sent.len() as int));
    } else {
        assert(t.sent.take(s.sent.len() as int) =~= s.sent);
    }
}

/// While no packet is there the wait goes on, one check fewer; when the
/// checks are used up, it has timed out.
pub proof fn waits_are_bounded(s: Session, addr: u8, param: u16, out: Seq<u8>, spins: nat)
    requires
        !s.stalled(),
        comes(s, 0, seq![0u8]),
    ensures
        awaiting(s, addr, param, out, spins + 1) == awaiting(s.after(get(addr, 0x2D, 1)), addr, param, out, spins),
        awaiting(s, addr, param, out, 0).2 is Err && awaiting(s, addr, param, out, 0).0 == s,
{
    bits_by_place(0);
    assert(fit(seq![0u8], 1) =~= seq![0u8]);
}

// ---- On a chip that keeps its registers -------------------------------------

/// The hub is ready where bit 4 of 25h is set; an image is verified where
/// bit 5 is, unless bit 6 is: that is an error, with the code in 2Eh.
pub proof fn boot_status_by_bit(regs: Registers, addr: u8, s: Session)
    requires
        regs.answers(addr, s.read_reg(addr, 0x25).0.read_reg(addr, 0x2E).0),
    ensures
        ({
            let v = regs.now(addr, s).at(0x25) as int;
            &&& ready_check(s, addr).1 == Ok::<bool, Error<Fault>>(v / 16 % 2 == 1)
            &&& v / 64 % 2 == 1 ==> verify_check(s, addr).1 == Err::<bool, Error<Fault>>(
                Error::Chip(regs.now(addr, s).at(0x2E)),
            )
            &&& v / 64 % 2 == 0 ==> verify_check(s, addr).1 == Ok::<bool, Error<Fault>>(v / 32 % 2 == 1)
        }),
{
    let s1 = s.read_reg(addr, 0x25).0;
    read_gives_the_register(regs, addr, s1, 0x2E);
    read_gives_the_register(regs, addr, s, 0x25);
    bits_by_place(regs.now(addr, s).at(0x25));
}

/// Suspending sets bit 4 of 06h and resuming clears it; all else stays.
pub proof fn suspend_bit(regs: Registers, addr: u8, s: Session, suspended: bool)
    requires
        regs.answers(addr, suspending(s, addr, suspended).0),
    ensures
        suspending(s, addr, suspended).1 is Ok,
        ({
            let (before, after) = (regs.now(addr, s), regs.now(addr, suspending(s, addr, suspended).0));
            &&& (after.at(6) as int / 16 % 2 == 1) == suspended
            &&& after.at(6) as int % 16 == before.at(6) as int % 16
            &&& after.at(6) as int / 32 == before.at(6) as int / 32
            &&& forall|q: int| q != 6 ==> #[trigger] after.at(q) == before.at(q)
        }),
{
    let t = suspending(s, addr, suspended).0;
    let (s1, e) = s.read_reg(addr, 6);
    if e is Err {
        assert(t == s1);
        read_gives_the_register(regs, addr, s, 6);
    } else {
        let v = e->Ok_0;
        let w: u8 = if suspended { v | 0x10 } else { v & !0x10 };
        assert(t == s1.write_reg(addr, 6, w).0);
        written_register_is_held(regs, addr, s1, 6, w);
        read_gives_the_register(regs, addr, s, 6);
        assert((v | 0x10) / 16 % 2 == 1 && (v | 0x10) % 16 == v % 16 && (v | 0x10) / 32 == v / 32 && (v & !0x10u8) / 16 % 2
            == 0 && (v & !0x10u8) % 16 == v % 16 && (v & !0x10u8) / 32 == v / 32) by (bit_vector);
    }
}

// ---- Values -----------------------------------------------------------------

/// The place value of bit `i` of a byte.
pub open spec fn place(i: int) -> int {
    if i == 0 {
        1
    } else if i == 1 {
        2
    } else if i == 2 {
        4
    } else if i == 3 {
        8
    } else if i == 4 {
        16
    } else if i == 5 {
        32
    } else if i == 6 {
        64
    } else {
        128
    }
}

/// A sensor is in the bitmap where the bit of its number is set, eight to
/// a byte, the first one lowest.
pub proof fn presence_by_bit(bitmap: Seq<u8>, id: u8)
    requires
        bitmap.len() == 32,
    ensures
        present(bitmap, id) == (bitmap[id as int / 8] as int / place(id as int % 8) % 2 == 1),
{
    bits_by_place(bitmap[id as int / 8]);
    single_bits();
}

/// A packed matrix has the even elements in the low halves and the odd
/// ones in the high halves, each as a number to the base 16, and nothing
/// in the last half.
pub proof fn matrix_by_halves(c: Seq<i8>, i: int)
    requires
        c.len() == 9,
        0 <= i < 5,
    ensures
        packed_matrix(c).len() == 5,
        packed_matrix(c)[i] as int % 16 == c[2 * i] as int % 16,
        i < 4 ==> packed_matrix(c)[i] as int / 16 == c[2 * i + 1] as int % 16,
        i == 4 ==> packed_matrix(c)[i] as int / 16 == 0,
{
}

/// The texts of the error codes, one by one; a code that has none is
/// unknown.
pub proof fn error_texts(code: u8)
    ensures
        code == 0x00 ==> meaning(code) == "no error"@,
        code == 0x10 ==> meaning(code) == "firmware expected version mismatch (fatal)"@,
        code == 0x11 ==> meaning(code) == "firmware upload: bad header CRC (fatal)"@,
        code == 0x12 ==> meaning(code) == "firmware upload: SHA hash mismatch (fatal)"@,
        code == 0x13 ==> meaning(code) == "firmware upload: bad image CRC (fatal)"@,
        code == 0x14 ==> meaning(code) == "firmware upload: ECDSA signature verification failed (fatal)"@,
        code == 0x15 ==> meaning(code) == "firmware upload: bad public key CRC (fatal)"@,
        code == 0x16 ==> meaning(code) == "firmware upload: signed firmware required (fatal)"@,
        code == 0x17 ==> meaning(code) == "firmware upload: FW header missing (fatal)"@,
        code == 0x19 ==> meaning(code) == "unexpected watchdog reset (fatal)"@,
        code == 0x1A ==> meaning(code) == "ROM version mismatch (fatal)"@,
        code == 0x1B ==> meaning(code) == "fatal firmware error"@,
        code == 0x1C ==> meaning(code) == "chained fw: next payload not found (fatal)"@,
        code == 0x1D ==> meaning(code) == "chained fw: payload not valid (fatal)"@,
        code == 0x1E ==> meaning(code) == "chained fw: payload entries invalid (fatal)"@,
        code == 0x1F ==> meaning(code) == "bootloader: OTP CRC invalid (fatal)"@,
        code == 0x20 ==> meaning(code) == "firmware init failed (hardware)"@,
        code == 0x21 ==> meaning(code) == "sensor init: unexpected device ID (hardware)"@,
        code == 0x22 ==> meaning(code) == "sensor init: no response from device"@,
        code == 0x23 ==> meaning(code) == "sensor init: unknown"@,
        code == 0x24 ==> meaning(code) == "sensor error: no valid data"@,
        code == 0x25 ==> meaning(code) == "slow sample rate (temporary)"@,
        code == 0x26 ==> meaning(code) == "data overflow / saturated sensor data (fatal)"@,
        code == 0x27 ==> meaning(code) == "stack overflow (fatal)"@,
        code == 0x28 ==> meaning(code) == "insufficient free RAM (fatal)"@,
        code == 0x29 ==> meaning(code) == "sensor init: driver parsing error (fatal)"@,
        code == 0x2A ==> meaning(code) == "too many RAM banks required"@,
        code == 0x2B ==> meaning(code) == "invalid event specified"@,
        code == 0x2C ==> meaning(code) == "more than 32 on-change"@,
        code == 0x2D ==> meaning(code) == "firmware too large (fatal)"@,
        code == 0x2F ==> meaning(code) == "invalid RAM banks (fatal)"@,
        code == 0x30 ==> meaning(code) == "math error (fatal)"@,
        code == 0x40 ==> meaning(code) == "memory error (fatal)"@,
        code == 0x41 ==> meaning(code) == "SWI3 error (fatal)"@,
        code == 0x42 ==> meaning(code) == "SWI4 error (fatal)"@,
        code == 0x43 ==> meaning(code) == "illegal instruction (fatal)"@,
        code == 0x44 ==> meaning(code) == "unhandled interrupt / exception / postmortem available (fatal)"@,
        code == 0x45 ==> meaning(code) == "invalid memory access (fatal)"@,
        code == 0x50 ==> meaning(code) == "algorithm error: BSX init"@,
        code == 0x51 ==> meaning(code) == "algorithm error: BSX do step"@,
        code == 0x52 ==> meaning(code) == "algorithm error: update sub"@,
        code == 0x53 ==> meaning(code) == "algorithm error: get sub"@,
        code == 0x54 ==> meaning(code) == "algorithm error: get phys"@,
        code == 0x55 ==> meaning(code) == "algorithm error: unsupported phys rate"@,
        code == 0x56 ==> meaning(code) == "algorithm error: cannot find BSX driver"@,
        code == 0x60 ==> meaning(code) == "sensor self-test failure (hardware)"@,
        code == 0x61 ==> meaning(code) == "sensor self-test X axis failure (hardware)"@,
        code == 0x62 ==> meaning(code) == "sensor self-test Y axis failure (hardware)"@,
        code == 0x64 ==> meaning(code) == "sensor self-test Z axis failure (hardware)"@,
        code == 0x65 ==> meaning(code) == "FOC failure (hardware)"@,
        code == 0x66 ==> meaning(code) == "sensor busy (hardware)"@,
        code == 0x6F ==> meaning(code) == "self-test or FOC unsupported"@,
        code == 0x72 ==> meaning(code) == "no host interrupt set (fatal)"@,
        code == 0x73 ==> meaning(code) == "event ID has no known size"@,
        code == 0x75 ==> meaning(code) == "host download channel underflow (temporary)"@,
        code == 0x76 ==> meaning(code) == "host upload channel overflow (temporary)"@,
        code == 0x77 ==> meaning(code) == "host download channel empty (temporary)"@,
        code == 0x78 ==> meaning(code) == "DMA error (hardware)"@,
        code == 0x79 ==> meaning(code) == "corrupted input block chain"@,
        code == 0x7A ==> meaning(code) == "corrupted output block chain"@,
        code == 0x7B ==> meaning(code) == "buffer block manager error"@,
        code == 0x7C ==> meaning(code) == "input channel not word aligned (temporary)"@,
        code == 0x7D ==> meaning(code) == "too many flush events (temporary)"@,
        code == 0x7E ==> meaning(code) == "unknown host channel error (hardware)"@,
        code == 0x81 ==> meaning(code) == "decimation too large"@,
        code == 0x90 ==> meaning(code) == "master SPI/I2C queue overflow (fatal)"@,
        code == 0x91 ==> meaning(code) == "SPI/I2C callback error (fatal)"@,
        code == 0xA0 ==> meaning(code) == "timer scheduling error (fatal)"@,
        code == 0xB0 ==> meaning(code) == "invalid GPIO for host IRQ (fatal)"@,
        code == 0xB1 ==> meaning(code) == "error sending initialized meta events (fatal)"@,
        code == 0xC0 ==> meaning(code) == "command error (temporary)"@,
        code == 0xC1 ==> meaning(code) == "command too long (temporary)"@,
        code == 0xC2 ==> meaning(code) == "command buffer overflow (temporary)"@,
        code == 0xD0 ==> meaning(code) == "user mode: sys call invalid (fatal)"@,
        code == 0xD1 ==> meaning(code) == "user mode: trap invalid (fatal)"@,
        code == 0xE1 ==> meaning(code) == "firmware upload failed: header corrupt (fatal)"@,
        code == 0xE2 ==> meaning(code) == "sensor data injection: invalid input stream"@,
        0x1 <= code <= 0xf || code == 0x18 || code == 0x2e || 0x31 <= code <= 0x3f || 0x46 <= code <= 0x4f
            || 0x57 <= code <= 0x5f || code == 0x63 || 0x67 <= code <= 0x6e || 0x70 <= code <= 0x71 || code == 0x74
            || 0x7f <= code <= 0x80 || 0x82 <= code <= 0x8f || 0x92 <= code <= 0x9f || 0xa1 <= code <= 0xaf
            || 0xb2 <= code <= 0xbf || 0xc3 <= code <= 0xcf || 0xd2 <= code <= 0xe0 || 0xe3 <= code <= 0xff ==> meaning(code) == "unknown error code"@,
{
}

/// A whole upload is the announcement, then the image: on success all of it
/// has gone out, in order.
pub proof fn firmware_is_uploaded(s: Session, addr: u8, image: Seq<u8>)
    requires
        !s.stalled(),
        crate::bhi260::firmware_upload(s, addr, image).1 is Ok,
    ensures
        ({
            let t = crate::bhi260::firmware_upload(s, addr, image).0;
            &&& image.len() % 4 == 0 && image.len() <= 262140
            &&& t.sent.len() > s.sent.len()
            &&& t.sent[s.sent.len() as int] matches Req::Write { addr: a, out } && a == addr && out.len() == 5 && out[1] == 2
                && 4 * (out[3] + 256 * out[4]) == image.len()
            &&& carried(t.sent, s.sent.len() + 1) == image
        }),
{
    upload_starts(s, addr, image.len() as int);
    let (s1, r) = begin_upload(s, addr, image.len() as int);
    upload_carries_the_image(s1, addr, image, 0);
    let t = chunks_upload(s1, addr, image, 0).0;
    assert(t.sent.take(s1.sent.len() as int)[s.sent.len() as int] == s1.sent[s.sent.len() as int]);
    assert(image.skip(0) =~= image);
}

/// A byte beyond what a buffer has counts as 0.
pub proof fn missing_bytes_are_zero(out: Seq<u8>, i: int)
    requires
        0 <= i,
    ensures
        i < out.len() ==> crate::bhi260::byte_or_zero(out, i) == out[i],
        i >= out.len() ==> crate::bhi260::byte_or_zero(out, i) == 0,
{
}

} // verus!
