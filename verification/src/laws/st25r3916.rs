//! The reader chip.

use vstd::prelude::*;
use crate::bus::{fit, merged, Fault, Req, Session};
use crate::laws::bits::bits_by_place;
use crate::laws::chip::comes;
use crate::st25r3916::{
    access, commanding, decoding, length_bytes, reading, regulated_mv, updating, writing, Error, FifoStatus, Identity,
};

verus! {

/// An identity byte is eight times the type plus the revision.
pub proof fn identity_by_bits(v: u8)
    ensures
        8 * Identity::decoded(v).ic_type + Identity::decoded(v).ic_rev == v,
        Identity::decoded(v).ic_rev < 8,
{
}

/// The FIFO status: the count has its low byte first and its two high
/// bits on top of the second byte; bit 5 is underflow, bit 4 overflow,
/// bits 3:1 the bits of an incomplete byte, bit 0 a missing parity.
pub proof fn fifo_status_by_bits(low: u8, high: u8)
    ensures
        ({
            let f = FifoStatus::decoded(low, high);
            &&& f.bytes as int % 256 == low
            &&& f.bytes as int / 256 == high as int / 64
            &&& f.underflow == (high as int / 32 % 2 == 1)
            &&& f.overflow == (high as int / 16 % 2 == 1)
            &&& f.last_byte_bits == high as int / 2 % 8
            &&& f.missing_parity == (high as int % 2 == 1)
        }),
{
    bits_by_place(high);
}

/// A regulated voltage grows by 100 mV with each step of the high half of
/// the byte; there is one from step 5, 2400 mV, up to step 15, 3400 mV.
pub proof fn regulated_by_steps(v: u8, w: u8)
    ensures
        (regulated_mv(v) is Some) == (v >= 80),
        80 <= v < 96 ==> regulated_mv(v) == Some(2400u16),
        v >= 240 ==> regulated_mv(v) == Some(3400u16),
        v >= 80 && w >= 80 && w as int / 16 == v as int / 16 + 1 ==> regulated_mv(w)->0 == regulated_mv(v)->0 + 100,
        v >= 80 && w >= 80 && w as int / 16 == v as int / 16 ==> regulated_mv(w) == regulated_mv(v),
{
}

/// The length registers hold eight times the bytes plus the bits, the high
/// byte first.
pub proof fn length_by_place_value(bytes: u16, extra: u8)
    requires
        bytes < 8192,
        extra < 8,
    ensures
        length_bytes(bytes, extra).len() == 2,
        256 * length_bytes(bytes, extra)[0] + length_bytes(bytes, extra)[1] == 8 * bytes + extra,
{
}

/// The first byte of an access keeps the 6-bit address and has the mode
/// above it.
pub proof fn access_by_place_value(mode: u8, addr: u8)
    requires
        mode as int % 64 == 0,
    ensures
        access(mode, addr) as int % 64 == addr as int % 64,
        access(mode, addr) as int / 64 == mode as int / 64,
{
}

/// Frames by kind: a command is one byte; a write has its address, mode 0,
/// before the data; a read has bit 6 set and reads as many bytes as asked
/// for.
pub proof fn frames_by_kind(s: Session, code: u8, addr: u8, data: Seq<u8>, n: nat)
    requires
        !s.stalled(),
    ensures
        commanding(s, code).0.sent == s.sent.push(Req::Frame { out: seq![code], len: 0 }),
        writing(s, addr, data).0.sent == s.sent.push(
            Req::Frame { out: seq![(addr as int % 64) as u8] + data, len: 0 },
        ),
        reading(s, addr, n).0.sent == s.sent.push(
            Req::Frame { out: seq![(64 + addr as int % 64) as u8], len: n },
        ),
{
}

/// A read gives the bytes as they came, and their meaning.
pub proof fn reads_give_what_came<T>(s: Session, addr: u8, d: Seq<u8>, meaning: spec_fn(Seq<u8>) -> T)
    requires
        !s.stalled(),
        comes(s, 0, d),
    ensures
        reading(s, addr, d.len()).1 == Ok::<Seq<u8>, Error<Fault>>(d),
        decoding(s, addr, d.len(), meaning).1 == Ok::<T, Error<Fault>>(meaning(d)),
{
    assert(fit(d, d.len()) =~= d);
}

/// A read-modify-write keeps the bits it does not name, and returns what
/// was written.
pub proof fn registers_are_updated(s: Session, addr: u8, clear: u8, set: u8, v: u8)
    requires
        !s.stalled(),
        comes(s, 0, seq![v]),
        comes(s, 1, Seq::empty()),
    ensures
        updating(s, addr, clear, set).1 == Ok::<u8, Error<Fault>>((v & !clear) | set),
        updating(s, addr, clear, set).0.sent == s.sent.push(
            Req::Frame { out: seq![(64 + addr as int % 64) as u8], len: 1 },
        ).push(Req::Frame { out: seq![(addr as int % 64) as u8, (v & !clear) | set], len: 0 }),
{
    reads_give_what_came(s, addr, seq![v], |b: Seq<u8>| b);
    let s1 = reading(s, addr, 1).0;
    let w = merged(v, clear, set);
    frames_by_kind(s, 0, addr, Seq::empty(), 1);
    frames_by_kind(s1, 0, addr, seq![w], 0);
    assert(seq![(addr as int % 64) as u8] + seq![w] =~= seq![(addr as int % 64) as u8, w]);
}

} // verus!
