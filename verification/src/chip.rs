//! A chip that keeps what is written to its registers: what the laws on
//! reading back speak of.

use vstd::prelude::*;
use crate::bus::{fit, merged, Rep, Req, Session};

verus! {

/// The registers of a chip, by number.
pub ghost struct Registers {
    pub held: spec_fn(int) -> u8,
}

/// The request goes to the chip at `addr`.
pub open spec fn goes_to(q: Req, addr: u8) -> bool {
    match q {
        Req::Write { addr: a, .. } => a == addr,
        Req::WriteRead { addr: a, .. } => a == addr,
        _ => false,
    }
}

impl Registers {
    /// The value of register `r`.
    pub open spec fn at(self, r: int) -> u8 {
        (self.held)(r)
    }

    /// The registers of the chip at `addr` once `q` is performed: a write
    /// names a register and gives the values from there on.
    pub open spec fn after(self, addr: u8, q: Req) -> Registers {
        match q {
            Req::Write { addr: a, out } => if a == addr && out.len() > 0 {
                Registers {
                    held: |r: int|
                        if out[0] <= r < out[0] + out.len() - 1 {
                            out[1 + r - out[0]]
                        } else {
                            self.at(r)
                        },
                }
            } else {
                self
            },
            _ => self,
        }
    }

    /// The registers once requests are performed, first to last.
    pub open spec fn after_all(self, addr: u8, qs: Seq<Req>) -> Registers
        decreases qs.len(),
    {
        if qs.len() == 0 {
            self
        } else {
            self.after_all(addr, qs.drop_last()).after(addr, qs.last())
        }
    }

    /// The chip's reply to a request.
    pub open spec fn reply_to(self, q: Req) -> Rep {
        match q {
            Req::WriteRead { out, len, .. } => Rep::Data(Seq::new(len, |j: int| self.at(out[0] + j))),
            _ => Rep::Data(Seq::empty()),
        }
    }

    /// Every request of the session that goes to `addr` has the reply of
    /// a chip with these registers at the start.
    pub open spec fn answers(self, addr: u8, s: Session) -> bool {
        &&& s.sent.len() <= s.replies.len()
        &&& forall|i: int|
            0 <= i < s.sent.len() && goes_to(s.sent[i], addr) ==> #[trigger] s.replies[i] == self.after_all(
                addr,
                s.sent.take(i),
            ).reply_to(s.sent[i])
    }

    /// The registers at the end of a session.
    pub open spec fn now(self, addr: u8, s: Session) -> Registers {
        self.after_all(addr, s.sent)
    }
}

/// A request that is sent gets the chip's reply, and does to the chip
/// what it says.
pub proof fn request_is_answered(regs: Registers, addr: u8, s: Session, q: Req)
    requires
        goes_to(q, addr),
        regs.answers(addr, s.after(q)),
    ensures
        regs.answers(addr, s),
        !s.stalled(),
        s.sent.len() < s.replies.len(),
        s.replies[s.sent.len() as int] == regs.now(addr, s).reply_to(q),
        regs.now(addr, s.after(q)) == regs.now(addr, s).after(addr, q),
{
    let t = s.after(q);
    let n = s.sent.len() as int;
    assert(t.sent == s.sent.push(q));
    assert(t.sent.take(n) =~= s.sent);
    assert(t.sent.drop_last() =~= s.sent);
    assert(t.replies[n] == regs.after_all(addr, t.sent.take(n)).reply_to(t.sent[n]));
    assert forall|i: int| 0 <= i < s.sent.len() && goes_to(s.sent[i], addr) implies #[trigger] s.replies[i]
        == regs.after_all(addr, s.sent.take(i)).reply_to(s.sent[i]) by {
        assert(t.sent.take(i) =~= s.sent.take(i));
        assert(t.replies[i] == regs.after_all(addr, t.sent.take(i)).reply_to(t.sent[i]));
    }
}

/// A write of `out` succeeds and leaves the registers from `out[0]` on
/// with the values after it.
pub proof fn write_is_kept(regs: Registers, addr: u8, s: Session, out: Seq<u8>)
    requires
        regs.answers(addr, s.write(addr, out).0),
    ensures
        regs.answers(addr, s),
        !s.write(addr, out).0.stalled(),
        s.write(addr, out).1 is Ok,
        regs.now(addr, s.write(addr, out).0) == regs.now(addr, s).after(addr, Req::Write { addr, out }),
{
    request_is_answered(regs, addr, s, Req::Write { addr, out });
}

/// A read gives what the registers hold and changes nothing.
pub proof fn read_gives_the_registers(regs: Registers, addr: u8, s: Session, r: u8, len: nat)
    requires
        regs.answers(addr, s.read_regs(addr, r, len).0),
    ensures
        regs.answers(addr, s),
        !s.read_regs(addr, r, len).0.stalled(),
        s.read_regs(addr, r, len).1 == Ok::<Seq<u8>, crate::bus::Fault>(
            Seq::new(len, |j: int| regs.now(addr, s).at(r + j)),
        ),
        regs.now(addr, s.read_regs(addr, r, len).0) == regs.now(addr, s),
{
    let q = Req::WriteRead { addr, out: seq![r], len };
    request_is_answered(regs, addr, s, q);
    let there = Seq::new(len, |j: int| regs.now(addr, s).at(q->WriteRead_out[0] + j));
    assert(fit(there, len) =~= there);
    assert(there =~= Seq::new(len, |j: int| regs.now(addr, s).at(r + j)));
}

/// A read of one register gives what it holds and changes nothing.
pub proof fn read_gives_the_register(regs: Registers, addr: u8, s: Session, r: u8)
    requires
        regs.answers(addr, s.read_reg(addr, r).0),
    ensures
        regs.answers(addr, s),
        !s.read_reg(addr, r).0.stalled(),
        s.read_reg(addr, r).1 == Ok::<u8, crate::bus::Fault>(regs.now(addr, s).at(r as int)),
        regs.now(addr, s.read_reg(addr, r).0) == regs.now(addr, s),
{
    read_gives_the_registers(regs, addr, s, r, 1);
}

/// A register that was written holds the value; every other one holds
/// what it held.
pub proof fn written_register_is_held(regs: Registers, addr: u8, s: Session, r: u8, val: u8)
    requires
        regs.answers(addr, s.write_reg(addr, r, val).0),
    ensures
        regs.answers(addr, s),
        !s.write_reg(addr, r, val).0.stalled(),
        s.write_reg(addr, r, val).1 is Ok,
        regs.now(addr, s.write_reg(addr, r, val).0).at(r as int) == val,
        forall|other: int|
            other != r ==> #[trigger] regs.now(addr, s.write_reg(addr, r, val).0).at(other) == regs.now(addr, s).at(
                other,
            ),
{
    write_is_kept(regs, addr, s, seq![r, val]);
}

/// A register that was updated holds its old value with the bits of the
/// masks changed; every other one holds what it held.
pub proof fn updated_register_is_held(regs: Registers, addr: u8, s: Session, r: u8, clear: u8, set: u8)
    requires
        regs.answers(addr, s.update_reg(addr, r, clear, set).0),
    ensures
        regs.answers(addr, s),
        !s.update_reg(addr, r, clear, set).0.stalled(),
        s.update_reg(addr, r, clear, set).1 is Ok,
        regs.now(addr, s.update_reg(addr, r, clear, set).0).at(r as int) == merged(
            regs.now(addr, s).at(r as int),
            clear,
            set,
        ),
        forall|other: int|
            other != r ==> #[trigger] regs.now(addr, s.update_reg(addr, r, clear, set).0).at(other) == regs.now(
                addr,
                s,
            ).at(other),
{
    let (s1, e) = s.read_reg(addr, r);
    if e is Ok {
        assert(s.update_reg(addr, r, clear, set) == s1.write_reg(addr, r, merged(e->Ok_0, clear, set)));
        assert(!s1.stalled());
        written_register_is_held(regs, addr, s1, r, merged(e->Ok_0, clear, set));
    }
    read_gives_the_register(regs, addr, s, r);
}

/// A low field that was written into a register is read back from it.
pub proof fn low_field_reads_back(v: u8, c: u8)
    ensures
        c < 4 ==> merged(v, 0x03, c) as int % 4 == c,
        c < 8 ==> merged(v, 0x07, c) as int % 8 == c,
        c < 16 ==> merged(v, 0x0F, c) as int % 16 == c,
        c < 32 ==> merged(v, 0x1F, c) as int % 32 == c,
        c < 128 ==> merged(v, 0x7F, c) as int % 128 == c,
{
    assert(c < 4 ==> ((v & !0x03) | c) % 4 == c) by (bit_vector);
    assert(c < 8 ==> ((v & !0x07) | c) % 8 == c) by (bit_vector);
    assert(c < 16 ==> ((v & !0x0F) | c) % 16 == c) by (bit_vector);
    assert(c < 32 ==> ((v & !0x1F) | c) % 32 == c) by (bit_vector);
    assert(c < 128 ==> ((v & !0x7F) | c) % 128 == c) by (bit_vector);
}

} // verus!
