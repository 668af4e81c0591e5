//! Sessions with a chip.

use vstd::prelude::*;
use crate::bus::{fit, merged, overlay, Fault, Op, Rep, Req, Session};
use crate::chip::{updated_register_is_held, written_register_is_held, Registers};

verus! {

/// What is read fills as many bytes as asked for: those that came, in
/// order, then zeros.
pub proof fn reads_are_filled(data: Seq<u8>, len: nat, i: int)
    requires
        0 <= i < len,
    ensures
        fit(data, len).len() == len,
        i < data.len() ==> fit(data, len)[i] == data[i],
        i >= data.len() ==> fit(data, len)[i] == 0,
{
}

/// A short write into a buffer replaces its first bytes and keeps the
/// others.
pub proof fn overlays_keep_the_rest(buf: Seq<u8>, data: Seq<u8>, i: int)
    requires
        data.len() <= buf.len(),
        0 <= i < buf.len(),
    ensures
        overlay(buf, data).len() == buf.len(),
        overlay(buf, data)[i] == (if i < data.len() { data[i] } else { buf[i] }),
{
}

/// What goes out for each kind of transfer: the address, the register
/// first, then the values; a read names the register and the number of
/// bytes.
pub proof fn transfers_on_the_wire(s: Session, addr: u8, reg: u8, val: u8, out: Seq<u8>, len: nat)
    requires
        !s.stalled(),
    ensures
        s.write(addr, out).0.sent == s.sent.push(Req::Write { addr, out }),
        s.write_reg(addr, reg, val).0.sent == s.sent.push(Req::Write { addr, out: seq![reg, val] }),
        s.read_regs(addr, reg, len).0.sent == s.sent.push(Req::WriteRead { addr, out: seq![reg], len }),
        s.read_reg(addr, reg).0.sent == s.sent.push(Req::WriteRead { addr, out: seq![reg], len: 1 }),
        s.frame(out, len).0.sent == s.sent.push(Req::Frame { out, len }),
        s.frame_out(out).0.sent == s.sent.push(Req::Frame { out, len: 0 }),
{
}

/// What a transfer gives by the reply to it: the data, or the failure
/// with its code, or that the reply is still to come.
pub proof fn transfers_by_reply(s: Session, addr: u8, reg: u8, out: Seq<u8>)
    requires
        !s.stalled(),
    ensures
        s.sent.len() == s.replies.len() ==> s.read_reg(addr, reg).1 == Err::<u8, Fault>(Fault::Pending) && s.write(
            addr,
            out,
        ).1 == Err::<(), Fault>(Fault::Pending),
        s.sent.len() < s.replies.len() ==> match s.replies[s.sent.len() as int] {
            Rep::Data(d) => s.write(addr, out).1 is Ok && s.read_reg(addr, reg).1 == Ok::<u8, Fault>(
                if d.len() > 0 { d[0] } else { 0 },
            ),
            Rep::Failed(code) => s.write(addr, out).1 == Err::<(), Fault>(Fault::Failed(code)) && s.read_reg(
                addr,
                reg,
            ).1 == Err::<u8, Fault>(Fault::Failed(code)),
        },
{
}

/// Registers `regs` hold what the table writes into them: the last value
/// for each register of the table.
pub open spec fn hold(regs: Registers, table: Seq<(u8, u8)>) -> bool {
    forall|k: int|
        #![trigger table[k]]
        0 <= k < table.len() && (forall|j: int| k < j < table.len() ==> table[j].0 != table[k].0) ==> regs.at(
            table[k].0 as int,
        ) == table[k].1
}

/// A table of writes succeeds on a chip that keeps its registers, and
/// leaves every register of the table with the last value for it and all
/// others as they were.
pub proof fn table_is_held(regs: Registers, addr: u8, s: Session, table: Seq<(u8, u8)>)
    requires
        regs.answers(addr, s.write_regs(addr, table).0),
    ensures
        regs.answers(addr, s),
        s.write_regs(addr, table).1 is Ok,
        hold(regs.now(addr, s.write_regs(addr, table).0), table),
        forall|r: int|
            (forall|k: int| 0 <= k < table.len() ==> table[k].0 != r) ==> #[trigger] regs.now(
                addr,
                s.write_regs(addr, table).0,
            ).at(r) == regs.now(addr, s).at(r),
    decreases table.len(),
{
    if table.len() > 0 {
        let (reg, val) = table[0];
        let rest = table.skip(1);
        let (s1, e) = s.write_reg(addr, reg, val);
        if e is Err {
            written_register_is_held(regs, addr, s, reg, val);
        } else {
            let t = s1.write_regs(addr, rest).0;
            assert(t == s.write_regs(addr, table).0);
            table_is_held(regs, addr, s1, rest);
            written_register_is_held(regs, addr, s, reg, val);
            let now = regs.now(addr, t);
            assert forall|k: int|
                #![trigger table[k]]
                0 <= k < table.len() && (forall|j: int| k < j < table.len() ==> table[j].0 != table[k].0) implies now.at(
                table[k].0 as int,
            ) == table[k].1 by {
                if k > 0 {
                    assert(rest[k - 1] == table[k]);
                    assert forall|j: int| k - 1 < j < rest.len() implies #[trigger] rest[j].0 != rest[k - 1].0 by {
                        assert(rest[j] == table[j + 1]);
                    }
                } else {
                    assert forall|j: int| 0 <= j < rest.len() implies rest[j].0 != reg by {
                        assert(rest[j] == table[j + 1]);
                    }
                    assert(now.at(reg as int) == regs.now(addr, s1).at(reg as int));
                }
            }
            assert forall|r: int| (forall|k: int| 0 <= k < table.len() ==> table[k].0 != r) implies #[trigger] now.at(r)
                == regs.now(addr, s).at(r) by {
                assert forall|k: int| 0 <= k < rest.len() implies rest[k].0 != r by {
                    assert(rest[k] == table[k + 1]);
                }
                assert(table[0].0 != r);
            }
        }
    }
}

/// What a register holds once a program has run, from what it held.
pub open spec fn programmed(ops: Seq<Op>, r: int, v: u8) -> u8
    decreases ops.len(),
{
    if ops.len() == 0 {
        v
    } else {
        programmed(ops.skip(1), r, match ops[0] {
            Op::Put { reg, val } => if reg == r { val } else { v },
            Op::Update { reg, clear, set } => if reg == r { merged(v, clear, set) } else { v },
        })
    }
}

/// A register program succeeds on a chip that keeps its registers, and
/// each register holds what the steps on it make of it, in order.
pub proof fn program_is_held(regs: Registers, addr: u8, s: Session, ops: Seq<Op>)
    requires
        regs.answers(addr, s.run(addr, ops).0),
    ensures
        regs.answers(addr, s),
        s.run(addr, ops).1 is Ok,
        forall|r: int| #[trigger]
            regs.now(addr, s.run(addr, ops).0).at(r) == programmed(ops, r, regs.now(addr, s).at(r)),
    decreases ops.len(),
{
    if ops.len() > 0 {
        let (s1, e) = s.step(addr, ops[0]);
        if e is Ok {
            assert(s.run(addr, ops) == s1.run(addr, ops.skip(1)));
            program_is_held(regs, addr, s1, ops.skip(1));
        }
        match ops[0] {
            Op::Put { reg, val } => {
                written_register_is_held(regs, addr, s, reg, val);
            },
            Op::Update { reg, clear, set } => {
                updated_register_is_held(regs, addr, s, reg, clear, set);
            },
        }
        assert forall|r: int| #[trigger]
            regs.now(addr, s.run(addr, ops).0).at(r) == programmed(ops, r, regs.now(addr, s).at(r)) by {
            let v1 = regs.now(addr, s1).at(r);
            assert(v1 == match ops[0] {
                Op::Put { reg, val } => if reg == r { val } else { regs.now(addr, s).at(r) },
                Op::Update { reg, clear, set } => if reg == r {
                    merged(regs.now(addr, s).at(r), clear, set)
                } else {
                    regs.now(addr, s).at(r)
                },
            });
        }
    }
}

/// The reply to the `i`-th of the next requests is the data `d`.
pub open spec fn comes(s: Session, i: int, d: Seq<u8>) -> bool {
    &&& 0 <= i
    &&& s.sent.len() + i < s.replies.len()
    &&& s.replies[s.sent.len() + i] == Rep::Data(d)
}

/// A write of a register.
pub open spec fn put(addr: u8, reg: u8, val: u8) -> Req {
    Req::Write { addr, out: seq![reg, val] }
}

/// A read of registers.
pub open spec fn get(addr: u8, reg: u8, len: nat) -> Req {
    Req::WriteRead { addr, out: seq![reg], len }
}

/// `t` goes on from `s`: it has the same replies, and what `s` had sent it
/// has sent first.
pub open spec fn extends(s: Session, t: Session) -> bool {
    &&& t.replies == s.replies
    &&& s.sent.len() <= t.sent.len()
    &&& t.sent.take(s.sent.len() as int) == s.sent
}

pub proof fn extends_on(a: Session, b: Session, c: Session)
    requires
        extends(a, b),
        extends(b, c),
    ensures
        extends(a, c),
{
    assert(c.sent.take(a.sent.len() as int) =~= c.sent.take(b.sent.len() as int).take(a.sent.len() as int));
}

pub proof fn requests_extend(s: Session, q: Req)
    ensures
        extends(s, s.after(q)),
        extends(s, s),
{
    assert(s.after(q).sent.take(s.sent.len() as int) =~= s.sent);
    assert(s.sent.take(s.sent.len() as int) =~= s.sent);
}

/// No transfer fails: every reply there is has data.
pub open spec fn fault_free(s: Session) -> bool {
    forall|k: int| 0 <= k < s.replies.len() ==> (#[trigger] s.replies[k]) is Data
}

} // verus!
