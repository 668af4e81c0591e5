//! Running a driver method again on more replies.
//!
//! A method that stalled is run again, from the start, once the reply it
//! waits for is there. The laws here are what makes that sound: the run
//! on more replies repeats the requests that were performed, so that each
//! is performed once, and the run that does not stall is final. One holds
//! for each exchange that the drivers' contracts name, up to the whole
//! bring-up of a board; [`chains_are_steady`] gives it for a contract that
//! chains such exchanges in place.

use vstd::prelude::*;
use crate::bus::{chain, Op, Rep, Req, Session};

pub mod audio;
pub mod bhi260;
pub mod es8311;
pub mod hub;
pub mod imu;
pub mod pmu;
pub mod power;
pub mod qmi8658;
pub mod qmi_imu;
pub mod rtc;
pub mod st25r3916;
pub mod sx1262;

verus! {

/// The requests `q` begin with the requests `p`.
#[verifier::opaque]
pub open spec fn continues(p: Seq<Req>, q: Seq<Req>) -> bool {
    p.is_prefix_of(q)
}

/// The replies `q` begin with the replies `p`.
#[verifier::opaque]
pub open spec fn supplies(p: Seq<Rep>, q: Seq<Rep>) -> bool {
    p.is_prefix_of(q)
}

/// What an exchange makes of a session: it adds requests and leaves the
/// replies alone, and on a stalled session it does nothing.
pub open spec fn grows(s: Session, t: Session) -> bool {
    &&& t.replies == s.replies
    &&& continues(s.sent, t.sent)
    &&& s.stalled() ==> t == s
}

/// `t` is `s`, which is not stalled, with more replies.
pub open spec fn extends(s: Session, t: Session) -> bool {
    &&& t.sent == s.sent
    &&& supplies(s.replies, t.replies)
    &&& !s.stalled()
}

/// The outcomes `a` on `s` and `b` on `t` are of an exchange that can be
/// run again: where `t` is `s` with more replies, it repeats on `t` the
/// requests made on `s`, and if it did not stall on `s`, it makes no
/// others and gives the same result.
pub open spec fn rerun<R>(s: Session, a: (Session, R), t: Session, b: (Session, R)) -> bool {
    &&& grows(s, a.0)
    &&& grows(t, b.0)
    &&& extends(s, t) ==> {
        &&& continues(a.0.sent, b.0.sent)
        &&& !a.0.stalled() ==> extends(a.0, b.0) && b.1 == a.1
    }
}

/// An outcome in three parts, with the driver and the result as one.
pub open spec fn paired<A, B>(r: (Session, A, B)) -> (Session, (A, B)) {
    (r.0, (r.1, r.2))
}

/// The exchange `f` can be run again, whatever the session.
pub open spec fn steady<R>(f: spec_fn(Session) -> (Session, R)) -> bool {
    forall|s: Session, t: Session| #![trigger f(s), f(t)] rerun(s, f(s), t, f(t))
}

// ---- Requests ---------------------------------------------------------------

pub broadcast proof fn same_requests(p: Seq<Req>, q: Seq<Req>)
    requires
        p == q,
    ensures
        #[trigger] continues(p, q),
{
    reveal(continues);
    assert(p =~= q.subrange(0, p.len() as int));
}

pub broadcast proof fn further_requests(p: Seq<Req>, q: Seq<Req>, r: Seq<Req>)
    requires
        #[trigger] continues(p, q),
        #[trigger] continues(q, r),
    ensures
        continues(p, r),
{
    reveal(continues);
}

/// Sending a request grows the session.
pub broadcast proof fn sending_grows(s: Session, q: Req)
    ensures
        grows(s, #[trigger] s.after(q)),
{
    reveal(continues);
}

/// A request can be sent again, and a reply that was there is the same.
pub broadcast proof fn request_reruns(s: Session, t: Session, q: Req)
    requires
        extends(s, t),
    ensures
        #![trigger s.after(q), t.after(q)]
        continues(s.after(q).sent, t.after(q).sent),
        !s.after(q).stalled() ==> extends(s.after(q), t.after(q)) && s.sent.len() < t.replies.len()
            && s.replies[s.sent.len() as int] == t.replies[s.sent.len() as int],
{
    reveal(continues);
    reveal(supplies);
}

pub broadcast group rerunning {
    same_requests,
    further_requests,
    sending_grows,
    request_reruns,
}

// ---- Transfers --------------------------------------------------------------

/// Every transfer of a session can be run again.
pub proof fn transfers_rerun(s: Session, t: Session, addr: u8, reg: u8, val: u8, out: Seq<u8>, len: nat)
    ensures
        rerun(s, s.write(addr, out), t, t.write(addr, out)),
        rerun(s, s.write_reg(addr, reg, val), t, t.write_reg(addr, reg, val)),
        rerun(s, s.read_regs(addr, reg, len), t, t.read_regs(addr, reg, len)),
        rerun(s, s.read_reg(addr, reg), t, t.read_reg(addr, reg)),
        rerun(s, s.frame(out, len), t, t.frame(out, len)),
        rerun(s, s.frame_out(out), t, t.frame_out(out)),
{
    broadcast use rerunning;

}

/// A read-modify-write of a register can be run again.
pub proof fn updates_rerun(s: Session, t: Session, addr: u8, reg: u8, clear: u8, set: u8)
    ensures
        rerun(s, s.update_reg(addr, reg, clear, set), t, t.update_reg(addr, reg, clear, set)),
{
    broadcast use rerunning;

}

/// A register program can be run again.
pub broadcast proof fn programs_rerun(s: Session, t: Session, addr: u8, ops: Seq<Op>)
    ensures
        #![trigger s.run(addr, ops), t.run(addr, ops)]
        rerun(s, s.run(addr, ops), t, t.run(addr, ops)),
    decreases ops.len(),
{
    broadcast use rerunning;

    if ops.len() > 0 {
        programs_rerun(s.step(addr, ops[0]).0, t.step(addr, ops[0]).0, addr, ops.skip(1));
    }
}

/// A table of register writes can be run again.
pub broadcast proof fn tables_rerun(s: Session, t: Session, addr: u8, table: Seq<(u8, u8)>)
    ensures
        #![trigger s.write_regs(addr, table), t.write_regs(addr, table)]
        rerun(s, s.write_regs(addr, table), t, t.write_regs(addr, table)),
    decreases table.len(),
{
    broadcast use rerunning;

    if table.len() > 0 {
        let (reg, val) = table[0];
        tables_rerun(s.write_reg(addr, reg, val).0, t.write_reg(addr, reg, val).0, addr, table.skip(1));
    }
}

// ---- Chains -----------------------------------------------------------------

/// What follows an exchange, on what the exchange gave.
pub open spec fn given<T, U, E>(next: spec_fn(Session, T) -> (Session, Result<U, E>), v: T) -> spec_fn(Session) -> (
    Session,
    Result<U, E>,
) {
    |s: Session| next(s, v)
}

/// One steady exchange after another, the second only if the first
/// succeeded and steady on whatever it gave, can be run again.
pub proof fn chains_are_steady<T, U, E>(
    first: spec_fn(Session) -> (Session, Result<T, E>),
    second: spec_fn(Session, T) -> (Session, Result<U, E>),
)
    requires
        steady(first),
        forall|v: T| steady(#[trigger] given(second, v)),
    ensures
        steady(|s: Session| chain(first(s), second)),
{
    broadcast use rerunning;

    let whole = |s: Session| chain(first(s), second);
    assert forall|s: Session, t: Session| #![trigger whole(s), whole(t)] rerun(s, whole(s), t, whole(t)) by {
        let (s1, a) = first(s);
        let (t1, b) = first(t);
        assert(rerun(s, first(s), t, first(t)));
        if let Ok(v) = a {
            let g = given(second, v);
            assert(steady(g));
            assert(g(s1) == second(s1, v));
            assert(g(t1) == second(t1, v));
        }
        if let Ok(v) = b {
            let g = given(second, v);
            assert(steady(g));
            assert(g(t1) == second(t1, v));
        }
    }
}

} // verus!
