//! The speaker codec driver, run again on more replies.

use vstd::prelude::*;
use crate::bus::Session;
use crate::es8311;
use crate::rerun::{rerun, rerunning};

verus! {

broadcast use rerunning;

/// [`es8311::ids_reading`] can be run again.
pub broadcast proof fn ids_reading_reruns(s: Session, t: Session)
    ensures
        #![trigger es8311::ids_reading(s), es8311::ids_reading(t)]
        rerun(s, es8311::ids_reading(s), t, es8311::ids_reading(t)),
{
}

/// [`es8311::dumping`] can be run again.
pub broadcast proof fn dumping_reruns(s: Session, t: Session, regs: Seq<u8>, i: int, seen: Seq<(u8, u8)>)
    ensures
        #![trigger es8311::dumping(s, regs, i, seen), es8311::dumping(t, regs, i, seen)]
        rerun(s, es8311::dumping(s, regs, i, seen), t, es8311::dumping(t, regs, i, seen)),
    decreases regs.len() - i,
{
    if i < regs.len() {
        let (s1, a) = s.read_reg(es8311::ADDR, regs[i]);
        let (t1, b) = t.read_reg(es8311::ADDR, regs[i]);
        if a is Ok {
            dumping_reruns(s1, t1, regs, i + 1, seen.push((regs[i], a->Ok_0)));
        }
        if b is Ok {
            dumping_reruns(t1, t1, regs, i + 1, seen.push((regs[i], b->Ok_0)));
        }
    }
}

} // verus!
