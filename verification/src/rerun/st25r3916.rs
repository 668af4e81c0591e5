//! The NFC driver, run again on more replies.

use vstd::prelude::*;
use crate::bus::Session;
use crate::st25r3916;
use crate::rerun::{rerun, rerunning};

verus! {

broadcast use rerunning;

/// [`st25r3916::commanding`] can be run again.
pub broadcast proof fn commanding_reruns(s: Session, t: Session, code: u8)
    ensures
        #![trigger st25r3916::commanding(s, code), st25r3916::commanding(t, code)]
        rerun(s, st25r3916::commanding(s, code), t, st25r3916::commanding(t, code)),
{
}

/// [`st25r3916::writing`] can be run again.
pub broadcast proof fn writing_reruns(s: Session, t: Session, addr: u8, data: Seq<u8>)
    ensures
        #![trigger st25r3916::writing(s, addr, data), st25r3916::writing(t, addr, data)]
        rerun(s, st25r3916::writing(s, addr, data), t, st25r3916::writing(t, addr, data)),
{
}

/// [`st25r3916::reading`] can be run again.
pub broadcast proof fn reading_reruns(s: Session, t: Session, addr: u8, n: nat)
    ensures
        #![trigger st25r3916::reading(s, addr, n), st25r3916::reading(t, addr, n)]
        rerun(s, st25r3916::reading(s, addr, n), t, st25r3916::reading(t, addr, n)),
{
}

/// [`st25r3916::updating`] can be run again.
pub broadcast proof fn updating_reruns(s: Session, t: Session, addr: u8, clear: u8, set: u8)
    ensures
        #![trigger st25r3916::updating(s, addr, clear, set), st25r3916::updating(t, addr, clear, set)]
        rerun(s, st25r3916::updating(s, addr, clear, set), t, st25r3916::updating(t, addr, clear, set)),
{
    broadcast use {reading_reruns, writing_reruns};

}

/// [`st25r3916::decoding`] can be run again.
pub broadcast proof fn decoding_reruns<T>(
    s: Session,
    t: Session,
    addr: u8,
    n: nat,
    meaning: spec_fn(Seq<u8>) -> T,
)
    ensures
        #![trigger st25r3916::decoding(s, addr, n, meaning), st25r3916::decoding(t, addr, n, meaning)]
        rerun(s, st25r3916::decoding(s, addr, n, meaning), t, st25r3916::decoding(t, addr, n, meaning)),
{
    broadcast use reading_reruns;

}

} // verus!
