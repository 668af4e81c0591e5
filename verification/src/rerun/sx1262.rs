//! The radio driver, run again on more replies.

use vstd::prelude::*;
use crate::bus::Session;
use crate::sx1262;
use crate::rerun::{rerun, rerunning};

verus! {

broadcast use rerunning;

/// [`sx1262::busy_waiting`] can be run again.
pub broadcast proof fn busy_waiting_reruns(s: Session, t: Session)
    ensures
        #![trigger sx1262::busy_waiting(s), sx1262::busy_waiting(t)]
        rerun(s, sx1262::busy_waiting(s), t, sx1262::busy_waiting(t)),
{
}

/// [`sx1262::commanding`] can be run again.
pub broadcast proof fn commanding_reruns(s: Session, t: Session, bytes: Seq<u8>)
    ensures
        #![trigger sx1262::commanding(s, bytes), sx1262::commanding(t, bytes)]
        rerun(s, sx1262::commanding(s, bytes), t, sx1262::commanding(t, bytes)),
{
    broadcast use busy_waiting_reruns;

}

/// [`sx1262::answering`] can be run again.
pub broadcast proof fn answering_reruns<T>(
    s: Session,
    t: Session,
    op: u8,
    n: nat,
    meaning: spec_fn(Seq<u8>) -> T,
)
    ensures
        #![trigger sx1262::answering(s, op, n, meaning), sx1262::answering(t, op, n, meaning)]
        rerun(s, sx1262::answering(s, op, n, meaning), t, sx1262::answering(t, op, n, meaning)),
{
    broadcast use busy_waiting_reruns;

}

/// [`sx1262::reading_after`] can be run again.
pub broadcast proof fn reading_after_reruns(s: Session, t: Session, head: Seq<u8>, n: nat)
    ensures
        #![trigger sx1262::reading_after(s, head, n), sx1262::reading_after(t, head, n)]
        rerun(s, sx1262::reading_after(s, head, n), t, sx1262::reading_after(t, head, n)),
{
    broadcast use busy_waiting_reruns;

}

/// [`sx1262::register_write`] can be run again.
pub broadcast proof fn register_write_reruns(s: Session, t: Session, addr: u16, data: Seq<u8>)
    ensures
        #![trigger sx1262::register_write(s, addr, data), sx1262::register_write(t, addr, data)]
        rerun(s, sx1262::register_write(s, addr, data), t, sx1262::register_write(t, addr, data)),
{
    broadcast use commanding_reruns;

}

/// [`sx1262::register_read`] can be run again.
pub broadcast proof fn register_read_reruns(s: Session, t: Session, addr: u16, n: nat)
    ensures
        #![trigger sx1262::register_read(s, addr, n), sx1262::register_read(t, addr, n)]
        rerun(s, sx1262::register_read(s, addr, n), t, sx1262::register_read(t, addr, n)),
{
    broadcast use reading_after_reruns;

}

/// [`sx1262::register_update`] can be run again.
pub broadcast proof fn register_update_reruns(s: Session, t: Session, addr: u16, clear: u8, set: u8)
    ensures
        #![trigger sx1262::register_update(s, addr, clear, set), sx1262::register_update(t, addr, clear, set)]
        rerun(
            s,
            sx1262::register_update(s, addr, clear, set),
            t,
            sx1262::register_update(t, addr, clear, set),
        ),
{
    broadcast use {register_read_reruns, register_write_reruns};

}

/// [`sx1262::modulation_quality`] can be run again.
pub broadcast proof fn modulation_quality_reruns(s: Session, t: Session, wide: bool)
    ensures
        #![trigger sx1262::modulation_quality(s, wide), sx1262::modulation_quality(t, wide)]
        rerun(s, sx1262::modulation_quality(s, wide), t, sx1262::modulation_quality(t, wide)),
{
    broadcast use register_update_reruns;

}

/// [`sx1262::iq_polarity`] can be run again.
pub broadcast proof fn iq_polarity_reruns(s: Session, t: Session, inverted: bool)
    ensures
        #![trigger sx1262::iq_polarity(s, inverted), sx1262::iq_polarity(t, inverted)]
        rerun(s, sx1262::iq_polarity(s, inverted), t, sx1262::iq_polarity(t, inverted)),
{
    broadcast use register_update_reruns;

}

/// [`sx1262::gain_setting`] can be run again.
pub broadcast proof fn gain_setting_reruns(s: Session, t: Session, boosted: bool)
    ensures
        #![trigger sx1262::gain_setting(s, boosted), sx1262::gain_setting(t, boosted)]
        rerun(s, sx1262::gain_setting(s, boosted), t, sx1262::gain_setting(t, boosted)),
{
    broadcast use register_write_reruns;

}

} // verus!
