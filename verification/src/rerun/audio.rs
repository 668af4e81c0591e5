//! The codec bring-up, run again on more replies.

use vstd::prelude::*;
use crate::bus::Session;
use crate::firmware::audio;
use crate::firmware::audio::CodecStep;
use crate::rerun::{rerun, rerunning};

verus! {

broadcast use rerunning;

/// [`audio::codec_traffic`] can be run again.
pub broadcast proof fn codec_traffic_reruns(s: Session, t: Session, step: CodecStep)
    ensures
        #![trigger audio::codec_traffic(s, step), audio::codec_traffic(t, step)]
        rerun(s, audio::codec_traffic(s, step), t, audio::codec_traffic(t, step)),
{
    broadcast use crate::rerun::tables_rerun;

}

} // verus!
