//! The motion-hub driver, run again on more replies.

use vstd::prelude::*;
use crate::bus::Session;
use crate::bhi260;
use crate::rerun::{paired, rerun, rerunning};

verus! {

broadcast use rerunning;

/// [`bhi260::reading`] can be run again.
pub broadcast proof fn reading_reruns(s: Session, t: Session, addr: u8, r: u8)
    ensures
        #![trigger bhi260::reading(s, addr, r), bhi260::reading(t, addr, r)]
        rerun(s, bhi260::reading(s, addr, r), t, bhi260::reading(t, addr, r)),
{
}

/// [`bhi260::writing`] can be run again.
pub broadcast proof fn writing_reruns(s: Session, t: Session, addr: u8, r: u8, val: u8)
    ensures
        #![trigger bhi260::writing(s, addr, r, val), bhi260::writing(t, addr, r, val)]
        rerun(s, bhi260::writing(s, addr, r, val), t, bhi260::writing(t, addr, r, val)),
{
}

/// [`bhi260::burst`] can be run again.
pub broadcast proof fn burst_reruns(s: Session, t: Session, addr: u8, r: u8, data: Seq<u8>)
    ensures
        #![trigger bhi260::burst(s, addr, r, data), bhi260::burst(t, addr, r, data)]
        rerun(s, bhi260::burst(s, addr, r, data), t, bhi260::burst(t, addr, r, data)),
{
}

/// [`bhi260::commanding`] can be run again.
pub broadcast proof fn commanding_reruns(s: Session, t: Session, addr: u8, command: u16, content: Seq<u8>)
    ensures
        #![trigger bhi260::commanding(s, addr, command, content),
            bhi260::commanding(t, addr, command, content)]
        rerun(
            s,
            bhi260::commanding(s, addr, command, content),
            t,
            bhi260::commanding(t, addr, command, content),
        ),
{
    broadcast use burst_reruns;

}

/// [`bhi260::begin_upload`] can be run again.
pub broadcast proof fn begin_upload_reruns(s: Session, t: Session, addr: u8, len: int)
    ensures
        #![trigger bhi260::begin_upload(s, addr, len), bhi260::begin_upload(t, addr, len)]
        rerun(s, bhi260::begin_upload(s, addr, len), t, bhi260::begin_upload(t, addr, len)),
{
    broadcast use burst_reruns;

}

/// [`bhi260::chunk_upload`] can be run again.
pub broadcast proof fn chunk_upload_reruns(s: Session, t: Session, addr: u8, chunk: Seq<u8>)
    ensures
        #![trigger bhi260::chunk_upload(s, addr, chunk), bhi260::chunk_upload(t, addr, chunk)]
        rerun(s, bhi260::chunk_upload(s, addr, chunk), t, bhi260::chunk_upload(t, addr, chunk)),
{
    broadcast use burst_reruns;

}

/// [`bhi260::chunks_upload`] can be run again.
pub broadcast proof fn chunks_upload_reruns(s: Session, t: Session, addr: u8, image: Seq<u8>, from: int)
    ensures
        #![trigger bhi260::chunks_upload(s, addr, image, from), bhi260::chunks_upload(t, addr, image, from)]
        rerun(s, bhi260::chunks_upload(s, addr, image, from), t, bhi260::chunks_upload(t, addr, image, from)),
    decreases if from < image.len() { image.len() - from } else { 0 },
{
    broadcast use chunk_upload_reruns;

    if from < image.len() {
        let (s1, _) = bhi260::chunk_upload(s, addr, bhi260::chunk_of(image, from));
        let (t1, _) = bhi260::chunk_upload(t, addr, bhi260::chunk_of(image, from));
        chunks_upload_reruns(s1, t1, addr, image, from + bhi260::UPLOAD_CHUNK);
    }
}

/// [`bhi260::draining`] can be run again.
pub broadcast proof fn draining_reruns(s: Session, t: Session, addr: u8, channel: u8, left: nat, step: nat)
    ensures
        #![trigger bhi260::draining(s, addr, channel, left, step),
            bhi260::draining(t, addr, channel, left, step)]
        rerun(
            s,
            bhi260::draining(s, addr, channel, left, step),
            t,
            bhi260::draining(t, addr, channel, left, step),
        ),
    decreases left,
{
    if left != 0 && step != 0 {
        let n = if left < step { left } else { step };
        let s1 = s.read_regs(addr, channel, n).0;
        let t1 = t.read_regs(addr, channel, n).0;
        draining_reruns(s1, t1, addr, channel, (left - n) as nat, step);
    }
}

/// [`bhi260::status_check`] can be run again.
pub broadcast proof fn status_check_reruns(s: Session, t: Session, addr: u8, out: Seq<u8>)
    ensures
        #![trigger bhi260::status_check(s, addr, out), bhi260::status_check(t, addr, out)]
        rerun(s, paired(bhi260::status_check(s, addr, out)), t, paired(bhi260::status_check(t, addr, out))),
{
    broadcast use {reading_reruns, status_body_reruns};

}

/// [`bhi260::status_body`] can be run again.
pub broadcast proof fn status_body_reruns(s: Session, t: Session, addr: u8, out: Seq<u8>, code: u16, len: int)
    ensures
        #![trigger bhi260::status_body(s, addr, out, code, len), bhi260::status_body(t, addr, out, code, len)]
        rerun(
            s,
            paired(bhi260::status_body(s, addr, out, code, len)),
            t,
            paired(bhi260::status_body(t, addr, out, code, len)),
        ),
{
    broadcast use draining_reruns;

}

/// [`bhi260::awaiting`] can be run again.
pub broadcast proof fn awaiting_reruns(s: Session, t: Session, addr: u8, param: u16, out: Seq<u8>, spins: nat)
    ensures
        #![trigger bhi260::awaiting(s, addr, param, out, spins), bhi260::awaiting(t, addr, param, out, spins)]
        rerun(
            s,
            paired(bhi260::awaiting(s, addr, param, out, spins)),
            t,
            paired(bhi260::awaiting(t, addr, param, out, spins)),
        ),
    decreases spins,
{
    broadcast use status_check_reruns;

    if spins > 0 {
        let (s1, a, _) = bhi260::status_check(s, addr, out);
        let (t1, b, _) = bhi260::status_check(t, addr, out);
        awaiting_reruns(s1, t1, addr, param, a, (spins - 1) as nat);
        awaiting_reruns(t1, t1, addr, param, b, (spins - 1) as nat);
    }
}

/// [`bhi260::param_reading`] can be run again.
pub broadcast proof fn param_reading_reruns(s: Session, t: Session, addr: u8, param: u16, out: Seq<u8>)
    ensures
        #![trigger bhi260::param_reading(s, addr, param, out), bhi260::param_reading(t, addr, param, out)]
        rerun(
            s,
            paired(bhi260::param_reading(s, addr, param, out)),
            t,
            paired(bhi260::param_reading(t, addr, param, out)),
        ),
{
    broadcast use {awaiting_reruns, commanding_reruns};

}

/// [`bhi260::fifo_reading`] can be run again.
pub broadcast proof fn fifo_reading_reruns(s: Session, t: Session, addr: u8, channel: u8, buf: Seq<u8>)
    ensures
        #![trigger bhi260::fifo_reading(s, addr, channel, buf), bhi260::fifo_reading(t, addr, channel, buf)]
        rerun(
            s,
            paired(bhi260::fifo_reading(s, addr, channel, buf)),
            t,
            paired(bhi260::fifo_reading(t, addr, channel, buf)),
        ),
{
    broadcast use draining_reruns;

}

/// [`bhi260::ready_check`] can be run again.
pub broadcast proof fn ready_check_reruns(s: Session, t: Session, addr: u8)
    ensures
        #![trigger bhi260::ready_check(s, addr), bhi260::ready_check(t, addr)]
        rerun(s, bhi260::ready_check(s, addr), t, bhi260::ready_check(t, addr)),
{
    broadcast use reading_reruns;

}

/// [`bhi260::verify_check`] can be run again.
pub broadcast proof fn verify_check_reruns(s: Session, t: Session, addr: u8)
    ensures
        #![trigger bhi260::verify_check(s, addr), bhi260::verify_check(t, addr)]
        rerun(s, bhi260::verify_check(s, addr), t, bhi260::verify_check(t, addr)),
{
    broadcast use reading_reruns;

}

/// [`bhi260::firmware_upload`] can be run again.
pub broadcast proof fn firmware_upload_reruns(s: Session, t: Session, addr: u8, image: Seq<u8>)
    ensures
        #![trigger bhi260::firmware_upload(s, addr, image), bhi260::firmware_upload(t, addr, image)]
        rerun(s, bhi260::firmware_upload(s, addr, image), t, bhi260::firmware_upload(t, addr, image)),
{
    broadcast use {begin_upload_reruns, chunks_upload_reruns};

}

/// [`bhi260::sensor_config`] can be run again.
pub broadcast proof fn sensor_config_reruns(
    s: Session,
    t: Session,
    addr: u8,
    sensor_id: u8,
    rate_bits: u32,
    latency_ms: u32,
)
    ensures
        #![trigger bhi260::sensor_config(s, addr, sensor_id, rate_bits, latency_ms),
            bhi260::sensor_config(t, addr, sensor_id, rate_bits, latency_ms)]
        rerun(
            s,
            bhi260::sensor_config(s, addr, sensor_id, rate_bits, latency_ms),
            t,
            bhi260::sensor_config(t, addr, sensor_id, rate_bits, latency_ms),
        ),
{
    broadcast use commanding_reruns;

}

/// [`bhi260::flushing`] can be run again.
pub broadcast proof fn flushing_reruns(s: Session, t: Session, addr: u8, which: u8)
    ensures
        #![trigger bhi260::flushing(s, addr, which), bhi260::flushing(t, addr, which)]
        rerun(s, bhi260::flushing(s, addr, which), t, bhi260::flushing(t, addr, which)),
{
    broadcast use commanding_reruns;

}

/// [`bhi260::suspending`] can be run again.
pub broadcast proof fn suspending_reruns(s: Session, t: Session, addr: u8, suspended: bool)
    ensures
        #![trigger bhi260::suspending(s, addr, suspended), bhi260::suspending(t, addr, suspended)]
        rerun(s, bhi260::suspending(s, addr, suspended), t, bhi260::suspending(t, addr, suspended)),
{
    broadcast use {reading_reruns, writing_reruns};

}

/// [`bhi260::param_writing`] can be run again.
pub broadcast proof fn param_writing_reruns(s: Session, t: Session, addr: u8, param: u16, data: Seq<u8>)
    ensures
        #![trigger bhi260::param_writing(s, addr, param, data), bhi260::param_writing(t, addr, param, data)]
        rerun(s, bhi260::param_writing(s, addr, param, data), t, bhi260::param_writing(t, addr, param, data)),
{
    broadcast use commanding_reruns;

}

/// [`bhi260::matrix_writing`] can be run again.
pub broadcast proof fn matrix_writing_reruns(
    s: Session,
    t: Session,
    addr: u8,
    phys_sensor_id: u8,
    matrix: Seq<u8>,
)
    ensures
        #![trigger bhi260::matrix_writing(s, addr, phys_sensor_id, matrix),
            bhi260::matrix_writing(t, addr, phys_sensor_id, matrix)]
        rerun(
            s,
            bhi260::matrix_writing(s, addr, phys_sensor_id, matrix),
            t,
            bhi260::matrix_writing(t, addr, phys_sensor_id, matrix),
        ),
{
    broadcast use param_writing_reruns;

}

} // verus!
