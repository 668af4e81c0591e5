//! The motion hub behind the common interface, run again on more replies.

use vstd::prelude::*;
use crate::bus::Session;
use crate::imu::bhi260_imu;
use crate::imu::Hub;
use crate::imu::SelfTestKind;
use crate::rerun::{paired, rerun, rerunning};

verus! {

broadcast use rerunning;

/// [`bhi260_imu::clearing`] can be run again.
pub broadcast proof fn clearing_reruns(s: Session, t: Session, addr: u8)
    ensures
        #![trigger bhi260_imu::clearing(s, addr), bhi260_imu::clearing(t, addr)]
        rerun(s, (bhi260_imu::clearing(s, addr), ()), t, (bhi260_imu::clearing(t, addr), ())),
{
    broadcast use crate::rerun::bhi260::writing_reruns;

}

/// [`bhi260_imu::acknowledging`] can be run again.
pub broadcast proof fn acknowledging_reruns(s: Session, t: Session, addr: u8)
    ensures
        #![trigger bhi260_imu::acknowledging(s, addr), bhi260_imu::acknowledging(t, addr)]
        rerun(s, (bhi260_imu::acknowledging(s, addr), ()), t, (bhi260_imu::acknowledging(t, addr), ())),
{
    broadcast use {clearing_reruns, crate::rerun::bhi260::reading_reruns};

}

/// [`bhi260_imu::streaming`] can be run again.
pub broadcast proof fn streaming_reruns(s: Session, t: Session, addr: u8, rate: u32)
    ensures
        #![trigger bhi260_imu::streaming(s, addr, rate), bhi260_imu::streaming(t, addr, rate)]
        rerun(s, bhi260_imu::streaming(s, addr, rate), t, bhi260_imu::streaming(t, addr, rate)),
{
    broadcast use crate::rerun::bhi260::sensor_config_reruns;

}

/// [`bhi260_imu::configuring`] can be run again.
pub broadcast proof fn configuring_reruns(s: Session, t: Session, addr: u8, ids: Seq<u8>, i: int, rate: u32)
    ensures
        #![trigger bhi260_imu::configuring(s, addr, ids, i, rate),
            bhi260_imu::configuring(t, addr, ids, i, rate)]
        rerun(
            s,
            bhi260_imu::configuring(s, addr, ids, i, rate),
            t,
            bhi260_imu::configuring(t, addr, ids, i, rate),
        ),
    decreases ids.len() - i,
{
    broadcast use crate::rerun::bhi260::sensor_config_reruns;

    if i < ids.len() {
        let s1 = crate::bhi260::sensor_config(s, addr, ids[i], rate, 0).0;
        let t1 = crate::bhi260::sensor_config(t, addr, ids[i], rate, 0).0;
        configuring_reruns(s1, t1, addr, ids, i + 1, rate);
    }
}

/// [`bhi260_imu::configuring_each`] can be run again.
pub broadcast proof fn configuring_each_reruns(
    s: Session,
    t: Session,
    addr: u8,
    ids: Seq<u8>,
    i: int,
    rate: u32,
)
    ensures
        #![trigger bhi260_imu::configuring_each(s, addr, ids, i, rate),
            bhi260_imu::configuring_each(t, addr, ids, i, rate)]
        rerun(
            s,
            (bhi260_imu::configuring_each(s, addr, ids, i, rate), ()),
            t,
            (bhi260_imu::configuring_each(t, addr, ids, i, rate), ()),
        ),
    decreases ids.len() - i,
{
    broadcast use crate::rerun::bhi260::sensor_config_reruns;

    if i < ids.len() {
        let s1 = crate::bhi260::sensor_config(s, addr, ids[i], rate, 0).0;
        let t1 = crate::bhi260::sensor_config(t, addr, ids[i], rate, 0).0;
        configuring_each_reruns(s1, t1, addr, ids, i + 1, rate);
    }
}

/// [`bhi260_imu::stepping`] can be run again.
pub broadcast proof fn stepping_reruns(s: Session, t: Session, addr: u8, step: Option<u8>, rate: u32)
    ensures
        #![trigger bhi260_imu::stepping(s, addr, step, rate), bhi260_imu::stepping(t, addr, step, rate)]
        rerun(s, bhi260_imu::stepping(s, addr, step, rate), t, bhi260_imu::stepping(t, addr, step, rate)),
{
    broadcast use crate::rerun::bhi260::sensor_config_reruns;

}

/// [`bhi260_imu::restoring`] can be run again.
pub broadcast proof fn restoring_reruns(s: Session, t: Session, h: Hub)
    ensures
        #![trigger bhi260_imu::restoring(s, h), bhi260_imu::restoring(t, h)]
        rerun(s, (bhi260_imu::restoring(s, h), ()), t, (bhi260_imu::restoring(t, h), ())),
{
    broadcast use {acknowledging_reruns, configuring_reruns, stepping_reruns, streaming_reruns};

}

/// [`bhi260_imu::quieting`] can be run again.
pub broadcast proof fn quieting_reruns(s: Session, t: Session, h: Hub)
    ensures
        #![trigger bhi260_imu::quieting(s, h), bhi260_imu::quieting(t, h)]
        rerun(s, bhi260_imu::quieting(s, h), t, bhi260_imu::quieting(t, h)),
{
    broadcast use {configuring_reruns, stepping_reruns, streaming_reruns};

}

/// [`bhi260_imu::rearming`] can be run again.
pub broadcast proof fn rearming_reruns(
    s: Session,
    t: Session,
    addr: u8,
    events: Seq<(u8, Seq<u8>)>,
    hit: Option<u8>,
)
    ensures
        #![trigger bhi260_imu::rearming(s, addr, events, hit), bhi260_imu::rearming(t, addr, events, hit)]
        rerun(s, bhi260_imu::rearming(s, addr, events, hit), t, bhi260_imu::rearming(t, addr, events, hit)),
    decreases events.len(),
{
    broadcast use crate::rerun::bhi260::sensor_config_reruns;

    if events.len() > 0 {
        let id = events[0].0;
        let s1 = crate::bhi260::sensor_config(s, addr, id, bhi260_imu::WOM_RATE_HZ, 0).0;
        let t1 = crate::bhi260::sensor_config(t, addr, id, bhi260_imu::WOM_RATE_HZ, 0).0;
        rearming_reruns(s, t, addr, events.skip(1), hit);
        rearming_reruns(s, t, addr, events.skip(1), Some(id));
        rearming_reruns(s1, t1, addr, events.skip(1), Some(id));
    }
}

/// [`bhi260_imu::draining`] can be run again.
pub broadcast proof fn draining_reruns(s: Session, t: Session, addr: u8)
    ensures
        #![trigger bhi260_imu::draining(s, addr), bhi260_imu::draining(t, addr)]
        rerun(s, bhi260_imu::draining(s, addr), t, bhi260_imu::draining(t, addr)),
{
    broadcast use {
        crate::rerun::bhi260::fifo_reading_reruns,
        crate::rerun::bhi260::reading_reruns,
        rearming_reruns,
    };

}

/// [`bhi260_imu::wom_checking`] can be run again.
pub broadcast proof fn wom_checking_reruns(s: Session, t: Session, h: Hub)
    ensures
        #![trigger bhi260_imu::wom_checking(s, h), bhi260_imu::wom_checking(t, h)]
        rerun(s, paired(bhi260_imu::wom_checking(s, h)), t, paired(bhi260_imu::wom_checking(t, h))),
{
    broadcast use {crate::rerun::bhi260::fifo_reading_reruns, crate::rerun::bhi260::reading_reruns};

}

/// [`bhi260_imu::arming`] can be run again.
pub broadcast proof fn arming_reruns(s: Session, t: Session, addr: u8, ids: Seq<u8>, i: int)
    ensures
        #![trigger bhi260_imu::arming(s, addr, ids, i), bhi260_imu::arming(t, addr, ids, i)]
        rerun(s, bhi260_imu::arming(s, addr, ids, i), t, bhi260_imu::arming(t, addr, ids, i)),
    decreases ids.len() - i,
{
    broadcast use {acknowledging_reruns, crate::rerun::bhi260::sensor_config_reruns};

    if i < ids.len() {
        let s1 = crate::bhi260::sensor_config(s, addr, ids[i], bhi260_imu::WOM_RATE_HZ, 0).0;
        let t1 = crate::bhi260::sensor_config(t, addr, ids[i], bhi260_imu::WOM_RATE_HZ, 0).0;
        arming_reruns(bhi260_imu::acknowledging(s1, addr), bhi260_imu::acknowledging(t1, addr), addr, ids, i + 1);
    }
}

/// [`bhi260_imu::silencing`] can be run again.
pub broadcast proof fn silencing_reruns(s: Session, t: Session, addr: u8)
    ensures
        #![trigger bhi260_imu::silencing(s, addr), bhi260_imu::silencing(t, addr)]
        rerun(s, bhi260_imu::silencing(s, addr), t, bhi260_imu::silencing(t, addr)),
{
    broadcast use {crate::rerun::bhi260::flushing_reruns, streaming_reruns};

}

/// [`bhi260_imu::entering`] can be run again.
pub broadcast proof fn entering_reruns(s: Session, t: Session, h: Hub)
    ensures
        #![trigger bhi260_imu::entering(s, h), bhi260_imu::entering(t, h)]
        rerun(s, bhi260_imu::entering(s, h), t, bhi260_imu::entering(t, h)),
{
    broadcast use {
        arming_reruns,
        crate::rerun::bhi260::suspending_reruns,
        draining_reruns,
        silencing_reruns,
    };

}

/// [`bhi260_imu::exiting`] can be run again.
pub broadcast proof fn exiting_reruns(s: Session, t: Session, h: Hub)
    ensures
        #![trigger bhi260_imu::exiting(s, h), bhi260_imu::exiting(t, h)]
        rerun(s, bhi260_imu::exiting(s, h), t, bhi260_imu::exiting(t, h)),
{
    broadcast use {
        configuring_each_reruns,
        crate::rerun::bhi260::suspending_reruns,
        draining_reruns,
        streaming_reruns,
    };

}

/// [`bhi260_imu::watching`] can be run again.
pub broadcast proof fn watching_reruns(s: Session, t: Session, h: Hub, n: int)
    ensures
        #![trigger bhi260_imu::watching(s, h, n), bhi260_imu::watching(t, h, n)]
        rerun(s, bhi260_imu::watching(s, h, n), t, bhi260_imu::watching(t, h, n)),
{
    broadcast use {crate::rerun::bhi260::reading_reruns, restoring_reruns};

}

/// [`bhi260_imu::resyncing`] can be run again.
pub broadcast proof fn resyncing_reruns(s: Session, t: Session, addr: u8, lost: Option<u8>)
    ensures
        #![trigger bhi260_imu::resyncing(s, addr, lost), bhi260_imu::resyncing(t, addr, lost)]
        rerun(s, (bhi260_imu::resyncing(s, addr, lost), ()), t, (bhi260_imu::resyncing(t, addr, lost), ())),
{
    broadcast use crate::rerun::bhi260::writing_reruns;

}

/// [`bhi260_imu::sampling`] can be run again.
pub broadcast proof fn sampling_reruns(s: Session, t: Session, h: Hub)
    ensures
        #![trigger bhi260_imu::sampling(s, h), bhi260_imu::sampling(t, h)]
        rerun(s, paired(bhi260_imu::sampling(s, h)), t, paired(bhi260_imu::sampling(t, h))),
{
    broadcast use {
        crate::rerun::bhi260::fifo_reading_reruns,
        draining_reruns,
        resyncing_reruns,
        watching_reruns,
    };

}

/// [`bhi260_imu::test_starting`] can be run again.
pub broadcast proof fn test_starting_reruns(s: Session, t: Session, h: Hub, kind: SelfTestKind)
    ensures
        #![trigger bhi260_imu::test_starting(s, h, kind), bhi260_imu::test_starting(t, h, kind)]
        rerun(
            s,
            paired(bhi260_imu::test_starting(s, h, kind)),
            t,
            paired(bhi260_imu::test_starting(t, h, kind)),
        ),
{
    broadcast use {quieting_reruns, restoring_reruns};

}

/// [`bhi260_imu::concluding`] can be run again.
pub broadcast proof fn concluding_reruns(s: Session, t: Session, h: Hub)
    ensures
        #![trigger bhi260_imu::concluding(s, h), bhi260_imu::concluding(t, h)]
        rerun(s, paired(bhi260_imu::concluding(s, h)), t, paired(bhi260_imu::concluding(t, h))),
{
    broadcast use restoring_reruns;

}

/// [`bhi260_imu::quiescing`] can be run again.
pub broadcast proof fn quiescing_reruns(s: Session, t: Session, h: Hub, kind: SelfTestKind, polls: u8)
    ensures
        #![trigger bhi260_imu::quiescing(s, h, kind, polls), bhi260_imu::quiescing(t, h, kind, polls)]
        rerun(
            s,
            paired(bhi260_imu::quiescing(s, h, kind, polls)),
            t,
            paired(bhi260_imu::quiescing(t, h, kind, polls)),
        ),
{
    broadcast use {
        clearing_reruns,
        concluding_reruns,
        crate::rerun::bhi260::commanding_reruns,
        crate::rerun::bhi260::param_reading_reruns,
    };

}

/// [`bhi260_imu::awaiting`] can be run again.
pub broadcast proof fn awaiting_reruns(s: Session, t: Session, h: Hub, phys: u8)
    ensures
        #![trigger bhi260_imu::awaiting(s, h, phys), bhi260_imu::awaiting(t, h, phys)]
        rerun(s, paired(bhi260_imu::awaiting(s, h, phys)), t, paired(bhi260_imu::awaiting(t, h, phys))),
{
    broadcast use {
        clearing_reruns,
        concluding_reruns,
        crate::rerun::bhi260::reading_reruns,
        crate::rerun::bhi260::status_check_reruns,
        restoring_reruns,
    };

}

/// [`bhi260_imu::polling`] can be run again.
pub broadcast proof fn polling_reruns(s: Session, t: Session, h: Hub)
    ensures
        #![trigger bhi260_imu::polling(s, h), bhi260_imu::polling(t, h)]
        rerun(s, paired(bhi260_imu::polling(s, h)), t, paired(bhi260_imu::polling(t, h))),
{
    broadcast use {awaiting_reruns, quiescing_reruns};

}

/// [`bhi260_imu::aborting`] can be run again.
pub broadcast proof fn aborting_reruns(s: Session, t: Session, h: Hub)
    ensures
        #![trigger bhi260_imu::aborting(s, h), bhi260_imu::aborting(t, h)]
        rerun(s, bhi260_imu::aborting(s, h), t, bhi260_imu::aborting(t, h)),
{
    broadcast use restoring_reruns;

}

/// [`bhi260_imu::upload_starting`] can be run again.
pub broadcast proof fn upload_starting_reruns(s: Session, t: Session, h: Hub, firmware: Seq<u8>)
    ensures
        #![trigger bhi260_imu::upload_starting(s, h, firmware), bhi260_imu::upload_starting(t, h, firmware)]
        rerun(
            s,
            paired(bhi260_imu::upload_starting(s, h, firmware)),
            t,
            paired(bhi260_imu::upload_starting(t, h, firmware)),
        ),
{
    broadcast use {crate::rerun::bhi260::begin_upload_reruns, crate::rerun::bhi260::writing_reruns};

}

/// [`bhi260_imu::uploading`] can be run again.
pub broadcast proof fn uploading_reruns(s: Session, t: Session, h: Hub, firmware: Seq<u8>, offset: int)
    ensures
        #![trigger bhi260_imu::uploading(s, h, firmware, offset),
            bhi260_imu::uploading(t, h, firmware, offset)]
        rerun(
            s,
            paired(bhi260_imu::uploading(s, h, firmware, offset)),
            t,
            paired(bhi260_imu::uploading(t, h, firmware, offset)),
        ),
{
    broadcast use crate::rerun::bhi260::chunk_upload_reruns;

}

/// [`bhi260_imu::init_draining`] can be run again.
pub broadcast proof fn init_draining_reruns(s: Session, t: Session, h: Hub)
    ensures
        #![trigger bhi260_imu::init_draining(s, h), bhi260_imu::init_draining(t, h)]
        rerun(s, paired(bhi260_imu::init_draining(s, h)), t, paired(bhi260_imu::init_draining(t, h))),
{
    broadcast use {
        clearing_reruns,
        crate::rerun::bhi260::fifo_reading_reruns,
        crate::rerun::bhi260::reading_reruns,
    };

}

/// [`bhi260_imu::diagnosing`] can be run again.
pub broadcast proof fn diagnosing_reruns(s: Session, t: Session, addr: u8)
    ensures
        #![trigger bhi260_imu::diagnosing(s, addr), bhi260_imu::diagnosing(t, addr)]
        rerun(s, (bhi260_imu::diagnosing(s, addr), ()), t, (bhi260_imu::diagnosing(t, addr), ())),
{
    broadcast use crate::rerun::bhi260::reading_reruns;

}

/// [`bhi260_imu::discovering`] can be run again.
pub broadcast proof fn discovering_reruns(s: Session, t: Session, h: Hub, tries: u8)
    ensures
        #![trigger bhi260_imu::discovering(s, h, tries), bhi260_imu::discovering(t, h, tries)]
        rerun(
            s,
            paired(bhi260_imu::discovering(s, h, tries)),
            t,
            paired(bhi260_imu::discovering(t, h, tries)),
        ),
{
    broadcast use {crate::rerun::bhi260::param_reading_reruns, diagnosing_reruns};

}

/// [`bhi260_imu::orienting`] can be run again.
pub broadcast proof fn orienting_reruns(s: Session, t: Session, h: Hub)
    ensures
        #![trigger bhi260_imu::orienting(s, h), bhi260_imu::orienting(t, h)]
        rerun(s, bhi260_imu::orienting(s, h), t, bhi260_imu::orienting(t, h)),
{
    broadcast use crate::rerun::bhi260::matrix_writing_reruns;

}

/// [`bhi260_imu::range_request`] can be run again.
pub broadcast proof fn range_request_reruns(s: Session, t: Session, addr: u8, id: u8, range: u16)
    ensures
        #![trigger bhi260_imu::range_request(s, addr, id, range),
            bhi260_imu::range_request(t, addr, id, range)]
        rerun(
            s,
            bhi260_imu::range_request(s, addr, id, range),
            t,
            bhi260_imu::range_request(t, addr, id, range),
        ),
{
    broadcast use crate::rerun::bhi260::commanding_reruns;

}

/// [`bhi260_imu::stream_setup`] can be run again.
pub broadcast proof fn stream_setup_reruns(s: Session, t: Session, h: Hub)
    ensures
        #![trigger bhi260_imu::stream_setup(s, h), bhi260_imu::stream_setup(t, h)]
        rerun(s, bhi260_imu::stream_setup(s, h), t, bhi260_imu::stream_setup(t, h)),
{
    broadcast use {
        crate::rerun::bhi260::param_writing_reruns,
        orienting_reruns,
        range_request_reruns,
        streaming_reruns,
    };

}

/// [`bhi260_imu::enabling`] can be run again.
pub broadcast proof fn enabling_reruns(s: Session, t: Session, h: Hub)
    ensures
        #![trigger bhi260_imu::enabling(s, h), bhi260_imu::enabling(t, h)]
        rerun(s, paired(bhi260_imu::enabling(s, h)), t, paired(bhi260_imu::enabling(t, h))),
{
    broadcast use {
        acknowledging_reruns,
        configuring_each_reruns,
        stepping_reruns,
        stream_setup_reruns,
    };

}

/// [`bhi260_imu::recycling`] can be run again.
pub broadcast proof fn recycling_reruns(s: Session, t: Session, h: Hub, enabled: bool)
    ensures
        #![trigger bhi260_imu::recycling(s, h, enabled), bhi260_imu::recycling(t, h, enabled)]
        rerun(
            s,
            paired(bhi260_imu::recycling(s, h, enabled)),
            t,
            paired(bhi260_imu::recycling(t, h, enabled)),
        ),
{
    broadcast use streaming_reruns;

}

/// [`bhi260_imu::range_reading`] can be run again.
pub broadcast proof fn range_reading_reruns(s: Session, t: Session, addr: u8, id: u8)
    ensures
        #![trigger bhi260_imu::range_reading(s, addr, id), bhi260_imu::range_reading(t, addr, id)]
        rerun(s, bhi260_imu::range_reading(s, addr, id), t, bhi260_imu::range_reading(t, addr, id)),
{
    broadcast use crate::rerun::bhi260::param_reading_reruns;

}

/// [`bhi260_imu::ranges_reading`] can be run again.
pub broadcast proof fn ranges_reading_reruns(s: Session, t: Session, h: Hub, tries: u8)
    ensures
        #![trigger bhi260_imu::ranges_reading(s, h, tries), bhi260_imu::ranges_reading(t, h, tries)]
        rerun(
            s,
            paired(bhi260_imu::ranges_reading(s, h, tries)),
            t,
            paired(bhi260_imu::ranges_reading(t, h, tries)),
        ),
{
    broadcast use range_reading_reruns;

}

/// [`bhi260_imu::sleep_cycling`] can be run again.
pub broadcast proof fn sleep_cycling_reruns(s: Session, t: Session, h: Hub, entered: bool)
    ensures
        #![trigger bhi260_imu::sleep_cycling(s, h, entered), bhi260_imu::sleep_cycling(t, h, entered)]
        rerun(
            s,
            paired(bhi260_imu::sleep_cycling(s, h, entered)),
            t,
            paired(bhi260_imu::sleep_cycling(t, h, entered)),
        ),
{
    broadcast use {entering_reruns, exiting_reruns};

}

/// [`bhi260_imu::boot`] can be run again.
pub broadcast proof fn boot_reruns(s: Session, t: Session, h: Hub, firmware: Seq<u8>)
    ensures
        #![trigger bhi260_imu::boot(s, h, firmware), bhi260_imu::boot(t, h, firmware)]
        rerun(s, paired(bhi260_imu::boot(s, h, firmware)), t, paired(bhi260_imu::boot(t, h, firmware))),
{
    broadcast use {
        crate::rerun::bhi260::commanding_reruns,
        crate::rerun::bhi260::ready_check_reruns,
        crate::rerun::bhi260::verify_check_reruns,
        crate::rerun::bhi260::writing_reruns,
        discovering_reruns,
        enabling_reruns,
        init_draining_reruns,
        ranges_reading_reruns,
        recycling_reruns,
        sleep_cycling_reruns,
        upload_starting_reruns,
        uploading_reruns,
    };

}

} // verus!
