//! Wrist pose: turns the accelerometer stream into wrist intents.

use vstd::prelude::*;

verus! {

/// Semantic wrist intents - the unified signals a wrist-worn board emits,
/// regardless of chip. The system layer consumes only these.
#[derive(Debug, Clone, Copy, PartialEq, Eq, Structural)]
pub enum WristIntent {
    /// The wrist entered the viewing pose and settled there.
    Raised,
    /// The wrist left the viewing pose and settled elsewhere.
    Lowered,
}

/// Wear calibration: how the user wears this specific board (wrist, crown
/// direction, personal viewing angle). Thresholds are in the normalized
/// accel scale (+/-8 g full scale, 4096 = 1 g), applied to the gravity
/// component along `axis`.
#[derive(Debug, Clone, Copy, PartialEq, Eq)]
pub struct WearCalibration {
    /// Viewing-axis selector in the device frame; components are -1/0/1
    /// and pick (possibly negated) axes, e.g. `[0, 1, 0]` = +Y.
    pub axis: [i8; 3],
    /// In the viewing cone when the along-axis component rises to this or
    /// above.
    pub enter_lsb: i16,
    /// Out of it when the component drops to this or below; the gap
    /// between the two is the hysteresis band, which holds the current
    /// side.
    pub exit_lsb: i16,
}

/// Consecutive samples required on the far side of a threshold before the
/// pose flips - ~0.5 s at the 25 Hz awake sample rate, so arm swings
/// passing through the cone don't flicker intents.
pub const WEAR_DWELL_SAMPLES: u8 = 12;

/// One accelerometer sample.
pub ghost struct Sample {
    pub x: i16,
    pub y: i16,
    pub z: i16,
}

impl WearCalibration {
    /// The component of a sample along the viewing axis.
    pub open spec fn along(self, a: Sample) -> int {
        self.axis[0] * a.x + self.axis[1] * a.y + self.axis[2] * a.z
    }

    /// What a sample says of the pose: inside the cone, outside, or
    /// nothing.
    pub open spec fn evidence(self, a: Sample) -> Option<bool> {
        if self.along(a) >= self.enter_lsb {
            Some(true)
        } else if self.along(a) <= self.exit_lsb {
            Some(false)
        } else {
            None
        }
    }
}

/// The intent of settling inside the cone, or outside.
pub open spec fn intent_of(side: bool) -> WristIntent {
    if side { WristIntent::Raised } else { WristIntent::Lowered }
}

/// The state of a [`WearClassifier`].
pub ghost struct Wear {
    pub cal: WearCalibration,
    pub in_view: bool,
    pub streak: int,
    pub pending: Option<WristIntent>,
}

impl Wear {
    /// The state before any sample, and after a reset.
    pub open spec fn fresh(cal: WearCalibration) -> Wear {
        Wear { cal, in_view: false, streak: 0, pending: None }
    }

    /// A flip is due at the dwell, so the streak stays below it.
    pub open spec fn valid(self) -> bool {
        0 <= self.streak < WEAR_DWELL_SAMPLES
    }

    /// A sample says the wrist is on the other side.
    pub open spec fn contradicts(self, a: Sample) -> bool {
        self.cal.evidence(a) == Some(!self.in_view)
    }

    /// A sample says the wrist is where it is taken to be.
    pub open spec fn confirms(self, a: Sample) -> bool {
        self.cal.evidence(a) == Some(self.in_view)
    }

    /// The state once a sample is fed.
    pub open spec fn fed(self, a: Sample) -> Wear {
        if self.confirms(a) {
            Wear { streak: 0, ..self }
        } else if !self.contradicts(a) {
            self
        } else if self.streak + 1 < WEAR_DWELL_SAMPLES {
            Wear { streak: self.streak + 1, ..self }
        } else {
            Wear {
                cal: self.cal,
                in_view: !self.in_view,
                streak: 0,
                pending: Some(intent_of(!self.in_view)),
            }
        }
    }

    /// The state once samples are fed, first to last.
    pub open spec fn fed_all(self, samples: Seq<Sample>) -> Wear
        decreases samples.len(),
    {
        if samples.len() == 0 {
            self
        } else {
            self.fed_all(samples.drop_last()).fed(samples.last())
        }
    }

    /// How many samples contradict the state.
    pub open spec fn contradicting(self, samples: Seq<Sample>) -> nat
        decreases samples.len(),
    {
        if samples.len() == 0 {
            0
        } else {
            self.contradicting(samples.drop_last()) + (if self.contradicts(samples.last()) {
                1nat
            } else {
                0
            })
        }
    }

    /// No sample confirms the state.
    pub open spec fn none_confirms(self, samples: Seq<Sample>) -> bool {
        forall|i: int| 0 <= i < samples.len() ==> !self.confirms(#[trigger] samples[i])
    }
}

/// Pose classifier over the accel stream: tracks whether the wrist is
/// inside the calibrated viewing cone and turns settled transitions into
/// [`WristIntent`]s. Chip-neutral - an adapter feeds it every normalized
/// accel sample it parses and hands out the produced intents via its
/// `take_intent`.
#[derive(Debug, Clone, Copy)]
pub struct WearClassifier {
    cal: WearCalibration,
    in_view: bool,
    streak: u8,
    pending: Option<WristIntent>,
}

impl View for WearClassifier {
    type V = Wear;

    closed spec fn view(&self) -> Wear {
        Wear { cal: self.cal, in_view: self.in_view, streak: self.streak as int, pending: self.pending }
    }
}

impl WearClassifier {
    #[verifier::type_invariant]
    spec fn well_formed(self) -> bool {
        self@.valid()
    }

    pub fn new(cal: WearCalibration) -> (r: WearClassifier)
        ensures
            r@ == Wear::fresh(cal),
    {
        WearClassifier { cal, in_view: false, streak: 0, pending: None }
    }

    /// Feed one normalized accel sample (device frame).
    ///
    /// Streak rules: a sample past the far threshold accumulates evidence
    /// toward flipping; a sample past the near threshold (confirming the
    /// current side) resets it; a sample inside the hysteresis band is
    /// AMBIGUOUS and holds the streak as-is. The band must not reset - a
    /// held-but-human arm wobbles into it.
    pub fn feed(&mut self, x: i16, y: i16, z: i16)
        ensures
            final(self)@ == old(self)@.fed(Sample { x, y, z }),
    {
        proof {
            use_type_invariant(&*self);
        }
        let evidence: Option<bool> = evidence_of(&self.cal, x, y, z);
        match evidence {
            None => {},
            Some(side) => {
                if side == self.in_view {
                    self.streak = 0;
                } else if self.streak + 1 < WEAR_DWELL_SAMPLES {
                    self.streak = self.streak + 1;
                } else {
                    self.streak = 0;
                    self.in_view = side;
                    self.pending = Some(if side { WristIntent::Raised } else { WristIntent::Lowered });
                }
            },
        }
    }

    /// Collect the intent produced by the last settled pose flip, if any.
    /// Clears on read.
    pub fn take(&mut self) -> (r: Option<WristIntent>)
        ensures
            r == old(self)@.pending,
            final(self)@ == (Wear { pending: None, ..old(self)@ }),
    {
        proof {
            use_type_invariant(&*self);
        }
        let r: Option<WristIntent> = self.pending;
        self.pending = None;
        r
    }

    /// Forget pose history (call at sleep entry): the next raise then
    /// always produces a fresh `Raised` transition, even if the device
    /// fell asleep with the wrist still in the cone.
    pub fn reset(&mut self)
        ensures
            final(self)@ == Wear::fresh(old(self)@.cal),
    {
        proof {
            use_type_invariant(&*self);
        }
        self.in_view = false;
        self.streak = 0;
        self.pending = None;
    }
}

/// What a sample says of the pose.
fn evidence_of(cal: &WearCalibration, x: i16, y: i16, z: i16) -> (r: Option<bool>)
    ensures
        r == cal.evidence(Sample { x, y, z }),
{
    proof {
        product_fits(cal.axis[0], x);
        product_fits(cal.axis[1], y);
        product_fits(cal.axis[2], z);
    }
    let along: i32 = cal.axis[0] as i32 * x as i32 + cal.axis[1] as i32 * y as i32 + cal.axis[2] as i32 * z as i32;
    if along >= cal.enter_lsb as i32 {
        Some(true)
    } else if along <= cal.exit_lsb as i32 {
        Some(false)
    } else {
        None
    }
}

proof fn product_fits(a: i8, b: i16)
    ensures
        -0x40_0000 <= a * b <= 0x40_0000,
{
    assert(-0x40_0000 <= a * b <= 0x40_0000) by (nonlinear_arith)
        requires
            -128 <= a <= 127,
            -32768 <= b <= 32767,
    ;
}

// ---- Laws of the classifier -------------------------------------------------

/// Samples none of which confirms the current side add up, one for each
/// that contradicts it, as long as they are fewer than the dwell.
pub proof fn far_samples_accumulate(w: Wear, samples: Seq<Sample>)
    requires
        w.valid(),
        w.none_confirms(samples),
        w.streak + w.contradicting(samples) < WEAR_DWELL_SAMPLES,
    ensures
        w.fed_all(samples) == (Wear { streak: w.streak + w.contradicting(samples), ..w }),
    decreases samples.len(),
{
    if samples.len() > 0 {
        far_samples_accumulate(w, samples.drop_last());
        assert(!w.confirms(samples[samples.len() - 1]));
    }
}

/// A pose settles: from a settled pose, samples none of which confirms it
/// and of which the dwell's number contradict it, the last one included,
/// flip the pose and leave the matching intent.
pub proof fn settled_pose_flips(w: Wear, samples: Seq<Sample>)
    requires
        w.streak == 0,
        w.none_confirms(samples),
        w.contradicting(samples) == WEAR_DWELL_SAMPLES,
        samples.len() > 0,
        w.contradicts(samples.last()),
    ensures
        w.fed_all(samples) == (Wear {
            cal: w.cal,
            in_view: !w.in_view,
            streak: 0,
            pending: Some(intent_of(!w.in_view)),
        }),
{
    far_samples_accumulate(w, samples.drop_last());
}

/// Fewer samples than the dwell never flip a settled pose nor produce an
/// intent, whatever they say.
pub proof fn short_swings_are_ignored(w: Wear, samples: Seq<Sample>)
    requires
        w.streak == 0,
        samples.len() < WEAR_DWELL_SAMPLES,
    ensures
        w.fed_all(samples).in_view == w.in_view,
        w.fed_all(samples).pending == w.pending,
        w.fed_all(samples).cal == w.cal,
        0 <= w.fed_all(samples).streak <= samples.len(),
    decreases samples.len(),
{
    if samples.len() > 0 {
        short_swings_are_ignored(w, samples.drop_last());
    }
}

/// A sample that confirms the pose throws away all evidence against it.
pub proof fn confirming_sample_resets(w: Wear, a: Sample)
    requires
        w.confirms(a),
    ensures
        w.fed(a) == (Wear { streak: 0, ..w }),
{
}

/// A sample inside the hysteresis band changes nothing.
pub proof fn band_holds(w: Wear, a: Sample)
    requires
        w.cal.exit_lsb < w.cal.along(a) < w.cal.enter_lsb,
    ensures
        w.fed(a) == w,
{
}

/// After a reset the next raise is always seen: the dwell's number of
/// samples in the cone, with none outside it, produce `Raised`.
pub proof fn raise_after_reset_is_seen(cal: WearCalibration, samples: Seq<Sample>)
    requires
        samples.len() > 0,
        Wear::fresh(cal).none_confirms(samples),
        Wear::fresh(cal).contradicting(samples) == WEAR_DWELL_SAMPLES,
        cal.evidence(samples.last()) == Some(true),
    ensures
        Wear::fresh(cal).fed_all(samples).pending == Some(WristIntent::Raised),
        Wear::fresh(cal).fed_all(samples).in_view,
{
    settled_pose_flips(Wear::fresh(cal), samples);
}

/// The intents that samples produce, in order: one for each that flips the
/// pose.
pub open spec fn intents(w: Wear, samples: Seq<Sample>) -> Seq<WristIntent>
    decreases samples.len(),
{
    if samples.len() == 0 {
        Seq::empty()
    } else {
        let before = w.fed_all(samples.drop_last());
        let after = before.fed(samples.last());
        let earlier = intents(w, samples.drop_last());
        if after.in_view != before.in_view { earlier.push(intent_of(after.in_view)) } else { earlier }
    }
}

/// Intents alternate: the first is the opposite of the pose at the start,
/// each one the opposite of the one before, and the last, which is the
/// one pending, tells the pose. Without one, pose and pending intent stay.
pub proof fn intents_alternate(w: Wear, samples: Seq<Sample>)
    ensures
        ({
            let all = intents(w, samples);
            let after = w.fed_all(samples);
            &&& forall|i: int|
                #![trigger all[i]]
                0 <= i < all.len() ==> all[i] == intent_of(if i % 2 == 0 { !w.in_view } else { w.in_view })
            &&& all.len() > 0 ==> all.last() == intent_of(after.in_view) && after.pending == Some(all.last())
            &&& all.len() == 0 ==> after.in_view == w.in_view && after.pending == w.pending
            &&& after.in_view == if all.len() % 2 == 0 { w.in_view } else { !w.in_view }
        }),
    decreases samples.len(),
{
    if samples.len() > 0 {
        intents_alternate(w, samples.drop_last());
    }
}

} // verus!
