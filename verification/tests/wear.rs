use uhrwerk::imu::{WearCalibration, WearClassifier, WristIntent, WEAR_DWELL_SAMPLES};

fn worn() -> WearClassifier {
    WearClassifier::new(WearCalibration { axis: [0, -1, 0], enter_lsb: 2800, exit_lsb: 2000 })
}

fn feed(w: &mut WearClassifier, along: i16, n: u8) {
    for _ in 0..n {
        w.feed(100, -along, 4000);
    }
}

#[test]
fn settled_raise_is_reported_once() {
    let mut w = worn();
    feed(&mut w, 2800, WEAR_DWELL_SAMPLES - 1);
    assert_eq!(w.take(), None);
    feed(&mut w, 2800, 1);
    assert_eq!(w.take(), Some(WristIntent::Raised));
    assert_eq!(w.take(), None);
    feed(&mut w, 2000, WEAR_DWELL_SAMPLES);
    assert_eq!(w.take(), Some(WristIntent::Lowered));
}

#[test]
fn intents_alternate() {
    let mut w = worn();
    let mut seen = Vec::new();
    for i in 0..200i32 {
        let along = if (i / 17) % 2 == 0 { 3000 } else { 1500 };
        feed(&mut w, along, 1);
        seen.extend(w.take());
    }
    assert!(seen.len() > 4);
    assert_eq!(seen[0], WristIntent::Raised);
    assert!(seen.windows(2).all(|p| p[0] != p[1]));
}

#[test]
fn swing_through_the_cone_is_ignored() {
    let mut w = worn();
    for _ in 0..5 {
        feed(&mut w, 3000, WEAR_DWELL_SAMPLES - 1);
        feed(&mut w, 1000, 1);
    }
    assert_eq!(w.take(), None);
}

#[test]
fn hysteresis_band_holds_the_streak() {
    let mut w = worn();
    feed(&mut w, 3000, WEAR_DWELL_SAMPLES - 1);
    feed(&mut w, 2500, 50);
    assert_eq!(w.take(), None);
    feed(&mut w, 3000, 1);
    assert_eq!(w.take(), Some(WristIntent::Raised));
    feed(&mut w, 2001, 50);
    assert_eq!(w.take(), None);
}

#[test]
fn raise_after_reset_is_seen_again() {
    let mut w = worn();
    feed(&mut w, 3000, WEAR_DWELL_SAMPLES);
    assert_eq!(w.take(), Some(WristIntent::Raised));
    feed(&mut w, 3000, 50);
    assert_eq!(w.take(), None);
    w.reset();
    feed(&mut w, 3000, WEAR_DWELL_SAMPLES);
    assert_eq!(w.take(), Some(WristIntent::Raised));
}

#[test]
fn every_axis_counts() {
    let mut w = WearClassifier::new(WearCalibration { axis: [1, 1, -1], enter_lsb: 100, exit_lsb: 0 });
    for _ in 0..WEAR_DWELL_SAMPLES {
        w.feed(30, 30, -40);
    }
    assert_eq!(w.take(), Some(WristIntent::Raised));
}
