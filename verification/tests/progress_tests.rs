use worktrunk_native::progress::{classify_phase, compute_percent, phase_label, Phase, ProgressTracker};

#[test]
fn test_compute_percent() {
    assert_eq!(compute_percent(0, 0), 0);
    assert_eq!(compute_percent(5, 0), 0);
    assert_eq!(compute_percent(0, 10), 0);
    assert_eq!(compute_percent(3, 4), 75);
    assert_eq!(compute_percent(1, 3), 33);
    assert_eq!(compute_percent(10, 10), 100);
    assert_eq!(compute_percent(u32::MAX, u32::MAX), 100);
}

#[test]
fn test_classify_phase() {
    assert_eq!(classify_phase(5, 10, 0, 0), Phase::Receiving);
    assert_eq!(classify_phase(10, 10, 3, 7), Phase::Resolving);
    assert_eq!(classify_phase(10, 10, 7, 7), Phase::Done);
    assert_eq!(classify_phase(0, 0, 0, 0), Phase::Done);
}

#[test]
fn test_phase_labels() {
    assert_eq!(phase_label(Phase::Receiving), "receiving");
    assert_eq!(phase_label(Phase::Resolving), "resolving");
    assert_eq!(phase_label(Phase::Done), "done");
}

#[test]
fn test_tracker_emits_on_percent_advance() {
    let mut t = ProgressTracker::new();
    // percent 0 does not exceed the initial 0 and no time has passed: dropped
    assert!(t.observe(0, 100, 0, 0, 0).is_none());
    let p = t.observe(50, 100, 0, 0, 0).expect("advanced percent must emit");
    assert_eq!(p.phase, "receiving");
    assert_eq!(p.current, 50);
    assert_eq!(p.total, 100);
    assert_eq!(p.percent, 50);
    // same percent, no time elapsed: dropped
    assert!(t.observe(50, 100, 0, 0, 0).is_none());
    // same percent but the interval elapsed: emitted
    let p = t.observe(50, 100, 0, 0, 150).expect("elapsed interval must emit");
    assert_eq!(p.percent, 50);
}

#[test]
fn test_tracker_phases_in_order() {
    let mut t = ProgressTracker::new();
    let p = t.observe(40, 100, 0, 10, 0).unwrap();
    assert_eq!(p.phase, "receiving");
    let p = t.observe(100, 100, 3, 10, 0).unwrap();
    assert_eq!(p.phase, "resolving");
    assert_eq!(p.percent, 100);
    let p = t.observe(100, 100, 10, 10, 200).unwrap();
    assert_eq!(p.phase, "done");
}

#[test]
fn test_emitted_percents_monotone() {
    let mut t = ProgressTracker::new();
    let mut emitted: Vec<u32> = Vec::new();
    let total: u32 = 1000;
    for received in 0..=total {
        if let Some(p) = t.observe(received, total, 0, 0, 0) {
            emitted.push(p.percent);
        }
    }
    assert!(!emitted.is_empty());
    for w in emitted.windows(2) {
        assert!(w[0] <= w[1]);
    }
    assert_eq!(*emitted.last().unwrap(), 100);
}
