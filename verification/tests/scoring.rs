use nback::score::{Outcome, ScoreTracker};

fn f1_as_float(t: &ScoreTracker) -> f32 {
    let (numer, denom) = t.f1_ratio();
    numer as f32 / denom as f32
}

#[test]
fn f1_is_one_with_no_positive_ground_truth() {
    let t = ScoreTracker::new();
    assert_eq!(t.f1_ratio(), (1, 1));
    assert_eq!(f1_as_float(&t), 1.0);
    assert_eq!(t.f1_percent(), 100);
}

#[test]
fn f1_is_one_with_perfect_hits() {
    let mut t = ScoreTracker::new();
    for _ in 0..5 {
        t.record(Outcome::TruePositive);
    }
    assert_eq!(t.true_positives(), 5);
    assert_eq!(t.f1_ratio(), (10, 10));
    assert_eq!(f1_as_float(&t), 1.0);
    assert_eq!(t.f1_percent(), 100);
}

#[test]
fn f1_is_zero_with_only_misses() {
    let mut t = ScoreTracker::new();
    t.record(Outcome::FalseNegative);
    t.record(Outcome::FalseNegative);
    assert_eq!(t.f1_ratio(), (0, 2));
    assert_eq!(f1_as_float(&t), 0.0);
    assert_eq!(t.f1_percent(), 0);
}

#[test]
fn f1_stays_one_with_only_false_alarms() {
    // the guard checks positive ground truth only: false alarms without a
    // single real match leave the score at one
    let mut t = ScoreTracker::new();
    t.record(Outcome::FalsePositive);
    t.record(Outcome::FalsePositive);
    t.record(Outcome::FalsePositive);
    assert_eq!(t.f1_ratio(), (1, 1));
    assert_eq!(f1_as_float(&t), 1.0);
}

#[test]
fn f1_of_a_mixed_run_is_exact() {
    // tp=2, fp=0, fn=1: 2*2 / (2*2 + 0 + 1) = 4/5
    let mut t = ScoreTracker::new();
    t.record(Outcome::TruePositive);
    t.record(Outcome::TruePositive);
    t.record(Outcome::FalseNegative);
    assert_eq!(t.f1_ratio(), (4, 5));
    assert_eq!(f1_as_float(&t), 0.8);
    assert_eq!(t.f1_percent(), 80);
}

#[test]
fn counters_and_sums_track_outcomes() {
    let mut t = ScoreTracker::new();
    t.record(Outcome::TruePositive);
    t.record(Outcome::TrueNegative);
    t.record(Outcome::TrueNegative);
    t.record(Outcome::FalsePositive);
    t.record(Outcome::FalseNegative);
    assert_eq!(t.true_positives(), 1);
    assert_eq!(t.true_negatives(), 2);
    assert_eq!(t.false_positives(), 1);
    assert_eq!(t.false_negatives(), 1);
    assert_eq!(t.correct(), 3);
    assert_eq!(t.wrong(), 2);
}
