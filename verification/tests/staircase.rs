use nback::settings::{GameSettings, HOLD_THRESHOLD_PERCENT, RAISE_THRESHOLD_PERCENT};

#[test]
fn default_settings_enable_everything() {
    let s = GameSettings::default();
    assert_eq!(s.n, 2);
    assert_eq!(s.rounds, 24);
    assert!(s.position && s.color && s.sound);
}

#[test]
fn round_budget_follows_back_distance() {
    let mut s = GameSettings::default();
    s.n = 3;
    s.set_rounds_from_n();
    assert_eq!(s.rounds, 29);
    s.n = 1;
    s.set_rounds_from_n();
    assert_eq!(s.rounds, 21);
}

#[test]
fn high_score_raises_difficulty() {
    let mut s = GameSettings::default();
    s.apply_f1_percent(85);
    assert_eq!(s.n, 3);
    assert_eq!(s.rounds, 29);
    s.apply_f1_percent(RAISE_THRESHOLD_PERCENT);
    assert_eq!(s.n, 4);
    assert_eq!(s.rounds, 36);
}

#[test]
fn low_score_holds_difficulty_and_clamps_to_one() {
    let mut s = GameSettings::default();
    s.apply_f1_percent(40);
    assert_eq!(s.n, 2);
    assert_eq!(s.rounds, 24);

    let mut zero = GameSettings { n: 0, rounds: 20, position: true, color: false, sound: false };
    zero.apply_f1_percent(HOLD_THRESHOLD_PERCENT);
    assert_eq!(zero.n, 1);
    assert_eq!(zero.rounds, 21);
}

#[test]
fn middling_score_changes_nothing() {
    let mut s = GameSettings::default();
    s.apply_f1_percent(51);
    s.apply_f1_percent(65);
    s.apply_f1_percent(79);
    assert_eq!(s, GameSettings::default());
}
