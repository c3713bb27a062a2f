use nback::cue::CueChannel;
use nback::tile::{TileColor, TilePosition, TileSound};

#[test]
fn fresh_channel_reports_no_match() {
    let one: CueChannel<TilePosition> = CueChannel::with_back_distance(1);
    assert!(!one.is_match());
    let two: CueChannel<TileColor> = CueChannel::with_back_distance(2);
    assert!(!two.is_match());
    let five: CueChannel<TileSound> = CueChannel::with_back_distance(5);
    assert!(!five.is_match());
}

#[test]
fn back_distance_is_kept() {
    let c: CueChannel<TileColor> = CueChannel::with_back_distance(4);
    assert_eq!(c.back_distance(), 4);
}

#[test]
fn generated_value_is_returned() {
    let mut c: CueChannel<TileColor> = CueChannel::with_back_distance(2);
    assert_eq!(c.generate_from(false, TileColor::A), TileColor::A);
    assert_eq!(c.generate_from(false, TileColor::B), TileColor::B);
}

#[test]
fn warmup_match_reflects_first_against_last() {
    // back distance 2: the third generated value is compared to the first
    let mut c: CueChannel<TileColor> = CueChannel::with_back_distance(2);
    c.generate_from(false, TileColor::A);
    assert!(!c.is_match());
    c.generate_from(false, TileColor::B);
    assert!(!c.is_match());
    c.generate_from(false, TileColor::A);
    assert!(c.is_match());

    let mut d: CueChannel<TileColor> = CueChannel::with_back_distance(2);
    d.generate_from(false, TileColor::A);
    d.generate_from(false, TileColor::A);
    d.generate_from(false, TileColor::B);
    assert!(!d.is_match());
}

#[test]
fn forced_repeat_yields_oldest_and_matches_on_equal_slots() {
    // warm the buffer up to [A, A], then force the repeat
    let mut c: CueChannel<TileColor> = CueChannel::with_back_distance(1);
    c.generate_from(false, TileColor::A);
    c.generate_from(false, TileColor::A);
    let forced = c.generate_from(true, TileColor::C);
    assert_eq!(forced, TileColor::A);
    assert!(c.is_match());
}

#[test]
fn forced_repeat_lags_one_step_on_unequal_slots() {
    // buffer [A, B]: the forced value repeats the slot that is about to be
    // dropped, one step too old for the following comparison
    let mut c: CueChannel<TileColor> = CueChannel::with_back_distance(1);
    c.generate_from(false, TileColor::A);
    c.generate_from(false, TileColor::B);
    let forced = c.generate_from(true, TileColor::B);
    assert_eq!(forced, TileColor::A);
    assert!(!c.is_match());
}

#[test]
fn forced_repeat_falls_back_to_drawn_value_during_warmup() {
    // the oldest slot still holds the sentinel, so the lure is ignored
    let mut c: CueChannel<TileColor> = CueChannel::with_back_distance(2);
    let first = c.generate_from(true, TileColor::D);
    assert_eq!(first, TileColor::D);
    assert!(!c.is_match());
}

#[test]
fn random_generation_draws_from_the_value_set() {
    let mut c: CueChannel<TileColor> = CueChannel::with_back_distance(1);
    let mut seen = [false; 5];
    for _ in 0..300 {
        let v = c.generate();
        let i = match v {
            TileColor::A => 0,
            TileColor::B => 1,
            TileColor::C => 2,
            TileColor::D => 3,
            TileColor::E => 4,
            TileColor::Sentinel => panic!("generated the sentinel"),
        };
        seen[i] = true;
    }
    assert_eq!(c.back_distance(), 1);
    // a uniform draw over five values misses a second value in 300 rounds
    // with vanishing probability
    let distinct = seen.iter().filter(|s| **s).count();
    assert!(distinct >= 2);
}
