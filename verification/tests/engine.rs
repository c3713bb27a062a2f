use nback::round::{Draw, EngineConfig, Modality, RoundEngine};
use nback::tile::{TileColor, TilePosition};

fn position_only(back_distance: usize, total_rounds: usize) -> EngineConfig {
    EngineConfig { back_distance, total_rounds, position: true, color: false, sound: false }
}

fn plain(value: TilePosition) -> Option<Draw<TilePosition>> {
    Some(Draw { lure: false, value })
}

fn plain_color(value: TileColor) -> Option<Draw<TileColor>> {
    Some(Draw { lure: false, value })
}

#[test]
fn lure_round_records_one_true_positive() {
    // back distance 2, single modality: cues A, B, A make round three a match
    let mut engine = RoundEngine::new(position_only(2, 10));
    engine.new_cue_from(plain(TilePosition::TopLeft), None, None);
    engine.new_cue_from(plain(TilePosition::Center), None, None);
    engine.new_cue_from(plain(TilePosition::TopLeft), None, None);
    assert!(engine.is_match(Modality::Position));

    engine.record_answer(Modality::Position);
    engine.resolve_round_from(plain(TilePosition::BottomRight), None, None);
    assert_eq!(engine.score.true_positives(), 1);
    assert_eq!(engine.score.correct(), 1);
    assert_eq!(engine.score.wrong(), 0);
}

#[test]
fn match_shows_on_the_third_resolved_round() {
    // the same cues driven through full rounds: the match is visible while
    // round three runs, and answering it earns the true positive
    let mut engine = RoundEngine::new(position_only(2, 10));
    engine.resolve_round_from(plain(TilePosition::TopLeft), None, None);
    engine.resolve_round_from(plain(TilePosition::Center), None, None);
    engine.resolve_round_from(plain(TilePosition::TopLeft), None, None);
    assert_eq!(engine.current_round, 3);
    assert!(engine.is_match(Modality::Position));

    engine.record_answer(Modality::Position);
    engine.resolve_round_from(plain(TilePosition::BottomRight), None, None);
    assert_eq!(engine.score.true_positives(), 1);
    // the three unanswered warm-up rounds were counted as true negatives
    assert_eq!(engine.score.true_negatives(), 3);
    assert_eq!(engine.score.wrong(), 0);
}

#[test]
fn one_round_session_finishes() {
    let mut engine = RoundEngine::new(position_only(2, 1));
    assert!(!engine.is_finished());
    engine.resolve_round();
    assert!(engine.is_finished());
    assert_eq!(engine.current_round, 1);
}

#[test]
fn restart_clears_score_and_round_index() {
    let mut engine = RoundEngine::new(position_only(2, 10));
    for _ in 0..4 {
        engine.record_answer(Modality::Position);
        engine.resolve_round();
    }
    assert_eq!(engine.current_round, 4);
    assert!(engine.score.correct() + engine.score.wrong() > 0);

    engine.restart(None);
    assert_eq!(engine.score.correct() + engine.score.wrong(), 0);
    assert_eq!(engine.current_round, 0);
    assert_eq!(engine.back_distance(), 2);
    assert!(!engine.is_match(Modality::Position));

    engine.restart(Some(3));
    assert_eq!(engine.back_distance(), 3);
}

#[test]
fn resolving_fills_the_confusion_matrix() {
    // back distance 1, position and color in lock step
    let config = EngineConfig {
        back_distance: 1,
        total_rounds: 10,
        position: true,
        color: true,
        sound: false,
    };
    let mut engine = RoundEngine::new(config);

    // round 1: both channels still sentinel-guarded, no answer: two TN
    engine.resolve_round_from(plain(TilePosition::TopLeft), plain_color(TileColor::A), None);
    // round 2: still no match possible; answering position costs an FP
    engine.record_answer(Modality::Position);
    engine.resolve_round_from(plain(TilePosition::TopLeft), plain_color(TileColor::B), None);
    // round 3: position repeats (a match left unanswered: FN), color does
    // not (answered anyway: FP)
    assert!(engine.is_match(Modality::Position));
    assert!(!engine.is_match(Modality::Color));
    engine.record_answer(Modality::Color);
    engine.resolve_round_from(plain(TilePosition::Center), plain_color(TileColor::C), None);

    assert_eq!(engine.score.true_positives(), 0);
    assert_eq!(engine.score.false_positives(), 2);
    assert_eq!(engine.score.false_negatives(), 1);
    assert_eq!(engine.score.true_negatives(), 3);
    assert_eq!(engine.current_round, 3);
}

#[test]
fn answers_are_first_press_wins_and_cleared_on_resolve() {
    let mut engine = RoundEngine::new(position_only(1, 10));
    engine.record_answer(Modality::Position);
    engine.record_answer(Modality::Position);
    assert!(engine.answer.position);
    assert!(!engine.answer.color);
    engine.resolve_round();
    assert!(!engine.answer.position);
}

#[test]
fn disabled_modalities_stay_silent() {
    let mut engine = RoundEngine::new(position_only(2, 10));
    let (position, color, sound) = engine.resolve_round();
    assert!(position.is_some());
    assert!(color.is_none());
    assert!(sound.is_none());
    assert!(!engine.is_match(Modality::Color));
    assert!(!engine.is_match(Modality::Sound));
}

#[test]
fn random_rounds_never_produce_the_sentinel() {
    let config = EngineConfig {
        back_distance: 2,
        total_rounds: 30,
        position: true,
        color: true,
        sound: true,
    };
    let mut engine = RoundEngine::new(config);
    while !engine.is_finished() {
        let (position, color, sound) = engine.resolve_round();
        assert!(position.unwrap() != TilePosition::Sentinel);
        assert!(color.unwrap() != TileColor::Sentinel);
        assert!(sound.unwrap() != nback::tile::TileSound::Sentinel);
    }
    assert_eq!(engine.current_round, 30);
    // every resolved round classifies each of the three channels once
    assert_eq!(engine.score.correct() + engine.score.wrong(), 90);
}
