use shogi_engine::board::Board;
use shogi_engine::castles::mirror_descriptors;
use shogi_engine::pattern_cache::{CachedPatternResult, IncrementalPatternTracker, PatternCacheStats};
use shogi_engine::pattern_config::{AdvancedPatternConfig, PatternTypes};
use shogi_engine::patterns::common::{TacticalPattern, TacticalType, ThreatEvaluator};
use shogi_engine::patterns::{anaguma, mino, yagura};
use shogi_engine::storm_tracking::{analyze_file, analyze_files, storm_pressure};
use shogi_engine::types::{Piece, PieceType, Player, Position, TaperedScore};

#[test]
fn test_advanced_config_validation() {
    let mut advanced = AdvancedPatternConfig::default();
    assert!(advanced.validate().is_ok());

    advanced.min_depth = 10;
    advanced.max_depth = 5;
    assert!(advanced.validate().is_err());

    advanced = AdvancedPatternConfig::default();
    advanced.cache_size = 0;
    advanced.enable_caching = true;
    assert!(advanced.validate().is_err());

    advanced = AdvancedPatternConfig::default();
    advanced.cache_size = 20_000_000;
    assert!(advanced.validate().is_err());
}

#[test]
fn validation_messages_name_the_broken_rule() {
    let mut advanced = AdvancedPatternConfig::default();
    advanced.min_depth = 10;
    advanced.max_depth = 5;
    assert_eq!(
        advanced.validate().unwrap_err(),
        "min_depth (10) cannot be greater than max_depth (5)"
    );
    let mut advanced = AdvancedPatternConfig::default();
    advanced.cache_size = 0;
    assert_eq!(
        advanced.validate().unwrap_err(),
        "cache_size must be positive when caching is enabled"
    );
    advanced.enable_caching = false;
    assert!(advanced.validate().is_ok());
    advanced.cache_size = 20_000_000;
    assert_eq!(advanced.validate().unwrap_err(), "cache_size is too large (max 10M): 20000000");
}

#[test]
fn pattern_type_switches() {
    let mut types = PatternTypes::default();
    assert_eq!(types.count_enabled(), 5);
    assert!(types.any_enabled());
    types.disable_all();
    assert_eq!(types.count_enabled(), 0);
    assert!(!types.any_enabled());
    types.enable_all();
    assert_eq!(types.count_enabled(), 8);
    types.tactical_patterns = false;
    assert_eq!(types.count_enabled(), 7);
}

fn sample_result() -> CachedPatternResult {
    CachedPatternResult { tactical_score: (50, 30), positional_score: (40, 25), endgame_score: (20, 35), age: 0 }
}

#[test]
fn test_incremental_tracker() {
    let mut tracker = IncrementalPatternTracker::new();
    assert!(!tracker.can_update_incrementally(123));
    tracker.update(123, sample_result());
    assert!(tracker.can_update_incrementally(456));
    let last = tracker.last_results();
    assert!(last.is_some());
}

#[test]
fn test_incremental_tracker_clear() {
    let mut tracker = IncrementalPatternTracker::new();
    tracker.update(123, sample_result());
    tracker.clear();
    assert!(!tracker.can_update_incrementally(456));
}

#[test]
fn disabled_tracker_refuses_incremental_updates() {
    let mut tracker = IncrementalPatternTracker::default();
    tracker.update(1, sample_result());
    tracker.set_enabled(false);
    assert!(!tracker.can_update_incrementally(2));
    assert_eq!(tracker.last_results().unwrap().positional_score, (40, 25));
    tracker.set_enabled(true);
    assert!(tracker.can_update_incrementally(2));
    assert_eq!(PatternCacheStats::default().lookups, 0);
}

#[test]
fn test_threat_evaluator_creation() {
    let evaluator = ThreatEvaluator::new();
    assert_eq!(evaluator.patterns.len(), 3);

    let rook_pin = evaluator.patterns.iter().find(|p| p.name == "Rook Pin");
    let bishop_skewer = evaluator.patterns.iter().find(|p| p.name == "Bishop Skewer");
    let knight_fork = evaluator.patterns.iter().find(|p| p.name == "Knight Fork");

    assert!(rook_pin.is_some());
    assert!(bishop_skewer.is_some());
    assert!(knight_fork.is_some());

    assert_eq!(rook_pin.unwrap().danger_level, 7);
    assert_eq!(bishop_skewer.unwrap().danger_level, 6);
    assert_eq!(knight_fork.unwrap().danger_level, 8);
}

#[test]
fn test_tactical_pattern_creation() {
    let pattern = TacticalPattern { name: "Test Pattern", pattern_type: TacticalType::Pin, danger_level: 5 };
    assert_eq!(pattern.name, "Test Pattern");
    assert_eq!(pattern.danger_level, 5);
}

#[test]
fn test_threat_evaluation_disabled() {
    let evaluator = ThreatEvaluator::new();
    let board = Board::new();
    let score = evaluator.evaluate_threats(&board, Player::Black);
    assert_eq!(score, TaperedScore::default());
}

#[test]
fn test_anaguma_mirror_offsets() {
    let base = anaguma::base_shell();
    let mirrored = mirror_descriptors(&base);
    for (original, mirrored_piece) in base.iter().zip(mirrored.iter()) {
        assert_eq!(original.offset.rank, mirrored_piece.offset.rank);
        assert_eq!(original.offset.file, -mirrored_piece.offset.file);
    }
}

#[test]
fn castle_patterns_have_four_variants_with_required_squares() {
    let patterns = [
        (anaguma::get_anaguma_castle(), "Anaguma", 2),
        (mino::get_mino_castle(), "Mino", 2),
        (yagura::get_yagura_castle(), "Yagura", 3),
    ];
    for (pattern, name, min_required) in patterns {
        assert_eq!(pattern.name, name);
        assert_eq!(pattern.variants.len(), 4);
        for variant in &pattern.variants {
            let required = variant.pieces.iter().filter(|piece| piece.required).count();
            assert!(required >= min_required);
        }
    }
    let anaguma = anaguma::get_anaguma_castle();
    assert_eq!(anaguma.score, TaperedScore::new_tapered(220, 40));
    assert_eq!(anaguma.variants[1].name, "left-base");
    assert_eq!(mino::get_mino_castle().flexibility, 2);
}

#[test]
fn storm_file_analysis() {
    let mut board = Board::empty();
    board.place_piece(Piece::new(PieceType::Pawn, Player::White), Position::new(3, 4));
    let first = analyze_file(&board, Player::Black, 4, None);
    assert_eq!(first.deepest_penetration, 2);
    assert_eq!(first.consecutive_pushes, 1);
    assert!(first.opponent_owns_file);
    assert!(first.is_critical_file);
    assert!(first.is_active());
    board.remove_piece(Position::new(3, 4));
    board.place_piece(Piece::new(PieceType::Pawn, Player::White), Position::new(2, 4));
    let second = analyze_file(&board, Player::Black, 4, Some(first));
    assert_eq!(second.deepest_penetration, 3);
    assert_eq!(second.consecutive_pushes, 2);
    let third = analyze_file(&board, Player::Black, 4, Some(second));
    assert_eq!(third.consecutive_pushes, 2);
    assert_eq!(third.plies_since_response, 1);
    board.place_piece(Piece::new(PieceType::Gold, Player::Black), Position::new(6, 4));
    let blocked = analyze_file(&board, Player::Black, 4, None);
    assert!(!blocked.opponent_owns_file);
    let states = analyze_files(&board, Player::Black, None);
    assert_eq!(storm_pressure(&states), (1, true, false));
}

#[test]
fn test_anaguma_castle_pattern_variants() {
    let pattern = anaguma::get_anaguma_castle();
    assert_eq!(pattern.name, "Anaguma");
    assert_eq!(pattern.variants.len(), 4);

    for variant in &pattern.variants {
        let required = variant.pieces.iter().filter(|piece| piece.required).count();
        assert!(required >= 2);
    }
}

#[test]
fn test_mino_castle_variants() {
    let pattern = mino::get_mino_castle();
    assert_eq!(pattern.name, "Mino");
    assert_eq!(pattern.variants.len(), 4);

    for variant in &pattern.variants {
        let required = variant.pieces.iter().filter(|piece| piece.required).count();
        assert!(required >= 2);
    }
}

#[test]
fn test_yagura_castle_variants() {
    let pattern = yagura::get_yagura_castle();
    assert_eq!(pattern.name, "Yagura");
    assert_eq!(pattern.variants.len(), 4);

    for variant in &pattern.variants {
        let required = variant.pieces.iter().filter(|piece| piece.required).count();
        assert!(required >= 3);
    }
}
