use shogi_engine::board::Board;
use shogi_engine::pattern_optimization::{
    AttackLookupTables, CompactPatternStorage, OptimizationStats, OptimizedPatternDetector,
};
use shogi_engine::types::{Piece, PieceType, Player, Position};

#[test]
fn test_optimized_detector_creation() {
    let detector = OptimizedPatternDetector::new();
    assert_eq!(detector.stats().fast_detections, 0);
}

#[test]
fn test_fast_pattern_detection() {
    let mut detector = OptimizedPatternDetector::new();
    let board = Board::new();
    let _result = detector.detect_patterns_fast(&board, Player::Black);
    assert_eq!(detector.stats().fast_detections, 1);
}

#[test]
fn test_attack_lookup_tables() {
    let tables = AttackLookupTables::new();
    let pos = Position::new(4, 4);
    let attacks = tables.get_attacks(pos, PieceType::Knight, Player::Black);
    assert_eq!(attacks.len(), 2);
}

#[test]
fn test_compact_storage() {
    let mut storage = CompactPatternStorage::new();
    storage.set_pattern(0);
    storage.set_pattern(2);
    assert!(storage.has_pattern(0));
    assert!(!storage.has_pattern(1));
    assert!(storage.has_pattern(2));
}

#[test]
fn test_compact_storage_scores() {
    let mut storage = CompactPatternStorage::new();
    storage.set_tactical_score(150, 90);
    let (mg, eg) = storage.get_tactical_score();
    assert_eq!(mg, 150);
    assert_eq!(eg, 90);
}

#[test]
fn test_compact_storage_clamping() {
    let mut storage = CompactPatternStorage::new();
    storage.set_tactical_score(100000, -100000);
    let (mg, eg) = storage.get_tactical_score();
    assert_eq!(mg, 32767);
    assert_eq!(eg, -32768);
}

#[test]
fn test_optimization_stats() {
    let stats = OptimizationStats::default();
    assert_eq!(stats.fast_detections, 0);
    assert_eq!(stats.total_time_ns, 0);
}

#[test]
fn test_average_time_calculation() {
    let mut detector = OptimizedPatternDetector::new();
    let board = Board::new();
    for _ in 0..10 {
        let _ = detector.detect_patterns_fast(&board, Player::Black);
    }
    let avg_time = detector.avg_time_ns();
    assert!(avg_time > 0);
}

#[test]
fn knight_fork_and_centre_are_detected() {
    let mut board = Board::empty();
    board.place_piece(Piece::new(PieceType::Knight, Player::Black), Position::new(6, 4));
    board.place_piece(Piece::new(PieceType::Rook, Player::White), Position::new(4, 3));
    board.place_piece(Piece::new(PieceType::Gold, Player::White), Position::new(4, 5));
    board.place_piece(Piece::new(PieceType::Pawn, Player::Black), Position::new(4, 4));
    let mut detector = OptimizedPatternDetector::new();
    let black = detector.detect_patterns_fast(&board, Player::Black);
    assert!(black.has_fork);
    assert!(!black.has_pin);
    assert!(!black.has_outpost);
    // Own pawn on the core, two enemy pieces on the centre.
    assert_eq!(black.center_control, 20 - 40);
    let white = detector.detect_patterns_fast(&board, Player::White);
    assert!(!white.has_fork);
    assert_eq!(white.center_control, 20);
}

#[test]
fn knight_targets_stay_on_the_board() {
    let tables = AttackLookupTables::new();
    assert_eq!(tables.get_attacks(Position::new(1, 0), PieceType::Knight, Player::Black).len(), 0);
    assert_eq!(
        tables.get_attacks(Position::new(2, 0), PieceType::Knight, Player::Black),
        vec![Position::new(0, 1)]
    );
    assert_eq!(
        tables.get_attacks(Position::new(4, 4), PieceType::Knight, Player::White),
        vec![Position::new(6, 3), Position::new(6, 5)]
    );
    assert!(tables.get_attacks(Position::new(4, 4), PieceType::Rook, Player::White).is_empty());
}

#[test]
fn setting_one_flag_leaves_the_others() {
    let mut storage = CompactPatternStorage::new();
    storage.set_pattern(7);
    for t in 0..7u8 {
        assert!(!storage.has_pattern(t));
    }
    assert!(storage.has_pattern(7));
    storage.set_pattern(7);
    assert!(storage.has_pattern(7));
}
