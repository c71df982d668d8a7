use shogi_engine::board::Board;
use shogi_engine::pattern_search_integration::{PatternSearchConfig, PatternSearchIntegrator};
use shogi_engine::types::{Move, PieceType, Player, Position};

#[test]
fn test_pattern_search_integrator_creation() {
    let integrator = PatternSearchIntegrator::new();
    assert_eq!(integrator.config.fork_bonus, 200);
}

#[test]
fn test_move_ordering() {
    let mut integrator = PatternSearchIntegrator::new();
    let board = Board::new();
    let moves = vec![];
    let ordered = integrator.order_moves_by_patterns(&board, &moves, Player::Black);
    assert_eq!(integrator.stats().move_orderings, 1);
    assert_eq!(ordered.len(), 0);
}

#[test]
fn test_central_move_detection() {
    let integrator = PatternSearchIntegrator::new();
    let central_move = Move::new_move(
        Position::new(6, 4),
        Position::new(4, 4),
        PieceType::Knight,
        Player::Black,
        false,
    );
    assert!(integrator.is_central_move(&central_move));
    let edge_move = Move::new_move(
        Position::new(6, 0),
        Position::new(4, 0),
        PieceType::Lance,
        Player::Black,
        false,
    );
    assert!(!integrator.is_central_move(&edge_move));
}

#[test]
fn test_pruning_decision() {
    let mut integrator = PatternSearchIntegrator::new();
    let board = Board::new();
    let _should_prune = integrator.should_prune_by_patterns(&board, Player::Black, 2, 100, 150);
    assert_eq!(integrator.stats().prune_checks, 1);
}

#[test]
fn test_quiescence_evaluation() {
    let mut integrator = PatternSearchIntegrator::new();
    let board = Board::new();
    let score = integrator.evaluate_in_quiescence(&board, Player::Black);
    assert_eq!(integrator.stats().quiescence_evals, 1);
    assert_eq!(score, 0);
}

#[test]
fn pattern_search_integration_test_statistics_tracking() {
    let mut integrator = PatternSearchIntegrator::new();
    let board = Board::new();
    let _ = integrator.order_moves_by_patterns(&board, &[], Player::Black);
    let _ = integrator.should_prune_by_patterns(&board, Player::Black, 2, 100, 150);
    let _ = integrator.evaluate_in_quiescence(&board, Player::Black);
    let stats = integrator.stats();
    assert_eq!(stats.move_orderings, 1);
    assert_eq!(stats.prune_checks, 1);
    assert_eq!(stats.quiescence_evals, 1);
}

#[test]
fn pattern_search_integration_test_reset_statistics() {
    let mut integrator = PatternSearchIntegrator::new();
    let board = Board::new();
    let _ = integrator.order_moves_by_patterns(&board, &[], Player::Black);
    integrator.reset_stats();
    assert_eq!(integrator.stats().move_orderings, 0);
}

#[test]
fn test_config_defaults() {
    let config = PatternSearchConfig::default();
    assert_eq!(config.fork_bonus, 200);
    assert_eq!(config.capture_bonus, 100);
    assert_eq!(config.promotion_bonus, 150);
}

#[test]
fn moves_come_out_by_descending_bonus_stably() {
    let mut integrator = PatternSearchIntegrator::new();
    let board = Board::new();
    let quiet = Move::new_move(Position::new(6, 0), Position::new(6, 1), PieceType::Rook, Player::Black, false);
    let forward = Move::new_move(Position::new(6, 0), Position::new(5, 0), PieceType::Pawn, Player::Black, false);
    let central = Move::new_move(Position::new(6, 4), Position::new(5, 4), PieceType::Pawn, Player::Black, false);
    let mut capture = Move::new_move(Position::new(6, 8), Position::new(6, 7), PieceType::Rook, Player::Black, false);
    capture.is_capture = true;
    let promote = Move::new_move(Position::new(3, 0), Position::new(2, 0), PieceType::Pawn, Player::Black, true);
    let quiet_too = Move::new_move(Position::new(7, 7), Position::new(7, 6), PieceType::Rook, Player::Black, false);
    let moves = vec![quiet, forward, central, capture, promote, quiet_too];
    let ordered = integrator.order_moves_by_patterns(&board, &moves, Player::Black);
    let scores: Vec<i32> = ordered.iter().map(|(_, s)| *s).collect();
    assert_eq!(scores, vec![180, 100, 80, 30, 0, 0]);
    assert_eq!(ordered[0].0, promote);
    assert_eq!(ordered[1].0, capture);
    assert_eq!(ordered[2].0, central);
    assert_eq!(ordered[3].0, forward);
    assert_eq!(ordered[4].0, quiet);
    assert_eq!(ordered[5].0, quiet_too);
}

#[test]
fn pruning_needs_shallow_depth_and_narrow_window() {
    let mut integrator = PatternSearchIntegrator::new();
    let board = Board::new();
    assert!(integrator.should_prune_by_patterns(&board, Player::Black, 2, 100, 150));
    assert!(!integrator.should_prune_by_patterns(&board, Player::Black, 3, 100, 150));
    assert!(!integrator.should_prune_by_patterns(&board, Player::Black, 1, 0, 200));
    assert_eq!(integrator.stats().prune_checks, 3);
    assert_eq!(integrator.stats().pruned_positions, 1);
}

#[test]
fn drops_count_as_advancing_from_the_home_square() {
    let integrator = PatternSearchIntegrator::new();
    let drop = Move::new_drop(PieceType::Silver, Position::new(7, 4), Player::Black);
    assert!(integrator.improves_activity(&drop, Player::Black));
    let white_drop = Move::new_drop(PieceType::Silver, Position::new(0, 4), Player::White);
    assert!(!integrator.improves_activity(&white_drop, Player::White));
}
