use shogi_engine::board::Board;
use shogi_engine::material::{calculate_game_phase, MaterialEvaluationConfig, MaterialEvaluator};
use shogi_engine::performance::{OptimizedEvaluator, PerformanceProfiler};
use shogi_engine::types::{CapturedPieces, Piece, PieceType, Player, Position};

#[test]
fn test_optimized_evaluator_creation() {
    let evaluator = OptimizedEvaluator::new();
    assert!(!evaluator.profiler().enabled);
}

#[test]
fn test_optimized_evaluation() {
    let mut evaluator = OptimizedEvaluator::new();
    let board = Board::new();
    let captured_pieces = CapturedPieces::new();
    let score = evaluator.evaluate_optimized(&board, Player::Black, &captured_pieces);
    assert!(score.abs() < 100000);
}

#[test]
fn test_profiler_disabled_by_default() {
    let profiler = PerformanceProfiler::new();
    assert!(!profiler.enabled);
}

#[test]
fn test_profiler_enable_disable() {
    let mut profiler = PerformanceProfiler::new();
    assert!(!profiler.enabled);
    profiler.enable();
    assert!(profiler.enabled);
    profiler.disable();
    assert!(!profiler.enabled);
}

#[test]
fn test_profiler_scoped_enable_guard() {
    let mut profiler = PerformanceProfiler::new();
    {
        let guard = profiler.scoped_enable();
        assert!(guard.profiler().enabled);
    }
    assert!(!profiler.enabled);

    profiler.enable();
    {
        let guard = profiler.scoped_enable();
        assert!(guard.profiler().enabled);
    }
    assert!(profiler.enabled);
}

#[test]
fn test_profiler_reset() {
    let mut profiler = PerformanceProfiler::new();
    profiler.enable();
    profiler.record_evaluation(1000);
    assert_eq!(profiler.sample_count(), 1);
    profiler.reset();
    assert_eq!(profiler.sample_count(), 0);
}

#[test]
fn test_optimized_evaluation_consistency() {
    let mut evaluator = OptimizedEvaluator::new();
    let board = Board::new();
    let captured_pieces = CapturedPieces::new();
    let score1 = evaluator.evaluate_optimized(&board, Player::Black, &captured_pieces);
    let score2 = evaluator.evaluate_optimized(&board, Player::Black, &captured_pieces);
    assert_eq!(score1, score2);
}

#[test]
fn test_max_samples_limit() {
    let mut profiler = PerformanceProfiler::new();
    profiler.enable();
    for i in 0..11000 {
        profiler.record_evaluation(i);
    }
    assert_eq!(profiler.sample_count(), profiler.max_samples);
}

#[test]
fn test_evaluation_performance() {
    let mut evaluator = OptimizedEvaluator::new();
    let board = Board::new();
    let captured_pieces = CapturedPieces::new();
    let start = std::time::Instant::now();
    for _ in 0..1000 {
        evaluator.evaluate_optimized(&board, Player::Black, &captured_pieces);
    }
    let duration = start.elapsed();
    assert!(duration.as_millis() < 10);
}

// Further cases on concrete values.

#[test]
fn profiler_records_each_call_at_rate_one() {
    let mut profiler = PerformanceProfiler::new();
    profiler.enable();
    profiler.record_evaluation(1000);
    profiler.record_evaluation(1500);
    profiler.record_evaluation(1200);
    assert_eq!(profiler.sample_count(), 3);
    assert_eq!(profiler.evaluation_times, vec![1000, 1500, 1200]);
    assert_eq!(profiler.profiling_operations, 3);
}

#[test]
fn disabled_profiler_records_nothing() {
    let mut profiler = PerformanceProfiler::new();
    profiler.record_evaluation(1000);
    profiler.record_phase_calculation(200);
    profiler.record_pst_lookup(300);
    profiler.record_pst_score(5, 6);
    profiler.record_interpolation(100);
    assert_eq!(profiler.sample_count(), 0);
    assert!(profiler.phase_calc_times.is_empty());
    assert!(profiler.pst_lookup_times.is_empty());
    assert!(profiler.pst_mg_totals.is_empty());
    assert!(profiler.interpolation_times.is_empty());
    assert_eq!(profiler.profiling_operations, 0);
}

#[test]
fn sampling_every_second_call() {
    let mut profiler = PerformanceProfiler::with_sample_rate(2);
    profiler.enable();
    profiler.record_operation("probe", 1);
    profiler.record_operation("probe", 2);
    profiler.record_operation("probe", 3);
    profiler.record_operation("probe", 4);
    assert_eq!(profiler.profiling_operations, 2);
}

#[test]
fn sample_rate_is_at_least_one() {
    let mut profiler = PerformanceProfiler::new();
    profiler.set_sample_rate(0);
    assert_eq!(profiler.sample_rate, 1);
    profiler.set_sample_rate(5);
    assert_eq!(profiler.sample_rate, 5);
}

#[test]
fn pst_scores_are_recorded_in_pairs() {
    let mut profiler = PerformanceProfiler::new();
    profiler.enable();
    profiler.record_pst_score(10, -4);
    assert_eq!(profiler.pst_mg_totals, vec![10]);
    assert_eq!(profiler.pst_eg_totals, vec![-4]);
}

#[test]
fn starting_position_is_balanced() {
    let mut evaluator = OptimizedEvaluator::new();
    let board = Board::new();
    let captured_pieces = CapturedPieces::new();
    assert_eq!(evaluator.evaluate_optimized(&board, Player::Black, &captured_pieces), 0);
    assert_eq!(evaluator.evaluate_optimized(&board, Player::White, &captured_pieces), 0);
}

#[test]
fn extra_rook_is_an_advantage() {
    let mut evaluator = OptimizedEvaluator::new();
    let mut board = Board::empty();
    board.place_piece(Piece::new(PieceType::King, Player::Black), Position::new(8, 4));
    board.place_piece(Piece::new(PieceType::King, Player::White), Position::new(0, 4));
    board.place_piece(Piece::new(PieceType::Rook, Player::Black), Position::new(7, 7));
    let captured_pieces = CapturedPieces::new();
    let black = evaluator.evaluate_optimized(&board, Player::Black, &captured_pieces);
    let white = evaluator.evaluate_optimized(&board, Player::White, &captured_pieces);
    assert!(black > 0);
    assert_eq!(black, -white);
}

#[test]
fn enabled_evaluator_profiles_each_stage() {
    let mut evaluator = OptimizedEvaluator::new();
    evaluator.profiler_mut().enable();
    let board = Board::new();
    let captured_pieces = CapturedPieces::new();
    for _ in 0..10 {
        evaluator.evaluate_optimized(&board, Player::Black, &captured_pieces);
    }
    assert_eq!(evaluator.profiler().sample_count(), 10);
    assert_eq!(evaluator.profiler().phase_calc_times.len(), 10);
    assert_eq!(evaluator.profiler().pst_lookup_times.len(), 10);
    assert_eq!(evaluator.profiler().interpolation_times.len(), 10);
    assert_eq!(evaluator.profiler().pst_mg_totals, vec![0; 10]);
    evaluator.reset_profiler();
    assert_eq!(evaluator.profiler().sample_count(), 0);
    assert_eq!(evaluator.profiler().profiling_operations, 0);
}

#[test]
fn material_counts_hand_pieces_when_configured() {
    let board = Board::empty();
    let mut hand = CapturedPieces::new();
    hand.add_piece(PieceType::Rook, Player::Black);
    let with_hand = MaterialEvaluator::with_config(MaterialEvaluationConfig { include_hand_pieces: true });
    let without_hand = MaterialEvaluator::with_config(MaterialEvaluationConfig { include_hand_pieces: false });
    let a = with_hand.evaluate_material(&board, Player::Black, &hand);
    let b = without_hand.evaluate_material(&board, Player::Black, &hand);
    assert_eq!((a.mg, a.eg), (1000, 1100));
    assert_eq!((b.mg, b.eg), (0, 0));
}

#[test]
fn game_phase_of_start_and_empty_board() {
    assert_eq!(calculate_game_phase(&Board::new()), 256);
    assert_eq!(calculate_game_phase(&Board::empty()), 0);
}
