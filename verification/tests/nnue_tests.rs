use rand_distr::{Distribution, Normal};
use shogi_engine::board::Board;
use shogi_engine::nnue::{
    feature_index, NNUEAccumulator, NNUEEvaluator, NNUEWeights, NUM_NNUE_FEATURES_TOTAL,
    STM_FEATURE_INDEX,
};
use shogi_engine::types::{Piece, PieceType, Player, Position};

fn weight_sampler() -> impl Fn() -> i16 {
    let dist = Normal::new(0.0, 0.01).unwrap();
    move || {
        let w: f64 = dist.sample(&mut rand::thread_rng());
        (w * 100.0).clamp(-127.0, 127.0) as i16
    }
}

fn bias_sampler() -> impl Fn() -> i32 {
    let dist = Normal::new(0.0, 10.0).unwrap();
    move || {
        let b: f64 = dist.sample(&mut rand::thread_rng());
        b.clamp(-32768.0, 32767.0) as i32
    }
}

fn random_weights(h1: usize, h2: usize) -> NNUEWeights {
    NNUEWeights::new(h1, h2, weight_sampler(), bias_sampler())
}

/// Black's pawn in front of the king steps forward.
fn first_move(board: &mut Board) -> (Position, Position, Option<Piece>) {
    let from = Position::new(6, 4);
    let to = Position::new(5, 4);
    let captured = board.remove_piece(to);
    let piece = board.remove_piece(from).unwrap();
    board.place_piece(piece, to);
    (from, to, captured)
}

fn undo_first_move(board: &mut Board, from: Position, to: Position, captured: Option<Piece>) {
    let piece = board.remove_piece(to).unwrap();
    board.place_piece(piece, from);
    if let Some(c) = captured {
        board.place_piece(c, to);
    }
}

#[test]
fn test_feature_index() {
    let idx1 = feature_index(Player::Black, PieceType::King, 0);
    let idx2 = feature_index(Player::Black, PieceType::King, 1);
    assert_ne!(idx1, idx2);

    let idx3 = feature_index(Player::White, PieceType::King, 0);
    assert_ne!(idx1, idx3);

    let idx4 = feature_index(Player::Black, PieceType::Pawn, 0);
    assert_ne!(idx1, idx4);
}

#[test]
fn test_nnue_weights() {
    let weights = random_weights(256, 32);
    assert_eq!(weights.input_weights_1.len(), NUM_NNUE_FEATURES_TOTAL);
    assert_eq!(weights.hidden_biases_1.len(), 256);
    assert_eq!(weights.hidden_biases_2.as_ref().unwrap().len(), 32);
    assert_eq!(weights.output_weights.len(), 32);
}

#[test]
fn test_nnue_accumulator() {
    let _weights = random_weights(256, 32);
    let acc = NNUEAccumulator::new(256, 32);
    assert_eq!(acc.hidden_1.len(), 256);
    assert_eq!(acc.hidden_2.as_ref().unwrap().len(), 32);
}

#[test]
fn test_nnue_incremental_matches_full_refresh() {
    let weights = random_weights(256, 32);
    let mut board = Board::new();

    let mut evaluator = NNUEEvaluator::from_weights(weights.clone());
    evaluator.refresh_accumulator(&board, Player::Black);
    let score_before = evaluator.evaluate_incremental(&board);

    let (from, to, captured) = first_move(&mut board);
    let pawn = Piece::new(PieceType::Pawn, Player::Black);
    evaluator.nnue_make_move(Some(from), to, pawn, pawn, captured, false);
    let score_incremental = evaluator.evaluate_incremental(&board);

    let mut fresh_evaluator = NNUEEvaluator::from_weights(weights.clone());
    fresh_evaluator.refresh_accumulator(&board, Player::White);
    let score_full_refresh = fresh_evaluator.evaluate_incremental(&board);

    assert_eq!(
        score_incremental, score_full_refresh,
        "Incremental evaluation ({}) should match full refresh ({})",
        score_incremental, score_full_refresh
    );

    evaluator.nnue_unmake_move();
    undo_first_move(&mut board, from, to, captured);
    let score_after_unmake = evaluator.evaluate_incremental(&board);

    assert_eq!(
        score_before, score_after_unmake,
        "Score after unmake ({}) should match original ({})",
        score_after_unmake, score_before
    );
}

#[test]
fn test_stm_incremental_matches_full_refresh() {
    let mut weights = random_weights(256, 32);
    for (i, w) in weights.input_weights_1[STM_FEATURE_INDEX].iter_mut().enumerate() {
        *w = if i % 2 == 0 { 100 } else { -100 };
    }

    let mut board = Board::new();

    let mut evaluator = NNUEEvaluator::from_weights(weights.clone());
    evaluator.set_use_stm_feature(true);
    evaluator.refresh_accumulator(&board, Player::Black);
    let score_black_to_move = evaluator.evaluate_incremental(&board);
    let mut stmless = NNUEEvaluator::from_weights(weights.clone());
    stmless.refresh_accumulator(&board, Player::Black);
    assert_ne!(
        evaluator.accumulator().hidden_1,
        stmless.accumulator().hidden_1,
        "stm-on and stm-off accumulators should differ when the stm row is non-zero"
    );

    let (from, to, captured) = first_move(&mut board);
    let pawn = Piece::new(PieceType::Pawn, Player::Black);
    evaluator.nnue_make_move(Some(from), to, pawn, pawn, captured, false);
    let score_incremental = evaluator.evaluate_incremental(&board);

    let mut fresh = NNUEEvaluator::from_weights(weights.clone());
    fresh.set_use_stm_feature(true);
    fresh.refresh_accumulator(&board, Player::White);
    let score_full_refresh = fresh.evaluate_incremental(&board);
    assert_eq!(
        score_incremental, score_full_refresh,
        "stm-aware incremental ({}) must match full refresh ({}) after Black's move",
        score_incremental, score_full_refresh
    );

    evaluator.nnue_unmake_move();
    undo_first_move(&mut board, from, to, captured);
    let score_after_unmake = evaluator.evaluate_incremental(&board);
    assert_eq!(
        score_after_unmake, score_black_to_move,
        "score after unmake ({}) must restore the pre-move stm-on score ({})",
        score_after_unmake, score_black_to_move
    );
}

#[test]
fn incremental_add_then_remove_restores_accumulator() {
    let weights = random_weights(64, 0);
    let board = Board::new();
    let mut acc = NNUEAccumulator::new(64, 0);
    acc.refresh(&board, &weights);
    let before = acc.hidden_1.clone();
    let piece = Piece::new(PieceType::Gold, Player::White);
    let square = Position::new(4, 4);
    acc.add_piece(piece, square, &weights);
    acc.remove_piece(piece, square, &weights);
    assert_eq!(acc.hidden_1, before);
}

#[test]
fn evaluate_matches_refresh_then_forward_pass() {
    let weights = random_weights(256, 32);
    let board = Board::new();
    let (h1, h2) = weights.hidden_sizes();
    assert_eq!((h1, h2), (256, 32));
    let mut acc = NNUEAccumulator::new(h1, h2);
    acc.refresh(&board, &weights);
    let path_a = acc.evaluate(&weights);
    let mut evaluator = NNUEEvaluator::from_weights(weights.clone());
    let path_b = evaluator.evaluate_incremental(&board);
    assert_eq!(path_a, path_b);
}

#[test]
fn disabled_evaluator_reports_zero() {
    let mut evaluator = NNUEEvaluator::from_weights(random_weights(32, 0));
    evaluator.set_enabled(false);
    assert!(!evaluator.is_enabled());
    let board = Board::new();
    let captured = shogi_engine::types::CapturedPieces::new();
    assert_eq!(evaluator.evaluate(&board, Player::Black, &captured), 0);
}

#[test]
fn full_evaluation_with_side_to_move_matches_fresh_accumulator() {
    let weights = random_weights(64, 16);
    let board = Board::new();
    let (h1, h2) = weights.hidden_sizes();
    let mut acc = NNUEAccumulator::new(h1, h2);
    acc.refresh_with_stm(&board, Player::Black, &weights);
    let expected = acc.evaluate(&weights);
    let mut evaluator = NNUEEvaluator::from_weights(weights.clone());
    evaluator.set_use_stm_feature(true);
    let captured = shogi_engine::types::CapturedPieces::new();
    assert_eq!(evaluator.evaluate(&board, Player::Black, &captured), expected);
    assert!(!evaluator.needs_refresh());
}
