use shogi_engine::board::Board;
use shogi_engine::opening_principles::{OpeningPrincipleConfig, OpeningPrincipleEvaluator};
use shogi_engine::types::{CapturedPieces, Move, Piece, PieceType, Player, Position};

#[test]
fn test_opening_evaluator_creation() {
    let evaluator = OpeningPrincipleEvaluator::new();
    assert!(evaluator.config.enable_development);
}

#[test]
fn test_center_control_opening() {
    let evaluator = OpeningPrincipleEvaluator::new();
    let board = Board::new();
    let score = evaluator.evaluate_center_control_opening(&board, Player::Black);
    assert!(score.mg.abs() < 50);
}

#[test]
fn test_castle_formation() {
    let evaluator = OpeningPrincipleEvaluator::new();
    let board = Board::new();
    let score = evaluator.evaluate_castle_formation(&board, Player::Black);
    assert!(score.mg > 0);
}

#[test]
fn test_tempo_evaluation() {
    let evaluator = OpeningPrincipleEvaluator::new();
    let board = Board::new();
    let score = evaluator.evaluate_tempo(&board, Player::Black, 5);
    assert!(score.mg >= 10);
}

#[test]
fn test_opening_penalties() {
    let evaluator = OpeningPrincipleEvaluator::new();
    let board = Board::new();
    let score = evaluator.evaluate_opening_penalties(&board, Player::Black, 5, None);
    assert!(score.mg >= -50);
}

#[test]
fn test_is_castle_position() {
    let evaluator = OpeningPrincipleEvaluator::new();
    assert!(evaluator.is_castle_position(Position::new(8, 1), Player::Black));
    assert!(evaluator.is_castle_position(Position::new(7, 7), Player::Black));
    assert!(!evaluator.is_castle_position(Position::new(4, 4), Player::Black));
}

#[test]
fn test_opening_center_values() {
    let evaluator = OpeningPrincipleEvaluator::new();
    assert_eq!(evaluator.get_opening_center_value(PieceType::Bishop), 40);
    assert_eq!(evaluator.get_opening_center_value(PieceType::Knight), 35);
    assert_eq!(evaluator.get_opening_center_value(PieceType::Pawn), 20);
}

#[test]
fn test_complete_opening_evaluation() {
    let mut evaluator = OpeningPrincipleEvaluator::new();
    let board = Board::new();
    let score = evaluator.evaluate_opening(&board, Player::Black, 5, None, None);
    assert!(score.mg > 0);
}

#[test]
fn test_statistics() {
    let mut evaluator = OpeningPrincipleEvaluator::new();
    let board = Board::new();
    assert_eq!(evaluator.stats().evaluations, 0);
    evaluator.evaluate_opening(&board, Player::Black, 5, None, None);
    assert_eq!(evaluator.stats().evaluations, 1);
}

#[test]
fn opening_principles_test_config_options() {
    let config = OpeningPrincipleConfig {
        enable_development: true,
        enable_center_control: false,
        enable_castle_formation: true,
        enable_tempo: false,
        enable_opening_penalties: true,
        enable_piece_coordination: true,
        enable_attack_based_center_control: true,
        enable_drop_pressure_evaluation: true,
    };
    let evaluator = OpeningPrincipleEvaluator::with_config(config);
    assert!(evaluator.config.enable_development);
    assert!(!evaluator.config.enable_center_control);
}

#[test]
fn opening_principles_test_evaluation_consistency() {
    let mut evaluator = OpeningPrincipleEvaluator::new();
    let board = Board::new();
    let score1 = evaluator.evaluate_opening(&board, Player::Black, 5, None, None);
    let score2 = evaluator.evaluate_opening(&board, Player::Black, 5, None, None);
    assert_eq!(score1.mg, score2.mg);
    assert_eq!(score1.eg, score2.eg);
}

#[test]
fn test_move_count_effects() {
    let mut evaluator = OpeningPrincipleEvaluator::new();
    let board = Board::new();
    let early_score = evaluator.evaluate_opening(&board, Player::Black, 5, None, None);
    let late_score = evaluator.evaluate_opening(&board, Player::Black, 20, None, None);
    assert!(early_score.mg >= 0);
    assert!(late_score.mg >= 0);
}

// Exact values on the initial position, worked out by hand from the rules.

#[test]
fn initial_position_parts_have_exact_values() {
    let mut evaluator = OpeningPrincipleEvaluator::new();
    let board = Board::new();
    // Every piece is still on its starting square: nothing is developed.
    let major = evaluator.evaluate_major_piece_development(&board, Player::Black);
    assert_eq!((major.mg, major.eg), (0, 0));
    let minor = evaluator.evaluate_minor_piece_development(&board, Player::Black);
    assert_eq!((minor.mg, minor.eg), (0, 0));
    assert_eq!(evaluator.count_developed_pieces(&board, Player::Black), 0);
    let dev = evaluator.evaluate_development(&board, Player::Black, 5);
    assert_eq!((dev.mg, dev.eg), (0, 0));
    // Two golds (25 each) and two silvers (22 each) near the king.
    let castle = evaluator.evaluate_castle_formation(&board, Player::Black);
    assert_eq!((castle.mg, castle.eg), (94, 23));
    let tempo = evaluator.evaluate_tempo(&board, Player::Black, 5);
    assert_eq!((tempo.mg, tempo.eg), (10, 2));
    // Two gold-silver pairs by the king.
    let coord = evaluator.evaluate_piece_coordination(&board, Player::Black);
    assert_eq!((coord.mg, coord.eg), (30, 7));
    let center = evaluator.evaluate_center_control_opening(&board, Player::Black);
    assert_eq!((center.mg, center.eg), (0, 0));
    let total = evaluator.evaluate_opening(&board, Player::Black, 5, None, None);
    assert_eq!(total.mg, 94 + 10 + 30);
    assert_eq!(evaluator.stats().development_score, 0);
    assert_eq!(evaluator.stats().castle_formation_evaluations, 1);
}

#[test]
fn moved_pieces_count_as_developed() {
    let evaluator = OpeningPrincipleEvaluator::new();
    let mut board = Board::new();
    // Rook from 7,7 to 7,5, silver from 8,2 to 7,2, gold from 8,5 to 7,6.
    board.remove_piece(Position::new(7, 7));
    board.place_piece(Piece::new(PieceType::Rook, Player::Black), Position::new(7, 5));
    board.remove_piece(Position::new(8, 2));
    board.place_piece(Piece::new(PieceType::Silver, Player::Black), Position::new(7, 2));
    board.remove_piece(Position::new(8, 5));
    board.place_piece(Piece::new(PieceType::Gold, Player::Black), Position::new(7, 6));
    assert_eq!(evaluator.count_developed_pieces(&board, Player::Black), 3);
    let major = evaluator.evaluate_major_piece_development(&board, Player::Black);
    assert_eq!((major.mg, major.eg), (35, 8));
    let minor = evaluator.evaluate_minor_piece_development(&board, Player::Black);
    assert_eq!((minor.mg, minor.eg), (22 + 18, 10));
    let dev = evaluator.evaluate_development(&board, Player::Black, 5);
    assert_eq!((dev.mg, dev.eg), (35 + 40 + 45, 8 + 10 + 15));
}

#[test]
fn opening_principles_test_development_evaluation() {
    let evaluator = OpeningPrincipleEvaluator::new();
    let board = Board::new();

    let score = evaluator.evaluate_development(&board, Player::Black, 5);

    // Starting position has no development
    assert_eq!(score.mg, 0);
}

#[test]
fn test_count_developed_pieces() {
    let evaluator = OpeningPrincipleEvaluator::new();
    let board = Board::new();

    let count = evaluator.count_developed_pieces(&board, Player::Black);

    // Starting position has no developed pieces
    assert_eq!(count, 0);
}

#[test]
fn test_major_vs_minor_development() {
    let evaluator = OpeningPrincipleEvaluator::new();
    let board = Board::new();

    let major = evaluator.evaluate_major_piece_development(&board, Player::Black);
    let minor = evaluator.evaluate_minor_piece_development(&board, Player::Black);

    // Starting position has no development
    assert_eq!(major.mg, 0);
    assert_eq!(minor.mg, 0);
}

#[test]
fn occupied_centre_counts_for_and_against() {
    let evaluator = OpeningPrincipleEvaluator::with_config(OpeningPrincipleConfig {
        enable_attack_based_center_control: false,
        ..OpeningPrincipleConfig::default()
    });
    let mut board = Board::empty();
    board.place_piece(Piece::new(PieceType::Bishop, Player::Black), Position::new(4, 4));
    board.place_piece(Piece::new(PieceType::Pawn, Player::White), Position::new(3, 4));
    let score = evaluator.evaluate_center_control_opening(&board, Player::Black);
    // 40 for the bishop on the core, minus two thirds of 20 for the pawn.
    assert_eq!(score.mg, 40 - 13);
    assert_eq!(score.eg, 13 - 4);
}

#[test]
fn attacks_on_the_centre_are_counted() {
    let evaluator = OpeningPrincipleEvaluator::new();
    let mut board = Board::empty();
    // A black rook on (4,0) sweeps (4,3), (4,4) and (4,5).
    board.place_piece(Piece::new(PieceType::Rook, Player::Black), Position::new(4, 0));
    let attacks = evaluator.evaluate_center_control_via_attacks(&board, Player::Black);
    assert_eq!(attacks.mg, 5 + 8 + 5);
    assert_eq!(attacks.eg, 1 + 2 + 1);
    let against = evaluator.evaluate_center_control_via_attacks(&board, Player::White);
    assert_eq!(against.mg, -18);
    assert_eq!(against.eg, -4);
}

#[test]
fn pieces_in_hand_press_on_the_centre() {
    let evaluator = OpeningPrincipleEvaluator::new();
    let board = Board::empty();
    let mut hand = CapturedPieces::new();
    hand.add_piece(PieceType::Gold, Player::Black);
    let score = evaluator.evaluate_drop_pressure_on_center(&board, Player::Black, &hand);
    // A gold dropped on any centre square attacks another centre square:
    // 6 on the core, 4 on each of the other eight squares.
    assert_eq!(score.mg, 6 + 8 * 4);
    assert_eq!(score.eg, 1 + 8);
}

#[test]
fn repeated_piece_moves_are_penalised() {
    let evaluator = OpeningPrincipleEvaluator::new();
    let a = Position::new(6, 4);
    let b = Position::new(5, 4);
    let history = vec![
        Move::new_move(a, b, PieceType::Silver, Player::Black, false),
        Move::new_move(a, b, PieceType::Silver, Player::Black, false),
        Move::new_move(a, b, PieceType::Silver, Player::White, false),
        Move::new_move(a, b, PieceType::Silver, Player::Black, false),
    ];
    // The second black move costs 15, the third 30.
    assert_eq!(evaluator.detect_repeated_piece_moves(&history, Player::Black), 45);
    assert_eq!(evaluator.detect_repeated_piece_moves(&history, Player::White), 0);
    let board = Board::new();
    let score = evaluator.evaluate_opening_penalties(&board, Player::Black, 5, Some(&history));
    assert_eq!((score.mg, score.eg), (-45, -9));
}

#[test]
fn early_king_walk_fails_validation() {
    let mut evaluator = OpeningPrincipleEvaluator::new();
    let board = Board::new();
    let king_up = Move::new_move(Position::new(8, 4), Position::new(7, 4), PieceType::King, Player::Black, false);
    assert!(!evaluator.validate_book_move(&board, Player::Black, &king_up, 3));
    assert!(evaluator.validate_book_move(&board, Player::Black, &king_up, 11));
    let pawn_push = Move::new_move(Position::new(6, 6), Position::new(5, 6), PieceType::Pawn, Player::Black, false);
    assert!(evaluator.validate_book_move(&board, Player::Black, &pawn_push, 3));
    assert_eq!(evaluator.stats().book_moves_validated, 3);
}

#[test]
fn book_move_quality_is_the_evaluation_after_the_move() {
    let mut evaluator = OpeningPrincipleEvaluator::new();
    let board = Board::new();
    let hand = CapturedPieces::new();
    let silver_up = Move::new_move(Position::new(8, 2), Position::new(7, 3), PieceType::Silver, Player::Black, false);
    let quality = evaluator.evaluate_book_move_quality(&board, Player::Black, &silver_up, &hand, 4);

    let mut after = board;
    after.make_move(&silver_up);
    let mut fresh = OpeningPrincipleEvaluator::new();
    let expected = fresh.evaluate_opening(&after, Player::Black, 5, Some(&hand), None);
    assert_eq!(quality, expected.mg);
    assert_eq!(evaluator.stats().book_moves_evaluated, 1);
    assert_eq!(evaluator.stats().book_move_quality_scores, quality as i64);
}

#[test]
fn reset_stats_zeroes_counters() {
    let mut evaluator = OpeningPrincipleEvaluator::new();
    let board = Board::new();
    evaluator.evaluate_opening(&board, Player::White, 2, None, None);
    evaluator.stats_mut().book_moves_prioritized = 7;
    assert_eq!(evaluator.stats().book_moves_prioritized, 7);
    evaluator.reset_stats();
    assert_eq!(evaluator.stats().evaluations, 0);
    assert_eq!(evaluator.stats().book_moves_prioritized, 0);
}

#[test]
fn back_rank_moves_do_not_count_as_development() {
    let evaluator = OpeningPrincipleEvaluator::new();
    let mut board = Board::new();
    // Gold from 8,3 along the back rank is still undeveloped; so is a bishop
    // that went back to the back rank. A rook on the back rank away from the
    // corners counts 10.
    board.remove_piece(Position::new(8, 3));
    board.place_piece(Piece::new(PieceType::Gold, Player::Black), Position::new(7, 3));
    board.remove_piece(Position::new(7, 3));
    board.place_piece(Piece::new(PieceType::Gold, Player::Black), Position::new(8, 3));
    board.remove_piece(Position::new(8, 5));
    board.remove_piece(Position::new(7, 1));
    board.place_piece(Piece::new(PieceType::Gold, Player::Black), Position::new(8, 5));
    board.remove_piece(Position::new(8, 2));
    board.place_piece(Piece::new(PieceType::Bishop, Player::Black), Position::new(8, 2));
    board.remove_piece(Position::new(7, 7));
    board.remove_piece(Position::new(8, 6));
    board.place_piece(Piece::new(PieceType::Rook, Player::Black), Position::new(8, 6));
    assert_eq!(evaluator.count_developed_pieces(&board, Player::Black), 0);
    let minor = evaluator.evaluate_minor_piece_development(&board, Player::Black);
    assert_eq!(minor.mg, 0);
    let major = evaluator.evaluate_major_piece_development(&board, Player::Black);
    assert_eq!(major.mg, 10);
}
