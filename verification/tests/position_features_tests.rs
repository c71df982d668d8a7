use shogi_engine::board::Board;
use shogi_engine::king_safety::king_shield_score;
use shogi_engine::pawn_structure::{
    evaluate_doubled_pawns, evaluate_pawn_advancement, evaluate_pawn_chains, is_passed_pawn,
    is_pawn_isolated,
};
use shogi_engine::position_features::{
    DropMobilityStats, PieceMobilityStats, PositionFeatureConfig, PositionFeatureEvaluator,
};
use shogi_engine::types::{CapturedPieces, Piece, PieceType, Player, Position};

#[test]
fn test_position_feature_evaluator_creation() {
    let evaluator = PositionFeatureEvaluator::new();
    assert!(evaluator.config().enable_king_safety);
}

#[test]
fn test_king_safety_evaluation() {
    let mut evaluator = PositionFeatureEvaluator::new();
    let board = Board::new();
    let captured_pieces = CapturedPieces::new();
    let score = evaluator.evaluate_king_safety(&board, Player::Black, &captured_pieces);
    assert!(score.mg > 0 || score.eg > 0);
}

#[test]
fn test_pawn_structure_evaluation() {
    let mut evaluator = PositionFeatureEvaluator::new();
    let board = Board::new();
    let captured_pieces = CapturedPieces::new();
    let score = evaluator.evaluate_pawn_structure(&board, Player::Black, &captured_pieces, false);
    assert!(score.mg >= 0);
}

#[test]
fn test_pawn_advancement() {
    let pawns = vec![Position::new(1, 4)];
    let advancement = evaluate_pawn_advancement(&pawns, Player::Black);
    assert!(advancement.mg > 0);
    assert!(advancement.eg > advancement.mg);
}

#[test]
fn test_isolated_pawn_detection() {
    let board = Board::empty();
    let pawn_pos = Position::new(4, 4);
    assert!(is_pawn_isolated(&board, pawn_pos, Player::Black));
}

#[test]
fn test_passed_pawn_detection() {
    let board = Board::empty();
    let pawn_pos = Position::new(4, 4);
    assert!(is_passed_pawn(&board, pawn_pos, Player::Black));
}

#[test]
fn test_king_shield_evaluation() {
    let mut evaluator = PositionFeatureEvaluator::new();
    let board = Board::new();
    let king_pos = evaluator.find_king_position(&board, Player::Black).unwrap();
    let shield = king_shield_score(&board, king_pos, Player::Black);
    assert!(shield.mg > 0);
}

#[test]
fn position_features_test_reset_statistics() {
    let mut evaluator = PositionFeatureEvaluator::new();
    let board = Board::new();
    let captured_pieces = CapturedPieces::new();
    evaluator.evaluate_king_safety(&board, Player::Black, &captured_pieces);
    assert_eq!(evaluator.stats().king_safety_evals, 1);
    evaluator.reset_stats();
    assert_eq!(evaluator.stats().king_safety_evals, 0);
}

#[test]
fn position_features_test_config_options() {
    let config = PositionFeatureConfig {
        enable_king_safety: true,
        enable_pawn_structure: false,
        enable_mobility: true,
        enable_center_control: false,
        enable_development: true,
    };
    let evaluator = PositionFeatureEvaluator::with_config(config);
    assert!(evaluator.config().enable_king_safety);
    assert!(!evaluator.config().enable_pawn_structure);
}

#[test]
fn position_features_test_evaluation_consistency() {
    let mut evaluator = PositionFeatureEvaluator::new();
    let board = Board::new();
    let captured_pieces = CapturedPieces::new();
    let score1 = evaluator.evaluate_mobility(&board, Player::Black, &captured_pieces);
    let score2 = evaluator.evaluate_mobility(&board, Player::Black, &captured_pieces);
    assert_eq!(score1.mg, score2.mg);
    assert_eq!(score1.eg, score2.eg);
}

#[test]
fn test_doubled_pawns_penalty() {
    let pawns = vec![Position::new(3, 4), Position::new(5, 4)];
    let doubled = evaluate_doubled_pawns(&pawns);
    assert!(doubled.mg < 0);
    assert!(doubled.eg < 0);
    assert!(doubled.eg < doubled.mg);
}

#[test]
fn test_center_control_symmetry() {
    let mut evaluator = PositionFeatureEvaluator::new();
    let board = Board::new();

    let black_score = evaluator.evaluate_center_control(&board, Player::Black, false);
    let white_score = evaluator.evaluate_center_control(&board, Player::White, false);

    // Starting position is symmetric
    assert_eq!(black_score.mg, -white_score.mg);
    assert_eq!(black_score.eg, -white_score.eg);
}

#[test]
fn center_control_is_zero_sum_on_an_uneven_board() {
    let mut evaluator = PositionFeatureEvaluator::new();
    let mut board = Board::new();
    board.remove_piece(Position::new(6, 4));
    board.place_piece(Piece::new(PieceType::Pawn, Player::Black), Position::new(4, 4));
    board.remove_piece(Position::new(8, 6));
    board.place_piece(Piece::new(PieceType::Silver, Player::Black), Position::new(7, 6));
    let black = evaluator.evaluate_center_control(&board, Player::Black, false);
    let white = evaluator.evaluate_center_control(&board, Player::White, false);
    assert_eq!(black.mg, -white.mg);
    assert_eq!(black.eg, -white.eg);
    assert!(black.mg != 0);
    assert_eq!(evaluator.stats().center_control_evals, 2);
}

#[test]
fn test_king_position_finding() {
    let mut evaluator = PositionFeatureEvaluator::new();
    let board = Board::new();
    let black_king = evaluator.find_king_position(&board, Player::Black);
    assert!(black_king.is_some());
    let white_king = evaluator.find_king_position(&board, Player::White);
    assert!(white_king.is_some());
}

#[test]
fn test_mobility_weights() {
    let evaluator = PositionFeatureEvaluator::new();
    let rook_weight = evaluator.get_mobility_weight(PieceType::Rook);
    let pawn_weight = evaluator.get_mobility_weight(PieceType::Pawn);
    assert!(rook_weight.0 > pawn_weight.0);
    assert!(rook_weight.1 > pawn_weight.1);
    let promoted_rook = evaluator.get_mobility_weight(PieceType::PromotedRook);
    assert!(promoted_rook.0 >= rook_weight.0);
    assert!(promoted_rook.1 >= rook_weight.1);
}

#[test]
fn test_restriction_penalties() {
    let evaluator = PositionFeatureEvaluator::new();
    let rook_penalty = evaluator.get_restriction_penalty(PieceType::Rook);
    let pawn_penalty = evaluator.get_restriction_penalty(PieceType::Pawn);
    assert!(rook_penalty.0 > pawn_penalty.0);
    assert!(rook_penalty.1 > pawn_penalty.1);
    assert!(rook_penalty.0 >= 15);
    assert!(rook_penalty.1 >= 20);
}

#[test]
fn test_central_mobility_bonus() {
    let evaluator = PositionFeatureEvaluator::new();
    let knight_bonus = evaluator.get_central_mobility_bonus(PieceType::Knight);
    let pawn_bonus = evaluator.get_central_mobility_bonus(PieceType::Pawn);
    assert!(knight_bonus.0 > pawn_bonus.0);
    let rook_bonus = evaluator.get_central_mobility_bonus(PieceType::Rook);
    assert!(rook_bonus.0 >= 2);
}

#[test]
fn test_is_central_square() {
    let evaluator = PositionFeatureEvaluator::new();
    assert!(evaluator.is_central_square(Position::new(4, 4)));
    assert!(evaluator.is_central_square(Position::new(3, 3)));
    assert!(evaluator.is_central_square(Position::new(5, 5)));
    assert!(!evaluator.is_central_square(Position::new(0, 0)));
    assert!(!evaluator.is_central_square(Position::new(2, 2)));
    assert!(!evaluator.is_central_square(Position::new(6, 6)));
}

#[test]
fn test_mobility_weights_all_pieces() {
    let evaluator = PositionFeatureEvaluator::new();
    let piece_types = [
        PieceType::Pawn,
        PieceType::Lance,
        PieceType::Knight,
        PieceType::Silver,
        PieceType::Gold,
        PieceType::Bishop,
        PieceType::Rook,
        PieceType::King,
        PieceType::PromotedPawn,
        PieceType::PromotedLance,
        PieceType::PromotedKnight,
        PieceType::PromotedSilver,
        PieceType::PromotedBishop,
        PieceType::PromotedRook,
    ];
    for piece_type in piece_types {
        let weight = evaluator.get_mobility_weight(piece_type);
        assert!(weight.0 > 0, "MG weight for {:?} should be positive", piece_type);
        assert!(weight.1 > 0, "EG weight for {:?} should be positive", piece_type);
        assert!(weight.1 >= weight.0, "EG weight should be >= MG weight for {:?}", piece_type);
    }
}

#[test]
fn test_central_mobility_detection() {
    let evaluator = PositionFeatureEvaluator::new();
    for row in 3..=5u8 {
        for col in 3..=5u8 {
            let pos = Position::new(row, col);
            assert!(evaluator.is_central_square(pos), "Position ({}, {}) should be central", row, col);
        }
    }
    assert!(!evaluator.is_central_square(Position::new(0, 0)));
    assert!(!evaluator.is_central_square(Position::new(8, 8)));
    assert!(!evaluator.is_central_square(Position::new(2, 4)));
    assert!(!evaluator.is_central_square(Position::new(6, 4)));
}

// Further cases on concrete values.

#[test]
fn pawn_chain_of_two_adjacent_pawns() {
    let pawns = vec![Position::new(3, 3), Position::new(3, 4)];
    let chains = evaluate_pawn_chains(&pawns, Player::Black);
    assert!(chains.mg > 0);
    assert!(chains.eg > 0);
}

#[test]
fn single_pawn_is_never_doubled() {
    let pawns = vec![Position::new(6, 4)];
    let doubled = evaluate_doubled_pawns(&pawns);
    assert_eq!(doubled.mg, 0);
    assert_eq!(doubled.eg, 0);
}

#[test]
fn blocked_pawn_is_not_passed() {
    let mut board = Board::empty();
    board.place_piece(Piece::new(PieceType::Pawn, Player::White), Position::new(2, 4));
    assert!(!is_passed_pawn(&board, Position::new(4, 4), Player::Black));
}

#[test]
fn pawn_with_neighbour_is_not_isolated() {
    let mut board = Board::empty();
    board.place_piece(Piece::new(PieceType::Pawn, Player::Black), Position::new(5, 3));
    assert!(!is_pawn_isolated(&board, Position::new(4, 4), Player::Black));
}

#[test]
fn disabled_king_safety_scores_zero_and_counts_nothing() {
    let config = PositionFeatureConfig {
        enable_king_safety: false,
        enable_pawn_structure: true,
        enable_mobility: true,
        enable_center_control: true,
        enable_development: true,
    };
    let mut evaluator = PositionFeatureEvaluator::with_config(config);
    let board = Board::new();
    let captured_pieces = CapturedPieces::new();
    let score = evaluator.evaluate_king_safety(&board, Player::Black, &captured_pieces);
    assert_eq!(score.mg, 0);
    assert_eq!(score.eg, 0);
    assert_eq!(evaluator.stats().king_safety_evals, 0);
}

#[test]
fn skipped_center_control_scores_zero() {
    let mut evaluator = PositionFeatureEvaluator::new();
    let board = Board::new();
    let score = evaluator.evaluate_center_control(&board, Player::Black, true);
    assert_eq!(score.mg, 0);
    assert_eq!(score.eg, 0);
}

#[test]
fn king_safety_without_king_is_zero() {
    let mut evaluator = PositionFeatureEvaluator::new();
    let board = Board::empty();
    let captured_pieces = CapturedPieces::new();
    let score = evaluator.evaluate_king_safety(&board, Player::Black, &captured_pieces);
    assert_eq!(score.mg, 0);
    assert_eq!(score.eg, 0);
}

#[test]
fn mobility_from_move_counts() {
    let evaluator = PositionFeatureEvaluator::new();
    let free = PieceMobilityStats { total_moves: 10, central_moves: 2, attack_moves: 1 };
    let s = evaluator.evaluate_piece_mobility_from_stats(PieceType::Rook, &free);
    assert_eq!((s.mg, s.eg), (62, 79));
    let boxed_in = PieceMobilityStats { total_moves: 1, central_moves: 0, attack_moves: 0 };
    let s = evaluator.evaluate_piece_mobility_from_stats(PieceType::Rook, &boxed_in);
    assert_eq!((s.mg, s.eg), (-13, -17));

    assert_eq!(evaluator.get_drop_mobility_weight(PieceType::Rook), (3, 4));
    assert_eq!(evaluator.get_drop_mobility_weight(PieceType::Pawn), (1, 1));
    assert_eq!(evaluator.get_drop_central_bonus(PieceType::Rook), (2, 2));
    let drops = DropMobilityStats { total_moves: 3, central_moves: 1 };
    let s = evaluator.evaluate_drop_mobility(PieceType::Pawn, &drops);
    assert_eq!((s.mg, s.eg), (4, 4));
    let none = DropMobilityStats { total_moves: 0, central_moves: 5 };
    let s = evaluator.evaluate_drop_mobility(PieceType::Gold, &none);
    assert_eq!((s.mg, s.eg), (0, 0));
}

#[test]
fn test_mobility_evaluation() {
    let mut evaluator = PositionFeatureEvaluator::new();
    let board = Board::new();
    let captured_pieces = CapturedPieces::new();

    let score = evaluator.evaluate_mobility(&board, Player::Black, &captured_pieces);

    // Starting position should have positive mobility
    assert!(score.mg > 0);
    assert!(score.eg > 0);
    assert!(score.eg > score.mg);
}

#[test]
fn position_features_test_center_control_evaluation() {
    let mut evaluator = PositionFeatureEvaluator::new();
    let board = Board::new();

    let score = evaluator.evaluate_center_control(&board, Player::Black, false);

    // Starting position is symmetric, so score should be near zero
    assert!(score.mg.abs() < 50);
}

#[test]
fn position_features_test_development_evaluation() {
    let mut evaluator = PositionFeatureEvaluator::new();
    let board = Board::new();

    let score = evaluator.evaluate_development(&board, Player::Black, false);

    // Starting position has no development
    assert_eq!(score.mg, 0);
    assert_eq!(score.eg, 0);
}

#[test]
fn test_pawn_chain_detection() {
    let pawns = vec![Position::new(3, 3), Position::new(3, 4)];

    let chains = evaluate_pawn_chains(&pawns, Player::Black);

    // Should detect 1 chain
    assert_eq!(chains.mg, 18);
    assert_eq!(chains.eg, 12);
}

#[test]
fn position_features_test_statistics_tracking() {
    let mut evaluator = PositionFeatureEvaluator::new();
    let board = Board::new();
    let captured_pieces = CapturedPieces::new();

    assert_eq!(evaluator.stats().king_safety_evals, 0);
    assert_eq!(evaluator.stats().mobility_evals, 0);

    evaluator.evaluate_king_safety(&board, Player::Black, &captured_pieces);
    assert_eq!(evaluator.stats().king_safety_evals, 1);

    evaluator.evaluate_mobility(&board, Player::Black, &captured_pieces);
    assert_eq!(evaluator.stats().mobility_evals, 1);
}

#[test]
fn test_phase_differences() {
    let mut evaluator = PositionFeatureEvaluator::new();
    let board = Board::new();
    let captured_pieces = CapturedPieces::new();

    // Mobility should be more valuable in endgame
    let mobility = evaluator.evaluate_mobility(&board, Player::Black, &captured_pieces);
    assert!(mobility.eg > mobility.mg);

    let _center = evaluator.evaluate_center_control(&board, Player::Black, false);
    let _development = evaluator.evaluate_development(&board, Player::Black, false);
}

#[test]
fn test_piece_mobility_evaluation() {
    let evaluator = PositionFeatureEvaluator::new();
    let board = Board::new();
    let captured_pieces = CapturedPieces::new();

    let pos = Position::new(8, 1);
    let mobility =
        evaluator.evaluate_piece_mobility(&board, pos, PieceType::Knight, Player::Black, &captured_pieces);

    // Starting knight has limited moves
    assert!(mobility.mg >= 0);
    assert!(mobility.eg >= 0);
}

#[test]
fn test_mobility_by_piece_type() {
    let mut evaluator = PositionFeatureEvaluator::new();
    let board = Board::new();
    let captured_pieces = CapturedPieces::new();

    let mobility = evaluator.evaluate_mobility(&board, Player::Black, &captured_pieces);

    // Starting position should have positive mobility
    assert!(mobility.mg > 0);
    assert!(mobility.eg > 0);

    // Endgame should value mobility more
    assert!(mobility.eg >= mobility.mg);
}

#[test]
fn test_restricted_piece_detection() {
    let evaluator = PositionFeatureEvaluator::new();
    let board = Board::empty();
    let captured_pieces = CapturedPieces::new();

    let pos = Position::new(4, 4);
    let mobility =
        evaluator.evaluate_piece_mobility(&board, pos, PieceType::Rook, Player::Black, &captured_pieces);

    // Rook in center of empty board should have excellent mobility
    assert!(mobility.mg > 0);
    assert!(mobility.eg > 0);
}

#[test]
fn test_mobility_phase_difference() {
    let mut evaluator = PositionFeatureEvaluator::new();
    let board = Board::new();
    let captured_pieces = CapturedPieces::new();

    let mobility = evaluator.evaluate_mobility(&board, Player::Black, &captured_pieces);

    assert!(
        mobility.eg > mobility.mg,
        "Endgame mobility ({}) should be greater than middlegame ({})",
        mobility.eg,
        mobility.mg
    );
}

#[test]
fn mobility_exact_values() {
    let mut evaluator = PositionFeatureEvaluator::new();
    let captured_pieces = CapturedPieces::new();
    // Initial position: golds 2 x (6, 9), king (3, 6), rook (30, 42); the
    // restricted pawns, lances, knights, silvers and bishop count nothing.
    let start = evaluator.evaluate_mobility(&Board::new(), Player::Black, &captured_pieces);
    assert_eq!((start.mg, start.eg), (45, 66));
    // Rook alone in the centre: 16 moves, 4 of them central.
    let rook = evaluator.evaluate_piece_mobility(
        &Board::empty(),
        Position::new(4, 4),
        PieceType::Rook,
        Player::Black,
        &captured_pieces,
    );
    assert_eq!((rook.mg, rook.eg), (16 * 5 + 4 * 4, 16 * 7 + 4 * 3));
    // A pawn in hand on an empty board: 72 legal drops (not on row 0), 9 central.
    let mut hand = CapturedPieces::new();
    hand.add_piece(PieceType::Pawn, Player::Black);
    let drops = evaluator.evaluate_mobility(&Board::empty(), Player::Black, &hand);
    assert_eq!((drops.mg, drops.eg), (72 + 9, 72 + 9));
    let mut disabled = PositionFeatureEvaluator::with_config(PositionFeatureConfig {
        enable_mobility: false,
        ..PositionFeatureConfig::default()
    });
    let none = disabled.evaluate_mobility(&Board::new(), Player::Black, &captured_pieces);
    assert_eq!((none.mg, none.eg), (0, 0));
    assert_eq!(disabled.stats().mobility_evals, 0);
}
