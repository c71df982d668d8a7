use shogi_engine::board::Board;
use shogi_engine::positional_patterns::ControlCache;
use shogi_engine::positional_scoring::{
    center_drop_balance, center_square_contribution, count_controllers, count_developed_pieces,
    evaluate_outposts, evaluate_piece_activity, evaluate_space_advantage, evaluate_tempo,
    evaluate_weak_squares, get_king_zone, get_outpost_value, outpost_context, piece_controls_square,
    OutpostContext, PositionalRules,
};
use shogi_engine::types::{CapturedPieces, Piece, PieceType, Player, Position};

#[test]
fn test_positional_analyzer_creation() {
    let rules = PositionalRules::default();
    assert!(rules.enable_center_control);
    assert!(rules.enable_outposts);
}

#[test]
fn test_outpost_detection() {
    let rules = PositionalRules::default();
    let board = Board::new();
    let mut control_cache = ControlCache::new(&board);
    let captured = CapturedPieces::new();

    let tally = evaluate_outposts(&rules, &board, Player::Black, &mut control_cache, &captured);
    assert!(tally.score.mg >= 0);
}

#[test]
fn test_outpost_rejected_by_pawn_drop() {
    let rules = PositionalRules::default();
    let mut board = Board::empty();
    let outpost_pos = Position::new(4, 4);

    board.place_piece(Piece::new(PieceType::Silver, Player::Black), outpost_pos);
    board.place_piece(Piece::new(PieceType::Pawn, Player::Black), Position::new(5, 4));

    let captured_none = CapturedPieces::new();
    let mut cache_no_threat = ControlCache::new(&board);
    let score_without_threat =
        evaluate_outposts(&rules, &board, Player::Black, &mut cache_no_threat, &captured_none).score;
    assert!(score_without_threat.mg > 0);

    let mut captured_with_pawn = CapturedPieces::new();
    captured_with_pawn.add_piece(PieceType::Pawn, Player::White);

    let mut cache_with_threat = ControlCache::new(&board);
    let score_with_threat =
        evaluate_outposts(&rules, &board, Player::Black, &mut cache_with_threat, &captured_with_pawn).score;
    assert!(score_with_threat.mg < score_without_threat.mg);
}

#[test]
fn test_outpost_requires_structural_support() {
    let rules = PositionalRules::default();
    let mut board = Board::empty();
    let captured = CapturedPieces::new();

    let outpost_pos = Position::new(4, 4);
    board.place_piece(Piece::new(PieceType::Silver, Player::Black), outpost_pos);

    let mut cache_no_support = ControlCache::new(&board);
    let unsupported = evaluate_outposts(&rules, &board, Player::Black, &mut cache_no_support, &captured).score;
    assert_eq!(unsupported.mg, 0);

    board.place_piece(Piece::new(PieceType::Pawn, Player::Black), Position::new(5, 4));

    let mut cache_supported = ControlCache::new(&board);
    let supported = evaluate_outposts(&rules, &board, Player::Black, &mut cache_supported, &captured).score;
    assert!(supported.mg > unsupported.mg);
}

#[test]
fn test_weak_square_relieved_by_pawn_drop() {
    let rules = PositionalRules::default();
    let mut board = Board::empty();
    board.place_piece(Piece::new(PieceType::Rook, Player::White), Position::new(0, 4));

    let mut cache_no_drop = ControlCache::new(&board);
    let captured_none = CapturedPieces::new();
    let penalty = evaluate_weak_squares(&rules, &board, Player::Black, &mut cache_no_drop, &captured_none).score;
    assert!(penalty.mg < 0);

    let mut cache_with_drop = ControlCache::new(&board);
    let mut captured_with_pawn = CapturedPieces::new();
    captured_with_pawn.add_piece(PieceType::Pawn, Player::Black);

    let mitigated =
        evaluate_weak_squares(&rules, &board, Player::Black, &mut cache_with_drop, &captured_with_pawn).score;
    assert!(mitigated.mg > penalty.mg);
}

#[test]
fn test_space_advantage_rewards_forward_control() {
    let rules = PositionalRules::default();
    let mut board = Board::empty();
    let captured = CapturedPieces::new();

    board.place_piece(Piece::new(PieceType::Pawn, Player::Black), Position::new(3, 4));
    board.place_piece(Piece::new(PieceType::Silver, Player::Black), Position::new(4, 3));
    board.place_piece(Piece::new(PieceType::Pawn, Player::White), Position::new(6, 4));

    let mut cache_black = ControlCache::new(&board);
    let black_score = evaluate_space_advantage(&rules, &board, Player::Black, &mut cache_black, &captured);
    assert!(black_score.mg > 0);

    let mut cache_white = ControlCache::new(&board);
    let white_score = evaluate_space_advantage(&rules, &board, Player::White, &mut cache_white, &captured);
    assert!(white_score.mg < black_score.mg);
}

#[test]
fn outpost_with_pawn_behind_has_exact_value() {
    let rules = PositionalRules::default();
    let mut board = Board::empty();
    board.place_piece(Piece::new(PieceType::Silver, Player::Black), Position::new(4, 4));
    board.place_piece(Piece::new(PieceType::Pawn, Player::Black), Position::new(5, 4));
    let captured = CapturedPieces::new();
    let mut cache = ControlCache::new(&board);
    let silver = Piece::new(PieceType::Silver, Player::Black);
    let ctx = outpost_context(&rules, &board, &mut cache, Position::new(4, 4), &silver, &captured);
    assert_eq!(ctx, Some(OutpostContext { support_margin: 2, depth: 4 }));
    let value = get_outpost_value(&silver, Position::new(4, 4), &ctx.unwrap());
    assert_eq!((value.mg, value.eg), (106, 82));

    let mut cache = ControlCache::new(&board);
    let tally = evaluate_outposts(&rules, &board, Player::Black, &mut cache, &captured);
    assert_eq!((tally.score.mg, tally.score.eg), (106, 82));
    assert_eq!(tally.examined, 2);
    assert_eq!(tally.found, 1);
}

#[test]
fn own_pieces_block_control() {
    let mut board = Board::empty();
    let rook = Piece::new(PieceType::Rook, Player::Black);
    board.place_piece(rook, Position::new(4, 4));
    board.place_piece(Piece::new(PieceType::Pawn, Player::Black), Position::new(4, 6));
    board.place_piece(Piece::new(PieceType::Pawn, Player::White), Position::new(2, 4));
    assert!(piece_controls_square(&board, &rook, Position::new(4, 4), Position::new(4, 5)));
    assert!(!piece_controls_square(&board, &rook, Position::new(4, 4), Position::new(4, 6)));
    assert!(piece_controls_square(&board, &rook, Position::new(4, 4), Position::new(2, 4)));
    assert!(!piece_controls_square(&board, &rook, Position::new(4, 4), Position::new(1, 4)));
    assert_eq!(count_controllers(&board, Player::Black, Position::new(4, 5)), 1);
    assert_eq!(count_controllers(&board, Player::White, Position::new(3, 4)), 1);
}

#[test]
fn weak_squares_under_an_open_file_have_exact_penalty() {
    let rules = PositionalRules::default();
    let mut board = Board::empty();
    board.place_piece(Piece::new(PieceType::Rook, Player::White), Position::new(0, 4));
    let captured = CapturedPieces::new();
    let mut cache = ControlCache::new(&board);
    let tally = evaluate_weak_squares(&rules, &board, Player::Black, &mut cache, &captured);
    assert_eq!((tally.score.mg, tally.score.eg), (-60, -22));
    assert_eq!(tally.examined, 9);
    assert_eq!(tally.found, 3);
}

#[test]
fn king_zone_is_clipped_at_the_edge() {
    let mut board = Board::empty();
    board.place_piece(Piece::new(PieceType::King, Player::Black), Position::new(8, 0));
    let zone = get_king_zone(&board, Player::Black);
    assert_eq!(zone.len(), 9);
    assert_eq!(zone[zone.len() - 1], Position::new(8, 0));
    let empty = Board::empty();
    assert_eq!(get_king_zone(&empty, Player::White).len(), 9);
}

#[test]
fn activity_and_tempo_on_the_initial_position() {
    let rules = PositionalRules::default();
    let board = Board::new();
    let activity = evaluate_piece_activity(&board, Player::Black);
    assert_eq!((activity.mg, activity.eg), (5, 7));
    assert_eq!(count_developed_pieces(&board, Player::Black), 2);
    let tempo = evaluate_tempo(&rules, &board, Player::Black);
    assert_eq!((tempo.mg, tempo.eg), (0, 0));
}

#[test]
fn tempo_counts_developed_pieces() {
    let rules = PositionalRules::default();
    let mut board = Board::empty();
    board.place_piece(Piece::new(PieceType::Gold, Player::Black), Position::new(7, 3));
    board.place_piece(Piece::new(PieceType::Silver, Player::Black), Position::new(6, 2));
    let black = evaluate_tempo(&rules, &board, Player::Black);
    let white = evaluate_tempo(&rules, &board, Player::White);
    assert_eq!((black.mg, black.eg), (30, 0));
    assert_eq!((white.mg, white.eg), (-30, 0));
}

#[test]
fn center_square_and_drop_pressure_values() {
    let rules = PositionalRules::default();
    let mut board = Board::empty();
    board.place_piece(Piece::new(PieceType::Gold, Player::Black), Position::new(4, 4));
    let mut cache = ControlCache::new(&board);
    let on_gold = center_square_contribution(&rules, &board, &mut cache, Player::Black, Position::new(4, 4));
    assert_eq!((on_gold.mg, on_gold.eg), (46, 31));
    let seen_by_white = center_square_contribution(&rules, &board, &mut cache, Player::White, Position::new(4, 4));
    assert_eq!((seen_by_white.mg, seen_by_white.eg), (-46, -31));

    let empty = Board::empty();
    let mut hand = CapturedPieces::new();
    hand.add_piece(PieceType::Pawn, Player::Black);
    let black = center_drop_balance(&rules, &empty, Player::Black, &hand);
    assert_eq!((black.mg, black.eg), (50, 18));
    let white = center_drop_balance(&rules, &empty, Player::White, &hand);
    assert_eq!((white.mg, white.eg), (-50, -18));
}

#[test]
fn space_is_zero_sum_on_a_concrete_board() {
    let rules = PositionalRules::default();
    let mut board = Board::empty();
    board.place_piece(Piece::new(PieceType::Rook, Player::Black), Position::new(5, 1));
    board.place_piece(Piece::new(PieceType::Bishop, Player::White), Position::new(2, 6));
    let mut hand = CapturedPieces::new();
    hand.add_piece(PieceType::Gold, Player::White);
    let mut cache = ControlCache::new(&board);
    let black = evaluate_space_advantage(&rules, &board, Player::Black, &mut cache, &hand);
    let white = evaluate_space_advantage(&rules, &board, Player::White, &mut cache, &hand);
    assert_eq!(black.mg, -white.mg);
    assert_eq!(black.eg, -white.eg);
    assert!(black.mg != 0);
}
