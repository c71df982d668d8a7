use shogi_engine::board::Board;
use shogi_engine::positional_patterns::{ControlCache, PositionalStats};
use shogi_engine::types::{Piece, PieceType, Player, Position};

#[test]
fn test_control_cache_matches_board_queries() {
    let mut board = Board::empty();
    let rook = Piece::new(PieceType::Rook, Player::Black);
    let pawn = Piece::new(PieceType::Pawn, Player::Black);
    let rook_pos = Position::new(4, 4);
    let blocking_pawn_pos = Position::new(5, 4);
    let lateral_target = Position::new(4, 6);
    let blocked_target = Position::new(6, 4);

    board.place_piece(rook, rook_pos);
    board.place_piece(pawn, blocking_pawn_pos);

    let board_lateral = board.is_square_attacked_by(lateral_target, Player::Black);
    let board_blocked = board.is_square_attacked_by(blocked_target, Player::Black);

    let mut control_cache = ControlCache::new(&board);
    assert_eq!(control_cache.controlled_by(Player::Black, lateral_target), board_lateral);
    assert_eq!(control_cache.controlled_by(Player::Black, blocked_target), board_blocked);
}

#[test]
fn test_positional_stats_snapshot_merge() {
    let mut stats = PositionalStats::default();
    stats.evaluations = 5;
    stats.center_control_checks = 3;
    stats.outposts_found = 1;

    let snapshot = stats.snapshot();

    let mut other = PositionalStats::default();
    other.merge_from(&snapshot);

    assert_eq!(other.evaluations, 5);
    assert_eq!(other.center_control_checks, 3);
    assert_eq!(other.outposts_found, 1);
}

#[test]
fn rook_control_is_stopped_by_blocker() {
    let mut board = Board::empty();
    board.place_piece(Piece::new(PieceType::Rook, Player::Black), Position::new(4, 4));
    board.place_piece(Piece::new(PieceType::Pawn, Player::Black), Position::new(5, 4));
    assert!(board.is_square_attacked_by(Position::new(4, 6), Player::Black));
    assert!(!board.is_square_attacked_by(Position::new(6, 4), Player::Black));
    assert!(!board.is_square_attacked_by(Position::new(4, 6), Player::White));
    let mut cache = ControlCache::new(&board);
    // Rook: 4 squares up, 4 right, 4 left and the square of its own pawn
    // below; pawn: the rook's square.
    assert_eq!(cache.count_all_controlled(Player::Black), 14);
    assert_eq!(cache.count_subset_controlled(Player::Black, &[(4, 6), (6, 4), (0, 4)]), 2);
    assert_eq!(cache.count_all_controlled(Player::White), 0);
}

#[test]
fn merging_adds_counters() {
    let mut a = PositionalStats::default();
    a.space_checks = 2;
    let mut b = PositionalStats::default();
    b.space_checks = 7;
    b.tempo_checks = 1;
    a.merge_from(&b.snapshot());
    assert_eq!(a.space_checks, 9);
    assert_eq!(a.tempo_checks, 1);
}
