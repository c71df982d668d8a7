use shogi_engine::bitboards::{AlignedBitboardArray, SimdBitboard};
use shogi_engine::board::Board;
use shogi_engine::tactical_patterns_simd::SimdPatternMatcher;
use shogi_engine::types::{Piece, PieceType, Player, Position};

fn put(board: &mut Board, pt: PieceType, player: Player, row: u8, col: u8) {
    board.place_piece(Piece::new(pt, player), Position::new(row, col));
}

#[test]
fn knight_fork_on_two_golds() {
    let mut board = Board::empty();
    put(&mut board, PieceType::Knight, Player::Black, 4, 4);
    put(&mut board, PieceType::Gold, Player::White, 2, 3);
    put(&mut board, PieceType::Gold, Player::White, 2, 5);
    let matcher = SimdPatternMatcher::new();
    let pieces = [(Position::new(4, 4), PieceType::Knight)];
    let forks = matcher.detect_forks_batch(&board, &pieces, Player::Black);
    assert_eq!(forks, vec![(Position::new(4, 4), PieceType::Knight, 2)]);
}

#[test]
fn single_target_is_no_fork() {
    let mut board = Board::empty();
    put(&mut board, PieceType::Knight, Player::Black, 4, 4);
    put(&mut board, PieceType::Gold, Player::White, 2, 3);
    let matcher = SimdPatternMatcher::new();
    let pieces = [(Position::new(4, 4), PieceType::Knight)];
    assert!(matcher.detect_forks_batch(&board, &pieces, Player::Black).is_empty());
    assert!(matcher.detect_forks_batch(&board, &[], Player::Black).is_empty());
}

#[test]
fn rook_pins_silver_to_king() {
    let mut board = Board::empty();
    put(&mut board, PieceType::Rook, Player::Black, 8, 0);
    put(&mut board, PieceType::Silver, Player::White, 5, 0);
    put(&mut board, PieceType::King, Player::White, 2, 0);
    let matcher = SimdPatternMatcher::new();
    let pieces = [(Position::new(8, 0), PieceType::Rook), (Position::new(5, 0), PieceType::Gold)];
    let pins = matcher.detect_pins_batch(&board, &pieces, Player::Black);
    assert_eq!(pins, vec![(Position::new(8, 0), PieceType::Rook, Position::new(5, 0))]);
}

#[test]
fn no_pin_without_king_behind() {
    let mut board = Board::empty();
    put(&mut board, PieceType::Rook, Player::Black, 8, 0);
    put(&mut board, PieceType::Silver, Player::White, 5, 0);
    put(&mut board, PieceType::Gold, Player::White, 2, 0);
    let matcher = SimdPatternMatcher::new();
    let pieces = [(Position::new(8, 0), PieceType::Rook)];
    assert!(matcher.detect_pins_batch(&board, &pieces, Player::Black).is_empty());
}

#[test]
fn lance_pins_forward_only() {
    let mut board = Board::empty();
    put(&mut board, PieceType::Lance, Player::White, 0, 4);
    put(&mut board, PieceType::Silver, Player::Black, 3, 4);
    put(&mut board, PieceType::King, Player::Black, 7, 4);
    let matcher = SimdPatternMatcher::new();
    let pieces = [(Position::new(0, 4), PieceType::Lance)];
    let pins = matcher.detect_pins_batch(&board, &pieces, Player::White);
    assert_eq!(pins, vec![(Position::new(0, 4), PieceType::Lance, Position::new(3, 4))]);
}

#[test]
fn skewer_through_lighter_own_piece() {
    let mut board = Board::empty();
    put(&mut board, PieceType::Rook, Player::Black, 8, 0);
    put(&mut board, PieceType::Pawn, Player::Black, 6, 0);
    put(&mut board, PieceType::Gold, Player::Black, 4, 0);
    let matcher = SimdPatternMatcher::new();
    let pieces = [(Position::new(8, 0), PieceType::Rook)];
    let skewers = matcher.detect_skewers_batch(&board, &pieces, Player::Black);
    assert_eq!(
        skewers,
        vec![(Position::new(8, 0), PieceType::Rook, Position::new(6, 0), Position::new(4, 0))]
    );
}

#[test]
fn discovered_attack_behind_silver() {
    let mut board = Board::empty();
    put(&mut board, PieceType::Rook, Player::Black, 8, 4);
    put(&mut board, PieceType::Silver, Player::Black, 6, 4);
    put(&mut board, PieceType::King, Player::White, 2, 4);
    let matcher = SimdPatternMatcher::new();
    let pieces = [(Position::new(6, 4), PieceType::Silver), (Position::new(8, 4), PieceType::Rook)];
    let found = matcher.detect_discovered_attacks_batch(&board, &pieces, Player::Black, Position::new(2, 4));
    assert_eq!(found, vec![(Position::new(6, 4), PieceType::Silver)]);
}

#[test]
fn blocked_line_discovers_nothing() {
    let mut board = Board::empty();
    put(&mut board, PieceType::Rook, Player::Black, 8, 4);
    put(&mut board, PieceType::Silver, Player::Black, 6, 4);
    put(&mut board, PieceType::Pawn, Player::White, 4, 4);
    let matcher = SimdPatternMatcher::new();
    let pieces = [(Position::new(6, 4), PieceType::Silver)];
    let found = matcher.detect_discovered_attacks_batch(&board, &pieces, Player::Black, Position::new(2, 4));
    assert!(found.is_empty());
}

#[test]
fn target_counts_for_squares() {
    let mut board = Board::empty();
    put(&mut board, PieceType::Gold, Player::White, 3, 3);
    put(&mut board, PieceType::Gold, Player::White, 3, 5);
    let matcher = SimdPatternMatcher::new();
    let positions = [Position::new(4, 4), Position::new(8, 8)];
    let counts = matcher.detect_patterns_batch(&board, &positions, PieceType::Silver, Player::Black);
    assert_eq!(counts, vec![(Position::new(4, 4), 2), (Position::new(8, 8), 0)]);
}

#[test]
fn popcount_of_intersections() {
    let matcher = SimdPatternMatcher::new();
    let a = SimdBitboard::from_u128(0b1011);
    let b = SimdBitboard::from_u128(0b0011);
    assert_eq!(matcher.count_attack_targets(a, b), 2);
    let group = AlignedBitboardArray {
        boards: [a, b, SimdBitboard::empty(), SimdBitboard::from_u128(u128::MAX)],
    };
    assert_eq!(matcher.count_attack_targets_batch(&group, SimdBitboard::from_u128(u128::MAX)), [3, 2, 0, 128]);
}
