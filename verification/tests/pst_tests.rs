use shogi_engine::piece_square_tables::PieceSquareTables;
use shogi_engine::types::{PieceType, Player, Position};

#[test]
fn test_piece_square_tables_creation() {
    let tables = PieceSquareTables::new();
    assert_eq!(tables.inner.pawn_table_mg[0][0], 0);
}

#[test]
fn test_get_value_pawn() {
    let tables = PieceSquareTables::new();
    let pos = Position::new(4, 4);
    let score = tables.get_value(PieceType::Pawn, pos, Player::Black);
    assert!(score.mg > 0);
    assert!(score.eg > score.mg);
}

#[test]
fn test_get_value_rook() {
    let tables = PieceSquareTables::new();
    let pos = Position::new(4, 4);
    let score = tables.get_value(PieceType::Rook, pos, Player::Black);
    assert!(score.mg > 0);
    assert!(score.eg > score.mg);
}

#[test]
fn test_get_value_promoted_pieces() {
    let tables = PieceSquareTables::new();
    let pos = Position::new(4, 4);

    let promoted_pawn = tables.get_value(PieceType::PromotedPawn, pos, Player::Black);
    assert!(promoted_pawn.mg > 0);
    assert!(promoted_pawn.eg > 0);

    let promoted_rook = tables.get_value(PieceType::PromotedRook, pos, Player::Black);
    assert!(promoted_rook.mg > 0);
    assert!(promoted_rook.eg > 0);
    assert!(promoted_rook.eg > promoted_pawn.eg);
}

#[test]
fn test_get_value_king() {
    let tables = PieceSquareTables::new();
    let pos = Position::new(4, 4);
    let score = tables.get_value(PieceType::King, pos, Player::Black);
    assert_eq!(score.mg, 0);
    assert_eq!(score.eg, 0);
}

#[test]
fn test_symmetry() {
    let tables = PieceSquareTables::new();
    let black_pos = Position::new(0, 0);
    let white_pos = Position::new(8, 8);
    let black_score = tables.get_value(PieceType::Pawn, black_pos, Player::Black);
    let white_score = tables.get_value(PieceType::Pawn, white_pos, Player::White);
    assert_eq!(black_score.mg, white_score.mg);
    assert_eq!(black_score.eg, white_score.eg);
}

#[test]
fn test_table_coords() {
    let tables = PieceSquareTables::new();
    let pos = Position::new(4, 4);
    let (row, col) = tables.get_table_coords(pos, Player::Black);
    assert_eq!(row, 4);
    assert_eq!(col, 4);
    let (row, col) = tables.get_table_coords(pos, Player::White);
    assert_eq!(row, 4);
    assert_eq!(col, 4);
}

#[test]
fn test_pawn_advancement_bonus() {
    let tables = PieceSquareTables::new();
    let back_row = Position::new(0, 4);
    let mid_row = Position::new(4, 4);
    let front_row = Position::new(7, 4);

    let back_score = tables.get_value(PieceType::Pawn, back_row, Player::Black);
    let mid_score = tables.get_value(PieceType::Pawn, mid_row, Player::Black);
    let front_score = tables.get_value(PieceType::Pawn, front_row, Player::Black);

    assert!(mid_score.mg > back_score.mg);
    assert!(front_score.mg > mid_score.mg);
    assert!(mid_score.eg > back_score.eg);
    assert!(front_score.eg > mid_score.eg);
}

#[test]
fn test_center_bonus() {
    let tables = PieceSquareTables::new();
    let center = Position::new(4, 4);
    let edge = Position::new(4, 0);
    let center_rook = tables.get_value(PieceType::Rook, center, Player::Black);
    let edge_rook = tables.get_value(PieceType::Rook, edge, Player::Black);
    assert!(center_rook.mg > edge_rook.mg);
    assert!(center_rook.eg > edge_rook.eg);
}

#[test]
fn test_knight_back_rank_penalty() {
    let tables = PieceSquareTables::new();
    let back_rank = Position::new(0, 4);
    let center = Position::new(4, 4);
    let back_knight = tables.get_value(PieceType::Knight, back_rank, Player::Black);
    let center_knight = tables.get_value(PieceType::Knight, center, Player::Black);
    assert!(back_knight.mg < center_knight.mg);
}

#[test]
fn test_promoted_vs_unpromoted() {
    let tables = PieceSquareTables::new();
    let pos = Position::new(4, 4);
    let pawn = tables.get_value(PieceType::Pawn, pos, Player::Black);
    let promoted_pawn = tables.get_value(PieceType::PromotedPawn, pos, Player::Black);
    assert_ne!(
        (pawn.mg, pawn.eg),
        (promoted_pawn.mg, promoted_pawn.eg),
        "Promoted pawn should not share the exact mg/eg pair with an unpromoted pawn"
    );
    let rook = tables.get_value(PieceType::Rook, pos, Player::Black);
    let promoted_rook = tables.get_value(PieceType::PromotedRook, pos, Player::Black);
    assert_ne!(rook.mg, promoted_rook.mg);
}

#[test]
fn test_all_pieces_have_tables() {
    let tables = PieceSquareTables::new();
    let pos = Position::new(4, 4);
    let piece_types = [
        PieceType::Pawn,
        PieceType::Lance,
        PieceType::Knight,
        PieceType::Silver,
        PieceType::Gold,
        PieceType::Bishop,
        PieceType::Rook,
        PieceType::King,
        PieceType::PromotedPawn,
        PieceType::PromotedLance,
        PieceType::PromotedKnight,
        PieceType::PromotedSilver,
        PieceType::PromotedBishop,
        PieceType::PromotedRook,
    ];
    for piece_type in piece_types {
        let score = tables.get_value(piece_type, pos, Player::Black);
        let _ = score.mg;
        let _ = score.eg;
    }
}

#[test]
fn test_table_bounds() {
    let tables = PieceSquareTables::new();
    let positions = [
        Position::new(0, 0),
        Position::new(0, 8),
        Position::new(8, 0),
        Position::new(8, 8),
        Position::new(0, 4),
        Position::new(8, 4),
        Position::new(4, 0),
        Position::new(4, 8),
    ];
    for pos in positions {
        let score = tables.get_value(PieceType::Rook, pos, Player::Black);
        let _ = score.mg;
        let _ = score.eg;
    }
}

#[test]
fn test_promoted_piece_symmetry() {
    let tables = PieceSquareTables::new();
    let promoted_pieces = [
        PieceType::PromotedPawn,
        PieceType::PromotedLance,
        PieceType::PromotedKnight,
        PieceType::PromotedSilver,
        PieceType::PromotedBishop,
        PieceType::PromotedRook,
    ];
    for piece_type in promoted_pieces {
        for row in 0..9 {
            for col in 0..9 {
                let black_pos = Position::new(row, col);
                let white_pos = Position::new(8 - row, 8 - col);
                let black_score = tables.get_value(piece_type, black_pos, Player::Black);
                let white_score = tables.get_value(piece_type, white_pos, Player::White);
                assert_eq!(black_score.mg, white_score.mg);
                assert_eq!(black_score.eg, white_score.eg);
            }
        }
    }
}

#[test]
fn test_taper_interpolation_endpoints_match_tables() {
    let tables = PieceSquareTables::new();
    let sample_positions = [
        (PieceType::Pawn, Position::new(6, 4)),
        (PieceType::Rook, Position::new(4, 4)),
        (PieceType::Bishop, Position::new(3, 3)),
        (PieceType::PromotedRook, Position::new(4, 4)),
    ];
    for (piece_type, pos) in sample_positions {
        let score_black = tables.get_value(piece_type, pos, Player::Black);
        assert_eq!(score_black.interpolate(256), score_black.mg);
        assert_eq!(score_black.interpolate(0), score_black.eg);
    }
}

#[test]
fn raw_round_trip_keeps_every_table() {
    let tables = PieceSquareTables::new();
    let again = PieceSquareTables::from_raw(tables.to_raw());
    for pt in [PieceType::Pawn, PieceType::Gold, PieceType::PromotedBishop] {
        for (row, col) in [(0u8, 0u8), (4, 4), (8, 3)] {
            let pos = Position::new(row, col);
            assert_eq!(
                tables.get_value(pt, pos, Player::Black),
                again.get_value(pt, pos, Player::Black)
            );
        }
    }
}

#[test]
fn phase_tables_round_trip_and_reject_missing() {
    let tables = PieceSquareTables::new();
    let phase = tables.to_phase_tables();
    let rebuilt = PieceSquareTables::from_phase_tables(&phase).expect("complete set");
    assert_eq!(
        rebuilt.get_value(PieceType::Silver, Position::new(5, 5), Player::White),
        tables.get_value(PieceType::Silver, Position::new(5, 5), Player::White)
    );
    let mut missing = phase;
    missing[0] = None;
    assert!(PieceSquareTables::from_phase_tables(&missing).is_err());
}
