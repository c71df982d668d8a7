//! Phase-aware piece-square tables: one middlegame and one endgame table
//! per piece kind (the king has none), looked up from Black's side and
//! mirrored for White.

use vstd::prelude::*;
use crate::types::{PieceType, Player, Position, TaperedScore};

verus! {

/// A 9x9 table of positional values, indexed `[row][col]`.

/// The all-zero table used for the king.
pub const ZERO_TABLE: [[i32; 9]; 9] = [[0, 0, 0, 0, 0, 0, 0, 0, 0], [0, 0, 0, 0, 0, 0, 0, 0, 0], [0, 0, 0, 0, 0, 0, 0, 0, 0], [0, 0, 0, 0, 0, 0, 0, 0, 0], [0, 0, 0, 0, 0, 0, 0, 0, 0], [0, 0, 0, 0, 0, 0, 0, 0, 0], [0, 0, 0, 0, 0, 0, 0, 0, 0], [0, 0, 0, 0, 0, 0, 0, 0, 0], [0, 0, 0, 0, 0, 0, 0, 0, 0]];

pub const PAWN_TABLE_MG: [[i32; 9]; 9] = [ [0, 0, 0, 0, 0, 0, 0, 0, 0], [5, 5, 5, 5, 5, 5, 5, 5, 5], [10, 10, 12, 12, 15, 12, 12, 10, 10], [15, 15, 18, 18, 20, 18, 18, 15, 15], [20, 20, 22, 22, 25, 22, 22, 20, 20], [25, 25, 28, 28, 30, 28, 28, 25, 25], [30, 30, 32, 32, 35, 32, 32, 30, 30], [35, 35, 38, 38, 40, 38, 38, 35, 35], [0, 0, 0, 0, 0, 0, 0, 0, 0], ];

pub const LANCE_TABLE_MG: [[i32; 9]; 9] = [ [0, 0, 5, 10, 12, 10, 5, 0, 0], [0, 0, 5, 10, 12, 10, 5, 0, 0], [0, 0, 5, 10, 12, 10, 5, 0, 0], [0, 0, 5, 10, 12, 10, 5, 0, 0], [0, 0, 5, 10, 12, 10, 5, 0, 0], [0, 0, 5, 10, 12, 10, 5, 0, 0], [0, 0, 5, 10, 12, 10, 5, 0, 0], [0, 0, 5, 10, 12, 10, 5, 0, 0], [0, 0, 0, 10, 12, 10, 5, 0, 0], ];

pub const KNIGHT_TABLE_MG: [[i32; 9]; 9] = [ [-10, -10, -10, -10, -10, -10, -10, -10, -10], [-10, 0, 0, 0, 5, 0, 0, 0, -10], [-10, 0, 5, 10, 15, 10, 5, 0, -10], [-10, 0, 10, 15, 20, 15, 10, 0, -10], [-10, 0, 10, 15, 20, 15, 10, 0, -10], [-10, 0, 5, 10, 15, 10, 5, 0, -10], [-10, 0, 5, 5, 10, 5, 5, 0, -10], [-10, 0, 0, 0, 5, 0, 0, 0, -10], [-10, -10, -10, -10, -10, -10, -10, -10, -10], ];

pub const SILVER_TABLE_MG: [[i32; 9]; 9] = [ [0, 0, 5, 5, 5, 5, 5, 0, 0], [0, 5, 10, 12, 15, 12, 10, 5, 0], [0, 5, 10, 15, 18, 15, 10, 5, 0], [0, 5, 10, 15, 18, 15, 10, 5, 0], [0, 5, 10, 15, 18, 15, 10, 5, 0], [0, 5, 10, 15, 18, 15, 10, 5, 0], [0, 5, 10, 15, 18, 15, 10, 5, 0], [0, 5, 10, 12, 15, 12, 10, 5, 0], [0, 0, 5, 5, 5, 5, 5, 0, 0], ];

pub const GOLD_TABLE_MG: [[i32; 9]; 9] = [ [0, 0, 5, 8, 8, 8, 5, 0, 0], [0, 5, 10, 12, 15, 12, 10, 5, 0], [0, 5, 10, 15, 18, 15, 10, 5, 0], [0, 5, 10, 15, 18, 15, 10, 5, 0], [0, 5, 10, 15, 18, 15, 10, 5, 0], [0, 5, 10, 15, 18, 15, 10, 5, 0], [0, 5, 10, 15, 18, 15, 10, 5, 0], [0, 5, 10, 12, 15, 12, 10, 5, 0], [0, 0, 5, 8, 8, 8, 5, 0, 0], ];

pub const BISHOP_TABLE_MG: [[i32; 9]; 9] = [ [-10, -10, -5, -5, -5, -5, -5, -10, -10], [-10, 0, 5, 8, 10, 8, 5, 0, -10], [-5, 5, 10, 12, 15, 12, 10, 5, -5], [-5, 8, 12, 18, 20, 18, 12, 8, -5], [-5, 10, 15, 20, 22, 20, 15, 10, -5], [-5, 8, 12, 18, 20, 18, 12, 8, -5], [-5, 5, 10, 12, 15, 12, 10, 5, -5], [-10, 0, 5, 8, 10, 8, 5, 0, -10], [-10, -10, -5, -5, -5, -5, -5, -10, -10], ];

pub const ROOK_TABLE_MG: [[i32; 9]; 9] = [ [0, 5, 8, 12, 15, 12, 8, 5, 0], [0, 5, 8, 12, 15, 12, 8, 5, 0], [0, 5, 10, 15, 18, 15, 10, 5, 0], [0, 5, 10, 15, 18, 15, 10, 5, 0], [0, 5, 10, 15, 18, 15, 10, 5, 0], [0, 5, 10, 15, 18, 15, 10, 5, 0], [0, 5, 10, 15, 18, 15, 10, 5, 0], [5, 10, 12, 15, 20, 15, 12, 10, 5], [0, 5, 8, 12, 15, 12, 8, 5, 0], ];

pub const PAWN_TABLE_EG: [[i32; 9]; 9] = [ [0, 0, 0, 0, 0, 0, 0, 0, 0], [10, 10, 12, 12, 15, 12, 12, 10, 10], [20, 20, 25, 25, 30, 25, 25, 20, 20], [30, 30, 35, 35, 40, 35, 35, 30, 30], [40, 40, 45, 45, 50, 45, 45, 40, 40], [50, 50, 55, 55, 60, 55, 55, 50, 50], [60, 60, 65, 65, 70, 65, 65, 60, 60], [70, 70, 75, 75, 80, 75, 75, 70, 70], [0, 0, 0, 0, 0, 0, 0, 0, 0], ];

pub const LANCE_TABLE_EG: [[i32; 9]; 9] = [ [0, 0, 10, 20, 25, 20, 10, 0, 0], [0, 0, 10, 20, 25, 20, 10, 0, 0], [0, 0, 12, 22, 28, 22, 12, 0, 0], [0, 0, 12, 22, 28, 22, 12, 0, 0], [0, 0, 12, 22, 28, 22, 12, 0, 0], [0, 0, 12, 22, 28, 22, 12, 0, 0], [0, 0, 10, 20, 25, 20, 10, 0, 0], [0, 0, 10, 20, 25, 20, 10, 0, 0], [0, 0, 0, 20, 25, 20, 10, 0, 0], ];

pub const KNIGHT_TABLE_EG: [[i32; 9]; 9] = [ [-20, -20, -20, -20, -20, -20, -20, -20, -20], [-20, -5, -5, 0, 5, 0, -5, -5, -20], [-20, -5, 5, 15, 25, 15, 5, -5, -20], [-20, 0, 15, 25, 35, 25, 15, 0, -20], [-20, 0, 15, 25, 35, 25, 15, 0, -20], [-20, -5, 10, 20, 30, 20, 10, -5, -20], [-20, -5, 5, 15, 20, 15, 5, -5, -20], [-20, -5, 0, 5, 10, 5, 0, -5, -20], [-20, -20, -20, -20, -20, -20, -20, -20, -20], ];

pub const SILVER_TABLE_EG: [[i32; 9]; 9] = [ [0, 0, 10, 15, 18, 15, 10, 0, 0], [0, 10, 20, 25, 30, 25, 20, 10, 0], [0, 10, 20, 28, 35, 28, 20, 10, 0], [0, 10, 20, 30, 38, 30, 20, 10, 0], [0, 10, 20, 30, 38, 30, 20, 10, 0], [0, 10, 20, 28, 35, 28, 20, 10, 0], [0, 10, 20, 25, 30, 25, 20, 10, 0], [0, 10, 20, 25, 30, 25, 20, 10, 0], [0, 0, 10, 15, 18, 15, 10, 0, 0], ];

pub const GOLD_TABLE_EG: [[i32; 9]; 9] = [ [0, 0, 10, 15, 20, 15, 10, 0, 0], [0, 10, 20, 25, 30, 25, 20, 10, 0], [0, 10, 20, 28, 35, 28, 20, 10, 0], [0, 10, 20, 30, 38, 30, 20, 10, 0], [0, 10, 20, 30, 38, 30, 20, 10, 0], [0, 10, 20, 28, 35, 28, 20, 10, 0], [0, 10, 20, 25, 30, 25, 20, 10, 0], [0, 10, 20, 25, 30, 25, 20, 10, 0], [0, 0, 10, 15, 20, 15, 10, 0, 0], ];

pub const BISHOP_TABLE_EG: [[i32; 9]; 9] = [ [-20, -15, -10, -5, 0, -5, -10, -15, -20], [-15, 0, 10, 15, 20, 15, 10, 0, -15], [-10, 10, 20, 28, 35, 28, 20, 10, -10], [-5, 15, 28, 38, 45, 38, 28, 15, -5], [0, 20, 35, 45, 50, 45, 35, 20, 0], [-5, 15, 28, 38, 45, 38, 28, 15, -5], [-10, 10, 20, 28, 35, 28, 20, 10, -10], [-15, 0, 10, 15, 20, 15, 10, 0, -15], [-20, -15, -10, -5, 0, -5, -10, -15, -20], ];

pub const ROOK_TABLE_EG: [[i32; 9]; 9] = [ [-10, -5, 0, 8, 12, 8, 0, -5, -10], [5, 10, 15, 20, 25, 20, 15, 10, 5], [10, 15, 20, 25, 30, 25, 20, 15, 10], [15, 20, 25, 30, 35, 30, 25, 20, 15], [15, 20, 25, 30, 35, 30, 25, 20, 15], [15, 20, 25, 30, 35, 30, 25, 20, 15], [10, 15, 20, 25, 30, 25, 20, 15, 10], [20, 25, 28, 32, 38, 32, 28, 25, 20], [-10, -5, 0, 8, 12, 8, 0, -5, -10], ];

pub const PROMOTED_PAWN_TABLE_MG: [[i32; 9]; 9] = [ [0, 0, 5, 8, 10, 8, 5, 0, 0], [0, 5, 10, 15, 18, 15, 10, 5, 0], [0, 5, 12, 18, 22, 18, 12, 5, 0], [0, 5, 15, 20, 25, 20, 15, 5, 0], [0, 5, 15, 20, 25, 20, 15, 5, 0], [0, 5, 12, 18, 22, 18, 12, 5, 0], [0, 5, 10, 15, 18, 15, 10, 5, 0], [0, 5, 10, 15, 18, 15, 10, 5, 0], [0, 0, 5, 8, 10, 8, 5, 0, 0], ];

pub const PROMOTED_BISHOP_TABLE_MG: [[i32; 9]; 9] = [ [-5, -5, 0, 5, 8, 5, 0, -5, -5], [-5, 5, 10, 15, 18, 15, 10, 5, -5], [0, 10, 18, 22, 28, 22, 18, 10, 0], [5, 15, 22, 28, 35, 28, 22, 15, 5], [8, 18, 28, 35, 40, 35, 28, 18, 8], [5, 15, 22, 28, 35, 28, 22, 15, 5], [0, 10, 18, 22, 28, 22, 18, 10, 0], [-5, 5, 10, 15, 18, 15, 10, 5, -5], [-5, -5, 0, 5, 8, 5, 0, -5, -5], ];

pub const PROMOTED_ROOK_TABLE_MG: [[i32; 9]; 9] = [ [5, 10, 15, 20, 25, 20, 15, 10, 5], [5, 10, 15, 22, 28, 22, 15, 10, 5], [8, 12, 18, 25, 30, 25, 18, 12, 8], [10, 15, 22, 28, 35, 28, 22, 15, 10], [10, 18, 25, 32, 38, 32, 25, 18, 10], [10, 15, 22, 28, 35, 28, 22, 15, 10], [8, 12, 18, 25, 30, 25, 18, 12, 8], [10, 15, 20, 25, 30, 25, 20, 15, 10], [5, 10, 15, 20, 25, 20, 15, 10, 5], ];

pub const PROMOTED_PAWN_TABLE_EG: [[i32; 9]; 9] = [ [0, 0, 10, 15, 20, 15, 10, 0, 0], [0, 10, 20, 28, 35, 28, 20, 10, 0], [0, 15, 25, 35, 42, 35, 25, 15, 0], [0, 15, 28, 38, 48, 38, 28, 15, 0], [0, 15, 28, 38, 48, 38, 28, 15, 0], [0, 15, 25, 35, 42, 35, 25, 15, 0], [0, 10, 20, 28, 35, 28, 20, 10, 0], [0, 10, 20, 28, 35, 28, 20, 10, 0], [0, 0, 10, 15, 20, 15, 10, 0, 0], ];

pub const PROMOTED_BISHOP_TABLE_EG: [[i32; 9]; 9] = [ [-10, -5, 0, 10, 15, 10, 0, -5, -10], [-5, 10, 20, 30, 38, 30, 20, 10, -5], [0, 20, 32, 42, 50, 42, 32, 20, 0], [10, 30, 42, 52, 60, 52, 42, 30, 10], [15, 38, 50, 60, 68, 60, 50, 38, 15], [10, 30, 42, 52, 60, 52, 42, 30, 10], [0, 20, 32, 42, 50, 42, 32, 20, 0], [-5, 10, 20, 30, 38, 30, 20, 10, -5], [-10, -5, 0, 10, 15, 10, 0, -5, -10], ];

pub const PROMOTED_ROOK_TABLE_EG: [[i32; 9]; 9] = [ [0, 10, 20, 30, 38, 30, 20, 10, 0], [10, 20, 30, 40, 48, 40, 30, 20, 10], [20, 30, 40, 50, 58, 50, 40, 30, 20], [30, 40, 50, 60, 68, 60, 50, 40, 30], [38, 48, 58, 68, 75, 68, 58, 48, 38], [30, 40, 50, 60, 68, 60, 50, 40, 30], [20, 30, 40, 50, 58, 50, 40, 30, 20], [30, 38, 45, 52, 60, 52, 45, 38, 30], [0, 10, 20, 30, 38, 30, 20, 10, 0], ];

/// Tables of every piece kind in both phases.
#[derive(Clone, Copy, Debug)]
pub struct PieceSquareTableStorage {
    pub pawn_table_mg: [[i32; 9]; 9],
    pub pawn_table_eg: [[i32; 9]; 9],
    pub lance_table_mg: [[i32; 9]; 9],
    pub lance_table_eg: [[i32; 9]; 9],
    pub knight_table_mg: [[i32; 9]; 9],
    pub knight_table_eg: [[i32; 9]; 9],
    pub silver_table_mg: [[i32; 9]; 9],
    pub silver_table_eg: [[i32; 9]; 9],
    pub gold_table_mg: [[i32; 9]; 9],
    pub gold_table_eg: [[i32; 9]; 9],
    pub bishop_table_mg: [[i32; 9]; 9],
    pub bishop_table_eg: [[i32; 9]; 9],
    pub rook_table_mg: [[i32; 9]; 9],
    pub rook_table_eg: [[i32; 9]; 9],
    pub promoted_pawn_table_mg: [[i32; 9]; 9],
    pub promoted_pawn_table_eg: [[i32; 9]; 9],
    pub promoted_lance_table_mg: [[i32; 9]; 9],
    pub promoted_lance_table_eg: [[i32; 9]; 9],
    pub promoted_knight_table_mg: [[i32; 9]; 9],
    pub promoted_knight_table_eg: [[i32; 9]; 9],
    pub promoted_silver_table_mg: [[i32; 9]; 9],
    pub promoted_silver_table_eg: [[i32; 9]; 9],
    pub promoted_bishop_table_mg: [[i32; 9]; 9],
    pub promoted_bishop_table_eg: [[i32; 9]; 9],
    pub promoted_rook_table_mg: [[i32; 9]; 9],
    pub promoted_rook_table_eg: [[i32; 9]; 9],
}

/// Plain table data in the layout used for import and export.
#[derive(Clone, Copy, Debug)]
pub struct PieceSquareTableRaw {
    pub pawn_table_mg: [[i32; 9]; 9],
    pub pawn_table_eg: [[i32; 9]; 9],
    pub lance_table_mg: [[i32; 9]; 9],
    pub lance_table_eg: [[i32; 9]; 9],
    pub knight_table_mg: [[i32; 9]; 9],
    pub knight_table_eg: [[i32; 9]; 9],
    pub silver_table_mg: [[i32; 9]; 9],
    pub silver_table_eg: [[i32; 9]; 9],
    pub gold_table_mg: [[i32; 9]; 9],
    pub gold_table_eg: [[i32; 9]; 9],
    pub bishop_table_mg: [[i32; 9]; 9],
    pub bishop_table_eg: [[i32; 9]; 9],
    pub rook_table_mg: [[i32; 9]; 9],
    pub rook_table_eg: [[i32; 9]; 9],
    pub promoted_pawn_table_mg: [[i32; 9]; 9],
    pub promoted_pawn_table_eg: [[i32; 9]; 9],
    pub promoted_lance_table_mg: [[i32; 9]; 9],
    pub promoted_lance_table_eg: [[i32; 9]; 9],
    pub promoted_knight_table_mg: [[i32; 9]; 9],
    pub promoted_knight_table_eg: [[i32; 9]; 9],
    pub promoted_silver_table_mg: [[i32; 9]; 9],
    pub promoted_silver_table_eg: [[i32; 9]; 9],
    pub promoted_bishop_table_mg: [[i32; 9]; 9],
    pub promoted_bishop_table_eg: [[i32; 9]; 9],
    pub promoted_rook_table_mg: [[i32; 9]; 9],
    pub promoted_rook_table_eg: [[i32; 9]; 9],
}


/// The built-in tables.
pub open spec fn builtin_storage() -> PieceSquareTableStorage {
    PieceSquareTableStorage {
        pawn_table_mg: PAWN_TABLE_MG,
        pawn_table_eg: PAWN_TABLE_EG,
        lance_table_mg: LANCE_TABLE_MG,
        lance_table_eg: LANCE_TABLE_EG,
        knight_table_mg: KNIGHT_TABLE_MG,
        knight_table_eg: KNIGHT_TABLE_EG,
        silver_table_mg: SILVER_TABLE_MG,
        silver_table_eg: SILVER_TABLE_EG,
        gold_table_mg: GOLD_TABLE_MG,
        gold_table_eg: GOLD_TABLE_EG,
        bishop_table_mg: BISHOP_TABLE_MG,
        bishop_table_eg: BISHOP_TABLE_EG,
        rook_table_mg: ROOK_TABLE_MG,
        rook_table_eg: ROOK_TABLE_EG,
        promoted_pawn_table_mg: PROMOTED_PAWN_TABLE_MG,
        promoted_pawn_table_eg: PROMOTED_PAWN_TABLE_EG,
        promoted_lance_table_mg: PROMOTED_PAWN_TABLE_MG,
        promoted_lance_table_eg: PROMOTED_PAWN_TABLE_EG,
        promoted_knight_table_mg: PROMOTED_PAWN_TABLE_MG,
        promoted_knight_table_eg: PROMOTED_PAWN_TABLE_EG,
        promoted_silver_table_mg: GOLD_TABLE_MG,
        promoted_silver_table_eg: GOLD_TABLE_EG,
        promoted_bishop_table_mg: PROMOTED_BISHOP_TABLE_MG,
        promoted_bishop_table_eg: PROMOTED_BISHOP_TABLE_EG,
        promoted_rook_table_mg: PROMOTED_ROOK_TABLE_MG,
        promoted_rook_table_eg: PROMOTED_ROOK_TABLE_EG,
    }
}

/// Storage holding the tables of raw data, field for field.
pub open spec fn storage_of_raw(raw: PieceSquareTableRaw) -> PieceSquareTableStorage {
    PieceSquareTableStorage {
        pawn_table_mg: raw.pawn_table_mg,
        pawn_table_eg: raw.pawn_table_eg,
        lance_table_mg: raw.lance_table_mg,
        lance_table_eg: raw.lance_table_eg,
        knight_table_mg: raw.knight_table_mg,
        knight_table_eg: raw.knight_table_eg,
        silver_table_mg: raw.silver_table_mg,
        silver_table_eg: raw.silver_table_eg,
        gold_table_mg: raw.gold_table_mg,
        gold_table_eg: raw.gold_table_eg,
        bishop_table_mg: raw.bishop_table_mg,
        bishop_table_eg: raw.bishop_table_eg,
        rook_table_mg: raw.rook_table_mg,
        rook_table_eg: raw.rook_table_eg,
        promoted_pawn_table_mg: raw.promoted_pawn_table_mg,
        promoted_pawn_table_eg: raw.promoted_pawn_table_eg,
        promoted_lance_table_mg: raw.promoted_lance_table_mg,
        promoted_lance_table_eg: raw.promoted_lance_table_eg,
        promoted_knight_table_mg: raw.promoted_knight_table_mg,
        promoted_knight_table_eg: raw.promoted_knight_table_eg,
        promoted_silver_table_mg: raw.promoted_silver_table_mg,
        promoted_silver_table_eg: raw.promoted_silver_table_eg,
        promoted_bishop_table_mg: raw.promoted_bishop_table_mg,
        promoted_bishop_table_eg: raw.promoted_bishop_table_eg,
        promoted_rook_table_mg: raw.promoted_rook_table_mg,
        promoted_rook_table_eg: raw.promoted_rook_table_eg,
    }
}

/// Raw data holding the tables of a storage, field for field.
pub open spec fn raw_of_storage(s: PieceSquareTableStorage) -> PieceSquareTableRaw {
    PieceSquareTableRaw {
        pawn_table_mg: s.pawn_table_mg,
        pawn_table_eg: s.pawn_table_eg,
        lance_table_mg: s.lance_table_mg,
        lance_table_eg: s.lance_table_eg,
        knight_table_mg: s.knight_table_mg,
        knight_table_eg: s.knight_table_eg,
        silver_table_mg: s.silver_table_mg,
        silver_table_eg: s.silver_table_eg,
        gold_table_mg: s.gold_table_mg,
        gold_table_eg: s.gold_table_eg,
        bishop_table_mg: s.bishop_table_mg,
        bishop_table_eg: s.bishop_table_eg,
        rook_table_mg: s.rook_table_mg,
        rook_table_eg: s.rook_table_eg,
        promoted_pawn_table_mg: s.promoted_pawn_table_mg,
        promoted_pawn_table_eg: s.promoted_pawn_table_eg,
        promoted_lance_table_mg: s.promoted_lance_table_mg,
        promoted_lance_table_eg: s.promoted_lance_table_eg,
        promoted_knight_table_mg: s.promoted_knight_table_mg,
        promoted_knight_table_eg: s.promoted_knight_table_eg,
        promoted_silver_table_mg: s.promoted_silver_table_mg,
        promoted_silver_table_eg: s.promoted_silver_table_eg,
        promoted_bishop_table_mg: s.promoted_bishop_table_mg,
        promoted_bishop_table_eg: s.promoted_bishop_table_eg,
        promoted_rook_table_mg: s.promoted_rook_table_mg,
        promoted_rook_table_eg: s.promoted_rook_table_eg,
    }
}

/// The middlegame table of a piece kind (zero for the king).
pub open spec fn mg_table(s: PieceSquareTableStorage, pt: PieceType) -> [[i32; 9]; 9] {
    match pt {
        PieceType::Pawn => s.pawn_table_mg,
        PieceType::Lance => s.lance_table_mg,
        PieceType::Knight => s.knight_table_mg,
        PieceType::Silver => s.silver_table_mg,
        PieceType::Gold => s.gold_table_mg,
        PieceType::Bishop => s.bishop_table_mg,
        PieceType::Rook => s.rook_table_mg,
        PieceType::PromotedPawn => s.promoted_pawn_table_mg,
        PieceType::PromotedLance => s.promoted_lance_table_mg,
        PieceType::PromotedKnight => s.promoted_knight_table_mg,
        PieceType::PromotedSilver => s.promoted_silver_table_mg,
        PieceType::PromotedBishop => s.promoted_bishop_table_mg,
        PieceType::PromotedRook => s.promoted_rook_table_mg,
        PieceType::King => ZERO_TABLE,
    }
}

/// The endgame table of a piece kind (zero for the king).
pub open spec fn eg_table(s: PieceSquareTableStorage, pt: PieceType) -> [[i32; 9]; 9] {
    match pt {
        PieceType::Pawn => s.pawn_table_eg,
        PieceType::Lance => s.lance_table_eg,
        PieceType::Knight => s.knight_table_eg,
        PieceType::Silver => s.silver_table_eg,
        PieceType::Gold => s.gold_table_eg,
        PieceType::Bishop => s.bishop_table_eg,
        PieceType::Rook => s.rook_table_eg,
        PieceType::PromotedPawn => s.promoted_pawn_table_eg,
        PieceType::PromotedLance => s.promoted_lance_table_eg,
        PieceType::PromotedKnight => s.promoted_knight_table_eg,
        PieceType::PromotedSilver => s.promoted_silver_table_eg,
        PieceType::PromotedBishop => s.promoted_bishop_table_eg,
        PieceType::PromotedRook => s.promoted_rook_table_eg,
        PieceType::King => ZERO_TABLE,
    }
}


impl PieceSquareTableStorage {
    /// The built-in tables.
    pub fn builtin() -> (r: Self)
        ensures
            r == builtin_storage(),
    {
        PieceSquareTableStorage {
            pawn_table_mg: PAWN_TABLE_MG,
            pawn_table_eg: PAWN_TABLE_EG,
            lance_table_mg: LANCE_TABLE_MG,
            lance_table_eg: LANCE_TABLE_EG,
            knight_table_mg: KNIGHT_TABLE_MG,
            knight_table_eg: KNIGHT_TABLE_EG,
            silver_table_mg: SILVER_TABLE_MG,
            silver_table_eg: SILVER_TABLE_EG,
            gold_table_mg: GOLD_TABLE_MG,
            gold_table_eg: GOLD_TABLE_EG,
            bishop_table_mg: BISHOP_TABLE_MG,
            bishop_table_eg: BISHOP_TABLE_EG,
            rook_table_mg: ROOK_TABLE_MG,
            rook_table_eg: ROOK_TABLE_EG,
            promoted_pawn_table_mg: PROMOTED_PAWN_TABLE_MG,
            promoted_pawn_table_eg: PROMOTED_PAWN_TABLE_EG,
            promoted_lance_table_mg: PROMOTED_PAWN_TABLE_MG,
            promoted_lance_table_eg: PROMOTED_PAWN_TABLE_EG,
            promoted_knight_table_mg: PROMOTED_PAWN_TABLE_MG,
            promoted_knight_table_eg: PROMOTED_PAWN_TABLE_EG,
            promoted_silver_table_mg: GOLD_TABLE_MG,
            promoted_silver_table_eg: GOLD_TABLE_EG,
            promoted_bishop_table_mg: PROMOTED_BISHOP_TABLE_MG,
            promoted_bishop_table_eg: PROMOTED_BISHOP_TABLE_EG,
            promoted_rook_table_mg: PROMOTED_ROOK_TABLE_MG,
            promoted_rook_table_eg: PROMOTED_ROOK_TABLE_EG,
        }
    }

    /// Storage holding the tables of raw data.
    pub fn from_raw(raw: PieceSquareTableRaw) -> (r: Self)
        ensures
            r == storage_of_raw(raw),
    {
        PieceSquareTableStorage {
            pawn_table_mg: raw.pawn_table_mg,
            pawn_table_eg: raw.pawn_table_eg,
            lance_table_mg: raw.lance_table_mg,
            lance_table_eg: raw.lance_table_eg,
            knight_table_mg: raw.knight_table_mg,
            knight_table_eg: raw.knight_table_eg,
            silver_table_mg: raw.silver_table_mg,
            silver_table_eg: raw.silver_table_eg,
            gold_table_mg: raw.gold_table_mg,
            gold_table_eg: raw.gold_table_eg,
            bishop_table_mg: raw.bishop_table_mg,
            bishop_table_eg: raw.bishop_table_eg,
            rook_table_mg: raw.rook_table_mg,
            rook_table_eg: raw.rook_table_eg,
            promoted_pawn_table_mg: raw.promoted_pawn_table_mg,
            promoted_pawn_table_eg: raw.promoted_pawn_table_eg,
            promoted_lance_table_mg: raw.promoted_lance_table_mg,
            promoted_lance_table_eg: raw.promoted_lance_table_eg,
            promoted_knight_table_mg: raw.promoted_knight_table_mg,
            promoted_knight_table_eg: raw.promoted_knight_table_eg,
            promoted_silver_table_mg: raw.promoted_silver_table_mg,
            promoted_silver_table_eg: raw.promoted_silver_table_eg,
            promoted_bishop_table_mg: raw.promoted_bishop_table_mg,
            promoted_bishop_table_eg: raw.promoted_bishop_table_eg,
            promoted_rook_table_mg: raw.promoted_rook_table_mg,
            promoted_rook_table_eg: raw.promoted_rook_table_eg,
        }
    }

    /// Raw data holding these tables.
    pub fn to_raw(&self) -> (r: PieceSquareTableRaw)
        ensures
            r == raw_of_storage(*self),
    {
        PieceSquareTableRaw {
            pawn_table_mg: self.pawn_table_mg,
            pawn_table_eg: self.pawn_table_eg,
            lance_table_mg: self.lance_table_mg,
            lance_table_eg: self.lance_table_eg,
            knight_table_mg: self.knight_table_mg,
            knight_table_eg: self.knight_table_eg,
            silver_table_mg: self.silver_table_mg,
            silver_table_eg: self.silver_table_eg,
            gold_table_mg: self.gold_table_mg,
            gold_table_eg: self.gold_table_eg,
            bishop_table_mg: self.bishop_table_mg,
            bishop_table_eg: self.bishop_table_eg,
            rook_table_mg: self.rook_table_mg,
            rook_table_eg: self.rook_table_eg,
            promoted_pawn_table_mg: self.promoted_pawn_table_mg,
            promoted_pawn_table_eg: self.promoted_pawn_table_eg,
            promoted_lance_table_mg: self.promoted_lance_table_mg,
            promoted_lance_table_eg: self.promoted_lance_table_eg,
            promoted_knight_table_mg: self.promoted_knight_table_mg,
            promoted_knight_table_eg: self.promoted_knight_table_eg,
            promoted_silver_table_mg: self.promoted_silver_table_mg,
            promoted_silver_table_eg: self.promoted_silver_table_eg,
            promoted_bishop_table_mg: self.promoted_bishop_table_mg,
            promoted_bishop_table_eg: self.promoted_bishop_table_eg,
            promoted_rook_table_mg: self.promoted_rook_table_mg,
            promoted_rook_table_eg: self.promoted_rook_table_eg,
        }
    }
}

impl PieceSquareTableRaw {
    /// Raw data of the built-in tables.
    pub fn default() -> (r: Self)
        ensures
            r == raw_of_storage(builtin_storage()),
    {
        PieceSquareTableStorage::builtin().to_raw()
    }
}


/// Middlegame and endgame tables of one piece kind.
#[derive(Debug, Clone, Copy)]
pub struct PiecePhaseTables {
    pub mg: [[i32; 9]; 9],
    pub eg: [[i32; 9]; 9],
}

/// Why imported phase tables were refused.
#[derive(Debug, Clone, Copy, PartialEq, Eq, Structural)]
pub enum PieceSquareTableError {
    /// No tables for this piece kind.
    MissingPiece(PieceType),
    /// King tables present but not zero in both phases.
    UnsupportedKingValues,
}

/// Every entry of the table is zero.
pub open spec fn table_is_zero(t: [[i32; 9]; 9]) -> bool {
    forall|r: int, c: int| 0 <= r < 9 && 0 <= c < 9 ==> #[trigger] t@[r]@[c] == 0
}

/// Whether every entry of the table is zero.
pub fn is_zero_table(t: &[[i32; 9]; 9]) -> (r: bool)
    ensures
        r == table_is_zero(*t),
{
    let mut row: usize = 0;
    while row < 9
        invariant
            row <= 9,
            forall|r: int, c: int| 0 <= r < row && 0 <= c < 9 ==> #[trigger] t@[r]@[c] == 0,
        decreases 9 - row,
    {
        let mut col: usize = 0;
        while col < 9
            invariant
                row < 9,
                col <= 9,
                forall|r: int, c: int| 0 <= r < row && 0 <= c < 9 ==> #[trigger] t@[r]@[c] == 0,
                forall|c: int| 0 <= c < col ==> #[trigger] t@[row as int]@[c] == 0,
            decreases 9 - col,
        {
            if t[row][col] != 0 {
                return false;
            }
            col += 1;
        }
        row += 1;
    }
    true
}

/// The tables a storage exports for the piece kind with index `i`.
pub open spec fn exported(s: PieceSquareTableStorage, i: int) -> PiecePhaseTables {
    PiecePhaseTables { mg: mg_table(s, PieceType::from_idx(i)), eg: eg_table(s, PieceType::from_idx(i)) }
}

pub open spec fn missing(t: Seq<Option<PiecePhaseTables>>, pt: PieceType) -> bool {
    t[pt.idx() as int].is_none()
}

/// Result of importing per-kind tables (indexed by piece kind): the first
/// missing unpromoted kind, then non-zero king tables, then the first
/// missing promoted kind are refused, in that order.
pub open spec fn import_result(t: Seq<Option<PiecePhaseTables>>) -> Result<PieceSquareTableStorage, PieceSquareTableError> {
    if missing(t, PieceType::Pawn) {
        Err(PieceSquareTableError::MissingPiece(PieceType::Pawn))
    } else if missing(t, PieceType::Lance) {
        Err(PieceSquareTableError::MissingPiece(PieceType::Lance))
    } else if missing(t, PieceType::Knight) {
        Err(PieceSquareTableError::MissingPiece(PieceType::Knight))
    } else if missing(t, PieceType::Silver) {
        Err(PieceSquareTableError::MissingPiece(PieceType::Silver))
    } else if missing(t, PieceType::Gold) {
        Err(PieceSquareTableError::MissingPiece(PieceType::Gold))
    } else if missing(t, PieceType::Bishop) {
        Err(PieceSquareTableError::MissingPiece(PieceType::Bishop))
    } else if missing(t, PieceType::Rook) {
        Err(PieceSquareTableError::MissingPiece(PieceType::Rook))
    } else if t[7].is_some() && !(table_is_zero(t[7].unwrap().mg) && table_is_zero(t[7].unwrap().eg)) {
        Err(PieceSquareTableError::UnsupportedKingValues)
    } else if missing(t, PieceType::PromotedPawn) {
        Err(PieceSquareTableError::MissingPiece(PieceType::PromotedPawn))
    } else if missing(t, PieceType::PromotedLance) {
        Err(PieceSquareTableError::MissingPiece(PieceType::PromotedLance))
    } else if missing(t, PieceType::PromotedKnight) {
        Err(PieceSquareTableError::MissingPiece(PieceType::PromotedKnight))
    } else if missing(t, PieceType::PromotedSilver) {
        Err(PieceSquareTableError::MissingPiece(PieceType::PromotedSilver))
    } else if missing(t, PieceType::PromotedBishop) {
        Err(PieceSquareTableError::MissingPiece(PieceType::PromotedBishop))
    } else if missing(t, PieceType::PromotedRook) {
        Err(PieceSquareTableError::MissingPiece(PieceType::PromotedRook))
    } else {
        Ok(PieceSquareTableStorage {
            pawn_table_mg: t[0].unwrap().mg,
            pawn_table_eg: t[0].unwrap().eg,
            lance_table_mg: t[1].unwrap().mg,
            lance_table_eg: t[1].unwrap().eg,
            knight_table_mg: t[2].unwrap().mg,
            knight_table_eg: t[2].unwrap().eg,
            silver_table_mg: t[3].unwrap().mg,
            silver_table_eg: t[3].unwrap().eg,
            gold_table_mg: t[4].unwrap().mg,
            gold_table_eg: t[4].unwrap().eg,
            bishop_table_mg: t[5].unwrap().mg,
            bishop_table_eg: t[5].unwrap().eg,
            rook_table_mg: t[6].unwrap().mg,
            rook_table_eg: t[6].unwrap().eg,
            promoted_pawn_table_mg: t[8].unwrap().mg,
            promoted_pawn_table_eg: t[8].unwrap().eg,
            promoted_lance_table_mg: t[9].unwrap().mg,
            promoted_lance_table_eg: t[9].unwrap().eg,
            promoted_knight_table_mg: t[10].unwrap().mg,
            promoted_knight_table_eg: t[10].unwrap().eg,
            promoted_silver_table_mg: t[11].unwrap().mg,
            promoted_silver_table_eg: t[11].unwrap().eg,
            promoted_bishop_table_mg: t[12].unwrap().mg,
            promoted_bishop_table_eg: t[12].unwrap().eg,
            promoted_rook_table_mg: t[13].unwrap().mg,
            promoted_rook_table_eg: t[13].unwrap().eg,
        })
    }
}

/// Piece-square tables for dual-phase positional evaluation.
#[derive(Clone, Copy, Debug)]
pub struct PieceSquareTables {
    pub inner: PieceSquareTableStorage,
}

/// Table coordinates of a square: as is for Black, mirrored through the
/// centre for White.
pub open spec fn table_coords(pos: Position, player: Player) -> (int, int) {
    if player == Player::Black {
        (pos.row as int, pos.col as int)
    } else {
        (8 - pos.row, 8 - pos.col)
    }
}

/// Positional value of a piece of `pt` owned by `player` on `pos`.
pub open spec fn pst_value(s: PieceSquareTableStorage, pt: PieceType, pos: Position, player: Player) -> TaperedScore {
    let (r, c) = table_coords(pos, player);
    TaperedScore { mg: mg_table(s, pt)@[r]@[c], eg: eg_table(s, pt)@[r]@[c] }
}

impl PieceSquareTables {
    /// The built-in tables.
    pub fn new() -> (r: Self)
        ensures
            r.inner == builtin_storage(),
    {
        PieceSquareTables { inner: PieceSquareTableStorage::builtin() }
    }

    /// Tables holding the given raw data.
    pub fn from_raw(raw: PieceSquareTableRaw) -> (r: Self)
        ensures
            r.inner == storage_of_raw(raw),
    {
        PieceSquareTables { inner: PieceSquareTableStorage::from_raw(raw) }
    }

    /// The tables as raw data.
    pub fn to_raw(&self) -> (r: PieceSquareTableRaw)
        ensures
            r == raw_of_storage(self.inner),
    {
        self.inner.to_raw()
    }

    /// Tables from per-kind phase tables indexed by piece kind. Every kind
    /// but the king must be present; king tables, if given, must be zero.
    pub fn from_phase_tables(tables: &[Option<PiecePhaseTables>; 14]) -> (r: Result<Self, PieceSquareTableError>)
        ensures
            match (r, import_result(tables@)) {
                (Ok(t), Ok(s)) => t.inner == s,
                (Err(e), Err(e2)) => e == e2,
                _ => false,
            },
    {
        let pawn = match tables[0] {
            Some(t) => t,
            None => {
                return Err(PieceSquareTableError::MissingPiece(PieceType::Pawn));
            },
        };
        let lance = match tables[1] {
            Some(t) => t,
            None => {
                return Err(PieceSquareTableError::MissingPiece(PieceType::Lance));
            },
        };
        let knight = match tables[2] {
            Some(t) => t,
            None => {
                return Err(PieceSquareTableError::MissingPiece(PieceType::Knight));
            },
        };
        let silver = match tables[3] {
            Some(t) => t,
            None => {
                return Err(PieceSquareTableError::MissingPiece(PieceType::Silver));
            },
        };
        let gold = match tables[4] {
            Some(t) => t,
            None => {
                return Err(PieceSquareTableError::MissingPiece(PieceType::Gold));
            },
        };
        let bishop = match tables[5] {
            Some(t) => t,
            None => {
                return Err(PieceSquareTableError::MissingPiece(PieceType::Bishop));
            },
        };
        let rook = match tables[6] {
            Some(t) => t,
            None => {
                return Err(PieceSquareTableError::MissingPiece(PieceType::Rook));
            },
        };
        if let Some(king_tables) = tables[7] {
            if !is_zero_table(&king_tables.mg) || !is_zero_table(&king_tables.eg) {
                return Err(PieceSquareTableError::UnsupportedKingValues);
            }
        }
        let promoted_pawn = match tables[8] {
            Some(t) => t,
            None => {
                return Err(PieceSquareTableError::MissingPiece(PieceType::PromotedPawn));
            },
        };
        let promoted_lance = match tables[9] {
            Some(t) => t,
            None => {
                return Err(PieceSquareTableError::MissingPiece(PieceType::PromotedLance));
            },
        };
        let promoted_knight = match tables[10] {
            Some(t) => t,
            None => {
                return Err(PieceSquareTableError::MissingPiece(PieceType::PromotedKnight));
            },
        };
        let promoted_silver = match tables[11] {
            Some(t) => t,
            None => {
                return Err(PieceSquareTableError::MissingPiece(PieceType::PromotedSilver));
            },
        };
        let promoted_bishop = match tables[12] {
            Some(t) => t,
            None => {
                return Err(PieceSquareTableError::MissingPiece(PieceType::PromotedBishop));
            },
        };
        let promoted_rook = match tables[13] {
            Some(t) => t,
            None => {
                return Err(PieceSquareTableError::MissingPiece(PieceType::PromotedRook));
            },
        };
        let raw = PieceSquareTableRaw {
            pawn_table_mg: pawn.mg,
            pawn_table_eg: pawn.eg,
            lance_table_mg: lance.mg,
            lance_table_eg: lance.eg,
            knight_table_mg: knight.mg,
            knight_table_eg: knight.eg,
            silver_table_mg: silver.mg,
            silver_table_eg: silver.eg,
            gold_table_mg: gold.mg,
            gold_table_eg: gold.eg,
            bishop_table_mg: bishop.mg,
            bishop_table_eg: bishop.eg,
            rook_table_mg: rook.mg,
            rook_table_eg: rook.eg,
            promoted_pawn_table_mg: promoted_pawn.mg,
            promoted_pawn_table_eg: promoted_pawn.eg,
            promoted_lance_table_mg: promoted_lance.mg,
            promoted_lance_table_eg: promoted_lance.eg,
            promoted_knight_table_mg: promoted_knight.mg,
            promoted_knight_table_eg: promoted_knight.eg,
            promoted_silver_table_mg: promoted_silver.mg,
            promoted_silver_table_eg: promoted_silver.eg,
            promoted_bishop_table_mg: promoted_bishop.mg,
            promoted_bishop_table_eg: promoted_bishop.eg,
            promoted_rook_table_mg: promoted_rook.mg,
            promoted_rook_table_eg: promoted_rook.eg,
        };
        Ok(Self::from_raw(raw))
    }

    /// Per-kind phase tables indexed by piece kind; the king's are zero.
    pub fn to_phase_tables(&self) -> (r: [Option<PiecePhaseTables>; 14])
        ensures
            forall|i: int| 0 <= i < 14 ==> #[trigger] r@[i] == Some(exported(self.inner, i)),
    {
        let s = &self.inner;
        [
            Some(PiecePhaseTables { mg: s.pawn_table_mg, eg: s.pawn_table_eg }),
            Some(PiecePhaseTables { mg: s.lance_table_mg, eg: s.lance_table_eg }),
            Some(PiecePhaseTables { mg: s.knight_table_mg, eg: s.knight_table_eg }),
            Some(PiecePhaseTables { mg: s.silver_table_mg, eg: s.silver_table_eg }),
            Some(PiecePhaseTables { mg: s.gold_table_mg, eg: s.gold_table_eg }),
            Some(PiecePhaseTables { mg: s.bishop_table_mg, eg: s.bishop_table_eg }),
            Some(PiecePhaseTables { mg: s.rook_table_mg, eg: s.rook_table_eg }),
            Some(PiecePhaseTables { mg: ZERO_TABLE, eg: ZERO_TABLE }),
            Some(PiecePhaseTables { mg: s.promoted_pawn_table_mg, eg: s.promoted_pawn_table_eg }),
            Some(PiecePhaseTables { mg: s.promoted_lance_table_mg, eg: s.promoted_lance_table_eg }),
            Some(PiecePhaseTables { mg: s.promoted_knight_table_mg, eg: s.promoted_knight_table_eg }),
            Some(PiecePhaseTables { mg: s.promoted_silver_table_mg, eg: s.promoted_silver_table_eg }),
            Some(PiecePhaseTables { mg: s.promoted_bishop_table_mg, eg: s.promoted_bishop_table_eg }),
            Some(PiecePhaseTables { mg: s.promoted_rook_table_mg, eg: s.promoted_rook_table_eg }),
        ]
    }

    /// Middlegame and endgame tables of a piece kind (zero tables for the
    /// king).
    pub fn get_tables(&self, piece_type: PieceType) -> (r: (&[[i32; 9]; 9], &[[i32; 9]; 9]))
        ensures
            *r.0 == mg_table(self.inner, piece_type),
            *r.1 == eg_table(self.inner, piece_type),
    {
        match piece_type {
            PieceType::Pawn => (&self.inner.pawn_table_mg, &self.inner.pawn_table_eg),
            PieceType::Lance => (&self.inner.lance_table_mg, &self.inner.lance_table_eg),
            PieceType::Knight => (&self.inner.knight_table_mg, &self.inner.knight_table_eg),
            PieceType::Silver => (&self.inner.silver_table_mg, &self.inner.silver_table_eg),
            PieceType::Gold => (&self.inner.gold_table_mg, &self.inner.gold_table_eg),
            PieceType::Bishop => (&self.inner.bishop_table_mg, &self.inner.bishop_table_eg),
            PieceType::Rook => (&self.inner.rook_table_mg, &self.inner.rook_table_eg),
            PieceType::PromotedPawn => (&self.inner.promoted_pawn_table_mg, &self.inner.promoted_pawn_table_eg),
            PieceType::PromotedLance => (&self.inner.promoted_lance_table_mg, &self.inner.promoted_lance_table_eg),
            PieceType::PromotedKnight => (&self.inner.promoted_knight_table_mg, &self.inner.promoted_knight_table_eg),
            PieceType::PromotedSilver => (&self.inner.promoted_silver_table_mg, &self.inner.promoted_silver_table_eg),
            PieceType::PromotedBishop => (&self.inner.promoted_bishop_table_mg, &self.inner.promoted_bishop_table_eg),
            PieceType::PromotedRook => (&self.inner.promoted_rook_table_mg, &self.inner.promoted_rook_table_eg),
            PieceType::King => (&ZERO_TABLE, &ZERO_TABLE),
        }
    }

    /// Table coordinates of a square for a player: unchanged for Black,
    /// mirrored through the centre for White.
    pub fn get_table_coords(&self, pos: Position, player: Player) -> (r: (u8, u8))
        requires
            pos.valid(),
        ensures
            (r.0 as int, r.1 as int) == table_coords(pos, player),
            r.0 < 9 && r.1 < 9,
    {
        if player == Player::Black {
            (pos.row, pos.col)
        } else {
            (8 - pos.row, 8 - pos.col)
        }
    }

    /// Positional value of a piece of `piece_type` owned by `player` on `pos`.
    pub fn get_value(&self, piece_type: PieceType, pos: Position, player: Player) -> (r: TaperedScore)
        requires
            pos.valid(),
        ensures
            r == pst_value(self.inner, piece_type, pos, player),
    {
        let (mg_table, eg_table) = self.get_tables(piece_type);
        let (row, col) = self.get_table_coords(pos, player);
        let mg_value = mg_table[row as usize][col as usize];
        let eg_value = eg_table[row as usize][col as usize];
        TaperedScore::new_tapered(mg_value, eg_value)
    }
}

/// Colour symmetry: a White piece on a square is valued as a Black piece on
/// the square mirrored through the centre.
pub proof fn law_player_symmetry(s: PieceSquareTableStorage, pt: PieceType, pos: Position)
    requires
        pos.valid(),
    ensures
        pst_value(s, pt, pos, Player::White) == pst_value(
            s,
            pt,
            Position { row: (8 - pos.row) as u8, col: (8 - pos.col) as u8 },
            Player::Black,
        ),
{
}

/// Converting to raw data and back gives the same tables.
pub proof fn law_raw_roundtrip(s: PieceSquareTableStorage)
    ensures
        storage_of_raw(raw_of_storage(s)) == s,
{
}

/// Raw data converted to tables and back is unchanged.
pub proof fn law_storage_roundtrip(raw: PieceSquareTableRaw)
    ensures
        raw_of_storage(storage_of_raw(raw)) == raw,
{
}

/// Importing the exported phase tables gives back the same tables.
pub proof fn law_phase_tables_roundtrip(s: PieceSquareTableStorage, t: Seq<Option<PiecePhaseTables>>)
    requires
        t.len() == 14,
        forall|i: int| 0 <= i < 14 ==> #[trigger] t[i] == Some(exported(s, i)),
    ensures
        import_result(t) == Ok::<PieceSquareTableStorage, PieceSquareTableError>(s),
{
    assert(t[7] == Some(exported(s, 7)));
    assert(table_is_zero(ZERO_TABLE));
    assert(t[0] == Some(exported(s, 0)));
    assert(t[1] == Some(exported(s, 1)));
    assert(t[2] == Some(exported(s, 2)));
    assert(t[3] == Some(exported(s, 3)));
    assert(t[4] == Some(exported(s, 4)));
    assert(t[5] == Some(exported(s, 5)));
    assert(t[6] == Some(exported(s, 6)));
    assert(t[8] == Some(exported(s, 8)));
    assert(t[9] == Some(exported(s, 9)));
    assert(t[10] == Some(exported(s, 10)));
    assert(t[11] == Some(exported(s, 11)));
    assert(t[12] == Some(exported(s, 12)));
    assert(t[13] == Some(exported(s, 13)));
}

} // verus!
