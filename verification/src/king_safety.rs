//! King safety for the position-feature evaluator: the king's shield and
//! pawn cover, hand pieces ready to reinforce it, recognised castles, and
//! the dangers around it (enemy pieces, enemy hand drops, open files next to
//! the king with an enemy rook, tokins, empty squares).
//!
//! The scorers accept hands of up to a million pieces of each kind. A legal
//! position holds at most 18 of a kind, so every game lies far inside that
//! bound, which is chosen well below where the weighted sums would leave `i32`.

use vstd::prelude::*;
use crate::board::{Board, piece_at, square_sum};
use crate::types::{CapturedPieces, Piece, PieceType, Player, Position, TaperedScore};

verus! {

// ---------------------------------------------------------------------------
// Geometry
// ---------------------------------------------------------------------------

pub open spec fn gold_equivalent(pt: PieceType) -> bool {
    pt == PieceType::Gold || pt == PieceType::PromotedPawn || pt == PieceType::PromotedLance || pt
        == PieceType::PromotedKnight || pt == PieceType::PromotedSilver
}

pub open spec fn promoted_major(pt: PieceType) -> bool {
    pt == PieceType::PromotedBishop || pt == PieceType::PromotedRook
}

pub fn is_gold_equivalent(pt: PieceType) -> (r: bool)
    ensures
        r == gold_equivalent(pt),
{
    match pt {
        PieceType::Gold | PieceType::PromotedPawn | PieceType::PromotedLance | PieceType::PromotedKnight
        | PieceType::PromotedSilver => true,
        _ => false,
    }
}

pub fn is_promoted_major(pt: PieceType) -> (r: bool)
    ensures
        r == promoted_major(pt),
{
    match pt {
        PieceType::PromotedBishop | PieceType::PromotedRook => true,
        _ => false,
    }
}

/// Row seen from `player`'s side: Black's rows as they are, White's turned
/// around, so that 8 is always the own back rank.
pub open spec fn oriented_row(pos: Position, player: Player) -> int {
    if player == Player::Black {
        pos.row as int
    } else {
        8 - pos.row
    }
}

pub open spec fn oriented_col(pos: Position, player: Player) -> int {
    if player == Player::Black {
        pos.col as int
    } else {
        8 - pos.col
    }
}

/// The square at offset `(dr, dc)` from `base` as `player` sees the board
/// (negative `dr` is toward the enemy), if on the board.
pub open spec fn oriented_square(base: Position, player: Player, dr: int, dc: int) -> Option<Position> {
    let r = if player == Player::Black {
        base.row + dr
    } else {
        base.row - dr
    };
    let c = if player == Player::Black {
        base.col + dc
    } else {
        base.col - dc
    };
    if 0 <= r < 9 && 0 <= c < 9 {
        Some(Position { row: r as u8, col: c as u8 })
    } else {
        None
    }
}

/// The square at a plain offset from `base`, if on the board.
pub open spec fn plain_square(base: Position, dr: int, dc: int) -> Option<Position> {
    let r = base.row + dr;
    let c = base.col + dc;
    if 0 <= r < 9 && 0 <= c < 9 {
        Some(Position { row: r as u8, col: c as u8 })
    } else {
        None
    }
}

pub fn oriented_offset_to_actual(base: Position, player: Player, dr: i8, dc: i8) -> (r: Option<Position>)
    requires
        base.valid(),
        -3 <= dr <= 3,
        -3 <= dc <= 3,
    ensures
        r == oriented_square(base, player, dr as int, dc as int),
        r.is_some() ==> r.unwrap().valid(),
{
    let (tr, tc) = match player {
        Player::Black => (base.row as i8 + dr, base.col as i8 + dc),
        Player::White => (base.row as i8 - dr, base.col as i8 - dc),
    };
    if tr < 0 || tr >= 9 || tc < 0 || tc >= 9 {
        None
    } else {
        Some(Position::new(tr as u8, tc as u8))
    }
}

fn plain_offset(base: Position, dr: i8, dc: i8) -> (r: Option<Position>)
    requires
        base.valid(),
        -3 <= dr <= 3,
        -3 <= dc <= 3,
    ensures
        r == plain_square(base, dr as int, dc as int),
        r.is_some() ==> r.unwrap().valid(),
{
    let tr = base.row as i8 + dr;
    let tc = base.col as i8 + dc;
    if tr < 0 || tr >= 9 || tc < 0 || tc >= 9 {
        None
    } else {
        Some(Position::new(tr as u8, tc as u8))
    }
}

pub open spec fn illegal_pawn_drop_rank(player: Player, row: int) -> bool {
    if player == Player::Black {
        row == 0
    } else {
        row == 8
    }
}

pub open spec fn illegal_knight_drop_rank(player: Player, row: int) -> bool {
    if player == Player::Black {
        row <= 1
    } else {
        row >= 7
    }
}

fn pawn_drop_rank_illegal(player: Player, row: u8) -> (r: bool)
    ensures
        r == illegal_pawn_drop_rank(player, row as int),
{
    match player {
        Player::Black => row == 0,
        Player::White => row == 8,
    }
}

fn knight_drop_rank_illegal(player: Player, row: u8) -> (r: bool)
    ensures
        r == illegal_knight_drop_rank(player, row as int),
{
    match player {
        Player::Black => row <= 1,
        Player::White => row >= 7,
    }
}

pub open spec fn occupied(b: Board, p: Position) -> bool {
    piece_at(b, p.row as int, p.col as int).is_some()
}

/// `player` has an unpromoted pawn on the column.
pub open spec fn column_has_pawn(b: Board, player: Player, col: int) -> bool {
    exists|r: int| 0 <= r < 9 && #[trigger] crate::board::is_kind(piece_at(b, r, col), player, PieceType::Pawn)
}

/// A pawn of `player` may be dropped on `pos`: empty square, no own pawn on
/// the column, not the last rank.
pub open spec fn pawn_drop_allowed(b: Board, player: Player, pos: Position) -> bool {
    !occupied(b, pos) && !column_has_pawn(b, player, pos.col as int) && !illegal_pawn_drop_rank(
        player,
        pos.row as int,
    )
}

pub fn column_has_unpromoted_pawn(board: &Board, player: Player, column: u8) -> (r: bool)
    requires
        column < 9,
    ensures
        r == column_has_pawn(*board, player, column as int),
{
    let mut row: u8 = 0;
    while row < 9
        invariant
            row <= 9,
            column < 9,
            forall|r: int| 0 <= r < row ==> !#[trigger] crate::board::is_kind(piece_at(*board, r, column as int), player, PieceType::Pawn),
        decreases 9 - row,
    {
        match board.get_piece(Position::new(row, column)) {
            Some(piece) => {
                if piece.player == player && piece.piece_type == PieceType::Pawn {
                    assert(crate::board::is_kind(piece_at(*board, row as int, column as int), player, PieceType::Pawn));
                    return true;
                }
            },
            None => {},
        }
        row += 1;
    }
    false
}

pub fn can_drop_pawn_at(board: &Board, player: Player, drop_pos: Position) -> (r: bool)
    requires
        drop_pos.valid(),
    ensures
        r == pawn_drop_allowed(*board, player, drop_pos),
{
    if board.is_square_occupied(drop_pos) {
        return false;
    }
    if column_has_unpromoted_pawn(board, player, drop_pos.col) {
        return false;
    }
    if pawn_drop_rank_illegal(player, drop_pos.row) {
        return false;
    }
    true
}

// ---------------------------------------------------------------------------
// Shield, cover, exposure
// ---------------------------------------------------------------------------

pub open spec fn shield_value(pt: PieceType) -> (int, int) {
    if gold_equivalent(pt) {
        (48, 28)
    } else if promoted_major(pt) {
        (44, 26)
    } else if pt == PieceType::Rook || pt == PieceType::Bishop {
        (26, 18)
    } else if pt == PieceType::Silver {
        (28, 16)
    } else if pt == PieceType::Pawn {
        (18, 10)
    } else if pt == PieceType::Knight || pt == PieceType::Lance {
        (14, 8)
    } else {
        (12, 6)
    }
}

/// Shield value of an own piece at a plain offset from the king.
pub open spec fn shield_at(b: Board, k: Position, player: Player, dr: int, dc: int) -> (int, int) {
    match plain_square(k, dr, dc) {
        Some(p) => match piece_at(b, p.row as int, p.col as int) {
            Some(pc) => if pc.player == player {
                shield_value(pc.piece_type)
            } else {
                (0, 0)
            },
            None => (0, 0),
        },
        None => (0, 0),
    }
}

pub open spec fn add2(a: (int, int), b: (int, int)) -> (int, int) {
    (a.0 + b.0, a.1 + b.1)
}

/// Friendly pieces on the eight squares around the king.
pub open spec fn king_shield(b: Board, k: Position, player: Player) -> (int, int) {
    add2(
        add2(
            add2(shield_at(b, k, player, -1, -1), shield_at(b, k, player, -1, 0)),
            add2(shield_at(b, k, player, -1, 1), shield_at(b, k, player, 0, -1)),
        ),
        add2(
            add2(shield_at(b, k, player, 0, 1), shield_at(b, k, player, 1, -1)),
            add2(shield_at(b, k, player, 1, 0), shield_at(b, k, player, 1, 1)),
        ),
    )
}

/// Cover value of an own pawn (25, 10) or gold-like piece (32, 14) on a
/// square in front of the king.
pub open spec fn cover_at(b: Board, k: Position, player: Player, dc: int) -> (int, int) {
    let dir: int = if player == Player::Black {
        -1
    } else {
        1
    };
    match plain_square(k, dir, dc) {
        Some(p) => match piece_at(b, p.row as int, p.col as int) {
            Some(pc) => if pc.player == player && pc.piece_type == PieceType::Pawn {
                (25, 10)
            } else if pc.player == player && gold_equivalent(pc.piece_type) {
                (32, 14)
            } else {
                (0, 0)
            },
            None => (0, 0),
        },
        None => (0, 0),
    }
}

pub open spec fn pawn_cover(b: Board, k: Position, player: Player) -> (int, int) {
    add2(add2(cover_at(b, k, player, -1), cover_at(b, k, player, 0)), cover_at(b, k, player, 1))
}

pub open spec fn open_at(b: Board, k: Position, dr: int, dc: int) -> int {
    match plain_square(k, dr, dc) {
        Some(p) => if occupied(b, p) {
            0
        } else {
            1
        },
        None => 0,
    }
}

/// Empty squares on the board around the king.
pub open spec fn open_neighbours(b: Board, k: Position) -> int {
    open_at(b, k, -1, -1) + open_at(b, k, -1, 0) + open_at(b, k, -1, 1) + open_at(b, k, 0, -1) + open_at(b, k, 0, 1)
        + open_at(b, k, 1, -1) + open_at(b, k, 1, 0) + open_at(b, k, 1, 1)
}

pub open spec fn king_exposure(b: Board, k: Position) -> (int, int) {
    (open_neighbours(b, k) * 20, open_neighbours(b, k) * 10)
}

fn shield_value_of(pt: PieceType) -> (r: (i32, i32))
    ensures
        (r.0 as int, r.1 as int) == shield_value(pt),
{
    if is_gold_equivalent(pt) {
        (48, 28)
    } else if is_promoted_major(pt) {
        (44, 26)
    } else {
        match pt {
            PieceType::Rook | PieceType::Bishop => (26, 18),
            PieceType::Silver => (28, 16),
            PieceType::Pawn => (18, 10),
            PieceType::Knight | PieceType::Lance => (14, 8),
            _ => (12, 6),
        }
    }
}

fn shield_term(board: &Board, k: Position, player: Player, dr: i8, dc: i8) -> (r: (i32, i32))
    requires
        k.valid(),
        -1 <= dr <= 1,
        -1 <= dc <= 1,
    ensures
        (r.0 as int, r.1 as int) == shield_at(*board, k, player, dr as int, dc as int),
        0 <= r.0 <= 48,
        0 <= r.1 <= 28,
{
    match plain_offset(k, dr, dc) {
        Some(pos) => match board.get_piece(pos) {
            Some(piece) => {
                if piece.player == player {
                    shield_value_of(piece.piece_type)
                } else {
                    (0, 0)
                }
            },
            None => (0, 0),
        },
        None => (0, 0),
    }
}

fn cover_term(board: &Board, k: Position, player: Player, dc: i8) -> (r: (i32, i32))
    requires
        k.valid(),
        -1 <= dc <= 1,
    ensures
        (r.0 as int, r.1 as int) == cover_at(*board, k, player, dc as int),
        0 <= r.0 <= 32,
        0 <= r.1 <= 14,
{
    let dir: i8 = match player {
        Player::Black => -1,
        Player::White => 1,
    };
    match plain_offset(k, dir, dc) {
        Some(pos) => match board.get_piece(pos) {
            Some(piece) => {
                if piece.player == player && piece.piece_type == PieceType::Pawn {
                    (25, 10)
                } else if piece.player == player && is_gold_equivalent(piece.piece_type) {
                    (32, 14)
                } else {
                    (0, 0)
                }
            },
            None => (0, 0),
        },
        None => (0, 0),
    }
}

fn open_term(board: &Board, k: Position, dr: i8, dc: i8) -> (r: i32)
    requires
        k.valid(),
        -1 <= dr <= 1,
        -1 <= dc <= 1,
    ensures
        r == open_at(*board, k, dr as int, dc as int),
        0 <= r <= 1,
{
    match plain_offset(k, dr, dc) {
        Some(pos) => if board.is_square_occupied(pos) {
            0
        } else {
            1
        },
        None => 0,
    }
}

// ---------------------------------------------------------------------------
// Dangers near the king
// ---------------------------------------------------------------------------

pub open spec fn threat_value(pt: PieceType) -> (int, int) {
    if gold_equivalent(pt) {
        (32, 22)
    } else if pt == PieceType::Rook || pt == PieceType::PromotedRook {
        (52, 32)
    } else if pt == PieceType::Bishop || pt == PieceType::PromotedBishop {
        (46, 28)
    } else if pt == PieceType::Silver {
        (26, 18)
    } else if pt == PieceType::Knight || pt == PieceType::Lance {
        (18, 12)
    } else if pt == PieceType::Pawn {
        (12, 8)
    } else {
        (16, 10)
    }
}

/// The square with index `i` lies within two ranks and two files of `k`.
pub open spec fn in_king_zone(k: Position, i: int) -> bool {
    let r = i / 9;
    let c = i % 9;
    k.row - 2 <= r <= k.row + 2 && k.col - 2 <= c <= k.col + 2
}

pub open spec fn attacker_term(b: Board, k: Position, player: Player, i: int, part: int) -> int {
    match b.squares@[i] {
        Some(pc) => if in_king_zone(k, i) && pc.player != player {
            if part == 0 {
                threat_value(pc.piece_type).0
            } else {
                threat_value(pc.piece_type).1
            }
        } else {
            0
        },
        None => 0,
    }
}

/// Enemy pieces within two squares of the king, weighted by kind.
pub open spec fn enemy_attackers(b: Board, k: Position, player: Player) -> (int, int) {
    (
        square_sum(|i: int| attacker_term(b, k, player, i, 0), 81),
        square_sum(|i: int| attacker_term(b, k, player, i, 1), 81),
    )
}

/// No pawn of either side stands on the column.
pub open spec fn file_open(b: Board, col: int) -> bool {
    forall|r: int|
        0 <= r < 9 ==> !(#[trigger] piece_at(b, r, col) matches Some(pc) && pc.piece_type == PieceType::Pawn)
}

/// `side` has a rook, promoted or not, somewhere on the board.
pub open spec fn has_rook(b: Board, side: Player) -> bool {
    exists|i: int|
        0 <= i < 81 && (#[trigger] b.squares@[i] matches Some(pc) && pc.player == side && (pc.piece_type
            == PieceType::Rook || pc.piece_type == PieceType::PromotedRook))
}

/// Penalty for one file next to the king (files numbered 1-9 from the right
/// of the board, so column `c` is file `9 - c`).
pub open spec fn open_file_term(b: Board, player: Player, file: int) -> (int, int) {
    if file_open(b, 9 - file) && has_rook(b, player.other()) {
        if file == 8 || file == 2 {
            (150, 100)
        } else {
            (80, 50)
        }
    } else {
        (0, 0)
    }
}

/// Open files beside the king while the enemy has a rook.
pub open spec fn open_file_attacks(b: Board, k: Position, player: Player) -> (int, int) {
    let kf = 9 - k.col;
    if kf == 1 {
        open_file_term(b, player, 2)
    } else if kf == 9 {
        open_file_term(b, player, 8)
    } else {
        add2(open_file_term(b, player, kf - 1), open_file_term(b, player, kf + 1))
    }
}

pub open spec fn abs_int(x: int) -> int {
    if x < 0 {
        -x
    } else {
        x
    }
}

/// An enemy tokin on square `i` near the king, with its Manhattan distance.
pub open spec fn tokin_distance(b: Board, k: Position, player: Player, i: int) -> Option<int> {
    match b.squares@[i] {
        Some(pc) => if in_king_zone(k, i) && pc.player == player.other() && pc.piece_type == PieceType::PromotedPawn {
            Some(abs_int(i / 9 - k.row) + abs_int(i % 9 - k.col))
        } else {
            None
        },
        None => None,
    }
}

pub open spec fn tokin_term(b: Board, k: Position, player: Player, i: int, part: int) -> int {
    match tokin_distance(b, k, player, i) {
        Some(d) => if d <= 2 {
            if part == 0 {
                200
            } else {
                150
            }
        } else if d == 3 {
            if part == 0 {
                100
            } else {
                70
            }
        } else {
            0
        },
        None => 0,
    }
}

pub open spec fn close_tokins(b: Board, k: Position, player: Player) -> int {
    square_sum(|i: int| if tokin_distance(b, k, player, i) matches Some(d) && d <= 2 { 1int } else { 0int }, 81)
}

/// Enemy tokins near the king: 200 within two squares, 100 at three, and
/// 300 more when two or more are within two squares.
pub open spec fn tokin_threats(b: Board, k: Position, player: Player) -> (int, int) {
    let base = (
        square_sum(|i: int| tokin_term(b, k, player, i, 0), 81),
        square_sum(|i: int| tokin_term(b, k, player, i, 1), 81),
    );
    if close_tokins(b, k, player) >= 2 {
        (base.0 + 300, base.1 + 200)
    } else {
        base
    }
}

} // verus!

verus! {

fn threat_value_of(pt: PieceType) -> (r: (i32, i32))
    ensures
        (r.0 as int, r.1 as int) == threat_value(pt),
{
    if is_gold_equivalent(pt) {
        (32, 22)
    } else {
        match pt {
            PieceType::Rook | PieceType::PromotedRook => (52, 32),
            PieceType::Bishop | PieceType::PromotedBishop => (46, 28),
            PieceType::Silver => (26, 18),
            PieceType::Knight | PieceType::Lance => (18, 12),
            PieceType::Pawn => (12, 8),
            _ => (16, 10),
        }
    }
}

fn zone_contains(k: Position, i: usize) -> (r: bool)
    requires
        k.valid(),
        i < 81,
    ensures
        r == in_king_zone(k, i as int),
{
    let r = (i / 9) as i16;
    let c = (i % 9) as i16;
    let kr = k.row as i16;
    let kc = k.col as i16;
    kr - 2 <= r && r <= kr + 2 && kc - 2 <= c && c <= kc + 2
}

/// Enemy pieces within two squares of the king, weighted by kind.
pub fn enemy_attacker_penalty(board: &Board, king_pos: Position, player: Player) -> (r: TaperedScore)
    requires
        king_pos.valid(),
    ensures
        (r.mg as int, r.eg as int) == enemy_attackers(*board, king_pos, player),
        0 <= r.mg <= 52 * 81,
        0 <= r.eg <= 32 * 81,
{
    let ghost f0 = |i: int| attacker_term(*board, king_pos, player, i, 0);
    let ghost f1 = |i: int| attacker_term(*board, king_pos, player, i, 1);
    let mut mg: i32 = 0;
    let mut eg: i32 = 0;
    let mut i: usize = 0;
    while i < 81
        invariant
            i <= 81,
            king_pos.valid(),
            f0 == (|i: int| attacker_term(*board, king_pos, player, i, 0)),
            f1 == (|i: int| attacker_term(*board, king_pos, player, i, 1)),
            mg == square_sum(f0, i as int),
            eg == square_sum(f1, i as int),
            0 <= mg <= 52 * i,
            0 <= eg <= 32 * i,
        decreases 81 - i,
    {
        match board.squares[i] {
            Some(piece) => {
                if zone_contains(king_pos, i) && piece.player != player {
                    let v = threat_value_of(piece.piece_type);
                    mg += v.0;
                    eg += v.1;
                }
            },
            None => {},
        }
        i += 1;
    }
    TaperedScore::new_tapered(mg, eg)
}

fn column_open(board: &Board, col: u8) -> (r: bool)
    requires
        col < 9,
    ensures
        r == file_open(*board, col as int),
{
    let mut row: u8 = 0;
    while row < 9
        invariant
            row <= 9,
            col < 9,
            forall|r: int|
                0 <= r < row ==> !(#[trigger] piece_at(*board, r, col as int) matches Some(pc) && pc.piece_type
                    == PieceType::Pawn),
        decreases 9 - row,
    {
        match board.get_piece(Position::new(row, col)) {
            Some(piece) => {
                if piece.piece_type == PieceType::Pawn {
                    assert(piece_at(*board, row as int, col as int) matches Some(pc) && pc.piece_type == PieceType::Pawn);
                    return false;
                }
            },
            None => {},
        }
        row += 1;
    }
    true
}

fn side_has_rook(board: &Board, side: Player) -> (r: bool)
    ensures
        r == has_rook(*board, side),
{
    let mut i: usize = 0;
    while i < 81
        invariant
            i <= 81,
            forall|j: int|
                0 <= j < i ==> !(#[trigger] board.squares@[j] matches Some(pc) && pc.player == side && (pc.piece_type
                    == PieceType::Rook || pc.piece_type == PieceType::PromotedRook)),
        decreases 81 - i,
    {
        match board.squares[i] {
            Some(piece) => {
                if piece.player == side && (piece.piece_type == PieceType::Rook || piece.piece_type
                    == PieceType::PromotedRook) {
                    return true;
                }
            },
            None => {},
        }
        i += 1;
    }
    false
}

fn open_file_penalty(board: &Board, player: Player, file: u8) -> (r: (i32, i32))
    requires
        1 <= file <= 9,
    ensures
        (r.0 as int, r.1 as int) == open_file_term(*board, player, file as int),
        0 <= r.0 <= 150,
        0 <= r.1 <= 100,
{
    if column_open(board, 9 - file) && side_has_rook(board, player.opposite()) {
        if file == 8 || file == 2 {
            (150, 100)
        } else {
            (80, 50)
        }
    } else {
        (0, 0)
    }
}

/// Open files beside the king while the enemy holds a rook.
pub fn open_file_attack_penalty(board: &Board, king_pos: Position, player: Player) -> (r: TaperedScore)
    requires
        king_pos.valid(),
    ensures
        (r.mg as int, r.eg as int) == open_file_attacks(*board, king_pos, player),
        0 <= r.mg <= 300,
        0 <= r.eg <= 200,
{
    let king_file = 9 - king_pos.col;
    if king_file == 1 {
        let t = open_file_penalty(board, player, 2);
        TaperedScore::new_tapered(t.0, t.1)
    } else if king_file == 9 {
        let t = open_file_penalty(board, player, 8);
        TaperedScore::new_tapered(t.0, t.1)
    } else {
        let a = open_file_penalty(board, player, king_file - 1);
        let b = open_file_penalty(board, player, king_file + 1);
        TaperedScore::new_tapered(a.0 + b.0, a.1 + b.1)
    }
}

/// Enemy tokins near the king.
pub fn tokin_threat_penalty(board: &Board, king_pos: Position, player: Player) -> (r: TaperedScore)
    requires
        king_pos.valid(),
    ensures
        (r.mg as int, r.eg as int) == tokin_threats(*board, king_pos, player),
        0 <= r.mg <= 200 * 81 + 300,
        0 <= r.eg <= 150 * 81 + 200,
{
    let ghost f0 = |i: int| tokin_term(*board, king_pos, player, i, 0);
    let ghost f1 = |i: int| tokin_term(*board, king_pos, player, i, 1);
    let ghost fc = |i: int| if tokin_distance(*board, king_pos, player, i) matches Some(d) && d <= 2 { 1int } else { 0int };
    let opponent = player.opposite();
    let mut mg: i32 = 0;
    let mut eg: i32 = 0;
    let mut count: i32 = 0;
    let mut i: usize = 0;
    while i < 81
        invariant
            i <= 81,
            king_pos.valid(),
            opponent == player.other(),
            f0 == (|i: int| tokin_term(*board, king_pos, player, i, 0)),
            f1 == (|i: int| tokin_term(*board, king_pos, player, i, 1)),
            fc == (|i: int| if tokin_distance(*board, king_pos, player, i) matches Some(d) && d <= 2 { 1int } else { 0int }),
            mg == square_sum(f0, i as int),
            eg == square_sum(f1, i as int),
            count == square_sum(fc, i as int),
            0 <= mg <= 200 * i,
            0 <= eg <= 150 * i,
            0 <= count <= i,
        decreases 81 - i,
    {
        match board.squares[i] {
            Some(piece) => {
                if zone_contains(king_pos, i) && piece.player == opponent && piece.piece_type == PieceType::PromotedPawn {
                    let r = (i / 9) as i16;
                    let c = (i % 9) as i16;
                    let dr = if r >= king_pos.row as i16 { r - king_pos.row as i16 } else { king_pos.row as i16 - r };
                    let dc = if c >= king_pos.col as i16 { c - king_pos.col as i16 } else { king_pos.col as i16 - c };
                    let distance = dr + dc;
                    if distance <= 2 {
                        count += 1;
                        mg += 200;
                        eg += 150;
                    } else if distance == 3 {
                        mg += 100;
                        eg += 70;
                    }
                }
            },
            None => {},
        }
        i += 1;
    }
    if count >= 2 {
        mg += 300;
        eg += 200;
    }
    TaperedScore::new_tapered(mg, eg)
}

/// Friendly pieces on the eight squares around the king.
pub fn king_shield_score(board: &Board, king_pos: Position, player: Player) -> (r: TaperedScore)
    requires
        king_pos.valid(),
    ensures
        (r.mg as int, r.eg as int) == king_shield(*board, king_pos, player),
        0 <= r.mg <= 48 * 8,
        0 <= r.eg <= 28 * 8,
{
    let a = shield_term(board, king_pos, player, -1, -1);
    let b = shield_term(board, king_pos, player, -1, 0);
    let c = shield_term(board, king_pos, player, -1, 1);
    let d = shield_term(board, king_pos, player, 0, -1);
    let e = shield_term(board, king_pos, player, 0, 1);
    let f = shield_term(board, king_pos, player, 1, -1);
    let g = shield_term(board, king_pos, player, 1, 0);
    let h = shield_term(board, king_pos, player, 1, 1);
    TaperedScore::new_tapered(
        ((a.0 + b.0) + (c.0 + d.0)) + ((e.0 + f.0) + (g.0 + h.0)),
        ((a.1 + b.1) + (c.1 + d.1)) + ((e.1 + f.1) + (g.1 + h.1)),
    )
}

/// Own pawns and gold-like pieces on the three squares in front of the king.
pub fn pawn_cover_score(board: &Board, king_pos: Position, player: Player) -> (r: TaperedScore)
    requires
        king_pos.valid(),
    ensures
        (r.mg as int, r.eg as int) == pawn_cover(*board, king_pos, player),
        0 <= r.mg <= 96,
        0 <= r.eg <= 42,
{
    let a = cover_term(board, king_pos, player, -1);
    let b = cover_term(board, king_pos, player, 0);
    let c = cover_term(board, king_pos, player, 1);
    TaperedScore::new_tapered(a.0 + b.0 + c.0, a.1 + b.1 + c.1)
}

/// Pawn cover looks only at the row in front of the king, in the player's
/// forward direction (`forward`: row - 1 for Black, row + 1 for White), on the king's
/// file and the two next to it: boards that agree on those three squares
/// give the same cover.
pub proof fn law_pawn_cover_reads_front_row(b1: Board, b2: Board, k: Position, player: Player)
    requires
        k.valid(),
        forall|dc: int|
            -1 <= dc <= 1 ==> #[trigger] piece_at(b1, k.row + crate::attacks::forward(player), k.col + dc)
                == piece_at(b2, k.row + crate::attacks::forward(player), k.col + dc),
    ensures
        pawn_cover(b1, k, player) == pawn_cover(b2, k, player),
{
    let front: int = k.row + crate::attacks::forward(player);
    assert(piece_at(b1, front, k.col + -1) == piece_at(b2, front, k.col + -1));
    assert(piece_at(b1, front, k.col + 0) == piece_at(b2, front, k.col + 0));
    assert(piece_at(b1, front, k.col + 1) == piece_at(b2, front, k.col + 1));
    assert(cover_at(b1, k, player, -1) == cover_at(b2, k, player, -1));
    assert(cover_at(b1, k, player, 0) == cover_at(b2, k, player, 0));
    assert(cover_at(b1, k, player, 1) == cover_at(b2, k, player, 1));
}

/// With the two diagonal squares in front of the king empty, the cover is
/// that of the square directly in front of it (row - 1 for Black, row + 1
/// for White): exactly (25, 10) for an own pawn, (32, 14) for an own
/// gold-moving piece, and nothing for an empty square or an opposing piece.
pub proof fn law_front_square_covers_king(b: Board, k: Position, player: Player)
    requires
        k.valid(),
        piece_at(b, k.row + crate::attacks::forward(player), k.col - 1).is_none(),
        piece_at(b, k.row + crate::attacks::forward(player), k.col + 1).is_none(),
    ensures
        ({
            let front = piece_at(b, k.row + crate::attacks::forward(player), k.col as int);
            pawn_cover(b, k, player) == match front {
                Some(pc) => if pc.player != player {
                    (0int, 0int)
                } else if pc.piece_type == PieceType::Pawn {
                    (25int, 10int)
                } else if crate::attacks::gold_like(pc.piece_type) {
                    (32int, 14int)
                } else {
                    (0int, 0int)
                },
                None => (0int, 0int),
            }
        }),
{
}

/// The kind of `player`'s piece on `(r, c)`, if one of theirs stands there.
pub open spec fn own_kind_at(b: Board, r: int, c: int, player: Player) -> Option<PieceType> {
    match piece_at(b, r, c) {
        Some(pc) => if pc.player == player {
            Some(pc.piece_type)
        } else {
            None
        },
        None => None,
    }
}

/// A square next to `k` (one of the eight around it).
pub open spec fn next_to(k: Position, r: int, c: int) -> bool {
    -1 <= r - k.row <= 1 && -1 <= c - k.col <= 1 && !(r == k.row && c == k.col)
}

/// The king's shield is made of the player's own pieces on the eight
/// squares around the king and nothing else: boards with the same own
/// pieces there give the same shield, whatever opposing pieces stand next
/// to the king.
pub proof fn law_shield_reads_own_neighbours(b1: Board, b2: Board, k: Position, player: Player)
    requires
        k.valid(),
        forall|r: int, c: int| #[trigger] next_to(k, r, c) ==> own_kind_at(b1, r, c, player) == own_kind_at(b2, r, c, player),
    ensures
        king_shield(b1, k, player) == king_shield(b2, k, player),
{
    assert forall|dr: int, dc: int| -1 <= dr <= 1 && -1 <= dc <= 1 && !(dr == 0 && dc == 0) implies #[trigger] shield_at(b1, k, player, dr, dc)
        == shield_at(b2, k, player, dr, dc) by {
        assert(next_to(k, k.row + dr, k.col + dc));
        assert(own_kind_at(b1, k.row + dr, k.col + dc, player) == own_kind_at(b2, k.row + dr, k.col + dc, player));
    }
    assert(shield_at(b1, k, player, -1, -1) == shield_at(b2, k, player, -1, -1));
    assert(shield_at(b1, k, player, -1, 0) == shield_at(b2, k, player, -1, 0));
    assert(shield_at(b1, k, player, -1, 1) == shield_at(b2, k, player, -1, 1));
    assert(shield_at(b1, k, player, 0, -1) == shield_at(b2, k, player, 0, -1));
    assert(shield_at(b1, k, player, 0, 1) == shield_at(b2, k, player, 0, 1));
    assert(shield_at(b1, k, player, 1, -1) == shield_at(b2, k, player, 1, -1));
    assert(shield_at(b1, k, player, 1, 0) == shield_at(b2, k, player, 1, 0));
    assert(shield_at(b1, k, player, 1, 1) == shield_at(b2, k, player, 1, 1));
}

/// Exposure depends only on which of the eight squares around the king are
/// empty, not on what stands on the others; a king away from the edges
/// with all eight neighbours empty has the full exposure (160, 80), and
/// one with all eight occupied has none.
pub proof fn law_exposure_counts_empty_neighbours(b1: Board, b2: Board, k: Position)
    requires
        k.valid(),
    ensures
        (forall|r: int, c: int| #[trigger] next_to(k, r, c) ==> piece_at(b1, r, c).is_some() == piece_at(b2, r, c).is_some())
            ==> king_exposure(b1, k) == king_exposure(b2, k),
        (1 <= k.row <= 7 && 1 <= k.col <= 7 && forall|r: int, c: int| #[trigger] next_to(k, r, c) ==> piece_at(b1, r, c).is_none())
            ==> king_exposure(b1, k) == (160int, 80int),
        (forall|r: int, c: int| #[trigger] next_to(k, r, c) ==> piece_at(b1, r, c).is_some() || !(0 <= r < 9 && 0 <= c < 9))
            ==> king_exposure(b1, k) == (0int, 0int),
{
    if forall|r: int, c: int| #[trigger] next_to(k, r, c) ==> piece_at(b1, r, c).is_some() == piece_at(b2, r, c).is_some() {
        assert forall|dr: int, dc: int| -1 <= dr <= 1 && -1 <= dc <= 1 && !(dr == 0 && dc == 0) implies #[trigger] open_at(b1, k, dr, dc)
            == open_at(b2, k, dr, dc) by {
            assert(next_to(k, k.row + dr, k.col + dc));
        }
        assert(open_at(b1, k, -1, -1) == open_at(b2, k, -1, -1));
        assert(open_at(b1, k, -1, 0) == open_at(b2, k, -1, 0));
        assert(open_at(b1, k, -1, 1) == open_at(b2, k, -1, 1));
        assert(open_at(b1, k, 0, -1) == open_at(b2, k, 0, -1));
        assert(open_at(b1, k, 0, 1) == open_at(b2, k, 0, 1));
        assert(open_at(b1, k, 1, -1) == open_at(b2, k, 1, -1));
        assert(open_at(b1, k, 1, 0) == open_at(b2, k, 1, 0));
        assert(open_at(b1, k, 1, 1) == open_at(b2, k, 1, 1));
    }
    if 1 <= k.row <= 7 && 1 <= k.col <= 7 && forall|r: int, c: int| #[trigger] next_to(k, r, c) ==> piece_at(b1, r, c).is_none() {
        assert forall|dr: int, dc: int| -1 <= dr <= 1 && -1 <= dc <= 1 && !(dr == 0 && dc == 0) implies #[trigger] open_at(b1, k, dr, dc)
            == 1 by {
            assert(next_to(k, k.row + dr, k.col + dc));
        }
        assert(open_at(b1, k, -1, -1) == 1);
        assert(open_at(b1, k, -1, 0) == 1);
        assert(open_at(b1, k, -1, 1) == 1);
        assert(open_at(b1, k, 0, -1) == 1);
        assert(open_at(b1, k, 0, 1) == 1);
        assert(open_at(b1, k, 1, -1) == 1);
        assert(open_at(b1, k, 1, 0) == 1);
        assert(open_at(b1, k, 1, 1) == 1);
    }
    if forall|r: int, c: int| #[trigger] next_to(k, r, c) ==> piece_at(b1, r, c).is_some() || !(0 <= r < 9 && 0 <= c < 9) {
        assert forall|dr: int, dc: int| -1 <= dr <= 1 && -1 <= dc <= 1 && !(dr == 0 && dc == 0) implies #[trigger] open_at(b1, k, dr, dc)
            == 0 by {
            assert(next_to(k, k.row + dr, k.col + dc));
        }
        assert(open_at(b1, k, -1, -1) == 0);
        assert(open_at(b1, k, -1, 0) == 0);
        assert(open_at(b1, k, -1, 1) == 0);
        assert(open_at(b1, k, 0, -1) == 0);
        assert(open_at(b1, k, 0, 1) == 0);
        assert(open_at(b1, k, 1, -1) == 0);
        assert(open_at(b1, k, 1, 0) == 0);
        assert(open_at(b1, k, 1, 1) == 0);
    }
}

/// Empty squares around the king: 20 each, 10 in the endgame.
pub fn king_exposure_penalty(board: &Board, king_pos: Position) -> (r: TaperedScore)
    requires
        king_pos.valid(),
    ensures
        (r.mg as int, r.eg as int) == king_exposure(*board, king_pos),
        0 <= r.mg <= 160,
        0 <= r.eg <= 80,
{
    let open = open_term(board, king_pos, -1, -1) + open_term(board, king_pos, -1, 0) + open_term(
        board,
        king_pos,
        -1,
        1,
    ) + open_term(board, king_pos, 0, -1) + open_term(board, king_pos, 0, 1) + open_term(board, king_pos, 1, -1)
        + open_term(board, king_pos, 1, 0) + open_term(board, king_pos, 1, 1);
    TaperedScore::new_tapered(open * 20, open * 10)
}

} // verus!

verus! {

// ---------------------------------------------------------------------------
// Hand pieces guarding the king
// ---------------------------------------------------------------------------

/// A square near the king and the value of dropping each kind on it.
#[derive(Clone, Copy)]
pub struct GuardDropTarget {
    pub dr: i8,
    pub dc: i8,
    pub gold_bonus: (i32, i32),
    pub silver_bonus: Option<(i32, i32)>,
    pub pawn_bonus: Option<(i32, i32)>,
    pub lance_bonus: Option<(i32, i32)>,
    pub knight_bonus: Option<(i32, i32)>,
}

pub open spec fn target(
    dr: i8,
    dc: i8,
    gold: (i32, i32),
    silver: Option<(i32, i32)>,
    pawn: Option<(i32, i32)>,
    lance: Option<(i32, i32)>,
    knight: Option<(i32, i32)>,
) -> GuardDropTarget {
    GuardDropTarget { dr, dc, gold_bonus: gold, silver_bonus: silver, pawn_bonus: pawn, lance_bonus: lance, knight_bonus: knight }
}

/// The six squares the hand can reinforce, in the order they are filled:
/// in front, the two front diagonals, the two sides, behind.
pub open spec fn guard_target(k: int) -> GuardDropTarget {
    if k == 0 {
        target(-1i8, 0i8, (32i32, 16i32), Some((18i32, 10i32)), Some((14i32, 8i32)), Some((12i32, 6i32)), None)
    } else if k == 1 {
        target(-1i8, -1i8, (26i32, 14i32), Some((22i32, 12i32)), None, None, None)
    } else if k == 2 {
        target(-1i8, 1i8, (26i32, 14i32), Some((22i32, 12i32)), None, None, None)
    } else if k == 3 {
        target(0i8, -1i8, (20i32, 10i32), Some((16i32, 8i32)), None, None, Some((10i32, 6i32)))
    } else if k == 4 {
        target(0i8, 1i8, (20i32, 10i32), Some((16i32, 8i32)), None, None, Some((10i32, 6i32)))
    } else {
        target(1i8, 0i8, (12i32, 12i32), None, None, None, Some((14i32, 10i32)))
    }
}

fn guard_target_at(k: usize) -> (r: GuardDropTarget)
    requires
        k < 6,
    ensures
        r == guard_target(k as int),
{
    if k == 0 {
        GuardDropTarget { dr: -1, dc: 0, gold_bonus: (32, 16), silver_bonus: Some((18, 10)), pawn_bonus: Some((14, 8)), lance_bonus: Some((12, 6)), knight_bonus: None }
    } else if k == 1 {
        GuardDropTarget { dr: -1, dc: -1, gold_bonus: (26, 14), silver_bonus: Some((22, 12)), pawn_bonus: None, lance_bonus: None, knight_bonus: None }
    } else if k == 2 {
        GuardDropTarget { dr: -1, dc: 1, gold_bonus: (26, 14), silver_bonus: Some((22, 12)), pawn_bonus: None, lance_bonus: None, knight_bonus: None }
    } else if k == 3 {
        GuardDropTarget { dr: 0, dc: -1, gold_bonus: (20, 10), silver_bonus: Some((16, 8)), pawn_bonus: None, lance_bonus: None, knight_bonus: Some((10, 6)) }
    } else if k == 4 {
        GuardDropTarget { dr: 0, dc: 1, gold_bonus: (20, 10), silver_bonus: Some((16, 8)), pawn_bonus: None, lance_bonus: None, knight_bonus: Some((10, 6)) }
    } else {
        GuardDropTarget { dr: 1, dc: 0, gold_bonus: (12, 12), silver_bonus: None, pawn_bonus: None, lance_bonus: None, knight_bonus: Some((14, 10)) }
    }
}

/// Pieces left in hand while filling the guard squares, and the score so far.
#[derive(Clone, Copy)]
pub struct DefenseState {
    pub gold: i32,
    pub silver: i32,
    pub pawn: i32,
    pub lance: i32,
    pub knight: i32,
    pub mg: i32,
    pub eg: i32,
}

/// The best kind to drop on `pos` for a target: the highest middlegame
/// bonus among the kinds in hand that may go there, gold first on ties.
/// Kinds: 0 none, 1 gold, 2 silver, 3 pawn, 4 lance, 5 knight.
pub open spec fn best_drop(b: Board, player: Player, pos: Position, t: GuardDropTarget, st: DefenseState) -> (int, (i32, i32)) {
    let c0: (int, (i32, i32)) = if st.gold > 0 && t.gold_bonus.0 > 0 {
        (1, t.gold_bonus)
    } else {
        (0, (0i32, 0i32))
    };
    let c1 = if st.silver > 0 && t.silver_bonus.is_some() && t.silver_bonus.unwrap().0 > c0.1.0 {
        (2, t.silver_bonus.unwrap())
    } else {
        c0
    };
    let c2 = if st.pawn > 0 && t.pawn_bonus.is_some() && pawn_drop_allowed(b, player, pos)
        && t.pawn_bonus.unwrap().0 > c1.1.0 {
        (3, t.pawn_bonus.unwrap())
    } else {
        c1
    };
    let c3 = if st.lance > 0 && t.lance_bonus.is_some() && !illegal_pawn_drop_rank(player, pos.row as int)
        && t.lance_bonus.unwrap().0 > c2.1.0 {
        (4, t.lance_bonus.unwrap())
    } else {
        c2
    };
    if st.knight > 0 && t.knight_bonus.is_some() && !illegal_knight_drop_rank(player, pos.row as int)
        && t.knight_bonus.unwrap().0 > c3.1.0 {
        (5, t.knight_bonus.unwrap())
    } else {
        c3
    }
}

/// One guard square: when it is on the board and empty, drop the best kind
/// from hand there and take its bonus.
pub open spec fn defense_step(b: Board, k: Position, player: Player, t: GuardDropTarget, st: DefenseState) -> DefenseState {
    match oriented_square(k, player, t.dr as int, t.dc as int) {
        Some(pos) => if occupied(b, pos) {
            st
        } else {
            let (kind, bonus) = best_drop(b, player, pos, t, st);
            if kind == 0 {
                st
            } else {
                DefenseState {
                    gold: if kind == 1 { (st.gold - 1) as i32 } else { st.gold },
                    silver: if kind == 2 { (st.silver - 1) as i32 } else { st.silver },
                    pawn: if kind == 3 { (st.pawn - 1) as i32 } else { st.pawn },
                    lance: if kind == 4 { (st.lance - 1) as i32 } else { st.lance },
                    knight: if kind == 5 { (st.knight - 1) as i32 } else { st.knight },
                    mg: (st.mg + bonus.0) as i32,
                    eg: (st.eg + bonus.1) as i32,
                }
            }
        },
        None => st,
    }
}

pub open spec fn defense_after(b: Board, k: Position, player: Player, st: DefenseState, n: int) -> DefenseState
    decreases n,
{
    if n <= 0 {
        st
    } else {
        defense_step(b, k, player, guard_target(n - 1), defense_after(b, k, player, st, n - 1))
    }
}

pub open spec fn initial_defense(cp: CapturedPieces, player: Player) -> DefenseState {
    DefenseState {
        gold: cp.hand(PieceType::Gold, player) as i32,
        silver: cp.hand(PieceType::Silver, player) as i32,
        pawn: cp.hand(PieceType::Pawn, player) as i32,
        lance: cp.hand(PieceType::Lance, player) as i32,
        knight: cp.hand(PieceType::Knight, player) as i32,
        mg: 0,
        eg: 0,
    }
}

/// Hand defence: the guard squares filled from hand, then 6 (3) per gold,
/// 4 (2) per silver and 2 (1) per pawn still in hand.
pub open spec fn hand_defense(b: Board, k: Position, player: Player, cp: CapturedPieces) -> (int, int) {
    let st = defense_after(b, k, player, initial_defense(cp, player), 6);
    let g = if st.gold > 0 { st.gold as int } else { 0 };
    let s = if st.silver > 0 { st.silver as int } else { 0 };
    let p = if st.pawn > 0 { st.pawn as int } else { 0 };
    (st.mg + g * 6 + s * 4 + p * 2, st.eg + g * 3 + s * 2 + p)
}

pub open spec fn defense_bounded(st: DefenseState, steps: int) -> bool {
    &&& 0 <= st.gold <= 1_000_000
    &&& 0 <= st.silver <= 1_000_000
    &&& 0 <= st.pawn <= 1_000_000
    &&& 0 <= st.lance <= 1_000_000
    &&& 0 <= st.knight <= 1_000_000
    &&& 0 <= st.mg <= 32 * steps
    &&& 0 <= st.eg <= 16 * steps
}

fn better_than(bonus: Option<(i32, i32)>, best: (i32, i32)) -> (r: bool)
    ensures
        r == (bonus.is_some() && bonus.unwrap().0 > best.0),
{
    match bonus {
        Some(b) => b.0 > best.0,
        None => false,
    }
}

fn run_defense_step(board: &Board, k: Position, player: Player, t: GuardDropTarget, st: &mut DefenseState, Ghost(steps): Ghost<int>)
    requires
        k.valid(),
        -1 <= t.dr <= 1,
        -1 <= t.dc <= 1,
        0 <= t.gold_bonus.0 <= 32,
        0 <= t.gold_bonus.1 <= 16,
        t.silver_bonus.is_some() ==> 0 <= t.silver_bonus.unwrap().0 <= 32 && 0 <= t.silver_bonus.unwrap().1 <= 16,
        t.pawn_bonus.is_some() ==> 0 <= t.pawn_bonus.unwrap().0 <= 32 && 0 <= t.pawn_bonus.unwrap().1 <= 16,
        t.lance_bonus.is_some() ==> 0 <= t.lance_bonus.unwrap().0 <= 32 && 0 <= t.lance_bonus.unwrap().1 <= 16,
        t.knight_bonus.is_some() ==> 0 <= t.knight_bonus.unwrap().0 <= 32 && 0 <= t.knight_bonus.unwrap().1 <= 16,
        0 <= steps <= 5,
        defense_bounded(*old(st), steps),
    ensures
        *final(st) == defense_step(*board, k, player, t, *old(st)),
        defense_bounded(*final(st), steps + 1),
{
    let pos = match oriented_offset_to_actual(k, player, t.dr, t.dc) {
        Some(p) => p,
        None => return,
    };
    if board.is_square_occupied(pos) {
        return;
    }
    let mut kind: u8 = 0;
    let mut best: (i32, i32) = (0, 0);
    if st.gold > 0 && t.gold_bonus.0 > best.0 {
        kind = 1;
        best = t.gold_bonus;
    }
    if st.silver > 0 && better_than(t.silver_bonus, best) {
        kind = 2;
        best = t.silver_bonus.unwrap();
    }
    if st.pawn > 0 && t.pawn_bonus.is_some() && can_drop_pawn_at(board, player, pos) && better_than(t.pawn_bonus, best) {
        kind = 3;
        best = t.pawn_bonus.unwrap();
    }
    if st.lance > 0 && t.lance_bonus.is_some() && !pawn_drop_rank_illegal(player, pos.row) && better_than(
        t.lance_bonus,
        best,
    ) {
        kind = 4;
        best = t.lance_bonus.unwrap();
    }
    if st.knight > 0 && t.knight_bonus.is_some() && !knight_drop_rank_illegal(player, pos.row) && better_than(
        t.knight_bonus,
        best,
    ) {
        kind = 5;
        best = t.knight_bonus.unwrap();
    }
    if kind != 0 {
        st.mg = st.mg + best.0;
        st.eg = st.eg + best.1;
        if kind == 1 {
            st.gold = st.gold - 1;
        } else if kind == 2 {
            st.silver = st.silver - 1;
        } else if kind == 3 {
            st.pawn = st.pawn - 1;
        } else if kind == 4 {
            st.lance = st.lance - 1;
        } else {
            st.knight = st.knight - 1;
        }
    }
}

/// Pieces in `player`'s hand that could reinforce the king's guard squares.
/// Each hand count is bounded by a million (a legal position holds at most
/// 18 of a kind), well below where the weighted sums would leave `i32`.
pub fn hand_defense_score(board: &Board, king_pos: Position, player: Player, captured_pieces: &CapturedPieces) -> (r: TaperedScore)
    requires
        king_pos.valid(),
        captured_pieces.counts_at_most(1_000_000),
    ensures
        (r.mg as int, r.eg as int) == hand_defense(*board, king_pos, player, *captured_pieces),
        0 <= r.mg <= 12_000_200,
        0 <= r.eg <= 6_000_100,
{
    let ghost init = initial_defense(*captured_pieces, player);
    assert(captured_pieces.counts@[(player.idx() * 14 + PieceType::Gold.idx()) as int] <= 1_000_000);
    assert(captured_pieces.counts@[(player.idx() * 14 + PieceType::Silver.idx()) as int] <= 1_000_000);
    assert(captured_pieces.counts@[(player.idx() * 14 + PieceType::Pawn.idx()) as int] <= 1_000_000);
    assert(captured_pieces.counts@[(player.idx() * 14 + PieceType::Lance.idx()) as int] <= 1_000_000);
    assert(captured_pieces.counts@[(player.idx() * 14 + PieceType::Knight.idx()) as int] <= 1_000_000);
    let mut st = DefenseState {
        gold: captured_pieces.count(PieceType::Gold, player) as i32,
        silver: captured_pieces.count(PieceType::Silver, player) as i32,
        pawn: captured_pieces.count(PieceType::Pawn, player) as i32,
        lance: captured_pieces.count(PieceType::Lance, player) as i32,
        knight: captured_pieces.count(PieceType::Knight, player) as i32,
        mg: 0,
        eg: 0,
    };
    assert(st == init);
    let mut k: usize = 0;
    while k < 6
        invariant
            k <= 6,
            king_pos.valid(),
            st == defense_after(*board, king_pos, player, init, k as int),
            defense_bounded(st, k as int),
        decreases 6 - k,
    {
        let t = guard_target_at(k);
        run_defense_step(board, king_pos, player, t, &mut st, Ghost(k as int));
        k += 1;
    }
    let mut mg = st.mg;
    let mut eg = st.eg;
    if st.gold > 0 {
        mg += st.gold * 6;
        eg += st.gold * 3;
    }
    if st.silver > 0 {
        mg += st.silver * 4;
        eg += st.silver * 2;
    }
    if st.pawn > 0 {
        mg += st.pawn * 2;
        eg += st.pawn;
    }
    TaperedScore::new_tapered(mg, eg)
}

} // verus!

verus! {

// ---------------------------------------------------------------------------
// Enemy drops against the king
// ---------------------------------------------------------------------------

/// `pos` is on the board and empty.
pub open spec fn free_square(b: Board, pos: Option<Position>) -> bool {
    pos.is_some() && !occupied(b, pos.unwrap())
}

/// The enemy can drop a pawn on the square in front of the king (as the
/// enemy sees it): 32 (18).
pub open spec fn pawn_drop_threat(b: Board, k: Position, opp: Player, cp: CapturedPieces) -> (int, int) {
    let front = oriented_square(k, opp, -1, 0);
    if cp.hand(PieceType::Pawn, opp) > 0 && free_square(b, front) && !column_has_pawn(b, opp, front.unwrap().col as int)
        && !illegal_pawn_drop_rank(opp, front.unwrap().row as int) {
        (32, 18)
    } else {
        (0, 0)
    }
}

/// Value of an enemy gold (or, without one, silver) dropped on a threat
/// square.
pub open spec fn threat_drop_value(gold: bool, g: (int, int), s: (int, int)) -> (int, int) {
    if gold {
        g
    } else {
        s
    }
}

/// An enemy gold or silver in hand would be dropped on the first empty
/// square of: in front of the king, beside it left and right, on its front
/// diagonals (as the enemy sees the board).
pub open spec fn gold_silver_threat(b: Board, k: Position, opp: Player, cp: CapturedPieces) -> (int, int) {
    let gold = cp.hand(PieceType::Gold, opp) > 0;
    let silver = cp.hand(PieceType::Silver, opp) > 0;
    if !gold && !silver {
        (0, 0)
    } else if free_square(b, oriented_square(k, opp, -1, 0)) {
        threat_drop_value(gold, (28, 16), (18, 10))
    } else if free_square(b, oriented_square(k, opp, 0, -1)) {
        threat_drop_value(gold, (20, 12), (16, 10))
    } else if free_square(b, oriented_square(k, opp, 0, 1)) {
        threat_drop_value(gold, (20, 12), (16, 10))
    } else if free_square(b, oriented_square(k, opp, -1, -1)) {
        threat_drop_value(gold, (24, 14), (20, 12))
    } else if free_square(b, oriented_square(k, opp, -1, 1)) {
        threat_drop_value(gold, (24, 14), (20, 12))
    } else {
        (0, 0)
    }
}

pub open spec fn knight_source_free(b: Board, k: Position, opp: Player, dc: int) -> bool {
    let pos = oriented_square(k, opp, -2, dc);
    free_square(b, pos) && !illegal_knight_drop_rank(opp, pos.unwrap().row as int)
}

/// An enemy knight in hand with a legal empty square from which it would
/// check the king: 18 (12).
pub open spec fn knight_drop_threat(b: Board, k: Position, opp: Player, cp: CapturedPieces) -> (int, int) {
    if cp.hand(PieceType::Knight, opp) > 0 && (knight_source_free(b, k, opp, -1) || knight_source_free(b, k, opp, 1)) {
        (18, 12)
    } else {
        (0, 0)
    }
}

/// Pressure from the enemy's hand on `player`'s king.
pub open spec fn enemy_hand_pressure(b: Board, k: Position, player: Player, cp: CapturedPieces) -> (int, int) {
    let opp = player.other();
    add2(add2(pawn_drop_threat(b, k, opp, cp), gold_silver_threat(b, k, opp, cp)), knight_drop_threat(b, k, opp, cp))
}

fn free_at(board: &Board, pos: Option<Position>) -> (r: bool)
    requires
        pos.is_some() ==> pos.unwrap().valid(),
    ensures
        r == free_square(*board, pos),
{
    match pos {
        Some(p) => !board.is_square_occupied(p),
        None => false,
    }
}

fn threat_value_pick(gold: bool, g: (i32, i32), s: (i32, i32)) -> (r: (i32, i32))
    ensures
        (r.0 as int, r.1 as int) == threat_drop_value(gold, (g.0 as int, g.1 as int), (s.0 as int, s.1 as int)),
{
    if gold {
        g
    } else {
        s
    }
}

/// Pressure from the enemy's hand on `player`'s king: a pawn drop in front
/// of it, a gold or silver drop next to it, a knight drop giving check.
#[verifier::rlimit(40)]
pub fn enemy_hand_pressure_score(board: &Board, king_pos: Position, player: Player, captured_pieces: &CapturedPieces) -> (r: TaperedScore)
    requires
        king_pos.valid(),
    ensures
        (r.mg as int, r.eg as int) == enemy_hand_pressure(*board, king_pos, player, *captured_pieces),
        0 <= r.mg <= 78,
        0 <= r.eg <= 46,
{
    let opponent = player.opposite();
    let mut mg: i32 = 0;
    let mut eg: i32 = 0;

    if captured_pieces.count(PieceType::Pawn, opponent) > 0 {
        match oriented_offset_to_actual(king_pos, opponent, -1, 0) {
            Some(front) => {
                if !board.is_square_occupied(front) && !column_has_unpromoted_pawn(board, opponent, front.col)
                    && !pawn_drop_rank_illegal(opponent, front.row) {
                    mg += 32;
                    eg += 18;
                }
            },
            None => {},
        }
    }

    let gold = captured_pieces.count(PieceType::Gold, opponent) > 0;
    let silver = captured_pieces.count(PieceType::Silver, opponent) > 0;
    if gold || silver {
        let t = if free_at(board, oriented_offset_to_actual(king_pos, opponent, -1, 0)) {
            threat_value_pick(gold, (28, 16), (18, 10))
        } else if free_at(board, oriented_offset_to_actual(king_pos, opponent, 0, -1)) {
            threat_value_pick(gold, (20, 12), (16, 10))
        } else if free_at(board, oriented_offset_to_actual(king_pos, opponent, 0, 1)) {
            threat_value_pick(gold, (20, 12), (16, 10))
        } else if free_at(board, oriented_offset_to_actual(king_pos, opponent, -1, -1)) {
            threat_value_pick(gold, (24, 14), (20, 12))
        } else if free_at(board, oriented_offset_to_actual(king_pos, opponent, -1, 1)) {
            threat_value_pick(gold, (24, 14), (20, 12))
        } else {
            (0, 0)
        };
        mg += t.0;
        eg += t.1;
    }

    if captured_pieces.count(PieceType::Knight, opponent) > 0 {
        let left = oriented_offset_to_actual(king_pos, opponent, -2, -1);
        let right = oriented_offset_to_actual(king_pos, opponent, -2, 1);
        let left_ok = free_at(board, left) && !knight_drop_rank_illegal(opponent, left.unwrap().row);
        let right_ok = free_at(board, right) && !knight_drop_rank_illegal(opponent, right.unwrap().row);
        if left_ok || right_ok {
            mg += 18;
            eg += 12;
        }
    }

    TaperedScore::new_tapered(mg, eg)
}

// ---------------------------------------------------------------------------
// Castles
// ---------------------------------------------------------------------------

/// A square a castle needs guarded, which pieces count, and the bonus for
/// filling it from hand.
#[derive(Clone, Copy)]
pub struct CastleGuardRequirement {
    pub dr: i8,
    pub dc: i8,
    pub accept_gold_like: bool,
    pub accept_silver: bool,
    pub drop_bonus: (i32, i32),
}

/// How a guard square is filled.
#[derive(Clone, Copy)]
pub enum GuardState {
    OnBoard,
    FulfilledByDrop(i32, i32),
    Missing,
}

pub open spec fn requirement(dr: i8, dc: i8, gold: bool, silver: bool, bonus: (i32, i32)) -> CastleGuardRequirement {
    CastleGuardRequirement { dr, dc, accept_gold_like: gold, accept_silver: silver, drop_bonus: bonus }
}

pub open spec fn floor_zero(x: int) -> int {
    if x < 0 {
        0
    } else {
        x
    }
}

/// The outcome for one guard square and the golds and silvers left in hand:
/// an own accepted piece on it; else, when it is empty, a gold from hand
/// (full bonus), a silver where silvers count (one less), a silver in place
/// of a gold (two less); else missing.
#[verifier::opaque]
pub open spec fn satisfy_guard(b: Board, k: Position, player: Player, req: CastleGuardRequirement, hand: (i32, i32)) -> (GuardState, (i32, i32)) {
    match oriented_square(k, player, req.dr as int, req.dc as int) {
        Some(pos) => match piece_at(b, pos.row as int, pos.col as int) {
            Some(pc) => if pc.player == player && ((req.accept_gold_like && gold_equivalent(pc.piece_type)) || (
            req.accept_silver && (pc.piece_type == PieceType::Silver || pc.piece_type == PieceType::PromotedSilver))) {
                (GuardState::OnBoard, hand)
            } else {
                (GuardState::Missing, hand)
            },
            None => if req.accept_gold_like && hand.0 > 0 {
                (GuardState::FulfilledByDrop(req.drop_bonus.0, req.drop_bonus.1), ((hand.0 - 1) as i32, hand.1))
            } else if req.accept_silver && hand.1 > 0 {
                (
                    GuardState::FulfilledByDrop(
                        floor_zero(req.drop_bonus.0 - 1) as i32,
                        floor_zero(req.drop_bonus.1 - 1) as i32,
                    ),
                    (hand.0, (hand.1 - 1) as i32),
                )
            } else if req.accept_gold_like && hand.1 > 0 {
                (
                    GuardState::FulfilledByDrop(
                        floor_zero(req.drop_bonus.0 - 2) as i32,
                        floor_zero(req.drop_bonus.1 - 2) as i32,
                    ),
                    (hand.0, (hand.1 - 1) as i32),
                )
            } else {
                (GuardState::Missing, hand)
            },
        },
        None => (GuardState::Missing, hand),
    }
}

pub open spec fn on_board_count(s: GuardState) -> int {
    match s {
        GuardState::OnBoard => 1,
        _ => 0,
    }
}

pub open spec fn drop_count_of(s: GuardState) -> int {
    match s {
        GuardState::FulfilledByDrop(_, _) => 1,
        _ => 0,
    }
}

pub open spec fn drop_bonus_of(s: GuardState) -> (int, int) {
    match s {
        GuardState::FulfilledByDrop(mg, eg) => (mg as int, eg as int),
        _ => (0, 0),
    }
}

/// Score of a three-square castle shape: full when all squares are held on
/// the board, partial plus drop bonuses when drops complete it, near plus
/// drop bonuses when one square is missing.
pub open spec fn castle_shape_score(
    b: Board,
    k: Position,
    player: Player,
    cp: CapturedPieces,
    r1: CastleGuardRequirement,
    r2: CastleGuardRequirement,
    r3: CastleGuardRequirement,
    full: (int, int),
    partial: (int, int),
    near: (int, int),
) -> Option<(int, int)> {
    let h0 = (cp.hand(PieceType::Gold, player) as i32, cp.hand(PieceType::Silver, player) as i32);
    let (s1, h1) = satisfy_guard(b, k, player, r1, h0);
    let (s2, h2) = satisfy_guard(b, k, player, r2, h1);
    let (s3, _h3) = satisfy_guard(b, k, player, r3, h2);
    let on = on_board_count(s1) + on_board_count(s2) + on_board_count(s3);
    let drops = drop_count_of(s1) + drop_count_of(s2) + drop_count_of(s3);
    let bonus = add2(add2(drop_bonus_of(s1), drop_bonus_of(s2)), drop_bonus_of(s3));
    let filled = on + drops;
    if filled == 3 {
        if drops == 0 {
            Some(full)
        } else {
            Some(add2(partial, bonus))
        }
    } else if filled == 2 {
        Some(add2(near, bonus))
    } else if on >= 2 && drops > 0 {
        Some(add2((floor_zero(near.0 / 2), floor_zero(near.1 / 2)), bonus))
    } else {
        None
    }
}

/// The better of two optional scores: higher middlegame value, then higher
/// endgame value; the current one on ties.
pub open spec fn pick_better(current: Option<(int, int)>, candidate: Option<(int, int)>) -> Option<(int, int)> {
    match (current, candidate) {
        (None, None) => None,
        (Some(e), None) => Some(e),
        (None, Some(n)) => Some(n),
        (Some(e), Some(n)) => if n.0 > e.0 || (n.0 == e.0 && n.1 > e.1) {
            Some(n)
        } else {
            Some(e)
        },
    }
}

pub open spec fn anaguma_score(b: Board, k: Position, player: Player, cp: CapturedPieces) -> Option<(int, int)> {
    let row = oriented_row(k, player);
    let col = oriented_col(k, player);
    if row != 8 {
        None
    } else {
        let right = if col >= 7 {
            castle_shape_score(
                b,
                k,
                player,
                cp,
                requirement(0i8, -1i8, true, true, (6i32, 4i32)),
                requirement(-1i8, 0i8, true, true, (5i32, 4i32)),
                requirement(-1i8, -1i8, true, true, (6i32, 4i32)),
                (60, 40),
                (46, 32),
                (30, 20),
            )
        } else {
            None
        };
        let best = pick_better(None, right);
        if col <= 1 {
            pick_better(
                best,
                castle_shape_score(
                    b,
                    k,
                    player,
                    cp,
                    requirement(0i8, 1i8, true, true, (6i32, 4i32)),
                    requirement(-1i8, 0i8, true, true, (5i32, 4i32)),
                    requirement(-1i8, 1i8, true, true, (6i32, 4i32)),
                    (60, 40),
                    (46, 32),
                    (30, 20),
                ),
            )
        } else {
            best
        }
    }
}

pub open spec fn mino_score(b: Board, k: Position, player: Player, cp: CapturedPieces) -> Option<(int, int)> {
    let row = oriented_row(k, player);
    let col = oriented_col(k, player);
    if row < 7 {
        None
    } else {
        let right = if col >= 5 {
            castle_shape_score(
                b,
                k,
                player,
                cp,
                requirement(0i8, -1i8, true, false, (5i32, 4i32)),
                requirement(-1i8, 0i8, false, true, (4i32, 3i32)),
                requirement(-1i8, -1i8, true, true, (4i32, 3i32)),
                (45, 26),
                (34, 20),
                (22, 14),
            )
        } else {
            None
        };
        let best = pick_better(None, right);
        if col <= 3 {
            pick_better(
                best,
                castle_shape_score(
                    b,
                    k,
                    player,
                    cp,
                    requirement(0i8, 1i8, true, false, (5i32, 4i32)),
                    requirement(-1i8, 0i8, false, true, (4i32, 3i32)),
                    requirement(-1i8, 1i8, true, true, (4i32, 3i32)),
                    (45, 26),
                    (34, 20),
                    (22, 14),
                ),
            )
        } else {
            best
        }
    }
}

pub open spec fn yagura_score(b: Board, k: Position, player: Player, cp: CapturedPieces) -> Option<(int, int)> {
    if oriented_row(k, player) != 8 {
        None
    } else {
        let left = castle_shape_score(
            b,
            k,
            player,
            cp,
            requirement(0i8, -1i8, true, false, (6i32, 4i32)),
            requirement(-1i8, 0i8, false, true, (4i32, 3i32)),
            requirement(-1i8, -1i8, true, false, (6i32, 4i32)),
            (52, 32),
            (38, 24),
            (24, 16),
        );
        let right = castle_shape_score(
            b,
            k,
            player,
            cp,
            requirement(0i8, 1i8, true, false, (6i32, 4i32)),
            requirement(-1i8, 0i8, false, true, (4i32, 3i32)),
            requirement(-1i8, 1i8, true, false, (6i32, 4i32)),
            (52, 32),
            (38, 24),
            (24, 16),
        );
        pick_better(pick_better(None, left), right)
    }
}

/// The best recognised castle (anaguma, yagura, mino), zero when none is.
pub open spec fn castle_bonus(b: Board, k: Position, player: Player, cp: CapturedPieces) -> (int, int) {
    let best = pick_better(
        pick_better(pick_better(None, anaguma_score(b, k, player, cp)), yagura_score(b, k, player, cp)),
        mino_score(b, k, player, cp),
    );
    match best {
        Some(s) => s,
        None => (0, 0),
    }
}

} // verus!

verus! {

fn floor_zero_i32(x: i32) -> (r: i32)
    ensures
        r == floor_zero(x as int),
{
    if x < 0 {
        0
    } else {
        x
    }
}

fn satisfy_castle_guard(board: &Board, king_pos: Position, player: Player, req: CastleGuardRequirement, hand: (i32, i32)) -> (r: (GuardState, (i32, i32)))
    requires
        king_pos.valid(),
        -1 <= req.dr <= 1,
        -1 <= req.dc <= 1,
        0 <= req.drop_bonus.0 <= 6,
        0 <= req.drop_bonus.1 <= 6,
        0 <= hand.0,
        0 <= hand.1,
    ensures
        r == satisfy_guard(*board, king_pos, player, req, hand),
        0 <= r.1.0 <= hand.0,
        0 <= r.1.1 <= hand.1,
        r.0 matches GuardState::FulfilledByDrop(mg, eg) ==> 0 <= mg <= 6 && 0 <= eg <= 6,
{
    proof {
        reveal(satisfy_guard);
    }
    match oriented_offset_to_actual(king_pos, player, req.dr, req.dc) {
        Some(pos) => match board.get_piece(pos) {
            Some(piece) => {
                if piece.player == player {
                    if req.accept_gold_like && is_gold_equivalent(piece.piece_type) {
                        return (GuardState::OnBoard, hand);
                    }
                    if req.accept_silver && (piece.piece_type == PieceType::Silver || piece.piece_type
                        == PieceType::PromotedSilver) {
                        return (GuardState::OnBoard, hand);
                    }
                }
                (GuardState::Missing, hand)
            },
            None => {
                if req.accept_gold_like && hand.0 > 0 {
                    return (GuardState::FulfilledByDrop(req.drop_bonus.0, req.drop_bonus.1), (hand.0 - 1, hand.1));
                }
                if req.accept_silver && hand.1 > 0 {
                    return (
                        GuardState::FulfilledByDrop(
                            floor_zero_i32(req.drop_bonus.0 - 1),
                            floor_zero_i32(req.drop_bonus.1 - 1),
                        ),
                        (hand.0, hand.1 - 1),
                    );
                }
                if req.accept_gold_like && hand.1 > 0 {
                    return (
                        GuardState::FulfilledByDrop(
                            floor_zero_i32(req.drop_bonus.0 - 2),
                            floor_zero_i32(req.drop_bonus.1 - 2),
                        ),
                        (hand.0, hand.1 - 1),
                    );
                }
                (GuardState::Missing, hand)
            },
        },
        None => (GuardState::Missing, hand),
    }
}

fn guard_counts(s: GuardState) -> (r: (i32, i32, i32, i32))
    ensures
        r.0 as int == on_board_count(s),
        r.1 as int == drop_count_of(s),
        (r.2 as int, r.3 as int) == drop_bonus_of(s),
{
    match s {
        GuardState::OnBoard => (1, 0, 0, 0),
        GuardState::FulfilledByDrop(mg, eg) => (0, 1, mg, eg),
        GuardState::Missing => (0, 0, 0, 0),
    }
}

fn make_requirement(dr: i8, dc: i8, gold: bool, silver: bool, bonus: (i32, i32)) -> (r: CastleGuardRequirement)
    ensures
        r == requirement(dr, dc, gold, silver, bonus),
{
    CastleGuardRequirement { dr, dc, accept_gold_like: gold, accept_silver: silver, drop_bonus: bonus }
}

fn score_castle_pattern(
    board: &Board,
    king_pos: Position,
    player: Player,
    captured_pieces: &CapturedPieces,
    r1: CastleGuardRequirement,
    r2: CastleGuardRequirement,
    r3: CastleGuardRequirement,
    full: (i32, i32),
    partial: (i32, i32),
    near: (i32, i32),
) -> (r: Option<TaperedScore>)
    requires
        king_pos.valid(),
        captured_pieces.counts_at_most(1_000_000),
        -1 <= r1.dr <= 1 && -1 <= r1.dc <= 1 && 0 <= r1.drop_bonus.0 <= 6 && 0 <= r1.drop_bonus.1 <= 6,
        -1 <= r2.dr <= 1 && -1 <= r2.dc <= 1 && 0 <= r2.drop_bonus.0 <= 6 && 0 <= r2.drop_bonus.1 <= 6,
        -1 <= r3.dr <= 1 && -1 <= r3.dc <= 1 && 0 <= r3.drop_bonus.0 <= 6 && 0 <= r3.drop_bonus.1 <= 6,
        0 <= full.0 <= 100 && 0 <= full.1 <= 100,
        0 <= partial.0 <= 100 && 0 <= partial.1 <= 100,
        0 <= near.0 <= 100 && 0 <= near.1 <= 100,
    ensures
        r.is_some() == castle_shape_score(*board, king_pos, player, *captured_pieces, r1, r2, r3, (full.0 as int, full.1 as int), (partial.0 as int, partial.1 as int), (near.0 as int, near.1 as int)).is_some(),
        r.is_some() ==> (r.unwrap().mg as int, r.unwrap().eg as int) == castle_shape_score(*board, king_pos, player, *captured_pieces, r1, r2, r3, (full.0 as int, full.1 as int), (partial.0 as int, partial.1 as int), (near.0 as int, near.1 as int)).unwrap(),
        r.is_some() ==> 0 <= r.unwrap().mg <= 200 && 0 <= r.unwrap().eg <= 200,
{
    assert(captured_pieces.counts@[(player.idx() * 14 + PieceType::Gold.idx()) as int] <= 1_000_000);
    assert(captured_pieces.counts@[(player.idx() * 14 + PieceType::Silver.idx()) as int] <= 1_000_000);
    let hand0 = (captured_pieces.count(PieceType::Gold, player) as i32, captured_pieces.count(PieceType::Silver, player) as i32);
    let (s1, hand1) = satisfy_castle_guard(board, king_pos, player, r1, hand0);
    let (s2, hand2) = satisfy_castle_guard(board, king_pos, player, r2, hand1);
    let (s3, _hand3) = satisfy_castle_guard(board, king_pos, player, r3, hand2);
    let c1 = guard_counts(s1);
    let c2 = guard_counts(s2);
    let c3 = guard_counts(s3);
    let on_board = c1.0 + c2.0 + c3.0;
    let drop_filled = c1.1 + c2.1 + c3.1;
    let bonus_mg = c1.2 + c2.2 + c3.2;
    let bonus_eg = c1.3 + c2.3 + c3.3;
    let filled = on_board + drop_filled;
    if filled == 3 {
        if drop_filled == 0 {
            return Some(TaperedScore::new_tapered(full.0, full.1));
        }
        return Some(TaperedScore::new_tapered(partial.0 + bonus_mg, partial.1 + bonus_eg));
    }
    if filled == 2 {
        return Some(TaperedScore::new_tapered(near.0 + bonus_mg, near.1 + bonus_eg));
    }
    if on_board >= 2 && drop_filled > 0 {
        return Some(
            TaperedScore::new_tapered(floor_zero_i32(near.0 / 2) + bonus_mg, floor_zero_i32(near.1 / 2) + bonus_eg),
        );
    }
    None
}

pub open spec fn score_view(s: Option<TaperedScore>) -> Option<(int, int)> {
    match s {
        Some(t) => Some((t.mg as int, t.eg as int)),
        None => None,
    }
}

fn pick_better_score(current: Option<TaperedScore>, candidate: Option<TaperedScore>) -> (r: Option<TaperedScore>)
    ensures
        score_view(r) == pick_better(score_view(current), score_view(candidate)),
        r.is_some() ==> (current.is_some() && r == current) || (candidate.is_some() && r == candidate),
{
    match (current, candidate) {
        (None, None) => None,
        (Some(existing), None) => Some(existing),
        (None, Some(new_score)) => Some(new_score),
        (Some(existing), Some(new_score)) => {
            if new_score.mg > existing.mg || (new_score.mg == existing.mg && new_score.eg > existing.eg) {
                Some(new_score)
            } else {
                Some(existing)
            }
        },
    }
}

pub open spec fn small_score(s: Option<TaperedScore>) -> bool {
    s.is_some() ==> 0 <= s.unwrap().mg <= 200 && 0 <= s.unwrap().eg <= 200
}

fn oriented_row_col(pos: Position, player: Player) -> (r: (u8, u8))
    requires
        pos.valid(),
    ensures
        r.0 as int == oriented_row(pos, player),
        r.1 as int == oriented_col(pos, player),
{
    match player {
        Player::Black => (pos.row, pos.col),
        Player::White => (8 - pos.row, 8 - pos.col),
    }
}

fn assess_anaguma(board: &Board, king_pos: Position, player: Player, captured_pieces: &CapturedPieces) -> (r: Option<TaperedScore>)
    requires
        king_pos.valid(),
        captured_pieces.counts_at_most(1_000_000),
    ensures
        score_view(r) == anaguma_score(*board, king_pos, player, *captured_pieces),
        small_score(r),
{
    let (row, col) = oriented_row_col(king_pos, player);
    if row != 8 {
        return None;
    }
    let right = if col >= 7 {
        score_castle_pattern(
            board,
            king_pos,
            player,
            captured_pieces,
            make_requirement(0, -1, true, true, (6, 4)),
            make_requirement(-1, 0, true, true, (5, 4)),
            make_requirement(-1, -1, true, true, (6, 4)),
            (60, 40),
            (46, 32),
            (30, 20),
        )
    } else {
        None
    };
    let best = pick_better_score(None, right);
    if col <= 1 {
        let left = score_castle_pattern(
            board,
            king_pos,
            player,
            captured_pieces,
            make_requirement(0, 1, true, true, (6, 4)),
            make_requirement(-1, 0, true, true, (5, 4)),
            make_requirement(-1, 1, true, true, (6, 4)),
            (60, 40),
            (46, 32),
            (30, 20),
        );
        pick_better_score(best, left)
    } else {
        best
    }
}

fn assess_mino(board: &Board, king_pos: Position, player: Player, captured_pieces: &CapturedPieces) -> (r: Option<TaperedScore>)
    requires
        king_pos.valid(),
        captured_pieces.counts_at_most(1_000_000),
    ensures
        score_view(r) == mino_score(*board, king_pos, player, *captured_pieces),
        small_score(r),
{
    let (row, col) = oriented_row_col(king_pos, player);
    if row < 7 {
        return None;
    }
    let right = if col >= 5 {
        score_castle_pattern(
            board,
            king_pos,
            player,
            captured_pieces,
            make_requirement(0, -1, true, false, (5, 4)),
            make_requirement(-1, 0, false, true, (4, 3)),
            make_requirement(-1, -1, true, true, (4, 3)),
            (45, 26),
            (34, 20),
            (22, 14),
        )
    } else {
        None
    };
    let best = pick_better_score(None, right);
    if col <= 3 {
        let left = score_castle_pattern(
            board,
            king_pos,
            player,
            captured_pieces,
            make_requirement(0, 1, true, false, (5, 4)),
            make_requirement(-1, 0, false, true, (4, 3)),
            make_requirement(-1, 1, true, true, (4, 3)),
            (45, 26),
            (34, 20),
            (22, 14),
        );
        pick_better_score(best, left)
    } else {
        best
    }
}

fn assess_yagura(board: &Board, king_pos: Position, player: Player, captured_pieces: &CapturedPieces) -> (r: Option<TaperedScore>)
    requires
        king_pos.valid(),
        captured_pieces.counts_at_most(1_000_000),
    ensures
        score_view(r) == yagura_score(*board, king_pos, player, *captured_pieces),
        small_score(r),
{
    let (row, _col) = oriented_row_col(king_pos, player);
    if row != 8 {
        return None;
    }
    let left = score_castle_pattern(
        board,
        king_pos,
        player,
        captured_pieces,
        make_requirement(0, -1, true, false, (6, 4)),
        make_requirement(-1, 0, false, true, (4, 3)),
        make_requirement(-1, -1, true, false, (6, 4)),
        (52, 32),
        (38, 24),
        (24, 16),
    );
    let right = score_castle_pattern(
        board,
        king_pos,
        player,
        captured_pieces,
        make_requirement(0, 1, true, false, (6, 4)),
        make_requirement(-1, 0, false, true, (4, 3)),
        make_requirement(-1, 1, true, false, (6, 4)),
        (52, 32),
        (38, 24),
        (24, 16),
    );
    pick_better_score(pick_better_score(None, left), right)
}

/// The best recognised castle around the king.
/// Hand counts are bounded by a million, as for `hand_defense_score`.
pub fn castle_pattern_bonus(board: &Board, king_pos: Position, player: Player, captured_pieces: &CapturedPieces) -> (r: TaperedScore)
    requires
        king_pos.valid(),
        captured_pieces.counts_at_most(1_000_000),
    ensures
        (r.mg as int, r.eg as int) == castle_bonus(*board, king_pos, player, *captured_pieces),
        0 <= r.mg <= 200,
        0 <= r.eg <= 200,
{
    let a = assess_anaguma(board, king_pos, player, captured_pieces);
    let y = assess_yagura(board, king_pos, player, captured_pieces);
    let m = assess_mino(board, king_pos, player, captured_pieces);
    let best = pick_better_score(pick_better_score(pick_better_score(None, a), y), m);
    match best {
        Some(s) => s,
        None => TaperedScore::default(),
    }
}

} // verus!
