//! Squares a piece attacks: single steps for the stepping pieces, rays
//! stopped by the first occupied square for the sliding ones.

use vstd::prelude::*;
use crate::board::{Board, piece_at};
use crate::types::{PieceType, Player, Position};

verus! {

/// Row direction in which `player` advances.
pub open spec fn forward(player: Player) -> int {
    match player {
        Player::Black => -1,
        Player::White => 1,
    }
}

pub open spec fn gold_like(pt: PieceType) -> bool {
    pt == PieceType::Gold || pt == PieceType::PromotedPawn || pt == PieceType::PromotedLance
        || pt == PieceType::PromotedKnight || pt == PieceType::PromotedSilver
}

/// A piece of `pt` owned by `player` reaches the offset `(dr, dc)` in one step.
pub open spec fn step_attack(pt: PieceType, player: Player, dr: int, dc: int) -> bool {
    let f = forward(player);
    if pt == PieceType::Pawn {
        dr == f && dc == 0
    } else if pt == PieceType::Knight {
        dr == 2 * f && (dc == 1 || dc == -1)
    } else if pt == PieceType::Silver {
        (dr == f && -1 <= dc <= 1) || (dr == -f && (dc == 1 || dc == -1))
    } else if gold_like(pt) {
        (dr == f && -1 <= dc <= 1) || (dr == 0 && (dc == 1 || dc == -1)) || (dr == -f && dc == 0)
    } else if pt == PieceType::King {
        -1 <= dr <= 1 && -1 <= dc <= 1 && !(dr == 0 && dc == 0)
    } else if pt == PieceType::PromotedBishop {
        (dr == 0 && (dc == 1 || dc == -1)) || (dc == 0 && (dr == 1 || dr == -1))
    } else if pt == PieceType::PromotedRook {
        (dr == 1 || dr == -1) && (dc == 1 || dc == -1)
    } else {
        false
    }
}

/// A piece of `pt` owned by `player` slides along the direction `(dr, dc)`.
pub open spec fn slides(pt: PieceType, player: Player, dr: int, dc: int) -> bool {
    if pt == PieceType::Lance {
        dr == forward(player) && dc == 0
    } else if pt == PieceType::Bishop || pt == PieceType::PromotedBishop {
        (dr == 1 || dr == -1) && (dc == 1 || dc == -1)
    } else if pt == PieceType::Rook || pt == PieceType::PromotedRook {
        (dr == 0 && (dc == 1 || dc == -1)) || (dc == 0 && (dr == 1 || dr == -1))
    } else {
        false
    }
}

/// Walking from `(r, c)` along `(dr, dc)` reaches `(tr, tc)` before leaving
/// the board or passing an occupied square (the target itself may be
/// occupied).
pub open spec fn ray_hits(b: Board, r: int, c: int, dr: int, dc: int, tr: int, tc: int, fuel: nat) -> bool
    decreases fuel,
{
    let nr = r + dr;
    let nc = c + dc;
    if fuel == 0 || !(0 <= nr < 9 && 0 <= nc < 9) {
        false
    } else if nr == tr && nc == tc {
        true
    } else if piece_at(b, nr, nc).is_some() {
        false
    } else {
        ray_hits(b, nr, nc, dr, dc, tr, tc, (fuel - 1) as nat)
    }
}

pub open spec fn dir_hit(b: Board, from: Position, pt: PieceType, player: Player, dr: int, dc: int, target: Position) -> bool {
    slides(pt, player, dr, dc) && ray_hits(b, from.row as int, from.col as int, dr, dc, target.row as int, target.col as int, 8)
}

/// A piece of `pt` owned by `player` standing on `from` attacks `target`.
pub open spec fn attacks(b: Board, from: Position, pt: PieceType, player: Player, target: Position) -> bool {
    ||| step_attack(pt, player, target.row - from.row, target.col - from.col)
    ||| dir_hit(b, from, pt, player, -1, -1, target)
    ||| dir_hit(b, from, pt, player, -1, 0, target)
    ||| dir_hit(b, from, pt, player, -1, 1, target)
    ||| dir_hit(b, from, pt, player, 0, -1, target)
    ||| dir_hit(b, from, pt, player, 0, 1, target)
    ||| dir_hit(b, from, pt, player, 1, -1, target)
    ||| dir_hit(b, from, pt, player, 1, 0, target)
    ||| dir_hit(b, from, pt, player, 1, 1, target)
}

pub(crate) fn forward_step(player: Player) -> (r: i8)
    ensures
        r == forward(player),
{
    match player {
        Player::Black => -1,
        Player::White => 1,
    }
}

fn is_gold_like(pt: PieceType) -> (r: bool)
    ensures
        r == gold_like(pt),
{
    match pt {
        PieceType::Gold | PieceType::PromotedPawn | PieceType::PromotedLance
        | PieceType::PromotedKnight | PieceType::PromotedSilver => true,
        _ => false,
    }
}

/// Whether one step of `pt` for `player` covers the offset `(dr, dc)`.
pub fn step_covers(pt: PieceType, player: Player, dr: i8, dc: i8) -> (r: bool)
    requires
        -20 <= dr <= 20,
    ensures
        r == step_attack(pt, player, dr as int, dc as int),
{
    let f = forward_step(player);
    match pt {
        PieceType::Pawn => dr == f && dc == 0,
        PieceType::Knight => dr == 2 * f && (dc == 1 || dc == -1),
        PieceType::Silver => (dr == f && -1 <= dc && dc <= 1) || (dr == -f && (dc == 1 || dc == -1)),
        PieceType::King => -1 <= dr && dr <= 1 && -1 <= dc && dc <= 1 && !(dr == 0 && dc == 0),
        PieceType::PromotedBishop => (dr == 0 && (dc == 1 || dc == -1)) || (dc == 0 && (dr == 1 || dr == -1)),
        PieceType::PromotedRook => (dr == 1 || dr == -1) && (dc == 1 || dc == -1),
        _ => {
            if is_gold_like(pt) {
                (dr == f && -1 <= dc && dc <= 1) || (dr == 0 && (dc == 1 || dc == -1)) || (dr == -f
                    && dc == 0)
            } else {
                false
            }
        },
    }
}

/// Whether `pt` for `player` slides along `(dr, dc)`.
pub fn slides_along(pt: PieceType, player: Player, dr: i8, dc: i8) -> (r: bool)
    ensures
        r == slides(pt, player, dr as int, dc as int),
{
    match pt {
        PieceType::Lance => dr == forward_step(player) && dc == 0,
        PieceType::Bishop | PieceType::PromotedBishop => (dr == 1 || dr == -1) && (dc == 1 || dc == -1),
        PieceType::Rook | PieceType::PromotedRook => (dr == 0 && (dc == 1 || dc == -1)) || (dc == 0 && (dr == 1 || dr == -1)),
        _ => false,
    }
}

/// Whether walking from `from` along `(dr, dc)` reaches `target` first.
pub(crate) fn ray_reaches(board: &Board, from: Position, dr: i8, dc: i8, target: Position) -> (r: bool)
    requires
        from.valid(),
        -1 <= dr <= 1,
        -1 <= dc <= 1,
    ensures
        r == ray_hits(*board, from.row as int, from.col as int, dr as int, dc as int, target.row as int, target.col as int, 8),
{
    let mut r: i8 = from.row as i8;
    let mut c: i8 = from.col as i8;
    let mut fuel: u8 = 8;
    while fuel > 0
        invariant
            0 <= r < 9,
            0 <= c < 9,
            fuel <= 8,
            -1 <= dr <= 1,
            -1 <= dc <= 1,
            ray_hits(*board, from.row as int, from.col as int, dr as int, dc as int, target.row as int, target.col as int, 8)
                == ray_hits(*board, r as int, c as int, dr as int, dc as int, target.row as int, target.col as int, fuel as nat),
        decreases fuel,
    {
        let nr = r + dr;
        let nc = c + dc;
        if nr < 0 || nr >= 9 || nc < 0 || nc >= 9 {
            return false;
        }
        if nr as u8 == target.row && nc as u8 == target.col {
            return true;
        }
        if board.get_piece(Position::new(nr as u8, nc as u8)).is_some() {
            return false;
        }
        r = nr;
        c = nc;
        fuel -= 1;
    }
    false
}

fn direction_hits(board: &Board, from: Position, pt: PieceType, player: Player, dr: i8, dc: i8, target: Position) -> (r: bool)
    requires
        from.valid(),
        -1 <= dr <= 1,
        -1 <= dc <= 1,
    ensures
        r == dir_hit(*board, from, pt, player, dr as int, dc as int, target),
{
    slides_along(pt, player, dr, dc) && ray_reaches(board, from, dr, dc, target)
}

/// Whether a piece of `piece_type` owned by `player` on `from` attacks
/// `target` on this board.
pub fn attacks_square(board: &Board, from: Position, piece_type: PieceType, player: Player, target: Position) -> (r: bool)
    requires
        from.valid(),
        target.valid(),
    ensures
        r == attacks(*board, from, piece_type, player, target),
{
    let dr = target.row as i8 - from.row as i8;
    let dc = target.col as i8 - from.col as i8;
    step_covers(piece_type, player, dr, dc)
        || direction_hits(board, from, piece_type, player, -1, -1, target)
        || direction_hits(board, from, piece_type, player, -1, 0, target)
        || direction_hits(board, from, piece_type, player, -1, 1, target)
        || direction_hits(board, from, piece_type, player, 0, -1, target)
        || direction_hits(board, from, piece_type, player, 0, 1, target)
        || direction_hits(board, from, piece_type, player, 1, -1, target)
        || direction_hits(board, from, piece_type, player, 1, 0, target)
        || direction_hits(board, from, piece_type, player, 1, 1, target)
}

} // verus!

verus! {

/// Some piece of `player` attacks `target`.
pub open spec fn attacked_by(b: Board, target: Position, player: Player) -> bool {
    exists|i: int| 0 <= i < 81 && #[trigger] attacker_at(b, i, target, player)
}

/// Square `i` holds a piece of `player` that attacks `target`.
pub open spec fn attacker_at(b: Board, i: int, target: Position, player: Player) -> bool {
    match b.squares@[i] {
        Some(pc) => pc.player == player && attacks(b, Position::at_index(i), pc.piece_type, player, target),
        None => false,
    }
}

impl Board {
    /// Whether any piece of `player` attacks `target`.
    pub fn is_square_attacked_by(&self, target: Position, player: Player) -> (r: bool)
        requires
            target.valid(),
        ensures
            r == attacked_by(*self, target, player),
    {
        let mut i: usize = 0;
        while i < 81
            invariant
                i <= 81,
                target.valid(),
                forall|j: int| 0 <= j < i ==> !#[trigger] attacker_at(*self, j, target, player),
            decreases 81 - i,
        {
            match self.squares[i] {
                Some(piece) => {
                    if piece.player == player && attacks_square(self, Position::from_index(i), piece.piece_type, player, target) {
                        assert(attacker_at(*self, i as int, target, player));
                        return true;
                    }
                },
                None => {},
            }
            i += 1;
        }
        false
    }
}

} // verus!
