//! Material balance and game phase of a position.
//!
//! Material counts every piece on the board (and, when configured, every
//! piece in hand) for its owner and against the opponent. The game phase runs
//! from 256 with all officers on the board down to 0 with none left.

use vstd::prelude::*;
use crate::board::{Board, square_sum};
use crate::types::{CapturedPieces, PieceType, Player, TaperedScore};

verus! {

/// Largest hand size the material sums are evaluated for. A legal position
/// holds at most 18 pieces of one kind; the bound leaves every weighted
/// hand sum, times the phase taper, well inside `i32`.
pub const HAND_LIMIT: u32 = 10_000;

/// Phase value of the full set of officers at the start of a game.
pub const PHASE_TOTAL: i32 = 42;

/// Highest game phase: the opening.
pub const PHASE_MAX: i32 = 256;

/// Material values (middlegame, endgame) of a piece kind; the king has none.
pub open spec fn material_score(pt: PieceType) -> (int, int) {
    match pt {
        PieceType::Pawn => (100, 120),
        PieceType::Lance => (300, 280),
        PieceType::Knight => (350, 300),
        PieceType::Silver => (450, 460),
        PieceType::Gold => (500, 520),
        PieceType::Bishop => (800, 850),
        PieceType::Rook => (1000, 1100),
        PieceType::King => (0, 0),
        PieceType::PromotedPawn => (520, 540),
        PieceType::PromotedLance => (500, 520),
        PieceType::PromotedKnight => (500, 520),
        PieceType::PromotedSilver => (500, 520),
        PieceType::PromotedBishop => (1100, 1200),
        PieceType::PromotedRook => (1300, 1400),
    }
}

pub open spec fn part_of(v: (int, int), part: int) -> int {
    if part == 0 { v.0 } else { v.1 }
}

/// Contribution of square `i` to `player`'s material.
pub open spec fn material_term(b: Board, player: Player, i: int, part: int) -> int {
    match b.squares@[i] {
        Some(pc) => if pc.player == player {
            part_of(material_score(pc.piece_type), part)
        } else {
            -part_of(material_score(pc.piece_type), part)
        },
        None => 0,
    }
}

/// Material on the board from `player`'s side.
pub open spec fn board_material(b: Board, player: Player, part: int) -> int {
    square_sum(|i: int| material_term(b, player, i, part), 81)
}

/// Material in hand from `player`'s side over the first `n` droppable kinds.
pub open spec fn hand_material_upto(hand: CapturedPieces, player: Player, part: int, n: int) -> int
    decreases n,
{
    if n <= 0 {
        0
    } else {
        let pt = PieceType::from_idx(n - 1);
        hand_material_upto(hand, player, part, n - 1) + part_of(material_score(pt), part) * (
        hand.hand(pt, player) - hand.hand(pt, player.other()))
    }
}

/// Material in hand from `player`'s side (pawn through rook).
pub open spec fn hand_material(hand: CapturedPieces, player: Player, part: int) -> int {
    hand_material_upto(hand, player, part, 7)
}

/// Phase weight of a piece kind: officers count by strength, pawns and
/// kings not at all.
pub open spec fn phase_weight(pt: PieceType) -> int {
    match pt {
        PieceType::Lance | PieceType::Knight | PieceType::PromotedLance | PieceType::PromotedKnight => 1,
        PieceType::Silver | PieceType::Gold | PieceType::PromotedSilver => 2,
        PieceType::Bishop | PieceType::PromotedBishop => 4,
        PieceType::Rook | PieceType::PromotedRook => 5,
        PieceType::Pawn | PieceType::PromotedPawn | PieceType::King => 0,
    }
}

pub open spec fn phase_term(b: Board, i: int) -> int {
    match b.squares@[i] {
        Some(pc) => phase_weight(pc.piece_type),
        None => 0,
    }
}

/// Sum of the phase weights of all pieces on the board.
pub open spec fn phase_material(b: Board) -> int {
    square_sum(|i: int| phase_term(b, i), 81)
}

/// Game phase: the phase material scaled to 0..=256 and capped there.
pub open spec fn game_phase(b: Board) -> int {
    let scaled = phase_material(b) * 256 / 42;
    if scaled > 256 { 256 } else { scaled }
}

fn material_contribution(pt: PieceType) -> (r: (i32, i32))
    ensures
        (r.0 as int, r.1 as int) == material_score(pt),
        0 <= r.0 <= 1300,
        0 <= r.1 <= 1400,
{
    match pt {
        PieceType::Pawn => (100, 120),
        PieceType::Lance => (300, 280),
        PieceType::Knight => (350, 300),
        PieceType::Silver => (450, 460),
        PieceType::Gold => (500, 520),
        PieceType::Bishop => (800, 850),
        PieceType::Rook => (1000, 1100),
        PieceType::King => (0, 0),
        PieceType::PromotedPawn => (520, 540),
        PieceType::PromotedLance => (500, 520),
        PieceType::PromotedKnight => (500, 520),
        PieceType::PromotedSilver => (500, 520),
        PieceType::PromotedBishop => (1100, 1200),
        PieceType::PromotedRook => (1300, 1400),
    }
}

fn phase_contribution(pt: PieceType) -> (r: i32)
    ensures
        r == phase_weight(pt),
        0 <= r <= 5,
{
    match pt {
        PieceType::Lance | PieceType::Knight | PieceType::PromotedLance | PieceType::PromotedKnight => 1,
        PieceType::Silver | PieceType::Gold | PieceType::PromotedSilver => 2,
        PieceType::Bishop | PieceType::PromotedBishop => 4,
        PieceType::Rook | PieceType::PromotedRook => 5,
        PieceType::Pawn | PieceType::PromotedPawn | PieceType::King => 0,
    }
}

/// Settings of the material evaluation.
#[derive(Clone, Copy, Debug, PartialEq, Eq, Structural)]
pub struct MaterialEvaluationConfig {
    /// Count the pieces in hand as well as those on the board.
    pub include_hand_pieces: bool,
}

impl Default for MaterialEvaluationConfig {
    fn default() -> (r: Self)
        ensures
            r.include_hand_pieces,
    {
        MaterialEvaluationConfig { include_hand_pieces: true }
    }
}

/// Material balance under a configuration.
pub open spec fn material_balance(config: MaterialEvaluationConfig, b: Board, hand: CapturedPieces, player: Player, part: int) -> int {
    board_material(b, player, part) + if config.include_hand_pieces {
        hand_material(hand, player, part)
    } else {
        0
    }
}

/// Evaluates the material balance of a position.
#[derive(Clone, Copy, Debug)]
pub struct MaterialEvaluator {
    pub config: MaterialEvaluationConfig,
}

impl MaterialEvaluator {
    pub fn with_config(config: MaterialEvaluationConfig) -> (r: Self)
        ensures
            r.config == config,
    {
        MaterialEvaluator { config }
    }

    /// Replaces the configuration.
    pub fn apply_config(&mut self, config: MaterialEvaluationConfig)
        ensures
            final(self).config == config,
    {
        self.config = config;
    }

    /// Material balance from `player`'s side: own pieces count for, the
    /// opponent's against.
    pub fn evaluate_material(&self, board: &Board, player: Player, captured_pieces: &CapturedPieces) -> (r: TaperedScore)
        requires
            captured_pieces.counts_at_most(HAND_LIMIT),
        ensures
            r.mg == material_balance(self.config, *board, *captured_pieces, player, 0),
            r.eg == material_balance(self.config, *board, *captured_pieces, player, 1),
            -100_000_000 <= r.mg <= 100_000_000,
            -100_000_000 <= r.eg <= 100_000_000,
    {
        let ghost fm = |i: int| material_term(*board, player, i, 0);
        let ghost fe = |i: int| material_term(*board, player, i, 1);
        let mut mg: i32 = 0;
        let mut eg: i32 = 0;
        let mut i: usize = 0;
        while i < 81
            invariant
                i <= 81,
                fm == (|i: int| material_term(*board, player, i, 0)),
                fe == (|i: int| material_term(*board, player, i, 1)),
                mg == square_sum(fm, i as int),
                eg == square_sum(fe, i as int),
                -1300 * i <= mg <= 1300 * i,
                -1400 * i <= eg <= 1400 * i,
            decreases 81 - i,
        {
            match board.squares[i] {
                Some(piece) => {
                    let c = material_contribution(piece.piece_type);
                    if piece.player == player {
                        mg += c.0;
                        eg += c.1;
                    } else {
                        mg -= c.0;
                        eg -= c.1;
                    }
                },
                None => {},
            }
            i += 1;
        }
        if self.config.include_hand_pieces {
            let opponent = player.opposite();
            let mut k: usize = 0;
            while k < 7
                invariant
                    k <= 7,
                    captured_pieces.counts_at_most(HAND_LIMIT),
                    opponent == player.other(),
                    mg == board_material(*board, player, 0) + hand_material_upto(*captured_pieces, player, 0, k as int),
                    eg == board_material(*board, player, 1) + hand_material_upto(*captured_pieces, player, 1, k as int),
                    -105_300 - 14_000_000 * k <= mg <= 105_300 + 14_000_000 * k,
                    -113_400 - 14_000_000 * k <= eg <= 113_400 + 14_000_000 * k,
                decreases 7 - k,
            {
                let pt = PieceType::from_index(k);
                proof {
                    assert(captured_pieces.counts@[(player.idx() * 14 + pt.idx()) as int] <= HAND_LIMIT);
                    assert(captured_pieces.counts@[(opponent.idx() * 14 + pt.idx()) as int] <= HAND_LIMIT);
                }
                let own = captured_pieces.count(pt, player) as i32;
                let theirs = captured_pieces.count(pt, opponent) as i32;
                let diff = own - theirs;
                let c = material_contribution(pt);
                assert(-1300 * 10_000 <= c.0 * diff <= 1300 * 10_000) by (nonlinear_arith)
                    requires
                        0 <= c.0 <= 1300,
                        -10_000 <= diff <= 10_000,
                ;
                assert(-1400 * 10_000 <= c.1 * diff <= 1400 * 10_000) by (nonlinear_arith)
                    requires
                        0 <= c.1 <= 1400,
                        -10_000 <= diff <= 10_000,
                ;
                let add_mg: i32 = c.0 * diff;
                let add_eg: i32 = c.1 * diff;
                mg = mg + add_mg;
                eg = eg + add_eg;
                k += 1;
            }
        }
        TaperedScore::new_tapered(mg, eg)
    }
}

/// Game phase of a position (256 in the opening, falling as officers leave
/// the board).
pub fn calculate_game_phase(board: &Board) -> (r: i32)
    ensures
        r == game_phase(*board),
        0 <= r <= PHASE_MAX,
{
    let ghost f = |i: int| phase_term(*board, i);
    let mut total: i32 = 0;
    let mut i: usize = 0;
    while i < 81
        invariant
            i <= 81,
            f == (|i: int| phase_term(*board, i)),
            total == square_sum(f, i as int),
            0 <= total <= 5 * i,
        decreases 81 - i,
    {
        match board.squares[i] {
            Some(piece) => {
                total += phase_contribution(piece.piece_type);
            },
            None => {},
        }
        i += 1;
    }
    let scaled = total * 256 / 42;
    if scaled > 256 {
        256
    } else {
        scaled
    }
}

} // verus!
