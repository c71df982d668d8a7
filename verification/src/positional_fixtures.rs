//! Reference positions for positional evaluation, each with a theme and
//! the advantage a sound evaluation should report.

use vstd::prelude::*;
use crate::board::Board;
use crate::types::{CapturedPieces, Piece, PieceType, Player};

verus! {

#[derive(Debug, Clone, Copy, PartialEq, Eq, Structural)]
pub enum FixtureTheme {
    CentralFight,
    CastleWeakness,
    SpaceClamp,
}

#[derive(Debug, Clone, Copy, PartialEq, Eq, Structural)]
pub enum FixtureAdvantage {
    Black { min_cp: i32 },
    White { min_cp: i32 },
    Balanced { max_cp: i32 },
}

/// The position a fixture sets up.
#[derive(Debug, Clone, Copy, PartialEq, Eq, Structural)]
pub enum FixtureBuilder {
    CentralFileBind,
    CastleGapExposedKing,
    SpaceClampDoubleLance,
}

pub struct PositionalFixture {
    pub name: &'static str,
    pub theme: FixtureTheme,
    pub advantage: FixtureAdvantage,
    pub builder: FixtureBuilder,
}

/// Board contents after placing the first `n` pieces of a list, each
/// `(owner, kind, row, column)`, on an empty board.
pub open spec fn placed(ps: Seq<(Player, PieceType, u8, u8)>, n: int) -> Seq<Option<Piece>>
    decreases n,
{
    if n <= 0 {
        Seq::new(81, |i: int| None)
    } else {
        let (player, pt, row, col) = ps[n - 1];
        placed(ps, n - 1).update(row * 9 + col, Some(Piece { piece_type: pt, player }))
    }
}

/// The pieces each fixture places, in placement order.
pub open spec fn fixture_placements(b: FixtureBuilder) -> Seq<(Player, PieceType, u8, u8)> {
    match b {
        FixtureBuilder::CentralFileBind => seq![
            (Player::Black, PieceType::King, 8u8, 4u8),
            (Player::White, PieceType::King, 0u8, 4u8),
            (Player::Black, PieceType::Rook, 4u8, 4u8),
            (Player::Black, PieceType::Bishop, 5u8, 3u8),
            (Player::Black, PieceType::Silver, 5u8, 5u8),
            (Player::Black, PieceType::Gold, 4u8, 3u8),
            (Player::Black, PieceType::Pawn, 6u8, 4u8),
            (Player::Black, PieceType::Pawn, 5u8, 4u8),
            (Player::White, PieceType::Silver, 2u8, 4u8),
            (Player::White, PieceType::Pawn, 3u8, 4u8),
            (Player::White, PieceType::Pawn, 3u8, 3u8),
            (Player::White, PieceType::Bishop, 1u8, 6u8),
        ],
        FixtureBuilder::CastleGapExposedKing => seq![
            (Player::Black, PieceType::King, 8u8, 4u8),
            (Player::White, PieceType::King, 0u8, 4u8),
            (Player::White, PieceType::Gold, 1u8, 5u8),
            (Player::White, PieceType::Silver, 1u8, 3u8),
            (Player::Black, PieceType::Rook, 3u8, 4u8),
            (Player::Black, PieceType::Bishop, 2u8, 2u8),
            (Player::Black, PieceType::Gold, 4u8, 4u8),
            (Player::Black, PieceType::Pawn, 4u8, 5u8),
            (Player::Black, PieceType::Pawn, 2u8, 4u8),
        ],
        FixtureBuilder::SpaceClampDoubleLance => seq![
            (Player::Black, PieceType::King, 8u8, 4u8),
            (Player::White, PieceType::King, 0u8, 4u8),
            (Player::Black, PieceType::Pawn, 3u8, 2u8),
            (Player::Black, PieceType::Pawn, 3u8, 4u8),
            (Player::Black, PieceType::Pawn, 3u8, 6u8),
            (Player::Black, PieceType::Lance, 2u8, 0u8),
            (Player::Black, PieceType::Lance, 2u8, 8u8),
            (Player::Black, PieceType::Rook, 4u8, 6u8),
            (Player::Black, PieceType::Silver, 4u8, 3u8),
            (Player::Black, PieceType::Gold, 4u8, 5u8),
            (Player::Black, PieceType::Silver, 5u8, 5u8),
            (Player::White, PieceType::Gold, 7u8, 4u8),
            (Player::White, PieceType::Silver, 7u8, 5u8),
            (Player::White, PieceType::Pawn, 6u8, 3u8),
            (Player::White, PieceType::Pawn, 6u8, 5u8),
        ],
    }
}

/// Pawns Black holds in hand in each fixture (no other hand pieces).
pub open spec fn fixture_hand_pawns(b: FixtureBuilder) -> u32 {
    match b {
        FixtureBuilder::CentralFileBind => 1,
        FixtureBuilder::CastleGapExposedKing => 0,
        FixtureBuilder::SpaceClampDoubleLance => 2,
    }
}

fn placements(b: FixtureBuilder) -> (r: Vec<(Player, PieceType, u8, u8)>)
    ensures
        r@ == fixture_placements(b),
{
    match b {
        FixtureBuilder::CentralFileBind => vec![
            (Player::Black, PieceType::King, 8, 4),
            (Player::White, PieceType::King, 0, 4),
            (Player::Black, PieceType::Rook, 4, 4),
            (Player::Black, PieceType::Bishop, 5, 3),
            (Player::Black, PieceType::Silver, 5, 5),
            (Player::Black, PieceType::Gold, 4, 3),
            (Player::Black, PieceType::Pawn, 6, 4),
            (Player::Black, PieceType::Pawn, 5, 4),
            (Player::White, PieceType::Silver, 2, 4),
            (Player::White, PieceType::Pawn, 3, 4),
            (Player::White, PieceType::Pawn, 3, 3),
            (Player::White, PieceType::Bishop, 1, 6),
        ],
        FixtureBuilder::CastleGapExposedKing => vec![
            (Player::Black, PieceType::King, 8, 4),
            (Player::White, PieceType::King, 0, 4),
            (Player::White, PieceType::Gold, 1, 5),
            (Player::White, PieceType::Silver, 1, 3),
            (Player::Black, PieceType::Rook, 3, 4),
            (Player::Black, PieceType::Bishop, 2, 2),
            (Player::Black, PieceType::Gold, 4, 4),
            (Player::Black, PieceType::Pawn, 4, 5),
            (Player::Black, PieceType::Pawn, 2, 4),
        ],
        FixtureBuilder::SpaceClampDoubleLance => vec![
            (Player::Black, PieceType::King, 8, 4),
            (Player::White, PieceType::King, 0, 4),
            (Player::Black, PieceType::Pawn, 3, 2),
            (Player::Black, PieceType::Pawn, 3, 4),
            (Player::Black, PieceType::Pawn, 3, 6),
            (Player::Black, PieceType::Lance, 2, 0),
            (Player::Black, PieceType::Lance, 2, 8),
            (Player::Black, PieceType::Rook, 4, 6),
            (Player::Black, PieceType::Silver, 4, 3),
            (Player::Black, PieceType::Gold, 4, 5),
            (Player::Black, PieceType::Silver, 5, 5),
            (Player::White, PieceType::Gold, 7, 4),
            (Player::White, PieceType::Silver, 7, 5),
            (Player::White, PieceType::Pawn, 6, 3),
            (Player::White, PieceType::Pawn, 6, 5),
        ],
    }
}

impl FixtureBuilder {
    /// The fixture's board and pieces in hand.
    pub fn build(self) -> (r: (Board, CapturedPieces))
        ensures
            r.0.squares@ == placed(fixture_placements(self), fixture_placements(self).len() as int),
            r.1.hand(PieceType::Pawn, Player::Black) == fixture_hand_pawns(self),
            forall|pt: PieceType, pl: Player| !(pt == PieceType::Pawn && pl == Player::Black) ==> #[trigger] r.1.hand(
                pt,
                pl,
            ) == 0,
    {
        let ps = placements(self);
        let mut board = Board::empty();
        assert(board.squares@ =~= placed(ps@, 0));
        let mut i: usize = 0;
        while i < ps.len()
            invariant
                i <= ps@.len(),
                ps@ == fixture_placements(self),
                board.squares@ == placed(ps@, i as int),
                forall|k: int| 0 <= k < ps@.len() ==> (#[trigger] ps@[k]).2 < 9 && ps@[k].3 < 9,
            decreases ps@.len() - i,
        {
            let (player, piece_type, row, col) = ps[i];
            board.place_piece(Piece::new(piece_type, player), crate::types::Position::new(row, col));
            i += 1;
        }
        let mut captured = CapturedPieces::new();
        let pawns: u32 = match self {
            FixtureBuilder::CentralFileBind => 1,
            FixtureBuilder::CastleGapExposedKing => 0,
            FixtureBuilder::SpaceClampDoubleLance => 2,
        };
        let mut k: u32 = 0;
        while k < pawns
            invariant
                k <= pawns,
                pawns <= 2,
                captured.hand(PieceType::Pawn, Player::Black) == k,
                forall|pt: PieceType, pl: Player| !(pt == PieceType::Pawn && pl == Player::Black) ==> #[trigger] captured.hand(
                    pt,
                    pl,
                ) == 0,
            decreases pawns - k,
        {
            captured.add_piece(PieceType::Pawn, Player::Black);
            k += 1;
        }
        (board, captured)
    }
}

/// The three reference positions.
pub fn positional_fixtures() -> (r: Vec<PositionalFixture>)
    ensures
        r@.len() == 3,
        r@[0].builder == FixtureBuilder::CentralFileBind && r@[0].theme == FixtureTheme::CentralFight && r@[0].advantage
            == (FixtureAdvantage::Black { min_cp: 40 }),
        r@[1].builder == FixtureBuilder::CastleGapExposedKing && r@[1].theme == FixtureTheme::CastleWeakness
            && r@[1].advantage == (FixtureAdvantage::Black { min_cp: 30 }),
        r@[2].builder == FixtureBuilder::SpaceClampDoubleLance && r@[2].theme == FixtureTheme::SpaceClamp
            && r@[2].advantage == (FixtureAdvantage::Black { min_cp: 35 }),
{
    vec![
        PositionalFixture {
            name: "central_file_bind",
            theme: FixtureTheme::CentralFight,
            advantage: FixtureAdvantage::Black { min_cp: 40 },
            builder: FixtureBuilder::CentralFileBind,
        },
        PositionalFixture {
            name: "castle_gap_exposed_king",
            theme: FixtureTheme::CastleWeakness,
            advantage: FixtureAdvantage::Black { min_cp: 30 },
            builder: FixtureBuilder::CastleGapExposedKing,
        },
        PositionalFixture {
            name: "space_clamp_double_lance",
            theme: FixtureTheme::SpaceClamp,
            advantage: FixtureAdvantage::Black { min_cp: 35 },
            builder: FixtureBuilder::SpaceClampDoubleLance,
        },
    ]
}

} // verus!
