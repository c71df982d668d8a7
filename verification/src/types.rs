//! Core value types: players, pieces, squares, tapered scores, pieces in
//! hand and the 9x9 board.

use vstd::prelude::*;

verus! {

/// The two sides. Black moves first and starts on rows 6..=8.
#[derive(Clone, Copy, Debug, PartialEq, Eq, Structural, Hash)]
pub enum Player {
    Black,
    White,
}

impl Player {
    pub open spec fn other(self) -> Player {
        match self {
            Player::Black => Player::White,
            Player::White => Player::Black,
        }
    }

    /// The opposing side.
    pub fn opposite(self) -> (r: Player)
        ensures
            r == self.other(),
    {
        match self {
            Player::Black => Player::White,
            Player::White => Player::Black,
        }
    }

    pub open spec fn idx(self) -> nat {
        match self {
            Player::Black => 0,
            Player::White => 1,
        }
    }
}

/// The fourteen piece kinds, unpromoted first.
#[derive(Clone, Copy, Debug, PartialEq, Eq, Structural, Hash)]
pub enum PieceType {
    Pawn,
    Lance,
    Knight,
    Silver,
    Gold,
    Bishop,
    Rook,
    King,
    PromotedPawn,
    PromotedLance,
    PromotedKnight,
    PromotedSilver,
    PromotedBishop,
    PromotedRook,
}

pub const PIECE_TYPE_COUNT: usize = 14;

impl PieceType {
    /// Position of the kind in declaration order.
    pub open spec fn idx(self) -> nat {
        match self {
            PieceType::Pawn => 0,
            PieceType::Lance => 1,
            PieceType::Knight => 2,
            PieceType::Silver => 3,
            PieceType::Gold => 4,
            PieceType::Bishop => 5,
            PieceType::Rook => 6,
            PieceType::King => 7,
            PieceType::PromotedPawn => 8,
            PieceType::PromotedLance => 9,
            PieceType::PromotedKnight => 10,
            PieceType::PromotedSilver => 11,
            PieceType::PromotedBishop => 12,
            PieceType::PromotedRook => 13,
        }
    }

    pub open spec fn from_idx(i: int) -> PieceType {
        if i == 0 {
            PieceType::Pawn
        } else if i == 1 {
            PieceType::Lance
        } else if i == 2 {
            PieceType::Knight
        } else if i == 3 {
            PieceType::Silver
        } else if i == 4 {
            PieceType::Gold
        } else if i == 5 {
            PieceType::Bishop
        } else if i == 6 {
            PieceType::Rook
        } else if i == 7 {
            PieceType::King
        } else if i == 8 {
            PieceType::PromotedPawn
        } else if i == 9 {
            PieceType::PromotedLance
        } else if i == 10 {
            PieceType::PromotedKnight
        } else if i == 11 {
            PieceType::PromotedSilver
        } else if i == 12 {
            PieceType::PromotedBishop
        } else {
            PieceType::PromotedRook
        }
    }

    /// Nominal material value of the kind, in centipawns.
    pub open spec fn value(self) -> int {
        match self {
            PieceType::Pawn => 100,
            PieceType::Lance => 300,
            PieceType::Knight => 350,
            PieceType::Silver => 450,
            PieceType::Gold => 500,
            PieceType::Bishop => 800,
            PieceType::Rook => 1000,
            PieceType::King => 20000,
            PieceType::PromotedPawn => 520,
            PieceType::PromotedLance => 500,
            PieceType::PromotedKnight => 500,
            PieceType::PromotedSilver => 500,
            PieceType::PromotedBishop => 1100,
            PieceType::PromotedRook => 1300,
        }
    }

    /// Nominal material value of the kind, in centipawns.
    pub fn base_value(self) -> (r: i32)
        ensures
            r == self.value(),
    {
        match self {
            PieceType::Pawn => 100,
            PieceType::Lance => 300,
            PieceType::Knight => 350,
            PieceType::Silver => 450,
            PieceType::Gold => 500,
            PieceType::Bishop => 800,
            PieceType::Rook => 1000,
            PieceType::King => 20000,
            PieceType::PromotedPawn => 520,
            PieceType::PromotedLance => 500,
            PieceType::PromotedKnight => 500,
            PieceType::PromotedSilver => 500,
            PieceType::PromotedBishop => 1100,
            PieceType::PromotedRook => 1300,
        }
    }

    /// Index of the kind in declaration order (0..14).
    pub fn as_index(self) -> (r: usize)
        ensures
            r == self.idx(),
            r < 14,
    {
        match self {
            PieceType::Pawn => 0,
            PieceType::Lance => 1,
            PieceType::Knight => 2,
            PieceType::Silver => 3,
            PieceType::Gold => 4,
            PieceType::Bishop => 5,
            PieceType::Rook => 6,
            PieceType::King => 7,
            PieceType::PromotedPawn => 8,
            PieceType::PromotedLance => 9,
            PieceType::PromotedKnight => 10,
            PieceType::PromotedSilver => 11,
            PieceType::PromotedBishop => 12,
            PieceType::PromotedRook => 13,
        }
    }

    /// The kind with the given index.
    pub fn from_index(i: usize) -> (r: PieceType)
        requires
            i < 14,
        ensures
            r == PieceType::from_idx(i as int),
            r.idx() == i,
    {
        if i == 0 {
            PieceType::Pawn
        } else if i == 1 {
            PieceType::Lance
        } else if i == 2 {
            PieceType::Knight
        } else if i == 3 {
            PieceType::Silver
        } else if i == 4 {
            PieceType::Gold
        } else if i == 5 {
            PieceType::Bishop
        } else if i == 6 {
            PieceType::Rook
        } else if i == 7 {
            PieceType::King
        } else if i == 8 {
            PieceType::PromotedPawn
        } else if i == 9 {
            PieceType::PromotedLance
        } else if i == 10 {
            PieceType::PromotedKnight
        } else if i == 11 {
            PieceType::PromotedSilver
        } else if i == 12 {
            PieceType::PromotedBishop
        } else {
            PieceType::PromotedRook
        }
    }

    pub open spec fn promoted(self) -> Option<PieceType> {
        match self {
            PieceType::Pawn => Some(PieceType::PromotedPawn),
            PieceType::Lance => Some(PieceType::PromotedLance),
            PieceType::Knight => Some(PieceType::PromotedKnight),
            PieceType::Silver => Some(PieceType::PromotedSilver),
            PieceType::Bishop => Some(PieceType::PromotedBishop),
            PieceType::Rook => Some(PieceType::PromotedRook),
            _ => None,
        }
    }

    /// The promoted form of the kind, if it has one.
    pub fn promoted_version(self) -> (r: Option<PieceType>)
        ensures
            r == self.promoted(),
    {
        match self {
            PieceType::Pawn => Some(PieceType::PromotedPawn),
            PieceType::Lance => Some(PieceType::PromotedLance),
            PieceType::Knight => Some(PieceType::PromotedKnight),
            PieceType::Silver => Some(PieceType::PromotedSilver),
            PieceType::Bishop => Some(PieceType::PromotedBishop),
            PieceType::Rook => Some(PieceType::PromotedRook),
            _ => None,
        }
    }
}

/// A piece: its kind and its owner.
#[derive(Clone, Copy, Debug, PartialEq, Eq, Structural, Hash)]
pub struct Piece {
    pub piece_type: PieceType,
    pub player: Player,
}

impl Piece {
    pub fn new(piece_type: PieceType, player: Player) -> (r: Piece)
        ensures
            r.piece_type == piece_type,
            r.player == player,
    {
        Piece { piece_type, player }
    }
}

/// A square given by row (0 = White's back rank) and column.
#[derive(Clone, Copy, Debug, PartialEq, Eq, Structural, Hash)]
pub struct Position {
    pub row: u8,
    pub col: u8,
}

impl Position {
    /// The square lies on the 9x9 board.
    pub open spec fn valid(self) -> bool {
        self.row < 9 && self.col < 9
    }

    /// Square index in row-major order.
    pub open spec fn index(self) -> int {
        self.row * 9 + self.col
    }

    pub open spec fn at_index(i: int) -> Position {
        Position { row: (i / 9) as u8, col: (i % 9) as u8 }
    }

    pub fn new(row: u8, col: u8) -> (r: Position)
        ensures
            r.row == row,
            r.col == col,
    {
        Position { row, col }
    }

    /// Square index in row-major order (0..81).
    pub fn to_u8(self) -> (r: u8)
        requires
            self.valid(),
        ensures
            r == self.index(),
            r < 81,
    {
        self.row * 9 + self.col
    }

    /// The square with the given row-major index.
    pub fn from_index(i: usize) -> (r: Position)
        requires
            i < 81,
        ensures
            r == Position::at_index(i as int),
            r.valid(),
            r.index() == i,
    {
        Position { row: (i / 9) as u8, col: (i % 9) as u8 }
    }
}

/// A move: a board move from `from`, or a drop when `from` is `None`.
#[derive(Clone, Copy, Debug, PartialEq, Eq, Structural)]
pub struct Move {
    pub from: Option<Position>,
    pub to: Position,
    pub piece_type: PieceType,
    pub player: Player,
    pub is_promotion: bool,
    pub is_capture: bool,
    pub captured_piece: Option<Piece>,
    pub gives_check: bool,
    pub is_recapture: bool,
}

impl Move {
    /// The piece that stands on `to` after the move.
    pub open spec fn landing_piece(self) -> Piece {
        let pt = if self.is_promotion && self.piece_type.promoted().is_some() {
            self.piece_type.promoted().unwrap()
        } else {
            self.piece_type
        };
        Piece { piece_type: pt, player: self.player }
    }

    /// A quiet board move.
    pub fn new_move(from: Position, to: Position, piece_type: PieceType, player: Player, is_promotion: bool) -> (r: Move)
        ensures
            r.from == Some(from),
            r.to == to,
            r.piece_type == piece_type,
            r.player == player,
            r.is_promotion == is_promotion,
            !r.is_capture,
            r.captured_piece.is_none(),
            !r.gives_check,
            !r.is_recapture,
    {
        Move {
            from: Some(from),
            to,
            piece_type,
            player,
            is_promotion,
            is_capture: false,
            captured_piece: None,
            gives_check: false,
            is_recapture: false,
        }
    }

    /// A drop of a piece from hand.
    pub fn new_drop(piece_type: PieceType, to: Position, player: Player) -> (r: Move)
        ensures
            r.from.is_none(),
            r.to == to,
            r.piece_type == piece_type,
            r.player == player,
            !r.is_promotion,
            !r.is_capture,
            r.captured_piece.is_none(),
            !r.gives_check,
            !r.is_recapture,
    {
        Move {
            from: None,
            to,
            piece_type,
            player,
            is_promotion: false,
            is_capture: false,
            captured_piece: None,
            gives_check: false,
            is_recapture: false,
        }
    }

    /// The piece that stands on `to` after the move.
    pub fn landing(&self) -> (r: Piece)
        ensures
            r == self.landing_piece(),
    {
        let pt = if self.is_promotion {
            match self.piece_type.promoted_version() {
                Some(p) => p,
                None => self.piece_type,
            }
        } else {
            self.piece_type
        };
        Piece { piece_type: pt, player: self.player }
    }
}

/// A score split into a middlegame part and an endgame part.
#[derive(Clone, Copy, Debug, PartialEq, Eq, Structural)]
pub struct TaperedScore {
    pub mg: i32,
    pub eg: i32,
}

impl TaperedScore {
    pub fn new_tapered(mg: i32, eg: i32) -> (r: TaperedScore)
        ensures
            r.mg == mg,
            r.eg == eg,
    {
        TaperedScore { mg, eg }
    }

    /// Component-wise sum.
    pub fn plus(self, other: TaperedScore) -> (r: TaperedScore)
        requires
            i32::MIN <= self.mg + other.mg <= i32::MAX,
            i32::MIN <= self.eg + other.eg <= i32::MAX,
        ensures
            r.mg == self.mg + other.mg,
            r.eg == self.eg + other.eg,
    {
        TaperedScore { mg: self.mg + other.mg, eg: self.eg + other.eg }
    }

    /// Component-wise difference.
    pub fn minus(self, other: TaperedScore) -> (r: TaperedScore)
        requires
            i32::MIN <= self.mg - other.mg <= i32::MAX,
            i32::MIN <= self.eg - other.eg <= i32::MAX,
        ensures
            r.mg == self.mg - other.mg,
            r.eg == self.eg - other.eg,
    {
        TaperedScore { mg: self.mg - other.mg, eg: self.eg - other.eg }
    }

    pub open spec fn interpolated(self, phase: int) -> int {
        trunc_div(self.mg * phase + self.eg * (256 - phase), 256)
    }

    /// Blend of the two parts for a game phase in 0..=256, where 256 is the
    /// opening and 0 the bare endgame.
    pub fn interpolate(self, phase: i32) -> (r: i32)
        requires
            0 <= phase <= 256,
        ensures
            r == self.interpolated(phase as int),
    {
        let mg = self.mg as i64;
        let eg = self.eg as i64;
        let p = phase as i64;
        assert(-2147483648 * 256 <= mg * p <= 2147483647 * 256) by (nonlinear_arith)
            requires
                -2147483648 <= mg <= 2147483647,
                0 <= p <= 256,
        ;
        assert(-2147483648 * 256 <= eg * (256 - p) <= 2147483647 * 256) by (nonlinear_arith)
            requires
                -2147483648 <= eg <= 2147483647,
                0 <= p <= 256,
        ;
        let total = mg * p + eg * (256 - p);
        assert(-2147483648 * 256 <= total <= 2147483647 * 256) by (nonlinear_arith)
            requires
                total == mg * p + eg * (256 - p),
                -2147483648 <= mg <= 2147483647,
                -2147483648 <= eg <= 2147483647,
                0 <= p <= 256,
        ;
        let q = div_trunc(total, 256);
        q as i32
    }
}

/// Division rounding toward zero, as Rust's `/` on signed integers does.
pub open spec fn trunc_div(a: int, b: int) -> int {
    if a >= 0 {
        a / b
    } else {
        -((-a) / b)
    }
}

/// Signed division rounding toward zero for a positive divisor.
pub fn div_trunc(a: i64, b: i64) -> (r: i64)
    requires
        b > 0,
        a > i64::MIN,
    ensures
        r == trunc_div(a as int, b as int),
        a >= 0 ==> 0 <= r <= a,
        a < 0 ==> a <= r <= 0,
{
    if a >= 0 {
        assert(a / b <= a) by (nonlinear_arith)
            requires
                a >= 0,
                b > 0,
        ;
        a / b
    } else {
        let n = -a;
        assert(n / b <= n) by (nonlinear_arith)
            requires
                n >= 0,
                b > 0,
        ;
        -(n / b)
    }
}

impl Default for TaperedScore {
    fn default() -> (r: TaperedScore)
        ensures
            r.mg == 0,
            r.eg == 0,
    {
        TaperedScore { mg: 0, eg: 0 }
    }
}

/// Pieces in hand for both players.
#[derive(Clone, Copy, Debug)]
pub struct CapturedPieces {
    /// `counts[player * 14 + kind]`.
    pub counts: [u32; 28],
}

impl CapturedPieces {
    pub open spec fn hand(self, piece_type: PieceType, player: Player) -> u32 {
        self.counts@[(player.idx() * 14 + piece_type.idx()) as int]
    }

    /// No hand holds more than `limit` pieces of any kind.
    pub open spec fn counts_at_most(self, limit: u32) -> bool {
        forall|i: int| 0 <= i < 28 ==> #[trigger] self.counts@[i] <= limit
    }

    /// Empty hands.
    pub fn new() -> (r: CapturedPieces)
        ensures
            forall|pt: PieceType, pl: Player| r.hand(pt, pl) == 0,
    {
        CapturedPieces { counts: [0u32; 28] }
    }

    /// Number of pieces of the kind in the player's hand.
    pub fn count(&self, piece_type: PieceType, player: Player) -> (r: usize)
        ensures
            r == self.hand(piece_type, player),
    {
        let p: usize = match player {
            Player::Black => 0,
            Player::White => 1,
        };
        self.counts[p * 14 + piece_type.as_index()] as usize
    }

    /// Puts one more piece of the kind in the player's hand.
    pub fn add_piece(&mut self, piece_type: PieceType, player: Player)
        requires
            old(self).hand(piece_type, player) < u32::MAX,
        ensures
            final(self).hand(piece_type, player) == old(self).hand(piece_type, player) + 1,
            forall|pt: PieceType, pl: Player|
                !(pt == piece_type && pl == player) ==> final(self).hand(pt, pl) == old(
                    self,
                ).hand(pt, pl),
    {
        let p: usize = match player {
            Player::Black => 0,
            Player::White => 1,
        };
        let i = p * 14 + piece_type.as_index();
        let c = self.counts[i];
        self.counts[i] = c + 1;
        assert forall|pt: PieceType, pl: Player|
            !(pt == piece_type && pl == player) implies pl.idx() * 14 + pt.idx() != i by {}
    }
}

} // verus!
