//! The 9x9 board: one optional piece per square, in row-major order.

use vstd::prelude::*;
use crate::types::{Move, Piece, PieceType, Player, Position};

verus! {

/// Board contents, `squares[row * 9 + col]`.
#[derive(Clone, Copy, Debug)]
pub struct Board {
    pub squares: [Option<Piece>; 81],
}

/// The piece standing on a square of a board, `None` off the board.
pub open spec fn piece_at(b: Board, row: int, col: int) -> Option<Piece> {
    if 0 <= row < 9 && 0 <= col < 9 {
        b.squares@[row * 9 + col]
    } else {
        None
    }
}

pub open spec fn is_kind(p: Option<Piece>, player: Player, kind: PieceType) -> bool {
    match p {
        Some(pc) => pc.player == player && pc.piece_type == kind,
        None => false,
    }
}

pub open spec fn back_rank_piece(col: int) -> PieceType {
    if col == 0 || col == 8 {
        PieceType::Lance
    } else if col == 1 || col == 7 {
        PieceType::Knight
    } else if col == 2 || col == 6 {
        PieceType::Silver
    } else if col == 3 || col == 5 {
        PieceType::Gold
    } else {
        PieceType::King
    }
}

/// The standard initial arrangement: White on rows 0..=2, Black on rows
/// 6..=8, bishops and rooks on the second ranks.
pub open spec fn initial_square(i: int) -> Option<Piece> {
    let row = i / 9;
    let col = i % 9;
    if row == 0 {
        Some(Piece { piece_type: back_rank_piece(col), player: Player::White })
    } else if row == 1 && col == 1 {
        Some(Piece { piece_type: PieceType::Rook, player: Player::White })
    } else if row == 1 && col == 7 {
        Some(Piece { piece_type: PieceType::Bishop, player: Player::White })
    } else if row == 2 {
        Some(Piece { piece_type: PieceType::Pawn, player: Player::White })
    } else if row == 6 {
        Some(Piece { piece_type: PieceType::Pawn, player: Player::Black })
    } else if row == 7 && col == 1 {
        Some(Piece { piece_type: PieceType::Bishop, player: Player::Black })
    } else if row == 7 && col == 7 {
        Some(Piece { piece_type: PieceType::Rook, player: Player::Black })
    } else if row == 8 {
        Some(Piece { piece_type: back_rank_piece(col), player: Player::Black })
    } else {
        None
    }
}

/// Index of the first square (row-major) holding `player`'s king.
pub open spec fn first_king_from(b: Board, player: Player, start: int) -> Option<int>
    decreases 81 - start,
{
    if start >= 81 || start < 0 {
        None
    } else if is_kind(b.squares@[start], player, PieceType::King) {
        Some(start)
    } else {
        first_king_from(b, player, start + 1)
    }
}

/// The square of `player`'s first king in row-major order.
pub open spec fn king_square(b: Board, player: Player) -> Option<Position> {
    match first_king_from(b, player, 0) {
        Some(i) => Some(Position::at_index(i)),
        None => None,
    }
}

/// The squares of the first `n` (row-major) that hold a `pt` of `player`,
/// in increasing index order.
pub open spec fn pieces_upto(b: Board, player: Player, pt: PieceType, n: int) -> Seq<Position>
    decreases n,
{
    if n <= 0 {
        Seq::empty()
    } else if is_kind(b.squares@[n - 1], player, pt) {
        pieces_upto(b, player, pt, n - 1).push(Position::at_index(n - 1))
    } else {
        pieces_upto(b, player, pt, n - 1)
    }
}

/// All squares holding a `pt` of `player`, in increasing index order.
pub open spec fn pieces_of(b: Board, player: Player, pt: PieceType) -> Seq<Position> {
    pieces_upto(b, player, pt, 81)
}

/// Sum of `f` over a sequence of squares.
pub open spec fn sum_over(s: Seq<Position>, f: spec_fn(Position) -> int) -> int
    decreases s.len(),
{
    if s.len() == 0 {
        0
    } else {
        sum_over(s.drop_last(), f) + f(s.last())
    }
}

/// Sum of `g` over all pairs drawn from two sequences of squares.
pub open spec fn pair_sum(a: Seq<Position>, b: Seq<Position>, g: spec_fn(Position, Position) -> int) -> int {
    sum_over(a, |p: Position| sum_over(b, |q: Position| g(p, q)))
}

/// One more element extends a prefix sum by that element's term.
pub proof fn lemma_sum_take(s: Seq<Position>, f: spec_fn(Position) -> int, k: int)
    requires
        0 <= k < s.len(),
    ensures
        sum_over(s.take(k + 1), f) == sum_over(s.take(k), f) + f(s[k]),
{
    assert(s.take(k + 1).drop_last() =~= s.take(k));
}

/// A prefix of the whole length is the sequence itself.
pub proof fn lemma_take_all(s: Seq<Position>)
    ensures
        s.take(s.len() as int) == s,
{
    assert(s.take(s.len() as int) =~= s);
}

/// Sum of `f(i)` over the square indices `0..n`.
pub open spec fn square_sum(f: spec_fn(int) -> int, n: int) -> int
    decreases n,
{
    if n <= 0 {
        0
    } else {
        square_sum(f, n - 1) + f(n - 1)
    }
}

/// Changing the summand at one index `k < n` changes the sum by the
/// difference there.
pub proof fn lemma_square_sum_update(f: spec_fn(int) -> int, g: spec_fn(int) -> int, n: int, k: int)
    requires
        0 <= k < n,
        forall|i: int| 0 <= i < n && i != k ==> #[trigger] f(i) == g(i),
    ensures
        square_sum(g, n) == square_sum(f, n) + g(k) - f(k),
    decreases n,
{
    if n > k + 1 {
        lemma_square_sum_update(f, g, n - 1, k);
    } else {
        lemma_square_sum_same(f, g, n - 1);
    }
}

/// Summands that agree below `n` give the same sum.
pub proof fn lemma_square_sum_same(f: spec_fn(int) -> int, g: spec_fn(int) -> int, n: int)
    requires
        forall|i: int| 0 <= i < n ==> #[trigger] f(i) == g(i),
    ensures
        square_sum(g, n) == square_sum(f, n),
    decreases n,
{
    if n > 0 {
        lemma_square_sum_same(f, g, n - 1);
    }
}

/// A sum of zeros is zero.
pub proof fn lemma_square_sum_zero(f: spec_fn(int) -> int, n: int)
    requires
        forall|i: int| 0 <= i < n ==> #[trigger] f(i) == 0,
    ensures
        square_sum(f, n) == 0,
    decreases n,
{
    if n > 0 {
        lemma_square_sum_zero(f, n - 1);
    }
}

/// Every square of `pieces_upto` is on the board and holds the piece.
pub proof fn lemma_pieces_upto(b: Board, player: Player, pt: PieceType, n: int)
    requires
        0 <= n <= 81,
    ensures
        pieces_upto(b, player, pt, n).len() <= n,
        forall|k: int|
            0 <= k < pieces_upto(b, player, pt, n).len() ==> {
                let p = #[trigger] pieces_upto(b, player, pt, n)[k];
                &&& p.valid()
                &&& is_kind(piece_at(b, p.row as int, p.col as int), player, pt)
            },
    decreases n,
{
    if n > 0 {
        lemma_pieces_upto(b, player, pt, n - 1);
    }
}

/// The board after a move: the source square (if any) is emptied and the
/// destination receives the moving piece, promoted when the move promotes.
pub open spec fn after_move(b: Board, m: Move) -> Seq<Option<Piece>> {
    let lifted = match m.from {
        Some(f) => b.squares@.update(f.index(), None),
        None => b.squares@,
    };
    lifted.update(m.to.index(), Some(m.landing_piece()))
}

fn back_rank_kind(col: usize) -> (r: PieceType)
    requires
        col < 9,
    ensures
        r == back_rank_piece(col as int),
{
    if col == 0 || col == 8 {
        PieceType::Lance
    } else if col == 1 || col == 7 {
        PieceType::Knight
    } else if col == 2 || col == 6 {
        PieceType::Silver
    } else if col == 3 || col == 5 {
        PieceType::Gold
    } else {
        PieceType::King
    }
}

fn initial_piece(i: usize) -> (r: Option<Piece>)
    requires
        i < 81,
    ensures
        r == initial_square(i as int),
{
    let row = i / 9;
    let col = i % 9;
    if row == 0 {
        Some(Piece { piece_type: back_rank_kind(col), player: Player::White })
    } else if row == 1 && col == 1 {
        Some(Piece { piece_type: PieceType::Rook, player: Player::White })
    } else if row == 1 && col == 7 {
        Some(Piece { piece_type: PieceType::Bishop, player: Player::White })
    } else if row == 2 {
        Some(Piece { piece_type: PieceType::Pawn, player: Player::White })
    } else if row == 6 {
        Some(Piece { piece_type: PieceType::Pawn, player: Player::Black })
    } else if row == 7 && col == 1 {
        Some(Piece { piece_type: PieceType::Bishop, player: Player::Black })
    } else if row == 7 && col == 7 {
        Some(Piece { piece_type: PieceType::Rook, player: Player::Black })
    } else if row == 8 {
        Some(Piece { piece_type: back_rank_kind(col), player: Player::Black })
    } else {
        None
    }
}

/// `pc` stands on square `i` in the initial position.
pub open spec fn at_home(pc: Piece, i: int) -> bool {
    initial_square(i) == Some(pc)
}

/// Whether `piece` stands on square `i` in the initial position.
pub fn is_home_square(piece: Piece, i: usize) -> (r: bool)
    requires
        i < 81,
    ensures
        r == at_home(piece, i as int),
{
    match initial_piece(i) {
        Some(p) => p.piece_type == piece.piece_type && p.player == piece.player,
        None => false,
    }
}

impl Board {
    /// A board with no pieces.
    pub fn empty() -> (r: Board)
        ensures
            forall|i: int| 0 <= i < 81 ==> (#[trigger] r.squares@[i]).is_none(),
    {
        Board { squares: [None; 81] }
    }

    /// The initial position.
    pub fn new() -> (r: Board)
        ensures
            forall|i: int| 0 <= i < 81 ==> #[trigger] r.squares@[i] == initial_square(i),
    {
        let mut b = Board::empty();
        let mut i: usize = 0;
        while i < 81
            invariant
                i <= 81,
                forall|j: int| 0 <= j < i ==> #[trigger] b.squares@[j] == initial_square(j),
            decreases 81 - i,
        {
            b.squares[i] = initial_piece(i);
            i += 1;
        }
        b
    }

    /// The piece on a square, if any.
    pub fn get_piece(&self, pos: Position) -> (r: Option<Piece>)
        requires
            pos.valid(),
        ensures
            r == piece_at(*self, pos.row as int, pos.col as int),
    {
        self.squares[(pos.row as usize) * 9 + pos.col as usize]
    }

    /// The piece on the square with the given row-major index, if any.
    pub fn piece_at_index(&self, i: usize) -> (r: Option<Piece>)
        requires
            i < 81,
        ensures
            r == self.squares@[i as int],
    {
        self.squares[i]
    }

    /// Whether a piece stands on the square.
    pub fn is_square_occupied(&self, pos: Position) -> (r: bool)
        requires
            pos.valid(),
        ensures
            r == piece_at(*self, pos.row as int, pos.col as int).is_some(),
    {
        self.squares[(pos.row as usize) * 9 + pos.col as usize].is_some()
    }

    /// The square of `player`'s king (the first in row-major order).
    pub fn find_king_position(&self, player: Player) -> (r: Option<Position>)
        ensures
            r == king_square(*self, player),
            r.is_some() ==> r.unwrap().valid(),
    {
        let mut i: usize = 0;
        while i < 81
            invariant
                i <= 81,
                first_king_from(*self, player, 0) == first_king_from(*self, player, i as int),
            decreases 81 - i,
        {
            match self.squares[i] {
                Some(p) => {
                    if p.player == player && p.piece_type == PieceType::King {
                        return Some(Position::from_index(i));
                    }
                },
                None => {},
            }
            i += 1;
        }
        None
    }

    /// The squares holding a `piece_type` of `player`, in row-major order.
    pub fn find_pieces(&self, player: Player, piece_type: PieceType) -> (r: Vec<Position>)
        ensures
            r@ == pieces_of(*self, player, piece_type),
            r.len() <= 81,
    {
        let mut out: Vec<Position> = Vec::new();
        let mut i: usize = 0;
        while i < 81
            invariant
                i <= 81,
                out@ == pieces_upto(*self, player, piece_type, i as int),
                out.len() <= i,
            decreases 81 - i,
        {
            match self.squares[i] {
                Some(p) => {
                    if p.player == player && p.piece_type == piece_type {
                        out.push(Position::from_index(i));
                    }
                },
                None => {},
            }
            i += 1;
        }
        out
    }

    /// Plays a move: empties the source square (if any), puts the moving
    /// piece (promoted when the move promotes) on the destination and
    /// returns what stood there.
    pub fn make_move(&mut self, m: &Move) -> (r: Option<Piece>)
        requires
            m.to.valid(),
            m.from.is_some() ==> m.from.unwrap().valid(),
        ensures
            r == old(self).squares@[m.to.index()],
            final(self).squares@ == after_move(*old(self), *m),
    {
        let captured = self.squares[(m.to.row as usize) * 9 + m.to.col as usize];
        match m.from {
            Some(f) => {
                self.remove_piece(f);
            },
            None => {},
        }
        self.place_piece(m.landing(), m.to);
        captured
    }

    /// Puts a piece on a square, replacing whatever stood there.
    pub fn place_piece(&mut self, piece: Piece, pos: Position)
        requires
            pos.valid(),
        ensures
            final(self).squares@ == old(self).squares@.update(pos.index(), Some(piece)),
    {
        self.squares[(pos.row as usize) * 9 + pos.col as usize] = Some(piece);
    }

    /// Clears a square and returns what stood there.
    pub fn remove_piece(&mut self, pos: Position) -> (r: Option<Piece>)
        requires
            pos.valid(),
        ensures
            r == old(self).squares@[pos.index()],
            final(self).squares@ == old(self).squares@.update(pos.index(), None),
    {
        let i = (pos.row as usize) * 9 + pos.col as usize;
        let p = self.squares[i];
        self.squares[i] = None;
        p
    }
}

} // verus!
