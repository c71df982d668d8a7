//! NNUE evaluation: a sparse input layer indexed by (player, piece kind,
//! square), an incrementally updated first hidden layer (the accumulator),
//! an optional second hidden layer and a single output.

use vstd::prelude::*;
use crate::board::{Board, after_move, piece_at, first_king_from};
use crate::types::{Move, Piece, PieceType, Player, Position, trunc_div};

verus! {

/// Squares on the board.
pub const NUM_SQUARES: usize = 81;
/// Piece kinds, unpromoted and promoted.
pub const NUM_PIECE_TYPES: usize = 14;
/// Sides.
pub const NUM_PLAYERS: usize = 2;
/// Piece-square features: 2 x 14 x 81.
pub const NUM_NNUE_FEATURES: usize = 2268;
/// Row of the side-to-move feature, active when Black is to move.
pub const STM_FEATURE_INDEX: usize = 2268;
/// Input rows including the side-to-move feature.
pub const NUM_NNUE_FEATURES_TOTAL: usize = 2269;
/// Piece-square features conditioned on the own king square: 81 x 2268.
pub const NUM_NNUE_FEATURES_HALFKP: usize = 183708;
/// Row of the side-to-move feature in the king-conditioned layout.
pub const STM_FEATURE_INDEX_HALFKP: usize = 183708;
/// Input rows of the king-conditioned layout including the side-to-move row.
pub const NUM_NNUE_FEATURES_HALFKP_TOTAL: usize = 183709;
/// Default width of the first hidden layer.
pub const DEFAULT_HIDDEN_SIZE_1: usize = 256;
/// Default width of the second hidden layer.
pub const DEFAULT_HIDDEN_SIZE_2: usize = 32;
/// Centipawn scale applied to the network output.
pub const SCALE_FACTOR: i32 = 400;
/// Divisor mapping the scaled output to centipawns.
pub const OUTPUT_DIVISOR: i32 = 4080;

// ---------------------------------------------------------------------------
// Feature indexing
// ---------------------------------------------------------------------------

pub open spec fn feature_of(player: Player, piece_type: PieceType, square: int) -> int {
    player.idx() * 1134 + piece_type.idx() * 81 + square
}

/// Distinct pieces on distinct squares light distinct inputs: every flat
/// feature lies in `0..2268`, and two (owner, kind, square) triples share a
/// feature only when they are the same triple.
pub proof fn law_features_are_distinct(p1: Player, t1: PieceType, s1: int, p2: Player, t2: PieceType, s2: int)
    requires
        0 <= s1 < 81,
        0 <= s2 < 81,
    ensures
        0 <= feature_of(p1, t1, s1) < 2268,
        feature_of(p1, t1, s1) == feature_of(p2, t2, s2) ==> p1 == p2 && t1 == t2 && s1 == s2,
{
    let a1 = p1.idx() * 14 + t1.idx();
    let a2 = p2.idx() * 14 + t2.idx();
    assert(feature_of(p1, t1, s1) == a1 * 81 + s1);
    assert(feature_of(p2, t2, s2) == a2 * 81 + s2);
    if feature_of(p1, t1, s1) == feature_of(p2, t2, s2) {
        if a1 < a2 {
            assert(a1 * 81 + s1 < a2 * 81 + s2);
        } else if a2 < a1 {
            assert(a2 * 81 + s2 < a1 * 81 + s1);
        }
        assert(a1 == a2);
        assert(p1.idx() == p2.idx());
        assert(t1.idx() == t2.idx());
        assert(p1 == p2);
        assert(t1 == t2);
    }
}

/// Index of the input feature for a piece of `piece_type` owned by `player`
/// standing on `square`.
pub fn feature_index(player: Player, piece_type: PieceType, square: u8) -> (r: usize)
    requires
        square < 81,
    ensures
        r == feature_of(player, piece_type, square as int),
        r < NUM_NNUE_FEATURES,
{
    let player_idx: usize = match player {
        Player::Black => 0,
        Player::White => 1,
    };
    let piece_idx = piece_type.as_index();
    player_idx * (NUM_PIECE_TYPES * NUM_SQUARES) + piece_idx * NUM_SQUARES + square as usize
}

pub open spec fn halfkp_feature_of(
    own_king_sq: int,
    player: Player,
    piece_type: PieceType,
    square: int,
) -> int {
    own_king_sq * 2268 + feature_of(player, piece_type, square)
}

/// King-conditioned feature index: the flat feature shifted by the block of
/// the side-to-move's own king square.
pub fn feature_index_halfkp(own_king_sq: u8, player: Player, piece_type: PieceType, square: u8) -> (r: usize)
    requires
        own_king_sq < 81,
        square < 81,
    ensures
        r == halfkp_feature_of(own_king_sq as int, player, piece_type, square as int),
        r < NUM_NNUE_FEATURES_HALFKP,
{
    own_king_sq as usize * NUM_NNUE_FEATURES + feature_index(player, piece_type, square)
}

/// Row-major index of `player`'s king, `None` when the board has none.
pub fn find_king_square(board: &Board, player: Player) -> (r: Option<u8>)
    ensures
        r.is_some() == first_king_from(*board, player, 0).is_some(),
        r.is_some() ==> r.unwrap() as int == first_king_from(*board, player, 0).unwrap(),
        r.is_some() ==> r.unwrap() < 81,
{
    let mut i: usize = 0;
    while i < 81
        invariant
            i <= 81,
            first_king_from(*board, player, 0) == first_king_from(*board, player, i as int),
        decreases 81 - i,
    {
        match board.squares[i] {
            Some(p) => {
                if p.player == player && p.piece_type == PieceType::King {
                    return Some(i as u8);
                }
            },
            None => {},
        }
        i += 1;
    }
    None
}

// ---------------------------------------------------------------------------
// Weights
// ---------------------------------------------------------------------------

/// Network weights.
#[derive(Debug, Clone)]
pub struct NNUEWeights {
    /// Input-to-hidden-1 weights, one row of width `hidden_size_1` per feature.
    pub input_weights_1: Vec<Vec<i16>>,
    /// Hidden-1 biases.
    pub hidden_biases_1: Vec<i32>,
    /// Hidden-1-to-hidden-2 weights, one row of width `hidden_size_2` per
    /// hidden-1 neuron, when the second layer exists.
    pub input_weights_2: Option<Vec<Vec<i16>>>,
    /// Hidden-2 biases, when the second layer exists.
    pub hidden_biases_2: Option<Vec<i32>>,
    /// Output weights over the last hidden layer.
    pub output_weights: Vec<i16>,
    /// Output bias.
    pub output_bias: i32,
}

/// Entry `i` of input row `f`.
pub open spec fn w1(w: NNUEWeights, f: int, i: int) -> int {
    w.input_weights_1@[f]@[i] as int
}

impl NNUEWeights {
    pub open spec fn h1(self) -> nat {
        self.hidden_biases_1@.len()
    }

    pub open spec fn h2(self) -> nat {
        match self.hidden_biases_2 {
            Some(b) => b@.len(),
            None => 0,
        }
    }

    pub open spec fn two_layers(self) -> bool {
        self.input_weights_2.is_some() && self.hidden_biases_2.is_some()
    }

    /// The layer shapes agree with one another.
    pub open spec fn wf(self) -> bool {
        &&& forall|f: int|
            0 <= f < self.input_weights_1@.len() ==> (#[trigger] self.input_weights_1@[f])@.len()
                == self.h1()
        &&& self.input_weights_2.is_some() == self.hidden_biases_2.is_some()
        &&& match (self.input_weights_2, self.hidden_biases_2) {
            (Some(w2), Some(b2)) => {
                &&& w2@.len() == self.h1()
                &&& forall|i: int| 0 <= i < w2@.len() ==> (#[trigger] w2@[i])@.len() == b2@.len()
                &&& b2@.len() <= 32
                &&& self.output_weights@.len() == b2@.len()
            },
            _ => self.output_weights@.len() == self.h1(),
        }
    }

    /// Widths of the two hidden layers (0 for an absent second layer).
    pub fn hidden_sizes(&self) -> (r: (usize, usize))
        ensures
            r.0 == self.h1(),
            r.1 == self.h2(),
    {
        let size_1 = self.hidden_biases_1.len();
        let size_2 = match &self.hidden_biases_2 {
            Some(b) => b.len(),
            None => 0,
        };
        (size_1, size_2)
    }
}

// ---------------------------------------------------------------------------
// Accumulator model
// ---------------------------------------------------------------------------

/// Contribution of one square's occupant to hidden neuron `i`.
pub open spec fn square_term(w: NNUEWeights, occupant: Option<Piece>, sq: int, i: int) -> int {
    match occupant {
        Some(p) => w1(w, feature_of(p.player, p.piece_type, sq), i),
        None => 0,
    }
}

/// Sum of the contributions of squares `0..n`.
pub open spec fn board_sum(w: NNUEWeights, squares: Seq<Option<Piece>>, i: int, n: int) -> int
    decreases n,
{
    if n <= 0 {
        0
    } else {
        board_sum(w, squares, i, n - 1) + square_term(w, squares[n - 1], n - 1, i)
    }
}

/// Contribution of the side-to-move row, active for Black to move.
pub open spec fn stm_term(w: NNUEWeights, stm: Player, row: int, i: int) -> int {
    if stm == Player::Black && row < w.input_weights_1@.len() {
        w1(w, row, i)
    } else {
        0
    }
}

/// The first hidden layer of a full refresh: the sum of the rows of every
/// piece on the board, plus the side-to-move row when requested.
pub open spec fn refreshed(w: NNUEWeights, squares: Seq<Option<Piece>>, stm: Player, with_stm: bool, i: int) -> int {
    board_sum(w, squares, i, 81) + if with_stm {
        stm_term(w, stm, 2268, i)
    } else {
        0
    }
}

/// Every square holds at most a flat-feature row the weights provide.
pub open spec fn rows_cover_flat(w: NNUEWeights) -> bool {
    w.input_weights_1@.len() >= 2268
}

/// The weights have the flat-feature row of the occupant of square `sq`
/// (trivially so for an empty square).
pub open spec fn row_present(w: NNUEWeights, occupant: Option<Piece>, sq: int) -> bool {
    match occupant {
        Some(p) => feature_of(p.player, p.piece_type, sq) < w.input_weights_1@.len(),
        None => true,
    }
}

/// The weights have the row of every piece on the board.
pub open spec fn rows_cover_board(w: NNUEWeights, squares: Seq<Option<Piece>>) -> bool {
    forall|s: int| 0 <= s < 81 ==> #[trigger] row_present(w, squares[s], s)
}

/// The weights have the rows that a move removes and adds.
pub open spec fn move_rows_present(
    w: NNUEWeights,
    from: Option<Position>,
    to: Position,
    removed: Piece,
    captured: Option<Piece>,
    placed: Piece,
) -> bool {
    &&& from.is_some() ==> row_present(w, Some(removed), from.unwrap().index())
    &&& row_present(w, captured, to.index())
    &&& row_present(w, Some(placed), to.index())
}

pub open spec fn i16_bound() -> int {
    32768
}

pub proof fn lemma_board_sum_bound(w: NNUEWeights, squares: Seq<Option<Piece>>, i: int, n: int)
    requires
        w.wf(),
        rows_cover_board(w, squares),
        0 <= i < w.h1(),
        0 <= n <= 81,
        squares.len() == 81,
    ensures
        -n * i16_bound() <= board_sum(w, squares, i, n) <= n * i16_bound(),
    decreases n,
{
    if n > 0 {
        lemma_board_sum_bound(w, squares, i, n - 1);
        match squares[n - 1] {
            Some(p) => {
                let f = feature_of(p.player, p.piece_type, n - 1);
                assert(row_present(w, squares[n - 1], n - 1));
                assert(0 <= f < w.input_weights_1@.len());
                assert(w.input_weights_1@[f]@.len() == w.h1());
            },
            None => {},
        }
    }
}

/// Changing one square changes the sum by the difference of its terms.
pub proof fn lemma_board_sum_update(
    w: NNUEWeights,
    squares: Seq<Option<Piece>>,
    s: int,
    occupant: Option<Piece>,
    i: int,
    n: int,
)
    requires
        0 <= s < squares.len(),
        0 <= n <= squares.len(),
    ensures
        board_sum(w, squares.update(s, occupant), i, n) == board_sum(w, squares, i, n) - (if s
            < n {
            square_term(w, squares[s], s, i)
        } else {
            0
        }) + (if s < n {
            square_term(w, occupant, s, i)
        } else {
            0
        }),
    decreases n,
{
    if n > 0 {
        lemma_board_sum_update(w, squares, s, occupant, i, n - 1);
    }
}

/// Adds `row` entry-wise into the front of `hidden`.
fn add_row(hidden: &mut Vec<i32>, row: &Vec<i16>)
    requires
        row@.len() <= old(hidden)@.len(),
        forall|i: int|
            0 <= i < row@.len() ==> i32::MIN <= old(hidden)@[i] + #[trigger] row@[i] <= i32::MAX,
    ensures
        final(hidden)@.len() == old(hidden)@.len(),
        forall|i: int|
            0 <= i < old(hidden)@.len() ==> #[trigger] final(hidden)@[i] == old(hidden)@[i] + (
            if i < row@.len() {
                row@[i] as int
            } else {
                0
            }),
{
    let n = row.len();
    let mut i: usize = 0;
    while i < n
        invariant
            n == row@.len(),
            i <= n,
            n <= hidden@.len(),
            hidden@.len() == old(hidden)@.len(),
            forall|k: int|
                0 <= k < n ==> i32::MIN <= old(hidden)@[k] + #[trigger] row@[k] <= i32::MAX,
            forall|k: int| 0 <= k < i ==> #[trigger] hidden@[k] == old(hidden)@[k] + row@[k],
            forall|k: int| i <= k < hidden@.len() ==> #[trigger] hidden@[k] == old(hidden)@[k],
        decreases n - i,
    {
        let v = hidden[i] + row[i] as i32;
        hidden.set(i, v);
        i += 1;
    }
}

/// Subtracts `row` entry-wise from the front of `hidden`.
fn sub_row(hidden: &mut Vec<i32>, row: &Vec<i16>)
    requires
        row@.len() <= old(hidden)@.len(),
        forall|i: int|
            0 <= i < row@.len() ==> i32::MIN <= old(hidden)@[i] - #[trigger] row@[i] <= i32::MAX,
    ensures
        final(hidden)@.len() == old(hidden)@.len(),
        forall|i: int|
            0 <= i < old(hidden)@.len() ==> #[trigger] final(hidden)@[i] == old(hidden)@[i] - (
            if i < row@.len() {
                row@[i] as int
            } else {
                0
            }),
{
    let n = row.len();
    let mut i: usize = 0;
    while i < n
        invariant
            n == row@.len(),
            i <= n,
            n <= hidden@.len(),
            hidden@.len() == old(hidden)@.len(),
            forall|k: int|
                0 <= k < n ==> i32::MIN <= old(hidden)@[k] - #[trigger] row@[k] <= i32::MAX,
            forall|k: int| 0 <= k < i ==> #[trigger] hidden@[k] == old(hidden)@[k] - row@[k],
            forall|k: int| i <= k < hidden@.len() ==> #[trigger] hidden@[k] == old(hidden)@[k],
        decreases n - i,
    {
        let v = hidden[i] - row[i] as i32;
        hidden.set(i, v);
        i += 1;
    }
}

/// Sets every entry to zero.
fn zero_fill(v: &mut Vec<i32>)
    ensures
        final(v)@.len() == old(v)@.len(),
        forall|i: int| 0 <= i < final(v)@.len() ==> #[trigger] final(v)@[i] == 0,
{
    let n = v.len();
    let mut i: usize = 0;
    while i < n
        invariant
            n == v@.len(),
            i <= n,
            forall|k: int| 0 <= k < i ==> #[trigger] v@[k] == 0,
        decreases n - i,
    {
        v.set(i, 0);
        i += 1;
    }
}

/// A vector of `n` zeros.
fn zeros(n: usize) -> (r: Vec<i32>)
    ensures
        r@.len() == n,
        forall|i: int| 0 <= i < n ==> #[trigger] r@[i] == 0,
{
    let mut v: Vec<i32> = Vec::with_capacity(n);
    let mut i: usize = 0;
    while i < n
        invariant
            i <= n,
            v@.len() == i,
            forall|k: int| 0 <= k < i ==> #[trigger] v@[k] == 0,
        decreases n - i,
    {
        v.push(0);
        i += 1;
    }
    v
}

/// Accumulated first-hidden-layer values, kept in step with the board.
#[derive(Debug, Clone)]
pub struct NNUEAccumulator {
    /// Pre-activation values of hidden layer 1.
    pub hidden_1: Vec<i32>,
    /// Values of hidden layer 2, when present.
    pub hidden_2: Option<Vec<i32>>,
}

/// Pre-activation value neuron `i` of a full refresh holds, given the
/// accumulator width `len` and the first-layer width of the weights.
pub open spec fn refreshed_entry(
    w: NNUEWeights,
    squares: Seq<Option<Piece>>,
    stm: Player,
    with_stm: bool,
    i: int,
) -> int {
    if i < w.h1() {
        refreshed(w, squares, stm, with_stm, i)
    } else {
        0
    }
}

pub open spec fn zeroed_second(old_h2: Option<Vec<i32>>, new_h2: Option<Vec<i32>>) -> bool {
    match (old_h2, new_h2) {
        (Some(a), Some(b)) => b@.len() == a@.len() && forall|j: int|
            0 <= j < b@.len() ==> #[trigger] b@[j] == 0,
        (None, None) => true,
        _ => false,
    }
}

/// The row of a piece's feature fits in the accumulator without overflow
/// when added.
pub open spec fn can_add(hidden: Seq<i32>, w: NNUEWeights, f: int) -> bool {
    &&& 0 <= f < w.input_weights_1@.len()
    &&& w.input_weights_1@[f]@.len() <= hidden.len()
    &&& forall|i: int|
        0 <= i < w.input_weights_1@[f]@.len() ==> i32::MIN <= #[trigger] hidden[i] + w1(w, f, i)
            <= i32::MAX
}

/// The row of a piece's feature can be subtracted without overflow.
pub open spec fn can_sub(hidden: Seq<i32>, w: NNUEWeights, f: int) -> bool {
    &&& 0 <= f < w.input_weights_1@.len()
    &&& w.input_weights_1@[f]@.len() <= hidden.len()
    &&& forall|i: int|
        0 <= i < w.input_weights_1@[f]@.len() ==> i32::MIN <= #[trigger] hidden[i] - w1(w, f, i)
            <= i32::MAX
}

/// `hidden` after adding (`sign` true) or removing row `f`.
pub open spec fn row_applied(hidden: Seq<i32>, w: NNUEWeights, f: int, add: bool, i: int) -> int {
    if i < w.input_weights_1@[f]@.len() {
        if add {
            hidden[i] + w1(w, f, i)
        } else {
            hidden[i] - w1(w, f, i)
        }
    } else {
        hidden[i] as int
    }
}

impl NNUEAccumulator {
    /// An all-zero accumulator of the given widths; the second layer exists
    /// only for a positive second width.
    pub fn new(hidden_size_1: usize, hidden_size_2: usize) -> (r: Self)
        ensures
            r.hidden_1@.len() == hidden_size_1,
            forall|i: int| 0 <= i < hidden_size_1 ==> #[trigger] r.hidden_1@[i] == 0,
            r.hidden_2.is_some() == (hidden_size_2 > 0),
            r.hidden_2.is_some() ==> r.hidden_2.unwrap()@.len() == hidden_size_2,
            r.hidden_2.is_some() ==> forall|j: int|
                0 <= j < hidden_size_2 ==> #[trigger] r.hidden_2.unwrap()@[j] == 0,
    {
        Self {
            hidden_1: zeros(hidden_size_1),
            hidden_2: if hidden_size_2 > 0 {
                Some(zeros(hidden_size_2))
            } else {
                None
            },
        }
    }

    /// Adds a piece's row to hidden layer 1.
    pub fn add_piece(&mut self, piece: Piece, square: Position, weights: &NNUEWeights)
        requires
            square.valid(),
            can_add(
                old(self).hidden_1@,
                *weights,
                feature_of(piece.player, piece.piece_type, square.index()),
            ),
        ensures
            final(self).hidden_2 == old(self).hidden_2,
            final(self).hidden_1@.len() == old(self).hidden_1@.len(),
            forall|i: int|
                0 <= i < final(self).hidden_1@.len() ==> #[trigger] final(self).hidden_1@[i]
                    == row_applied(
                    old(self).hidden_1@,
                    *weights,
                    feature_of(piece.player, piece.piece_type, square.index()),
                    true,
                    i,
                ),
    {
        let f = feature_index(piece.player, piece.piece_type, square.to_u8());
        add_row(&mut self.hidden_1, &weights.input_weights_1[f]);
    }

    /// Subtracts a piece's row from hidden layer 1.
    pub fn remove_piece(&mut self, piece: Piece, square: Position, weights: &NNUEWeights)
        requires
            square.valid(),
            can_sub(
                old(self).hidden_1@,
                *weights,
                feature_of(piece.player, piece.piece_type, square.index()),
            ),
        ensures
            final(self).hidden_2 == old(self).hidden_2,
            final(self).hidden_1@.len() == old(self).hidden_1@.len(),
            forall|i: int|
                0 <= i < final(self).hidden_1@.len() ==> #[trigger] final(self).hidden_1@[i]
                    == row_applied(
                    old(self).hidden_1@,
                    *weights,
                    feature_of(piece.player, piece.piece_type, square.index()),
                    false,
                    i,
                ),
    {
        let f = feature_index(piece.player, piece.piece_type, square.to_u8());
        sub_row(&mut self.hidden_1, &weights.input_weights_1[f]);
    }
}

impl NNUEAccumulator {
    /// Adds the rows of every piece on the board, squares taken in
    /// row-major order, onto the current contents of hidden layer 1.
    fn accumulate_board(&mut self, board: &Board, weights: &NNUEWeights)
        requires
            weights.wf(),
            rows_cover_board(*weights, board.squares@),
            old(self).hidden_1@.len() >= weights.h1(),
            forall|i: int| 0 <= i < old(self).hidden_1@.len() ==> #[trigger] old(self).hidden_1@[i] == 0,
        ensures
            final(self).hidden_2 == old(self).hidden_2,
            final(self).hidden_1@.len() == old(self).hidden_1@.len(),
            forall|i: int|
                0 <= i < final(self).hidden_1@.len() ==> #[trigger] final(self).hidden_1@[i] == (
                if i < weights.h1() {
                    board_sum(*weights, board.squares@, i, 81)
                } else {
                    0
                }),
    {
        let ghost h2 = self.hidden_2;
        let mut s: usize = 0;
        while s < 81
            invariant
                s <= 81,
                weights.wf(),
                rows_cover_board(*weights, board.squares@),
                self.hidden_2 == h2,
                self.hidden_1@.len() == old(self).hidden_1@.len(),
                self.hidden_1@.len() >= weights.h1(),
                forall|i: int|
                    0 <= i < self.hidden_1@.len() ==> #[trigger] self.hidden_1@[i] == (if i
                        < weights.h1() {
                        board_sum(*weights, board.squares@, i, s as int)
                    } else {
                        0
                    }),
            decreases 81 - s,
        {
            let occupant = board.piece_at_index(s);
            let pos = Position::from_index(s);
            match occupant {
                Some(p) => {
                    let ghost f = feature_of(p.player, p.piece_type, s as int);
                    assert(row_present(*weights, board.squares@[s as int], s as int));
                    assert(0 <= f < weights.input_weights_1@.len());
                    assert(weights.input_weights_1@[f]@.len() == weights.h1());
                    assert forall|i: int| 0 <= i < weights.input_weights_1@[f]@.len() implies i32::MIN
                        <= #[trigger] self.hidden_1@[i] + w1(*weights, f, i) <= i32::MAX by {
                        lemma_board_sum_bound(*weights, board.squares@, i, s as int);
                    }
                    self.add_piece(p, pos, weights);
                },
                None => {},
            }
            s += 1;
        }
    }

    /// Rebuilds hidden layer 1 from the pieces on the board (no
    /// side-to-move row) and zeroes hidden layer 2.
    pub fn refresh(&mut self, board: &Board, weights: &NNUEWeights)
        requires
            weights.wf(),
            rows_cover_board(*weights, board.squares@),
            old(self).hidden_1@.len() >= weights.h1(),
        ensures
            final(self).hidden_1@.len() == old(self).hidden_1@.len(),
            forall|i: int|
                0 <= i < final(self).hidden_1@.len() ==> #[trigger] final(self).hidden_1@[i]
                    == refreshed_entry(*weights, board.squares@, Player::Black, false, i),
            zeroed_second(old(self).hidden_2, final(self).hidden_2),
    {
        zero_fill(&mut self.hidden_1);
        match &mut self.hidden_2 {
            Some(h2) => zero_fill(h2),
            None => {},
        }
        self.accumulate_board(board, weights);
    }
}

// ---------------------------------------------------------------------------
// Forward pass model
// ---------------------------------------------------------------------------

pub open spec fn relu(x: int) -> int {
    if x > 0 {
        x
    } else {
        0
    }
}

/// Number of hidden-1 neurons taking part in the forward pass: the shorter
/// of the accumulator and the bias vector.
pub open spec fn active_width(acc: Seq<i32>, w: NNUEWeights) -> int {
    if acc.len() < w.h1() {
        acc.len() as int
    } else {
        w.h1() as int
    }
}

pub open spec fn pre1(acc: Seq<i32>, w: NNUEWeights, i: int) -> int {
    acc[i] + w.hidden_biases_1@[i]
}

pub open spec fn act1(acc: Seq<i32>, w: NNUEWeights, i: int) -> int {
    relu(pre1(acc, w, i))
}

pub open spec fn w2(w: NNUEWeights, i: int, j: int) -> int {
    w.input_weights_2.unwrap()@[i]@[j] as int
}

pub open spec fn b2(w: NNUEWeights, j: int) -> int {
    w.hidden_biases_2.unwrap()@[j] as int
}

pub open spec fn ow(w: NNUEWeights, j: int) -> int {
    w.output_weights@[j] as int
}

/// Hidden-2 neuron `j` after the first `k` hidden-1 neurons have been
/// folded in; each product is shifted right by 6 (floor division by 64).
pub open spec fn h2_partial(acc: Seq<i32>, w: NNUEWeights, j: int, k: int) -> int
    decreases k,
{
    if k <= 0 {
        0
    } else {
        h2_partial(acc, w, j, k - 1) + (act1(acc, w, k - 1) * w2(w, k - 1, j)) / 64
    }
}

pub open spec fn pre2(acc: Seq<i32>, w: NNUEWeights, j: int) -> int {
    h2_partial(acc, w, j, active_width(acc, w)) + b2(w, j)
}

pub open spec fn act2(acc: Seq<i32>, w: NNUEWeights, j: int) -> int {
    relu(pre2(acc, w, j))
}

/// Output of the two-layer network after the first `m` hidden-2 neurons.
pub open spec fn out2_partial(acc: Seq<i32>, w: NNUEWeights, m: int) -> int
    decreases m,
{
    if m <= 0 {
        w.output_bias as int
    } else {
        out2_partial(acc, w, m - 1) + (act2(acc, w, m - 1) * ow(w, m - 1)) / 64
    }
}

/// Output of the single-layer network after the first `k` hidden-1 neurons.
pub open spec fn out1_partial(acc: Seq<i32>, w: NNUEWeights, k: int) -> int
    decreases k,
{
    if k <= 0 {
        w.output_bias as int
    } else {
        out1_partial(acc, w, k - 1) + (act1(acc, w, k - 1) * ow(w, k - 1)) / 64
    }
}

pub open spec fn raw_output(acc: Seq<i32>, w: NNUEWeights) -> int {
    if w.two_layers() {
        out2_partial(acc, w, w.h2() as int)
    } else {
        out1_partial(acc, w, active_width(acc, w))
    }
}

/// Centipawn value of the forward pass.
pub open spec fn network_value(acc: Seq<i32>, w: NNUEWeights) -> int {
    trunc_div(raw_output(acc, w) * 400, 4080)
}

pub open spec fn fits_i32(x: int) -> bool {
    i32::MIN <= x <= i32::MAX
}

/// Every intermediate value of the forward pass fits in an `i32`.
pub open spec fn eval_fits(acc: Seq<i32>, w: NNUEWeights) -> bool {
    let n1 = active_width(acc, w);
    &&& forall|i: int| 0 <= i < n1 ==> fits_i32(#[trigger] pre1(acc, w, i))
    &&& if w.two_layers() {
        let n2 = w.h2() as int;
        &&& forall|i: int, j: int|
            0 <= i < n1 && 0 <= j < n2 ==> fits_i32(act1(acc, w, i) * #[trigger] w2(w, i, j))
        &&& forall|j: int, k: int|
            0 <= j < n2 && 0 <= k <= n1 ==> fits_i32(#[trigger] h2_partial(acc, w, j, k))
        &&& forall|j: int| 0 <= j < n2 ==> fits_i32(#[trigger] pre2(acc, w, j))
        &&& forall|j: int| 0 <= j < n2 ==> fits_i32(act2(acc, w, j) * #[trigger] ow(w, j))
        &&& forall|m: int| 0 <= m <= n2 ==> fits_i32(#[trigger] out2_partial(acc, w, m))
    } else {
        &&& forall|i: int| 0 <= i < n1 ==> fits_i32(act1(acc, w, i) * #[trigger] ow(w, i))
        &&& forall|k: int| 0 <= k <= n1 ==> fits_i32(#[trigger] out1_partial(acc, w, k))
    }
    &&& fits_i32(raw_output(acc, w) * 400)
}

proof fn lemma_out2_from_act2(acc1: Seq<i32>, acc2: Seq<i32>, w: NNUEWeights, m: int)
    requires
        forall|j: int| 0 <= j < m ==> #[trigger] act2(acc1, w, j) == act2(acc2, w, j),
    ensures
        out2_partial(acc1, w, m) == out2_partial(acc2, w, m),
    decreases m,
{
    if m > 0 {
        lemma_out2_from_act2(acc1, acc2, w, m - 1);
        assert(act2(acc1, w, m - 1) == act2(acc2, w, m - 1));
    }
}

proof fn lemma_out2_all_clipped(acc: Seq<i32>, w: NNUEWeights, m: int)
    requires
        forall|j: int| 0 <= j < m ==> #[trigger] act2(acc, w, j) == 0,
    ensures
        out2_partial(acc, w, m) == w.output_bias as int,
    decreases m,
{
    if m > 0 {
        lemma_out2_all_clipped(acc, w, m - 1);
        assert(act2(acc, w, m - 1) == 0);
        assert(act2(acc, w, m - 1) * ow(w, m - 1) == 0);
    }
}

proof fn lemma_h2_from_act1(acc1: Seq<i32>, acc2: Seq<i32>, w: NNUEWeights, j: int, k: int)
    requires
        forall|i: int| 0 <= i < k ==> #[trigger] act1(acc1, w, i) == act1(acc2, w, i),
    ensures
        h2_partial(acc1, w, j, k) == h2_partial(acc2, w, j, k),
    decreases k,
{
    if k > 0 {
        lemma_h2_from_act1(acc1, acc2, w, j, k - 1);
        assert(act1(acc1, w, k - 1) == act1(acc2, w, k - 1));
    }
}

proof fn lemma_out1_from_act1(acc1: Seq<i32>, acc2: Seq<i32>, w: NNUEWeights, k: int)
    requires
        forall|i: int| 0 <= i < k ==> #[trigger] act1(acc1, w, i) == act1(acc2, w, i),
    ensures
        out1_partial(acc1, w, k) == out1_partial(acc2, w, k),
    decreases k,
{
    if k > 0 {
        lemma_out1_from_act1(acc1, acc2, w, k - 1);
        assert(act1(acc1, w, k - 1) == act1(acc2, w, k - 1));
    }
}

/// Both hidden layers pass through ReLU: the score of a two-layer network
/// depends on its second hidden layer only through the positive parts
/// `max(0, h2_j + b2_j)` of its pre-activations, so two accumulators whose
/// second-layer pre-activations have equal positive parts score the same,
/// and when no second-layer neuron is positive the score is that of the
/// output bias alone.
pub proof fn law_second_layer_is_clipped(acc1: Seq<i32>, acc2: Seq<i32>, w: NNUEWeights)
    requires
        w.two_layers(),
    ensures
        (forall|j: int| 0 <= j < w.h2() ==> #[trigger] relu(pre2(acc1, w, j)) == relu(pre2(acc2, w, j)))
            ==> network_value(acc1, w) == network_value(acc2, w),
        (forall|j: int| 0 <= j < w.h2() ==> #[trigger] pre2(acc1, w, j) <= 0)
            ==> network_value(acc1, w) == trunc_div(w.output_bias as int * 400, 4080),
{
    if forall|j: int| 0 <= j < w.h2() ==> #[trigger] relu(pre2(acc1, w, j)) == relu(pre2(acc2, w, j)) {
        assert forall|j: int| 0 <= j < w.h2() as int implies #[trigger] act2(acc1, w, j) == act2(acc2, w, j) by {
            assert(relu(pre2(acc1, w, j)) == relu(pre2(acc2, w, j)));
        }
        lemma_out2_from_act2(acc1, acc2, w, w.h2() as int);
    }
    if forall|j: int| 0 <= j < w.h2() ==> #[trigger] pre2(acc1, w, j) <= 0 {
        assert forall|j: int| 0 <= j < w.h2() as int implies #[trigger] act2(acc1, w, j) == 0 by {
            assert(pre2(acc1, w, j) <= 0);
        }
        lemma_out2_all_clipped(acc1, w, w.h2() as int);
    }
}

/// The first hidden layer passes through ReLU: two accumulators of the same
/// length whose first-layer pre-activations `h1_i + b1_i` have equal
/// positive parts give the same score, with one hidden layer or two.
pub proof fn law_first_layer_is_clipped(acc1: Seq<i32>, acc2: Seq<i32>, w: NNUEWeights)
    requires
        acc1.len() == acc2.len(),
        forall|i: int| 0 <= i < active_width(acc1, w) ==> #[trigger] relu(pre1(acc1, w, i)) == relu(pre1(acc2, w, i)),
    ensures
        network_value(acc1, w) == network_value(acc2, w),
{
    let n1 = active_width(acc1, w);
    assert(active_width(acc2, w) == n1);
    assert forall|i: int| 0 <= i < n1 implies #[trigger] act1(acc1, w, i) == act1(acc2, w, i) by {
        assert(relu(pre1(acc1, w, i)) == relu(pre1(acc2, w, i)));
    }
    if w.two_layers() {
        assert forall|j: int| 0 <= j < w.h2() as int implies #[trigger] act2(acc1, w, j) == act2(acc2, w, j) by {
            lemma_h2_from_act1(acc1, acc2, w, j, n1);
        }
        lemma_out2_from_act2(acc1, acc2, w, w.h2() as int);
    } else {
        lemma_out1_from_act1(acc1, acc2, w, n1);
    }
}

/// Floor division by 64, i.e. an arithmetic right shift by 6.
fn shr6(x: i32) -> (r: i32)
    ensures
        r == x as int / 64,
{
    if x >= 0 {
        x / 64
    } else {
        let n: i64 = -(x as i64);
        let q: i64 = (n + 63) / 64;
        assert(-q == x as int / 64) by (nonlinear_arith)
            requires
                n == -x,
                x < 0,
                q == (n + 63) / 64,
        ;
        assert(q <= 33554432) by (nonlinear_arith)
            requires
                q == (n + 63) / 64,
                0 < n <= 2147483648,
        ;
        (-q) as i32
    }
}

impl NNUEAccumulator {
    /// Forward pass: hidden 1 -> ReLU -> (hidden 2 -> ReLU) -> output,
    /// scaled to centipawns.
    pub fn evaluate(&self, weights: &NNUEWeights) -> (r: i32)
        requires
            weights.wf(),
            eval_fits(self.hidden_1@, *weights),
        ensures
            r == network_value(self.hidden_1@, *weights),
    {
        let acc = &self.hidden_1;
        let n1: usize = if acc.len() < weights.hidden_biases_1.len() {
            acc.len()
        } else {
            weights.hidden_biases_1.len()
        };
        let mut activated: Vec<i32> = Vec::with_capacity(n1);
        let mut i: usize = 0;
        while i < n1
            invariant
                n1 == active_width(acc@, *weights),
                n1 <= acc@.len(),
                n1 <= weights.h1(),
                i <= n1,
                activated@.len() == i,
                forall|k: int| 0 <= k < n1 ==> fits_i32(#[trigger] pre1(acc@, *weights, k)),
                forall|k: int| 0 <= k < i ==> #[trigger] activated@[k] == act1(acc@, *weights, k),
            decreases n1 - i,
        {
            assert(fits_i32(pre1(acc@, *weights, i as int)));
            let h = acc[i] + weights.hidden_biases_1[i];
            let a = if h > 0 {
                h
            } else {
                0
            };
            activated.push(a);
            i += 1;
        }
        match (&weights.input_weights_2, &weights.hidden_biases_2) {
            (Some(weights_2), Some(biases_2)) => {
                let n2 = biases_2.len();
                let mut h2_values = [0i32; 32];
                let mut i: usize = 0;
                while i < n1
                    invariant
                        weights.wf(),
                        weights.two_layers(),
                        weights.input_weights_2 == Some(*weights_2),
                        weights.hidden_biases_2 == Some(*biases_2),
                        eval_fits(acc@, *weights),
                        n1 == active_width(acc@, *weights),
                        n1 <= weights.h1(),
                        n2 == weights.h2(),
                        n2 <= 32,
                        i <= n1,
                        activated@.len() == n1,
                        forall|k: int| 0 <= k < n1 ==> #[trigger] activated@[k] == act1(acc@, *weights, k),
                        forall|j: int| 0 <= j < n2 ==> #[trigger] h2_values@[j] == h2_partial(acc@, *weights, j, i as int),
                    decreases n1 - i,
                {
                    let act = activated[i];
                    let row = &weights_2[i];
                    assert(row@.len() == n2);
                    let mut j: usize = 0;
                    while j < n2
                        invariant
                            weights.wf(),
                            weights.two_layers(),
                            weights.input_weights_2 == Some(*weights_2),
                            weights.hidden_biases_2 == Some(*biases_2),
                            eval_fits(acc@, *weights),
                            n1 == active_width(acc@, *weights),
                            n2 == weights.h2(),
                            n2 <= 32,
                            i < n1,
                            row == weights_2@[i as int],
                            row@.len() == n2,
                            act == act1(acc@, *weights, i as int),
                            j <= n2,
                            forall|k: int| 0 <= k < j ==> #[trigger] h2_values@[k] == h2_partial(acc@, *weights, k, i + 1),
                            forall|k: int| j <= k < n2 ==> #[trigger] h2_values@[k] == h2_partial(acc@, *weights, k, i as int),
                        decreases n2 - j,
                    {
                        let ghost jj = j as int;
                        assert(fits_i32(act1(acc@, *weights, i as int) * w2(*weights, i as int, jj)));
                        assert(fits_i32(h2_partial(acc@, *weights, jj, i + 1)));
                        let prod = act * row[j] as i32;
                        let add = shr6(prod);
                        h2_values[j] = h2_values[j] + add;
                        j += 1;
                    }
                    i += 1;
                }
                let mut output = weights.output_bias;
                let mut j: usize = 0;
                while j < n2
                    invariant
                        weights.wf(),
                        weights.two_layers(),
                        weights.input_weights_2 == Some(*weights_2),
                        weights.hidden_biases_2 == Some(*biases_2),
                        eval_fits(acc@, *weights),
                        n1 == active_width(acc@, *weights),
                        n2 == weights.h2(),
                        n2 <= 32,
                        j <= n2,
                        forall|k: int| 0 <= k < n2 ==> #[trigger] h2_values@[k] == h2_partial(acc@, *weights, k, n1 as int),
                        output == out2_partial(acc@, *weights, j as int),
                    decreases n2 - j,
                {
                    let ghost jj = j as int;
                    assert(fits_i32(pre2(acc@, *weights, jj)));
                    assert(fits_i32(act2(acc@, *weights, jj) * ow(*weights, jj)));
                    assert(fits_i32(out2_partial(acc@, *weights, jj + 1)));
                    let pre = h2_values[j] + biases_2[j];
                    let a2 = if pre > 0 {
                        pre
                    } else {
                        0
                    };
                    let prod = a2 * weights.output_weights[j] as i32;
                    output = output + shr6(prod);
                    j += 1;
                }
                assert(fits_i32(raw_output(acc@, *weights) * 400));
                let scaled = (output * SCALE_FACTOR) as i64;
                div_trunc_i32_result(scaled)
            },
            _ => {
                let mut output = weights.output_bias;
                let mut k: usize = 0;
                while k < n1
                    invariant
                        weights.wf(),
                        !weights.two_layers(),
                        eval_fits(acc@, *weights),
                        n1 == active_width(acc@, *weights),
                        n1 <= weights.h1(),
                        weights.output_weights@.len() == weights.h1(),
                        activated@.len() == n1,
                        forall|q: int| 0 <= q < n1 ==> #[trigger] activated@[q] == act1(acc@, *weights, q),
                        k <= n1,
                        output == out1_partial(acc@, *weights, k as int),
                    decreases n1 - k,
                {
                    let ghost kk = k as int;
                    assert(fits_i32(act1(acc@, *weights, kk) * ow(*weights, kk)));
                    assert(fits_i32(out1_partial(acc@, *weights, kk + 1)));
                    let prod = activated[k] * weights.output_weights[k] as i32;
                    output = output + shr6(prod);
                    k += 1;
                }
                assert(fits_i32(raw_output(acc@, *weights) * 400));
                let scaled = (output * SCALE_FACTOR) as i64;
                div_trunc_i32_result(scaled)
            },
        }
    }
}

/// `scaled / OUTPUT_DIVISOR`, rounding toward zero.
fn div_trunc_i32_result(scaled: i64) -> (r: i32)
    requires
        fits_i32(scaled as int),
    ensures
        r == trunc_div(scaled as int, 4080),
{
    let q = crate::types::div_trunc(scaled, 4080);
    q as i32
}

/// Contribution of one square's occupant in the king-conditioned layout;
/// rows beyond the weights contribute nothing.
pub open spec fn halfkp_term(w: NNUEWeights, king: int, occupant: Option<Piece>, sq: int, i: int) -> int {
    match occupant {
        Some(p) => {
            let f = halfkp_feature_of(king, p.player, p.piece_type, sq);
            if f < w.input_weights_1@.len() {
                w1(w, f, i)
            } else {
                0
            }
        },
        None => 0,
    }
}

pub open spec fn halfkp_sum(w: NNUEWeights, squares: Seq<Option<Piece>>, king: int, i: int, n: int) -> int
    decreases n,
{
    if n <= 0 {
        0
    } else {
        halfkp_sum(w, squares, king, i, n - 1) + halfkp_term(w, king, squares[n - 1], n - 1, i)
    }
}

/// Hidden-1 neuron `i` of a king-conditioned refresh: zero when the side to
/// move has no king, else the sum over pieces plus the optional
/// side-to-move row.
pub open spec fn halfkp_refreshed(w: NNUEWeights, b: Board, stm: Player, with_stm: bool, i: int) -> int {
    match first_king_from(b, stm, 0) {
        None => 0,
        Some(k) => halfkp_sum(w, b.squares@, k, i, 81) + if with_stm {
            stm_term(w, stm, 183708, i)
        } else {
            0
        },
    }
}

pub proof fn lemma_halfkp_sum_bound(w: NNUEWeights, squares: Seq<Option<Piece>>, king: int, i: int, n: int)
    requires
        w.wf(),
        0 <= i < w.h1(),
        0 <= n <= 81,
        squares.len() == 81,
    ensures
        -n * i16_bound() <= halfkp_sum(w, squares, king, i, n) <= n * i16_bound(),
    decreases n,
{
    if n > 0 {
        lemma_halfkp_sum_bound(w, squares, king, i, n - 1);
        match squares[n - 1] {
            Some(p) => {
                let f = halfkp_feature_of(king, p.player, p.piece_type, n - 1);
                if 0 <= f < w.input_weights_1@.len() {
                    assert(w.input_weights_1@[f]@.len() == w.h1());
                }
            },
            None => {},
        }
    }
}

/// Sizes of the three row contributions of a move, none overflowing when
/// applied in turn: source row removed, captured row removed, destination
/// row added.
pub open spec fn move_term(w: NNUEWeights, p: Option<Piece>, sq: Option<Position>, i: int) -> int {
    match (p, sq) {
        (Some(pc), Some(s)) => w1(w, feature_of(pc.player, pc.piece_type, s.index()), i),
        _ => 0,
    }
}

pub open spec fn move_fits(
    hidden: Seq<i32>,
    w: NNUEWeights,
    from: Option<Position>,
    to: Position,
    removed: Piece,
    captured: Option<Piece>,
    placed: Piece,
) -> bool {
    forall|i: int|
        0 <= i < w.h1() ==> {
            let a = move_term(w, Some(removed), from, i);
            let b = move_term(w, captured, Some(to), i);
            let c = move_term(w, Some(placed), Some(to), i);
            &&& fits_i32(#[trigger] hidden[i] - a)
            &&& fits_i32(hidden[i] - a - b)
            &&& fits_i32(hidden[i] - a - b + c)
        }
}

/// Hidden-1 neuron `i` after a move's rows have been applied.
pub open spec fn move_applied(
    hidden: Seq<i32>,
    w: NNUEWeights,
    from: Option<Position>,
    to: Position,
    removed: Piece,
    captured: Option<Piece>,
    placed: Piece,
    i: int,
) -> int {
    if i < w.h1() {
        hidden[i] - move_term(w, Some(removed), from, i) - move_term(w, captured, Some(to), i)
            + move_term(w, Some(placed), Some(to), i)
    } else {
        hidden[i] as int
    }
}

impl NNUEAccumulator {
    /// Full refresh that also activates the side-to-move row (index
    /// `STM_FEATURE_INDEX`) when Black is to move and the weights have it.
    pub fn refresh_with_stm(&mut self, board: &Board, stm: Player, weights: &NNUEWeights)
        requires
            weights.wf(),
            rows_cover_board(*weights, board.squares@),
            old(self).hidden_1@.len() >= weights.h1(),
        ensures
            final(self).hidden_1@.len() == old(self).hidden_1@.len(),
            forall|i: int|
                0 <= i < final(self).hidden_1@.len() ==> #[trigger] final(self).hidden_1@[i]
                    == refreshed_entry(*weights, board.squares@, stm, true, i),
            zeroed_second(old(self).hidden_2, final(self).hidden_2),
    {
        self.refresh(board, weights);
        if stm == Player::Black && STM_FEATURE_INDEX < weights.input_weights_1.len() {
            let row = &weights.input_weights_1[STM_FEATURE_INDEX];
            assert(row@.len() == weights.h1());
            assert forall|i: int| 0 <= i < row@.len() implies i32::MIN <= self.hidden_1@[i]
                + #[trigger] row@[i] <= i32::MAX by {
                lemma_board_sum_bound(*weights, board.squares@, i, 81);
            }
            add_row(&mut self.hidden_1, row);
        }
    }

    /// King-conditioned refresh: each piece adds the row
    /// `feature_index_halfkp(own king square, ...)` when the weights have it,
    /// plus, with `with_stm`, the side-to-move row for Black to move. Without
    /// a king of the side to move, hidden layer 1 is left all zero.
    pub fn refresh_halfkp(&mut self, board: &Board, stm: Player, weights: &NNUEWeights, with_stm: bool)
        requires
            weights.wf(),
            old(self).hidden_1@.len() >= weights.h1(),
        ensures
            final(self).hidden_1@.len() == old(self).hidden_1@.len(),
            forall|i: int|
                0 <= i < final(self).hidden_1@.len() ==> #[trigger] final(self).hidden_1@[i] == (
                if i < weights.h1() {
                    halfkp_refreshed(*weights, *board, stm, with_stm, i)
                } else {
                    0
                }),
            zeroed_second(old(self).hidden_2, final(self).hidden_2),
    {
        zero_fill(&mut self.hidden_1);
        match &mut self.hidden_2 {
            Some(h2) => zero_fill(h2),
            None => {},
        }
        let own_king_sq = match find_king_square(board, stm) {
            Some(sq) => sq,
            None => {
                return ;
            },
        };
        let ghost king = own_king_sq as int;
        let mut s: usize = 0;
        while s < 81
            invariant
                s <= 81,
                weights.wf(),
                own_king_sq < 81,
                king == own_king_sq,
                zeroed_second(old(self).hidden_2, self.hidden_2),
                self.hidden_1@.len() == old(self).hidden_1@.len(),
                self.hidden_1@.len() >= weights.h1(),
                forall|i: int|
                    0 <= i < self.hidden_1@.len() ==> #[trigger] self.hidden_1@[i] == (if i
                        < weights.h1() {
                        halfkp_sum(*weights, board.squares@, king, i, s as int)
                    } else {
                        0
                    }),
            decreases 81 - s,
        {
            match board.piece_at_index(s) {
                Some(p) => {
                    let feat = feature_index_halfkp(own_king_sq, p.player, p.piece_type, s as u8);
                    if feat < weights.input_weights_1.len() {
                        let row = &weights.input_weights_1[feat];
                        assert(row@.len() == weights.h1());
                        assert forall|i: int| 0 <= i < row@.len() implies i32::MIN
                            <= self.hidden_1@[i] + #[trigger] row@[i] <= i32::MAX by {
                            lemma_halfkp_sum_bound(*weights, board.squares@, king, i, s as int);
                        }
                        add_row(&mut self.hidden_1, row);
                    }
                },
                None => {},
            }
            s += 1;
        }
        if with_stm && stm == Player::Black && STM_FEATURE_INDEX_HALFKP < weights.input_weights_1.len() {
            let row = &weights.input_weights_1[STM_FEATURE_INDEX_HALFKP];
            assert(row@.len() == weights.h1());
            assert forall|i: int| 0 <= i < row@.len() implies i32::MIN <= self.hidden_1@[i]
                + #[trigger] row@[i] <= i32::MAX by {
                lemma_halfkp_sum_bound(*weights, board.squares@, king, i, 81);
            }
            add_row(&mut self.hidden_1, row);
        }
    }

    /// Applies a move: removes `removed` from `from` (absent for a drop),
    /// removes the captured piece from `to`, then adds `placed` on `to`.
    fn apply_move_rows(
        &mut self,
        from: Option<Position>,
        to: Position,
        removed: Piece,
        captured: Option<Piece>,
        placed: Piece,
        weights: &NNUEWeights,
    )
        requires
            weights.wf(),
            move_rows_present(*weights, from, to, removed, captured, placed),
            old(self).hidden_1@.len() >= weights.h1(),
            to.valid(),
            from.is_some() ==> from.unwrap().valid(),
            move_fits(old(self).hidden_1@, *weights, from, to, removed, captured, placed),
        ensures
            final(self).hidden_2 == old(self).hidden_2,
            final(self).hidden_1@.len() == old(self).hidden_1@.len(),
            forall|i: int|
                0 <= i < final(self).hidden_1@.len() ==> #[trigger] final(self).hidden_1@[i]
                    == move_applied(old(self).hidden_1@, *weights, from, to, removed, captured, placed, i),
    {
        let ghost h0 = self.hidden_1@;
        if let Some(from_sq) = from {
            let ghost f = feature_of(removed.player, removed.piece_type, from_sq.index());
            assert(weights.input_weights_1@[f]@.len() == weights.h1());
            assert forall|i: int| 0 <= i < weights.input_weights_1@[f]@.len() implies i32::MIN
                <= #[trigger] self.hidden_1@[i] - w1(*weights, f, i) <= i32::MAX by {
                assert(fits_i32(h0[i] - move_term(*weights, Some(removed), from, i)));
            }
            self.remove_piece(removed, from_sq, weights);
        }
        let ghost h1 = self.hidden_1@;
        assert(forall|i: int| 0 <= i < weights.h1() ==> #[trigger] h1[i] == h0[i] - move_term(*weights, Some(removed), from, i));
        if let Some(cap) = captured {
            let ghost f = feature_of(cap.player, cap.piece_type, to.index());
            assert(weights.input_weights_1@[f]@.len() == weights.h1());
            assert forall|i: int| 0 <= i < weights.input_weights_1@[f]@.len() implies i32::MIN
                <= #[trigger] self.hidden_1@[i] - w1(*weights, f, i) <= i32::MAX by {
                assert(fits_i32(h0[i] - move_term(*weights, Some(removed), from, i) - move_term(*weights, captured, Some(to), i)));
            }
            self.remove_piece(cap, to, weights);
        }
        let ghost h2 = self.hidden_1@;
        assert(forall|i: int| 0 <= i < weights.h1() ==> #[trigger] h2[i] == h0[i] - move_term(*weights, Some(removed), from, i) - move_term(*weights, captured, Some(to), i));
        let ghost f = feature_of(placed.player, placed.piece_type, to.index());
        assert(weights.input_weights_1@[f]@.len() == weights.h1());
        assert forall|i: int| 0 <= i < weights.input_weights_1@[f]@.len() implies i32::MIN
            <= #[trigger] self.hidden_1@[i] + w1(*weights, f, i) <= i32::MAX by {
            assert(fits_i32(h0[i] - move_term(*weights, Some(removed), from, i) - move_term(*weights, captured, Some(to), i) + move_term(*weights, Some(placed), Some(to), i)));
        }
        self.add_piece(placed, to, weights);
    }

    /// Incremental update for a move of `moved_piece` from `from` (absent for
    /// a drop) to `to`, capturing `captured_piece` if any.
    pub fn update_move(
        &mut self,
        from: Option<Position>,
        to: Position,
        moved_piece: Piece,
        captured_piece: Option<Piece>,
        weights: &NNUEWeights,
    )
        requires
            weights.wf(),
            move_rows_present(*weights, from, to, moved_piece, captured_piece, moved_piece),
            old(self).hidden_1@.len() >= weights.h1(),
            to.valid(),
            from.is_some() ==> from.unwrap().valid(),
            move_fits(old(self).hidden_1@, *weights, from, to, moved_piece, captured_piece, moved_piece),
        ensures
            final(self).hidden_2 == old(self).hidden_2,
            final(self).hidden_1@.len() == old(self).hidden_1@.len(),
            forall|i: int|
                0 <= i < final(self).hidden_1@.len() ==> #[trigger] final(self).hidden_1@[i]
                    == move_applied(old(self).hidden_1@, *weights, from, to, moved_piece, captured_piece, moved_piece, i),
    {
        self.apply_move_rows(from, to, moved_piece, captured_piece, moved_piece, weights);
    }
}

/// Changing the source, capture and destination squares of a move changes
/// the piece sum by exactly the three row contributions of the move.
pub proof fn lemma_move_board_sum(
    w: NNUEWeights,
    before: Seq<Option<Piece>>,
    from: Option<Position>,
    to: Position,
    removed: Piece,
    captured: Option<Piece>,
    placed: Piece,
    i: int,
)
    requires
        before.len() == 81,
        to.valid(),
        from.is_some() ==> from.unwrap().valid() && from.unwrap() != to,
        from.is_some() ==> before[from.unwrap().index()] == Some(removed),
        before[to.index()] == captured,
    ensures
        board_sum(w, moved_squares(before, from, to, placed), i, 81) == board_sum(w, before, i, 81)
            - move_term(w, Some(removed), from, i) - move_term(w, captured, Some(to), i)
            + move_term(w, Some(placed), Some(to), i),
{
    match from {
        Some(fr) => {
            let mid = before.update(fr.index(), None);
            lemma_board_sum_update(w, before, fr.index(), None, i, 81);
            lemma_board_sum_update(w, mid, to.index(), Some(placed), i, 81);
            assert(fr.index() != to.index());
        },
        None => {
            lemma_board_sum_update(w, before, to.index(), Some(placed), i, 81);
            match captured {
                Some(c) => {},
                None => {},
            }
        },
    }
}

/// Board squares after a move: the source cleared (for a board move) and
/// the destination holding the placed piece.
pub open spec fn moved_squares(
    before: Seq<Option<Piece>>,
    from: Option<Position>,
    to: Position,
    placed: Piece,
) -> Seq<Option<Piece>> {
    let cleared = match from {
        Some(fr) => before.update(fr.index(), None),
        None => before,
    };
    cleared.update(to.index(), Some(placed))
}

/// Incremental update agrees with a full refresh: if hidden layer 1 holds
/// the piece sum of a board, applying a move's rows yields the piece sum of
/// the board after the move.
pub proof fn law_incremental_matches_refresh(
    w: NNUEWeights,
    hidden: Seq<i32>,
    before: Seq<Option<Piece>>,
    from: Option<Position>,
    to: Position,
    removed: Piece,
    captured: Option<Piece>,
    placed: Piece,
)
    requires
        before.len() == 81,
        hidden.len() >= w.h1(),
        to.valid(),
        from.is_some() ==> from.unwrap().valid() && from.unwrap() != to,
        from.is_some() ==> before[from.unwrap().index()] == Some(removed),
        before[to.index()] == captured,
        forall|i: int| 0 <= i < w.h1() ==> #[trigger] hidden[i] == board_sum(w, before, i, 81),
    ensures
        forall|i: int|
            0 <= i < w.h1() ==> #[trigger] move_applied(hidden, w, from, to, removed, captured, placed, i)
                == board_sum(w, moved_squares(before, from, to, placed), i, 81),
{
    assert forall|i: int| 0 <= i < w.h1() implies #[trigger] move_applied(hidden, w, from, to, removed, captured, placed, i)
        == board_sum(w, moved_squares(before, from, to, placed), i, 81) by {
        lemma_move_board_sum(w, before, from, to, removed, captured, placed, i);
    }
}

/// A copy of the vector's contents.
fn copy_vec(v: &Vec<i32>) -> (r: Vec<i32>)
    ensures
        r@ == v@,
{
    let mut out: Vec<i32> = Vec::with_capacity(v.len());
    let mut i: usize = 0;
    while i < v.len()
        invariant
            i <= v@.len(),
            out@ == v@.subrange(0, i as int),
        decreases v@.len() - i,
    {
        out.push(v[i]);
        i += 1;
    }
    assert(out@ == v@.subrange(0, v@.len() as int));
    out
}

fn sample_i16_row<W: Fn() -> i16>(n: usize, sample: &W) -> (r: Vec<i16>)
    requires
        sample.requires(()),
    ensures
        r@.len() == n,
        forall|k: int| 0 <= k < n ==> sample.ensures((), #[trigger] r@[k]),
{
    let mut v: Vec<i16> = Vec::with_capacity(n);
    let mut i: usize = 0;
    while i < n
        invariant
            sample.requires(()),
            i <= n,
            v@.len() == i,
            forall|k: int| 0 <= k < i ==> sample.ensures((), #[trigger] v@[k]),
        decreases n - i,
    {
        let x = sample();
        v.push(x);
        i += 1;
    }
    v
}

fn sample_i32_row<B: Fn() -> i32>(n: usize, sample: &B) -> (r: Vec<i32>)
    requires
        sample.requires(()),
    ensures
        r@.len() == n,
        forall|k: int| 0 <= k < n ==> sample.ensures((), #[trigger] r@[k]),
{
    let mut v: Vec<i32> = Vec::with_capacity(n);
    let mut i: usize = 0;
    while i < n
        invariant
            sample.requires(()),
            i <= n,
            v@.len() == i,
            forall|k: int| 0 <= k < i ==> sample.ensures((), #[trigger] v@[k]),
        decreases n - i,
    {
        let x = sample();
        v.push(x);
        i += 1;
    }
    v
}

fn sample_matrix<W: Fn() -> i16>(rows: usize, cols: usize, sample: &W) -> (r: Vec<Vec<i16>>)
    requires
        sample.requires(()),
    ensures
        r@.len() == rows,
        forall|f: int| 0 <= f < rows ==> (#[trigger] r@[f])@.len() == cols,
        forall|f: int, k: int| 0 <= f < rows && 0 <= k < cols ==> sample.ensures((), #[trigger] r@[f]@[k]),
{
    let mut m: Vec<Vec<i16>> = Vec::with_capacity(rows);
    let mut i: usize = 0;
    while i < rows
        invariant
            sample.requires(()),
            i <= rows,
            m@.len() == i,
            forall|f: int| 0 <= f < i ==> (#[trigger] m@[f])@.len() == cols,
            forall|f: int, k: int| 0 <= f < i && 0 <= k < cols ==> sample.ensures((), #[trigger] m@[f]@[k]),
        decreases rows - i,
    {
        let row = sample_i16_row(cols, sample);
        m.push(row);
        i += 1;
    }
    m
}

impl NNUEWeights {
    /// Fresh weights with `num_features` input rows. Every weight is drawn
    /// from `sample_weight` and every bias from `sample_bias`; the second
    /// hidden layer exists exactly when `hidden_size_2 > 0`.
    pub fn new_with_features<W: Fn() -> i16, B: Fn() -> i32>(
        num_features: usize,
        hidden_size_1: usize,
        hidden_size_2: usize,
        sample_weight: W,
        sample_bias: B,
    ) -> (r: Self)
        requires
            sample_weight.requires(()),
            sample_bias.requires(()),
        ensures
            r.input_weights_1@.len() == num_features,
            r.h1() == hidden_size_1,
            r.h2() == hidden_size_2,
            r.two_layers() == (hidden_size_2 > 0),
            hidden_size_2 <= 32 ==> r.wf(),
            forall|f: int, k: int|
                0 <= f < num_features && 0 <= k < hidden_size_1 ==> sample_weight.ensures((), #[trigger] r.input_weights_1@[f]@[k]),
            forall|k: int| 0 <= k < hidden_size_1 ==> sample_bias.ensures((), #[trigger] r.hidden_biases_1@[k]),
            forall|k: int| 0 <= k < r.output_weights@.len() ==> sample_weight.ensures((), #[trigger] r.output_weights@[k]),
            sample_bias.ensures((), r.output_bias),
            r.input_weights_1@.len() == num_features && forall|f: int|
                0 <= f < num_features ==> (#[trigger] r.input_weights_1@[f])@.len() == hidden_size_1,
            r.output_weights@.len() == (if hidden_size_2 > 0 { hidden_size_2 } else { hidden_size_1 }),
    {
        let input_weights_1 = sample_matrix(num_features, hidden_size_1, &sample_weight);
        let hidden_biases_1 = sample_i32_row(hidden_size_1, &sample_bias);
        let (input_weights_2, hidden_biases_2, output_weights) = if hidden_size_2 > 0 {
            let weights_2 = sample_matrix(hidden_size_1, hidden_size_2, &sample_weight);
            let biases_2 = sample_i32_row(hidden_size_2, &sample_bias);
            let output = sample_i16_row(hidden_size_2, &sample_weight);
            (Some(weights_2), Some(biases_2), output)
        } else {
            let output = sample_i16_row(hidden_size_1, &sample_weight);
            (None, None, output)
        };
        let output_bias = sample_bias();
        Self {
            input_weights_1,
            hidden_biases_1,
            input_weights_2,
            hidden_biases_2,
            output_weights,
            output_bias,
        }
    }

    /// Fresh weights with the flat feature set plus the side-to-move row.
    pub fn new<W: Fn() -> i16, B: Fn() -> i32>(
        hidden_size_1: usize,
        hidden_size_2: usize,
        sample_weight: W,
        sample_bias: B,
    ) -> (r: Self)
        requires
            sample_weight.requires(()),
            sample_bias.requires(()),
        ensures
            r.input_weights_1@.len() == NUM_NNUE_FEATURES_TOTAL,
            r.h1() == hidden_size_1,
            r.h2() == hidden_size_2,
            r.two_layers() == (hidden_size_2 > 0),
            hidden_size_2 <= 32 ==> r.wf(),
            r.output_weights@.len() == (if hidden_size_2 > 0 { hidden_size_2 } else { hidden_size_1 }),
            forall|f: int, k: int|
                0 <= f < NUM_NNUE_FEATURES_TOTAL && 0 <= k < hidden_size_1 ==> sample_weight.ensures((), #[trigger] r.input_weights_1@[f]@[k]),
    {
        Self::new_with_features(NUM_NNUE_FEATURES_TOTAL, hidden_size_1, hidden_size_2, sample_weight, sample_bias)
    }

    /// Fresh weights with the king-conditioned feature set plus the
    /// side-to-move row.
    pub fn new_halfkp<W: Fn() -> i16, B: Fn() -> i32>(
        hidden_size_1: usize,
        hidden_size_2: usize,
        sample_weight: W,
        sample_bias: B,
    ) -> (r: Self)
        requires
            sample_weight.requires(()),
            sample_bias.requires(()),
        ensures
            r.input_weights_1@.len() == NUM_NNUE_FEATURES_HALFKP_TOTAL,
            r.h1() == hidden_size_1,
            r.h2() == hidden_size_2,
            r.two_layers() == (hidden_size_2 > 0),
            hidden_size_2 <= 32 ==> r.wf(),
            r.output_weights@.len() == (if hidden_size_2 > 0 { hidden_size_2 } else { hidden_size_1 }),
            forall|f: int, k: int|
                0 <= f < NUM_NNUE_FEATURES_HALFKP_TOTAL && 0 <= k < hidden_size_1 ==> sample_weight.ensures((), #[trigger] r.input_weights_1@[f]@[k]),
    {
        Self::new_with_features(NUM_NNUE_FEATURES_HALFKP_TOTAL, hidden_size_1, hidden_size_2, sample_weight, sample_bias)
    }
}

/// Input rows as stored in a weight file: files written before the
/// side-to-move feature existed hold exactly the piece-square rows and get a
/// zero row appended (as wide as their first row, or the default width when
/// there is none); other files are kept as they are.
pub open spec fn upgraded_rows(rows: Seq<Vec<i16>>) -> Seq<Seq<i16>> {
    let views = rows.map_values(|r: Vec<i16>| r@);
    if rows.len() == NUM_NNUE_FEATURES {
        let width = if rows.len() > 0 { rows[0]@.len() } else { DEFAULT_HIDDEN_SIZE_1 as nat };
        views.push(Seq::new(width, |i: int| 0i16))
    } else {
        views
    }
}

impl NNUEWeights {
    /// Weights from the parts of a weight file, upgrading legacy input rows
    /// as [`upgraded_rows`] describes.
    pub fn from_file_parts(
        input_weights_1: Vec<Vec<i16>>,
        hidden_biases_1: Vec<i32>,
        input_weights_2: Option<Vec<Vec<i16>>>,
        hidden_biases_2: Option<Vec<i32>>,
        output_weights: Vec<i16>,
        output_bias: i32,
    ) -> (r: Self)
        ensures
            r.input_weights_1@.map_values(|row: Vec<i16>| row@) == upgraded_rows(input_weights_1@),
            r.hidden_biases_1 == hidden_biases_1,
            r.input_weights_2 == input_weights_2,
            r.hidden_biases_2 == hidden_biases_2,
            r.output_weights == output_weights,
            r.output_bias == output_bias,
    {
        let ghost given = input_weights_1@;
        let mut rows = input_weights_1;
        if rows.len() == NUM_NNUE_FEATURES {
            let width = if rows.len() > 0 { rows[0].len() } else { DEFAULT_HIDDEN_SIZE_1 };
            let mut zero_row: Vec<i16> = Vec::new();
            let mut k: usize = 0;
            while k < width
                invariant
                    k <= width,
                    zero_row@ == Seq::new(k as nat, |i: int| 0i16),
                decreases width - k,
            {
                zero_row.push(0);
                k += 1;
                assert(zero_row@ =~= Seq::new(k as nat, |i: int| 0i16));
            }
            rows.push(zero_row);
            assert(rows@.map_values(|row: Vec<i16>| row@) =~= upgraded_rows(given));
        } else {
            assert(rows@.map_values(|row: Vec<i16>| row@) =~= upgraded_rows(given));
        }
        NNUEWeights { input_weights_1: rows, hidden_biases_1, input_weights_2, hidden_biases_2, output_weights, output_bias }
    }
}

/// The refreshed first hidden layer as a sequence of width `h1`.
pub open spec fn refreshed_seq(w: NNUEWeights, squares: Seq<Option<Piece>>, stm: Player, with_stm: bool) -> Seq<i32> {
    Seq::new(w.h1(), |i: int| refreshed(w, squares, stm, with_stm, i) as i32)
}

/// Evaluator keeping the accumulator in step with make/unmake during a
/// search, with a stack of earlier hidden-layer-1 states.
pub struct NNUEEvaluator {
    weights: NNUEWeights,
    accumulator: NNUEAccumulator,
    accumulator_stack: Vec<Vec<i32>>,
    enabled: bool,
    needs_refresh: bool,
    use_stm_feature: bool,
}

impl NNUEEvaluator {
    pub closed spec fn weights_view(&self) -> NNUEWeights {
        self.weights
    }

    /// Current hidden layer 1.
    pub closed spec fn hidden(&self) -> Seq<i32> {
        self.accumulator.hidden_1@
    }

    /// Saved hidden-layer-1 states, oldest first.
    pub closed spec fn stack(&self) -> Seq<Seq<i32>> {
        self.accumulator_stack@.map_values(|v: Vec<i32>| v@)
    }

    pub closed spec fn enabled_flag(&self) -> bool {
        self.enabled
    }

    pub closed spec fn refresh_pending(&self) -> bool {
        self.needs_refresh
    }

    pub closed spec fn stm_on(&self) -> bool {
        self.use_stm_feature
    }

    /// Shapes agree: weights well formed with every flat feature row, the
    /// accumulator as wide as the first hidden layer.
    pub closed spec fn wf(&self) -> bool {
        &&& self.weights.wf()
        &&& rows_cover_flat(self.weights)
        &&& self.accumulator.hidden_1@.len() == self.weights.h1()
        &&& forall|k: int| 0 <= k < self.accumulator_stack@.len() ==> (#[trigger] self.accumulator_stack@[k])@.len() == self.weights.h1()
    }

    /// An evaluator for the given weights: enabled, refresh pending, empty
    /// stack, side-to-move feature off.
    pub fn from_weights(weights: NNUEWeights) -> (r: Self)
        ensures
            r.weights_view() == weights,
            r.hidden().len() == weights.h1(),
            forall|i: int| 0 <= i < weights.h1() ==> #[trigger] r.hidden()[i] == 0,
            r.stack().len() == 0,
            r.enabled_flag(),
            r.refresh_pending(),
            !r.stm_on(),
            weights.wf() && rows_cover_flat(weights) ==> r.wf(),
    {
        let (size_1, size_2) = weights.hidden_sizes();
        let accumulator = NNUEAccumulator::new(size_1, size_2);
        let r = Self {
            weights,
            accumulator,
            accumulator_stack: Vec::with_capacity(128),
            enabled: true,
            needs_refresh: true,
            use_stm_feature: false,
        };
        assert(r.stack() =~= Seq::<Seq<i32>>::empty());
        r
    }

    /// An evaluator over freshly sampled weights (see `NNUEWeights::new`).
    pub fn new<W: Fn() -> i16, B: Fn() -> i32>(
        hidden_size_1: usize,
        hidden_size_2: usize,
        sample_weight: W,
        sample_bias: B,
    ) -> (r: Self)
        requires
            sample_weight.requires(()),
            sample_bias.requires(()),
        ensures
            r.weights_view().h1() == hidden_size_1,
            r.weights_view().h2() == hidden_size_2,
            r.weights_view().input_weights_1@.len() == NUM_NNUE_FEATURES_TOTAL,
            r.hidden().len() == hidden_size_1,
            r.stack().len() == 0,
            r.enabled_flag(),
            r.refresh_pending(),
            !r.stm_on(),
            hidden_size_2 <= 32 ==> r.wf(),
    {
        let weights = NNUEWeights::new(hidden_size_1, hidden_size_2, sample_weight, sample_bias);
        Self::from_weights(weights)
    }

    /// Turns the side-to-move feature on or off; forces a refresh and drops
    /// the saved states.
    pub fn set_use_stm_feature(&mut self, on: bool)
        ensures
            final(self).stm_on() == on,
            final(self).refresh_pending(),
            final(self).stack().len() == 0,
            final(self).weights_view() == old(self).weights_view(),
            final(self).hidden() == old(self).hidden(),
            final(self).enabled_flag() == old(self).enabled_flag(),
            old(self).wf() ==> final(self).wf(),
    {
        self.use_stm_feature = on;
        self.needs_refresh = true;
        self.accumulator_stack.clear();
        assert(self.stack() =~= Seq::<Seq<i32>>::empty());
    }

    /// Whether the side-to-move feature is on.
    pub fn use_stm_feature(&self) -> (r: bool)
        ensures
            r == self.stm_on(),
    {
        self.use_stm_feature
    }

    /// Full refresh of the accumulator followed by the forward pass; 0 when
    /// disabled. With the side-to-move feature on, `player` is taken as the
    /// side to move.
    pub fn evaluate(&mut self, board: &Board, player: Player, _captured_pieces: &crate::types::CapturedPieces) -> (r: i32)
        requires
            old(self).wf(),
            old(self).enabled_flag() ==> eval_fits(
                refreshed_seq(old(self).weights_view(), board.squares@, player, old(self).stm_on()),
                old(self).weights_view(),
            ),
        ensures
            final(self).wf(),
            final(self).weights_view() == old(self).weights_view(),
            final(self).stack() == old(self).stack(),
            final(self).stm_on() == old(self).stm_on(),
            final(self).enabled_flag() == old(self).enabled_flag(),
            !old(self).enabled_flag() ==> r == 0 && final(self).hidden() == old(self).hidden()
                && final(self).refresh_pending() == old(self).refresh_pending(),
            old(self).enabled_flag() ==> {
                &&& final(self).hidden() == refreshed_seq(old(self).weights_view(), board.squares@, player, old(self).stm_on())
                &&& !final(self).refresh_pending()
                &&& r == network_value(final(self).hidden(), old(self).weights_view())
            },
    {
        if !self.enabled {
            return 0;
        }
        if self.use_stm_feature {
            self.accumulator.refresh_with_stm(board, player, &self.weights);
        } else {
            self.accumulator.refresh(board, &self.weights);
        }
        proof {
            self.lemma_hidden_is_refreshed(board.squares@, player);
        }
        self.needs_refresh = false;
        self.accumulator.evaluate(&self.weights)
    }

    proof fn lemma_hidden_is_refreshed(&self, squares: Seq<Option<Piece>>, player: Player)
        requires
            self.weights.wf(),
            rows_cover_flat(self.weights),
            squares.len() == 81,
            self.accumulator.hidden_1@.len() == self.weights.h1(),
            forall|i: int|
                0 <= i < self.accumulator.hidden_1@.len() ==> #[trigger] self.accumulator.hidden_1@[i]
                    == refreshed_entry(self.weights, squares, player, self.use_stm_feature, i),
        ensures
            self.accumulator.hidden_1@ == refreshed_seq(self.weights, squares, player, self.use_stm_feature),
    {
        assert forall|i: int| 0 <= i < self.weights.h1() implies #[trigger] self.accumulator.hidden_1@[i]
            == refreshed_seq(self.weights, squares, player, self.use_stm_feature)[i] by {
            lemma_board_sum_bound(self.weights, squares, i, 81);
            if self.use_stm_feature && player == Player::Black && 2268 < self.weights.input_weights_1@.len() {
                assert(self.weights.input_weights_1@[2268]@.len() == self.weights.h1());
            }
        }
        assert(self.accumulator.hidden_1@ =~= refreshed_seq(self.weights, squares, player, self.use_stm_feature));
    }

    /// Forward pass over the current accumulator; refreshes first (without
    /// the side-to-move row) when a refresh is pending. 0 when disabled.
    pub fn evaluate_incremental(&mut self, board: &Board) -> (r: i32)
        requires
            old(self).wf(),
            old(self).enabled_flag() && old(self).refresh_pending() ==> eval_fits(
                refreshed_seq(old(self).weights_view(), board.squares@, Player::Black, false),
                old(self).weights_view(),
            ),
            old(self).enabled_flag() && !old(self).refresh_pending() ==> eval_fits(
                old(self).hidden(),
                old(self).weights_view(),
            ),
        ensures
            final(self).wf(),
            final(self).weights_view() == old(self).weights_view(),
            final(self).stack() == old(self).stack(),
            final(self).stm_on() == old(self).stm_on(),
            final(self).enabled_flag() == old(self).enabled_flag(),
            !old(self).enabled_flag() ==> r == 0 && final(self).hidden() == old(self).hidden()
                && final(self).refresh_pending() == old(self).refresh_pending(),
            old(self).enabled_flag() ==> {
                &&& final(self).hidden() == (if old(self).refresh_pending() {
                    refreshed_seq(old(self).weights_view(), board.squares@, Player::Black, false)
                } else {
                    old(self).hidden()
                })
                &&& !final(self).refresh_pending()
                &&& r == network_value(final(self).hidden(), old(self).weights_view())
            },
    {
        if !self.enabled {
            return 0;
        }
        if self.needs_refresh {
            self.accumulator.refresh(board, &self.weights);
            proof {
                let stm = self.use_stm_feature;
                assert forall|i: int| 0 <= i < self.weights.h1() implies #[trigger] self.accumulator.hidden_1@[i]
                    == refreshed_seq(self.weights, board.squares@, Player::Black, false)[i] by {
                    lemma_board_sum_bound(self.weights, board.squares@, i, 81);
                }
                assert(self.accumulator.hidden_1@ =~= refreshed_seq(self.weights, board.squares@, Player::Black, false));
            }
            self.needs_refresh = false;
        }
        self.accumulator.evaluate(&self.weights)
    }
}

/// Full evaluation and a fresh accumulator agree: an accumulator of the
/// weights' width refreshed from the board (with the side-to-move row for
/// `player` when that feature is on, without it otherwise) holds exactly the
/// hidden layer that the evaluator's full evaluation builds, so its forward
/// pass gives the evaluator's value.
pub proof fn law_evaluate_matches_fresh_accumulator(
    w: NNUEWeights,
    squares: Seq<Option<Piece>>,
    player: Player,
    use_stm: bool,
    hidden: Seq<i32>,
)
    requires
        w.wf(),
        rows_cover_board(w, squares),
        squares.len() == 81,
        hidden.len() == w.h1(),
        forall|i: int|
            0 <= i < hidden.len() ==> #[trigger] hidden[i] == (if use_stm {
                refreshed_entry(w, squares, player, true, i)
            } else {
                refreshed_entry(w, squares, Player::Black, false, i)
            }),
    ensures
        hidden == refreshed_seq(w, squares, player, use_stm),
        network_value(hidden, w) == network_value(refreshed_seq(w, squares, player, use_stm), w),
{
    assert forall|i: int| 0 <= i < w.h1() implies #[trigger] hidden[i] == refreshed_seq(w, squares, player, use_stm)[i] by {
        lemma_board_sum_bound(w, squares, i, 81);
        if use_stm && player == Player::Black && 2268 < w.input_weights_1@.len() {
            assert(w.input_weights_1@[2268]@.len() == w.h1());
        }
    }
    assert(hidden =~= refreshed_seq(w, squares, player, use_stm));
}

/// Change of hidden neuron `i` when the side to move flips after a move by
/// `mover`: the side-to-move row leaves when Black has moved and enters when
/// White has moved.
pub open spec fn stm_toggle(w: NNUEWeights, mover: Player, i: int) -> int {
    if 2268 < w.input_weights_1@.len() {
        if mover == Player::Black {
            -w1(w, 2268, i)
        } else {
            w1(w, 2268, i)
        }
    } else {
        0
    }
}

/// Hidden neuron `i` after an incremental make-move.
pub open spec fn made_entry(
    hidden: Seq<i32>,
    w: NNUEWeights,
    from: Option<Position>,
    to: Position,
    original: Piece,
    captured: Option<Piece>,
    placed: Piece,
    stm_on: bool,
    i: int,
) -> int {
    move_applied(hidden, w, from, to, original, captured, placed, i) + if stm_on && i < w.h1() {
        stm_toggle(w, original.player, i)
    } else {
        0
    }
}

pub open spec fn make_fits(
    hidden: Seq<i32>,
    w: NNUEWeights,
    from: Option<Position>,
    to: Position,
    original: Piece,
    captured: Option<Piece>,
    placed: Piece,
    stm_on: bool,
) -> bool {
    &&& move_fits(hidden, w, from, to, original, captured, placed)
    &&& forall|i: int| 0 <= i < w.h1() ==> fits_i32(#[trigger] made_entry(hidden, w, from, to, original, captured, placed, stm_on, i))
}

/// The piece placed on the destination square: the promoted piece for a
/// promotion, the moving piece otherwise.
pub open spec fn placed_piece(moved: Piece, original: Piece, was_promotion: bool) -> Piece {
    if was_promotion {
        moved
    } else {
        original
    }
}

/// Side-to-move-aware incremental update agrees with a side-to-move-aware
/// refresh: from the refresh of a position with `original.player` to move,
/// a make-move yields the refresh of the position after the move with the
/// other side to move.
pub proof fn law_incremental_matches_refresh_with_stm(
    w: NNUEWeights,
    hidden: Seq<i32>,
    before: Seq<Option<Piece>>,
    from: Option<Position>,
    to: Position,
    original: Piece,
    captured: Option<Piece>,
    placed: Piece,
)
    requires
        before.len() == 81,
        hidden.len() >= w.h1(),
        to.valid(),
        from.is_some() ==> from.unwrap().valid() && from.unwrap() != to,
        from.is_some() ==> before[from.unwrap().index()] == Some(original),
        before[to.index()] == captured,
        forall|i: int| 0 <= i < w.h1() ==> #[trigger] hidden[i] == refreshed(w, before, original.player, true, i),
    ensures
        forall|i: int|
            0 <= i < w.h1() ==> #[trigger] made_entry(hidden, w, from, to, original, captured, placed, true, i)
                == refreshed(w, moved_squares(before, from, to, placed), original.player.other(), true, i),
{
    assert forall|i: int| 0 <= i < w.h1() implies #[trigger] made_entry(hidden, w, from, to, original, captured, placed, true, i)
        == refreshed(w, moved_squares(before, from, to, placed), original.player.other(), true, i) by {
        lemma_move_board_sum(w, before, from, to, original, captured, placed, i);
    }
}

/// The incremental update follows the board's own move: when hidden layer 1
/// holds the refresh of board `b` with the mover to move (the side-to-move
/// row included when that feature is on), the make-move update for move `m`,
/// given the piece that stood on the source (or is dropped), the piece that
/// stood on the target and the piece as it lands, yields the refresh of the
/// board that `Board::make_move` produces, with the other side to move.
pub proof fn law_make_move_matches_board_move(
    w: NNUEWeights,
    hidden: Seq<i32>,
    b: Board,
    m: Move,
    use_stm: bool,
)
    requires
        b.squares@.len() == 81,
        hidden.len() >= w.h1(),
        m.to.valid(),
        m.from.is_some() ==> m.from.unwrap().valid() && m.from.unwrap() != m.to,
        m.from.is_some() ==> b.squares@[m.from.unwrap().index()] == Some(Piece { piece_type: m.piece_type, player: m.player }),
        forall|i: int| 0 <= i < w.h1() ==> #[trigger] hidden[i] == refreshed(w, b.squares@, m.player, use_stm, i),
    ensures
        forall|i: int|
            0 <= i < w.h1() ==> #[trigger] made_entry(
                hidden,
                w,
                m.from,
                m.to,
                Piece { piece_type: m.piece_type, player: m.player },
                b.squares@[m.to.index()],
                placed_piece(m.landing_piece(), Piece { piece_type: m.piece_type, player: m.player }, m.is_promotion),
                use_stm,
                i,
            ) == refreshed(w, after_move(b, m), m.player.other(), use_stm, i),
{
    let original = Piece { piece_type: m.piece_type, player: m.player };
    let placed = placed_piece(m.landing_piece(), original, m.is_promotion);
    assert(placed == m.landing_piece());
    assert(after_move(b, m) =~= moved_squares(b.squares@, m.from, m.to, placed));
    assert forall|i: int| 0 <= i < w.h1() implies #[trigger] made_entry(hidden, w, m.from, m.to, original, b.squares@[m.to.index()], placed, use_stm, i)
        == refreshed(w, after_move(b, m), m.player.other(), use_stm, i) by {
        lemma_move_board_sum(w, b.squares@, m.from, m.to, original, b.squares@[m.to.index()], placed, i);
    }
}

impl NNUEEvaluator {
    /// Saves hidden layer 1 and applies a move incrementally: the piece as it
    /// stood is removed from `from` (absent for a drop), a captured piece is
    /// removed from `to`, and the promoted piece (for a promotion) or the
    /// unpromoted piece is added on `to`; with the side-to-move feature on,
    /// its row is toggled. Does nothing while disabled or awaiting a refresh.
    pub fn nnue_make_move(
        &mut self,
        from: Option<Position>,
        to: Position,
        moved_piece: Piece,
        original_piece: Piece,
        captured_piece: Option<Piece>,
        was_promotion: bool,
    )
        requires
            old(self).wf(),
            to.valid(),
            from.is_some() ==> from.unwrap().valid(),
            old(self).enabled_flag() && !old(self).refresh_pending() ==> make_fits(
                old(self).hidden(),
                old(self).weights_view(),
                from,
                to,
                original_piece,
                captured_piece,
                placed_piece(moved_piece, original_piece, was_promotion),
                old(self).stm_on(),
            ),
        ensures
            final(self).wf(),
            final(self).weights_view() == old(self).weights_view(),
            final(self).stm_on() == old(self).stm_on(),
            final(self).enabled_flag() == old(self).enabled_flag(),
            final(self).refresh_pending() == old(self).refresh_pending(),
            !old(self).enabled_flag() || old(self).refresh_pending() ==> final(self).hidden() == old(self).hidden()
                && final(self).stack() == old(self).stack(),
            old(self).enabled_flag() && !old(self).refresh_pending() ==> {
                &&& final(self).stack() == old(self).stack().push(old(self).hidden())
                &&& final(self).hidden().len() == old(self).hidden().len()
                &&& forall|i: int| 0 <= i < final(self).hidden().len() ==> #[trigger] final(self).hidden()[i]
                    == made_entry(
                    old(self).hidden(),
                    old(self).weights_view(),
                    from,
                    to,
                    original_piece,
                    captured_piece,
                    placed_piece(moved_piece, original_piece, was_promotion),
                    old(self).stm_on(),
                    i,
                )
            },
    {
        if !self.enabled || self.needs_refresh {
            return;
        }
        let ghost h0 = self.accumulator.hidden_1@;
        let saved = copy_vec(&self.accumulator.hidden_1);
        self.accumulator_stack.push(saved);
        assert(self.stack() =~= old(self).stack().push(h0));
        let placed = if was_promotion {
            moved_piece
        } else {
            original_piece
        };
        self.accumulator.apply_move_rows(from, to, original_piece, captured_piece, placed, &self.weights);
        if self.use_stm_feature && STM_FEATURE_INDEX < self.weights.input_weights_1.len() {
            let row = &self.weights.input_weights_1[STM_FEATURE_INDEX];
            assert(row@.len() == self.weights.h1());
            match original_piece.player {
                Player::Black => {
                    assert forall|i: int| 0 <= i < row@.len() implies i32::MIN <= self.accumulator.hidden_1@[i]
                        - #[trigger] row@[i] <= i32::MAX by {
                        assert(fits_i32(made_entry(h0, self.weights, from, to, original_piece, captured_piece, placed, true, i)));
                    }
                    sub_row(&mut self.accumulator.hidden_1, row);
                },
                Player::White => {
                    assert forall|i: int| 0 <= i < row@.len() implies i32::MIN <= self.accumulator.hidden_1@[i]
                        + #[trigger] row@[i] <= i32::MAX by {
                        assert(fits_i32(made_entry(h0, self.weights, from, to, original_piece, captured_piece, placed, true, i)));
                    }
                    add_row(&mut self.accumulator.hidden_1, row);
                },
            }
        }
    }

    /// Restores the hidden layer saved by the matching make-move; with no
    /// saved state, marks the accumulator as needing a refresh. Does nothing
    /// while disabled.
    pub fn nnue_unmake_move(&mut self)
        requires
            old(self).wf(),
        ensures
            final(self).wf(),
            final(self).weights_view() == old(self).weights_view(),
            final(self).stm_on() == old(self).stm_on(),
            final(self).enabled_flag() == old(self).enabled_flag(),
            !old(self).enabled_flag() ==> final(self).hidden() == old(self).hidden()
                && final(self).stack() == old(self).stack()
                && final(self).refresh_pending() == old(self).refresh_pending(),
            old(self).enabled_flag() && old(self).stack().len() > 0 ==> {
                &&& final(self).hidden() == old(self).stack().last()
                &&& final(self).stack() == old(self).stack().drop_last()
                &&& final(self).refresh_pending() == old(self).refresh_pending()
            },
            old(self).enabled_flag() && old(self).stack().len() == 0 ==> {
                &&& final(self).hidden() == old(self).hidden()
                &&& final(self).stack() == old(self).stack()
                &&& final(self).refresh_pending()
            },
    {
        if !self.enabled {
            return;
        }
        let ghost st = self.accumulator_stack@;
        match self.accumulator_stack.pop() {
            Some(prev) => {
                assert(self.stack() =~= old(self).stack().drop_last());
                self.accumulator.hidden_1 = prev;
            },
            None => {
                self.needs_refresh = true;
            },
        }
    }

    /// Full refresh for a new position; uses the side-to-move row when the
    /// feature is on. Clears the saved states. Does nothing while disabled.
    pub fn refresh_accumulator(&mut self, board: &Board, side_to_move: Player)
        requires
            old(self).wf(),
        ensures
            final(self).wf(),
            final(self).weights_view() == old(self).weights_view(),
            final(self).stm_on() == old(self).stm_on(),
            final(self).enabled_flag() == old(self).enabled_flag(),
            !old(self).enabled_flag() ==> final(self).hidden() == old(self).hidden()
                && final(self).stack() == old(self).stack()
                && final(self).refresh_pending() == old(self).refresh_pending(),
            old(self).enabled_flag() ==> {
                &&& final(self).hidden() == refreshed_seq(old(self).weights_view(), board.squares@, side_to_move, old(self).stm_on())
                &&& final(self).stack().len() == 0
                &&& !final(self).refresh_pending()
            },
    {
        if !self.enabled {
            return;
        }
        if self.use_stm_feature {
            self.accumulator.refresh_with_stm(board, side_to_move, &self.weights);
        } else {
            self.accumulator.refresh(board, &self.weights);
        }
        proof {
            self.lemma_hidden_is_refreshed(board.squares@, side_to_move);
        }
        self.accumulator_stack.clear();
        assert(self.stack() =~= Seq::<Seq<i32>>::empty());
        self.needs_refresh = false;
    }

    /// Incremental update of the accumulator for a move (no stack, no
    /// side-to-move toggle). Does nothing while disabled.
    pub fn update_move_incremental(
        &mut self,
        from: Option<Position>,
        to: Position,
        moved_piece: Piece,
        captured_piece: Option<Piece>,
    )
        requires
            old(self).wf(),
            to.valid(),
            from.is_some() ==> from.unwrap().valid(),
            old(self).enabled_flag() ==> move_fits(old(self).hidden(), old(self).weights_view(), from, to, moved_piece, captured_piece, moved_piece),
        ensures
            final(self).wf(),
            final(self).weights_view() == old(self).weights_view(),
            final(self).stm_on() == old(self).stm_on(),
            final(self).enabled_flag() == old(self).enabled_flag(),
            final(self).refresh_pending() == old(self).refresh_pending(),
            final(self).stack() == old(self).stack(),
            !old(self).enabled_flag() ==> final(self).hidden() == old(self).hidden(),
            old(self).enabled_flag() ==> final(self).hidden().len() == old(self).hidden().len() && forall|i: int|
                0 <= i < final(self).hidden().len() ==> #[trigger] final(self).hidden()[i] == move_applied(
                    old(self).hidden(), old(self).weights_view(), from, to, moved_piece, captured_piece, moved_piece, i),
    {
        if !self.enabled {
            return;
        }
        self.accumulator.update_move(from, to, moved_piece, captured_piece, &self.weights);
    }

    /// Full refresh without the side-to-move row. Does nothing while
    /// disabled.
    pub fn refresh_position(&mut self, board: &Board)
        requires
            old(self).wf(),
        ensures
            final(self).wf(),
            final(self).weights_view() == old(self).weights_view(),
            final(self).stm_on() == old(self).stm_on(),
            final(self).enabled_flag() == old(self).enabled_flag(),
            final(self).stack() == old(self).stack(),
            !old(self).enabled_flag() ==> final(self).hidden() == old(self).hidden()
                && final(self).refresh_pending() == old(self).refresh_pending(),
            old(self).enabled_flag() ==> {
                &&& final(self).hidden() == refreshed_seq(old(self).weights_view(), board.squares@, Player::Black, false)
                &&& !final(self).refresh_pending()
            },
    {
        if !self.enabled {
            return;
        }
        self.accumulator.refresh(board, &self.weights);
        proof {
            assert forall|i: int| 0 <= i < self.weights.h1() implies #[trigger] self.accumulator.hidden_1@[i]
                == refreshed_seq(self.weights, board.squares@, Player::Black, false)[i] by {
                lemma_board_sum_bound(self.weights, board.squares@, i, 81);
            }
            assert(self.accumulator.hidden_1@ =~= refreshed_seq(self.weights, board.squares@, Player::Black, false));
        }
        self.needs_refresh = false;
    }

    /// Marks the accumulator as needing a full refresh and drops the saved
    /// states.
    pub fn invalidate(&mut self)
        ensures
            final(self).refresh_pending(),
            final(self).stack().len() == 0,
            final(self).hidden() == old(self).hidden(),
            final(self).weights_view() == old(self).weights_view(),
            final(self).stm_on() == old(self).stm_on(),
            final(self).enabled_flag() == old(self).enabled_flag(),
            old(self).wf() ==> final(self).wf(),
    {
        self.needs_refresh = true;
        self.accumulator_stack.clear();
        assert(self.stack() =~= Seq::<Seq<i32>>::empty());
    }

    /// Whether a full refresh is pending.
    pub fn needs_refresh(&self) -> (r: bool)
        ensures
            r == self.refresh_pending(),
    {
        self.needs_refresh
    }

    /// Enables or disables evaluation.
    pub fn set_enabled(&mut self, enabled: bool)
        ensures
            final(self).enabled_flag() == enabled,
            final(self).hidden() == old(self).hidden(),
            final(self).stack() == old(self).stack(),
            final(self).weights_view() == old(self).weights_view(),
            final(self).refresh_pending() == old(self).refresh_pending(),
            final(self).stm_on() == old(self).stm_on(),
            old(self).wf() ==> final(self).wf(),
    {
        self.enabled = enabled;
    }

    /// Whether evaluation is enabled.
    pub fn is_enabled(&self) -> (r: bool)
        ensures
            r == self.enabled_flag(),
    {
        self.enabled
    }

    /// The network weights.
    pub fn get_weights(&self) -> (r: &NNUEWeights)
        ensures
            *r == self.weights_view(),
    {
        &self.weights
    }

    /// Mutable access to the network weights (for training).
    pub fn get_weights_mut(&mut self) -> (r: &mut NNUEWeights)
        ensures
            *r == old(self).weights_view(),
            final(self).weights_view() == *final(r),
            final(self).hidden() == old(self).hidden(),
            final(self).stack() == old(self).stack(),
            final(self).enabled_flag() == old(self).enabled_flag(),
            final(self).refresh_pending() == old(self).refresh_pending(),
            final(self).stm_on() == old(self).stm_on(),
    {
        &mut self.weights
    }

    /// The current accumulator.
    pub fn accumulator(&self) -> (r: &NNUEAccumulator)
        ensures
            r.hidden_1@ == self.hidden(),
    {
        &self.accumulator
    }
}

/// A make-move followed by its unmake restores hidden layer 1 and the stack
/// of saved states.
pub proof fn law_make_then_unmake_restores(e0: NNUEEvaluator, e1: NNUEEvaluator, e2: NNUEEvaluator)
    requires
        e0.enabled_flag(),
        e1.enabled_flag(),
        e1.stack() == e0.stack().push(e0.hidden()),
        e1.stack().len() > 0 ==> e2.hidden() == e1.stack().last() && e2.stack() == e1.stack().drop_last(),
    ensures
        e2.hidden() == e0.hidden(),
        e2.stack() == e0.stack(),
{
    assert(e1.stack().drop_last() =~= e0.stack());
}

} // verus!
