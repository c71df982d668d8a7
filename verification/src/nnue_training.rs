//! Training-side helpers of the NNUE network that do not involve floating
//! point: game outcomes and sparse feature extraction.

use vstd::prelude::*;
use crate::board::Board;
use crate::nnue::{feature_index, feature_of, board_sum, w1, NNUEWeights, STM_FEATURE_INDEX};
use crate::types::{Piece, Player, Position};

verus! {

/// Outcome of a game from Black's point of view.
#[derive(Debug, Clone, Copy, PartialEq, Eq, Structural)]
pub enum GameResult {
    Win,
    Loss,
    Draw,
}

/// Active flat features of the first `n` squares, in row-major order.
pub open spec fn features_upto(squares: Seq<Option<Piece>>, n: int) -> Seq<int>
    decreases n,
{
    if n <= 0 {
        Seq::empty()
    } else {
        features_upto(squares, n - 1) + match squares[n - 1] {
            Some(p) => seq![feature_of(p.player, p.piece_type, n - 1)],
            None => Seq::empty(),
        }
    }
}

/// Sum of entry `i` of the input rows of a feature list.
pub open spec fn feature_row_sum(w: NNUEWeights, feats: Seq<int>, i: int) -> int
    decreases feats.len(),
{
    if feats.len() == 0 {
        0
    } else {
        feature_row_sum(w, feats.drop_last(), i) + w1(w, feats.last(), i)
    }
}

/// Active flat features of a position (no side-to-move feature), one per
/// piece, squares in row-major order.
pub fn extract_active_features(board: &Board) -> (r: Vec<usize>)
    ensures
        r@.len() == features_upto(board.squares@, 81).len(),
        forall|k: int| 0 <= k < r@.len() ==> #[trigger] r@[k] as int == features_upto(board.squares@, 81)[k],
{
    let mut features: Vec<usize> = Vec::new();
    let mut s: usize = 0;
    while s < 81
        invariant
            s <= 81,
            features@.len() == features_upto(board.squares@, s as int).len(),
            forall|k: int| 0 <= k < features@.len() ==> #[trigger] features@[k] as int == features_upto(board.squares@, s as int)[k],
        decreases 81 - s,
    {
        let pos = Position::from_index(s);
        match board.piece_at_index(s) {
            Some(piece) => {
                let f = feature_index(piece.player, piece.piece_type, pos.to_u8());
                features.push(f);
            },
            None => {},
        }
        s += 1;
    }
    features
}

/// Active features plus the side-to-move feature when Black is to move.
pub fn extract_active_features_with_stm(board: &Board, stm: Player) -> (r: Vec<usize>)
    ensures
        stm == Player::Black ==> r@.len() == features_upto(board.squares@, 81).len() + 1
            && r@.last() == STM_FEATURE_INDEX,
        stm == Player::White ==> r@.len() == features_upto(board.squares@, 81).len(),
        forall|k: int| 0 <= k < features_upto(board.squares@, 81).len() ==> #[trigger] r@[k] as int == features_upto(board.squares@, 81)[k],
{
    let mut features = extract_active_features(board);
    if stm == Player::Black {
        features.push(STM_FEATURE_INDEX);
    }
    features
}

/// A full refresh equals the sum of the rows of the extracted features.
pub proof fn law_refresh_is_sum_of_active_rows(w: NNUEWeights, squares: Seq<Option<Piece>>, i: int, n: int)
    requires
        0 <= n <= squares.len(),
    ensures
        board_sum(w, squares, i, n) == feature_row_sum(w, features_upto(squares, n), i),
    decreases n,
{
    if n > 0 {
        law_refresh_is_sum_of_active_rows(w, squares, i, n - 1);
        let prev = features_upto(squares, n - 1);
        match squares[n - 1] {
            Some(p) => {
                let cur = prev + seq![feature_of(p.player, p.piece_type, n - 1)];
                assert(cur.drop_last() =~= prev);
            },
            None => {
                assert(prev + Seq::<int>::empty() =~= prev);
            },
        }
    }
}

} // verus!
