//! Counters of the positional pattern analysis, their snapshots, and a
//! cache of square control queries on one board.

use vstd::prelude::*;
use crate::attacks::attacked_by;
use crate::board::{Board, square_sum};
use crate::types::{Player, Position};

verus! {

/// Statistics for positional pattern analysis.
#[derive(Debug, Clone, Copy, PartialEq, Eq, Structural, Default)]
pub struct PositionalStats {
    pub evaluations: u64,
    pub center_control_checks: u64,
    pub outpost_checks: u64,
    pub weak_square_checks: u64,
    pub activity_checks: u64,
    pub space_checks: u64,
    pub tempo_checks: u64,
    pub outposts_found: u64,
    pub weak_squares_found: u64,
    pub center_control_tiles_scored: u64,
    pub outpost_candidates: u64,
    pub weak_square_candidates: u64,
    pub space_frontier_samples: u64,
}

/// A copy of the counters, for reporting and merging.
#[derive(Debug, Clone, Copy, PartialEq, Eq, Structural, Default)]
pub struct PositionalStatsSnapshot {
    pub evaluations: u64,
    pub center_control_checks: u64,
    pub outpost_checks: u64,
    pub weak_square_checks: u64,
    pub activity_checks: u64,
    pub space_checks: u64,
    pub tempo_checks: u64,
    pub outposts_found: u64,
    pub weak_squares_found: u64,
    pub center_control_tiles_scored: u64,
    pub outpost_candidates: u64,
    pub weak_square_candidates: u64,
    pub space_frontier_samples: u64,
}

/// Every counter of `s` plus the matching counter of `t` fits in 64 bits.
pub open spec fn merge_fits(s: PositionalStats, t: PositionalStatsSnapshot) -> bool {
    &&& s.evaluations + t.evaluations <= u64::MAX
    &&& s.center_control_checks + t.center_control_checks <= u64::MAX
    &&& s.outpost_checks + t.outpost_checks <= u64::MAX
    &&& s.weak_square_checks + t.weak_square_checks <= u64::MAX
    &&& s.activity_checks + t.activity_checks <= u64::MAX
    &&& s.space_checks + t.space_checks <= u64::MAX
    &&& s.tempo_checks + t.tempo_checks <= u64::MAX
    &&& s.outposts_found + t.outposts_found <= u64::MAX
    &&& s.weak_squares_found + t.weak_squares_found <= u64::MAX
    &&& s.center_control_tiles_scored + t.center_control_tiles_scored <= u64::MAX
    &&& s.outpost_candidates + t.outpost_candidates <= u64::MAX
    &&& s.weak_square_candidates + t.weak_square_candidates <= u64::MAX
    &&& s.space_frontier_samples + t.space_frontier_samples <= u64::MAX
}

/// The snapshot of the given counters.
pub open spec fn snapshot_of(s: PositionalStats) -> PositionalStatsSnapshot {
    PositionalStatsSnapshot {
        evaluations: s.evaluations,
        center_control_checks: s.center_control_checks,
        outpost_checks: s.outpost_checks,
        weak_square_checks: s.weak_square_checks,
        activity_checks: s.activity_checks,
        space_checks: s.space_checks,
        tempo_checks: s.tempo_checks,
        outposts_found: s.outposts_found,
        weak_squares_found: s.weak_squares_found,
        center_control_tiles_scored: s.center_control_tiles_scored,
        outpost_candidates: s.outpost_candidates,
        weak_square_candidates: s.weak_square_candidates,
        space_frontier_samples: s.space_frontier_samples,
    }
}

/// Counter-wise sum of counters and a snapshot.
pub open spec fn merged(s: PositionalStats, t: PositionalStatsSnapshot) -> PositionalStats {
    PositionalStats {
        evaluations: (s.evaluations + t.evaluations) as u64,
        center_control_checks: (s.center_control_checks + t.center_control_checks) as u64,
        outpost_checks: (s.outpost_checks + t.outpost_checks) as u64,
        weak_square_checks: (s.weak_square_checks + t.weak_square_checks) as u64,
        activity_checks: (s.activity_checks + t.activity_checks) as u64,
        space_checks: (s.space_checks + t.space_checks) as u64,
        tempo_checks: (s.tempo_checks + t.tempo_checks) as u64,
        outposts_found: (s.outposts_found + t.outposts_found) as u64,
        weak_squares_found: (s.weak_squares_found + t.weak_squares_found) as u64,
        center_control_tiles_scored: (s.center_control_tiles_scored + t.center_control_tiles_scored) as u64,
        outpost_candidates: (s.outpost_candidates + t.outpost_candidates) as u64,
        weak_square_candidates: (s.weak_square_candidates + t.weak_square_candidates) as u64,
        space_frontier_samples: (s.space_frontier_samples + t.space_frontier_samples) as u64,
    }
}

impl PositionalStats {
    /// A copy of every counter.
    pub fn snapshot(&self) -> (r: PositionalStatsSnapshot)
        ensures
            r == snapshot_of(*self),
    {
        PositionalStatsSnapshot {
            evaluations: self.evaluations,
            center_control_checks: self.center_control_checks,
            outpost_checks: self.outpost_checks,
            weak_square_checks: self.weak_square_checks,
            activity_checks: self.activity_checks,
            space_checks: self.space_checks,
            tempo_checks: self.tempo_checks,
            outposts_found: self.outposts_found,
            weak_squares_found: self.weak_squares_found,
            center_control_tiles_scored: self.center_control_tiles_scored,
            outpost_candidates: self.outpost_candidates,
            weak_square_candidates: self.weak_square_candidates,
            space_frontier_samples: self.space_frontier_samples,
        }
    }

    /// Adds every counter of a snapshot to the matching counter.
    pub fn merge_from(&mut self, snapshot: &PositionalStatsSnapshot)
        requires
            merge_fits(*old(self), *snapshot),
        ensures
            *final(self) == merged(*old(self), *snapshot),
    {
        self.evaluations += snapshot.evaluations;
        self.center_control_checks += snapshot.center_control_checks;
        self.outpost_checks += snapshot.outpost_checks;
        self.weak_square_checks += snapshot.weak_square_checks;
        self.activity_checks += snapshot.activity_checks;
        self.space_checks += snapshot.space_checks;
        self.tempo_checks += snapshot.tempo_checks;
        self.outposts_found += snapshot.outposts_found;
        self.weak_squares_found += snapshot.weak_squares_found;
        self.center_control_tiles_scored += snapshot.center_control_tiles_scored;
        self.outpost_candidates += snapshot.outpost_candidates;
        self.weak_square_candidates += snapshot.weak_square_candidates;
        self.space_frontier_samples += snapshot.space_frontier_samples;
    }
}

/// Merging a snapshot into zeroed counters reproduces the counters the
/// snapshot was taken of.
pub proof fn law_snapshot_merge_round_trip(s: PositionalStats)
    ensures
        merged(PositionalStats::default_spec(), snapshot_of(s)) == s,
{
}

impl PositionalStats {
    pub open spec fn default_spec() -> PositionalStats {
        PositionalStats {
            evaluations: 0,
            center_control_checks: 0,
            outpost_checks: 0,
            weak_square_checks: 0,
            activity_checks: 0,
            space_checks: 0,
            tempo_checks: 0,
            outposts_found: 0,
            weak_squares_found: 0,
            center_control_tiles_scored: 0,
            outpost_candidates: 0,
            weak_square_candidates: 0,
            space_frontier_samples: 0,
        }
    }
}

/// Answers "does `player` control this square" for one board, computing
/// each answer once.
pub struct ControlCache<'a> {
    board: &'a Board,
    cache: [[Option<bool>; 81]; 2],
}

impl<'a> ControlCache<'a> {
    pub closed spec fn board_view(&self) -> Board {
        *self.board
    }

    /// Every cached answer is the board's answer.
    pub closed spec fn wf(&self) -> bool {
        forall|p: int, i: int| 0 <= p < 2 && 0 <= i < 81 ==> match #[trigger] self.cache@[p]@[i] {
            Some(v) => v == attacked_by(*self.board, Position::at_index(i), if p == 0 {
                Player::Black
            } else {
                Player::White
            }),
            None => true,
        }
    }

    /// An empty cache for a board.
    pub fn new(board: &'a Board) -> (r: Self)
        ensures
            r.wf(),
            r.board_view() == *board,
    {
        ControlCache { board, cache: [[None; 81]; 2] }
    }

    /// Whether `player` controls (attacks) `pos` on the cached board.
    pub fn controlled_by(&mut self, player: Player, pos: Position) -> (r: bool)
        requires
            old(self).wf(),
            pos.valid(),
        ensures
            r == attacked_by(old(self).board_view(), pos, player),
            final(self).wf(),
            final(self).board_view() == old(self).board_view(),
    {
        let p: usize = if player == Player::Black { 0 } else { 1 };
        let i: usize = (pos.row as usize) * 9 + pos.col as usize;
        proof {
            assert(Position::at_index(i as int) == pos);
        }
        match self.cache[p][i] {
            Some(v) => {
                return v;
            },
            None => {},
        }
        let value = self.board.is_square_attacked_by(pos, player);
        let mut row = self.cache[p];
        row[i] = Some(value);
        self.cache[p] = row;
        proof {
            assert forall|q: int, j: int| 0 <= q < 2 && 0 <= j < 81 implies match #[trigger] self.cache@[q]@[j] {
                Some(v) => v == attacked_by(*self.board, Position::at_index(j), if q == 0 {
                    Player::Black
                } else {
                    Player::White
                }),
                None => true,
            } by {
                if q == p as int && j == i as int {
                } else {
                    assert(self.cache@[q]@[j] == old(self).cache@[q]@[j]);
                }
            }
        }
        value
    }

    /// Number of squares `player` controls.
    pub fn count_all_controlled(&mut self, player: Player) -> (r: i32)
        requires
            old(self).wf(),
        ensures
            r == square_sum(|i: int| if attacked_by(old(self).board_view(), Position::at_index(i), player) { 1int } else { 0int }, 81),
            final(self).wf(),
            final(self).board_view() == old(self).board_view(),
    {
        let ghost b = self.board_view();
        let ghost f = |i: int| if attacked_by(b, Position::at_index(i), player) { 1int } else { 0int };
        let mut count: i32 = 0;
        let mut i: usize = 0;
        while i < 81
            invariant
                i <= 81,
                self.wf(),
                self.board_view() == b,
                f == (|i: int| if attacked_by(b, Position::at_index(i), player) { 1int } else { 0int }),
                count == square_sum(f, i as int),
                0 <= count <= i,
            decreases 81 - i,
        {
            if self.controlled_by(player, Position::from_index(i)) {
                count += 1;
            }
            i += 1;
        }
        count
    }

    /// Number of the listed squares `player` controls.
    pub fn count_subset_controlled(&mut self, player: Player, squares: &[(u8, u8)]) -> (r: i32)
        requires
            old(self).wf(),
            squares@.len() <= i32::MAX,
            forall|k: int| 0 <= k < squares@.len() ==> (#[trigger] squares@[k]).0 < 9 && squares@[k].1 < 9,
        ensures
            r == subset_count(old(self).board_view(), player, squares@, squares@.len() as int),
            final(self).wf(),
            final(self).board_view() == old(self).board_view(),
    {
        let ghost b = self.board_view();
        let mut count: i32 = 0;
        let mut k: usize = 0;
        while k < squares.len()
            invariant
                k <= squares@.len(),
                squares@.len() <= i32::MAX,
                forall|j: int| 0 <= j < squares@.len() ==> (#[trigger] squares@[j]).0 < 9 && squares@[j].1 < 9,
                self.wf(),
                self.board_view() == b,
                count == subset_count(b, player, squares@, k as int),
                0 <= count <= k,
            decreases squares@.len() - k,
        {
            let (row, col) = squares[k];
            assert(squares@[k as int].0 < 9 && squares@[k as int].1 < 9);
            if self.controlled_by(player, Position::new(row, col)) {
                count += 1;
            }
            k += 1;
        }
        count
    }
}

/// Number of the first `n` listed squares that `player` attacks.
pub open spec fn subset_count(b: Board, player: Player, squares: Seq<(u8, u8)>, n: int) -> int
    decreases n,
{
    if n <= 0 {
        0
    } else {
        subset_count(b, player, squares, n - 1) + if attacked_by(
            b,
            Position { row: squares[n - 1].0, col: squares[n - 1].1 },
            player,
        ) {
            1int
        } else {
            0int
        }
    }
}

} // verus!
