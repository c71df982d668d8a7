//! Pattern knowledge for the search: move ordering by pattern bonuses,
//! pruning of quiet positions and a quiescence term.

use vstd::prelude::*;
use crate::board::Board;
use crate::types::{Move, Player, Position};

verus! {

/// Bonuses and limits for pattern-aware search.
#[derive(Debug, Clone, Copy)]
pub struct PatternSearchConfig {
    pub fork_bonus: i32,
    pub center_move_bonus: i32,
    pub activity_bonus: i32,
    pub capture_bonus: i32,
    pub promotion_bonus: i32,
    /// Pruning is considered only below this depth.
    pub min_depth_for_pruning: u8,
    pub pruning_margin: i32,
}

impl PatternSearchConfig {
    pub open spec fn defaults() -> Self {
        PatternSearchConfig {
            fork_bonus: 200,
            center_move_bonus: 50,
            activity_bonus: 30,
            capture_bonus: 100,
            promotion_bonus: 150,
            min_depth_for_pruning: 3,
            pruning_margin: 200,
        }
    }

    /// Every bonus lies within a hundred million of zero, so that a move's
    /// total (at most five bonuses) fits in `i32`; the default bonuses are
    /// below 200.
    pub open spec fn bonuses_bounded(self) -> bool {
        &&& -100_000_000 <= self.fork_bonus <= 100_000_000
        &&& -100_000_000 <= self.center_move_bonus <= 100_000_000
        &&& -100_000_000 <= self.activity_bonus <= 100_000_000
        &&& -100_000_000 <= self.capture_bonus <= 100_000_000
        &&& -100_000_000 <= self.promotion_bonus <= 100_000_000
    }
}

impl Default for PatternSearchConfig {
    fn default() -> (r: Self)
        ensures
            r == PatternSearchConfig::defaults(),
    {
        PatternSearchConfig {
            fork_bonus: 200,
            center_move_bonus: 50,
            activity_bonus: 30,
            capture_bonus: 100,
            promotion_bonus: 150,
            min_depth_for_pruning: 3,
            pruning_margin: 200,
        }
    }
}

/// Counters of the search integration.
#[derive(Debug, Clone, Copy, PartialEq, Eq, Structural)]
pub struct PatternSearchStats {
    pub move_orderings: u64,
    pub prune_checks: u64,
    pub pruned_positions: u64,
    pub quiescence_evals: u64,
}

impl PatternSearchStats {
    pub open spec fn zeroed() -> Self {
        PatternSearchStats { move_orderings: 0, prune_checks: 0, pruned_positions: 0, quiescence_evals: 0 }
    }
}

impl Default for PatternSearchStats {
    fn default() -> (r: Self)
        ensures
            r == PatternSearchStats::zeroed(),
    {
        PatternSearchStats { move_orderings: 0, prune_checks: 0, pruned_positions: 0, quiescence_evals: 0 }
    }
}

/// The destination is one of the nine centre squares.
pub open spec fn central_move(m: Move) -> bool {
    3 <= m.to.row <= 5 && 3 <= m.to.col <= 5
}

/// The move advances toward the enemy camp; a drop is measured from the
/// king's starting square.
pub open spec fn advances(m: Move, player: Player) -> bool {
    if player == Player::Black {
        let from_row = match m.from {
            Some(f) => f.row,
            None => 8u8,
        };
        m.to.row < from_row
    } else {
        let from_row = match m.from {
            Some(f) => f.row,
            None => 0u8,
        };
        m.to.row > from_row
    }
}

/// Ordering score of a move: centre, activity, capture and promotion
/// bonuses (fork detection finds none).
pub open spec fn move_score(cfg: PatternSearchConfig, m: Move, player: Player) -> int {
    (if central_move(m) { cfg.center_move_bonus as int } else { 0 }) + (if advances(m, player) {
        cfg.activity_bonus as int
    } else {
        0
    }) + (if m.is_capture { cfg.capture_bonus as int } else { 0 }) + (if m.is_promotion {
        cfg.promotion_bonus as int
    } else {
        0
    })
}

/// Index at which `x` goes into a list sorted by descending score: after
/// every entry scoring at least as much.
pub open spec fn insert_at(sorted: Seq<(Move, i32)>, x: (Move, i32)) -> int
    decreases sorted.len(),
{
    if sorted.len() == 0 {
        0
    } else if sorted.last().1 >= x.1 {
        sorted.len() as int
    } else {
        insert_at(sorted.drop_last(), x)
    }
}

pub open spec fn insert_desc(sorted: Seq<(Move, i32)>, x: (Move, i32)) -> Seq<(Move, i32)> {
    sorted.insert(insert_at(sorted, x), x)
}

/// Stable sort by descending score.
pub open spec fn sort_desc(s: Seq<(Move, i32)>) -> Seq<(Move, i32)>
    decreases s.len(),
{
    if s.len() == 0 {
        s
    } else {
        insert_desc(sort_desc(s.drop_last()), s.last())
    }
}

pub open spec fn sorted_desc(s: Seq<(Move, i32)>) -> bool {
    forall|i: int, j: int| 0 <= i < j < s.len() ==> s[i].1 >= s[j].1
}

/// Searches with pattern knowledge.
pub struct PatternSearchIntegrator {
    pub config: PatternSearchConfig,
    pub stats: PatternSearchStats,
}

proof fn lemma_insert_at_bounds(sorted: Seq<(Move, i32)>, x: (Move, i32))
    ensures
        0 <= insert_at(sorted, x) <= sorted.len(),
        forall|k: int| 0 <= k < insert_at(sorted, x) ==> #[trigger] sorted[k].1 >= x.1 || !sorted_desc(sorted),
        forall|k: int| insert_at(sorted, x) <= k < sorted.len() ==> #[trigger] sorted[k].1 < x.1,
    decreases sorted.len(),
{
    if sorted.len() > 0 {
        lemma_insert_at_bounds(sorted.drop_last(), x);
        if sorted.last().1 < x.1 {
            assert forall|k: int| 0 <= k < insert_at(sorted, x) implies #[trigger] sorted[k].1 >= x.1 || !sorted_desc(
                sorted,
            ) by {
                assert(sorted.drop_last()[k] == sorted[k]);
                if sorted_desc(sorted) {
                    assert(sorted_desc(sorted.drop_last()));
                }
            }
            assert forall|k: int| insert_at(sorted, x) <= k < sorted.len() implies #[trigger] sorted[k].1 < x.1 by {
                if k < sorted.len() - 1 {
                    assert(sorted.drop_last()[k] == sorted[k]);
                }
            }
        } else {
            assert forall|k: int| 0 <= k < insert_at(sorted, x) implies #[trigger] sorted[k].1 >= x.1 || !sorted_desc(
                sorted,
            ) by {
                if sorted_desc(sorted) && k < sorted.len() - 1 {
                    assert(sorted[k].1 >= sorted[sorted.len() - 1].1);
                }
            }
        }
    }
}

/// Ordering by pattern bonuses yields scores in descending order and keeps
/// every move.
pub proof fn law_sort_desc_sorted(s: Seq<(Move, i32)>)
    ensures
        sorted_desc(sort_desc(s)),
        sort_desc(s).len() == s.len(),
    decreases s.len(),
{
    if s.len() > 0 {
        let rest = sort_desc(s.drop_last());
        law_sort_desc_sorted(s.drop_last());
        let x = s.last();
        lemma_insert_at_bounds(rest, x);
        let k = insert_at(rest, x);
        let out = rest.insert(k, x);
        assert forall|i: int, j: int| 0 <= i < j < out.len() implies out[i].1 >= out[j].1 by {
            if j < k {
                assert(out[i] == rest[i] && out[j] == rest[j]);
            } else if j == k {
                assert(out[i] == rest[i]);
            } else if i < k {
                assert(out[i] == rest[i] && out[j] == rest[j - 1]);
                if i < j - 1 {
                    assert(rest[i].1 >= rest[j - 1].1);
                }
            } else if i == k {
                assert(out[j] == rest[j - 1]);
            } else {
                assert(out[i] == rest[i - 1] && out[j] == rest[j - 1]);
            }
        }
    }
}

impl PatternSearchIntegrator {
    pub open spec fn stats_view(&self) -> PatternSearchStats {
        self.stats
    }

    /// Default bonuses and zeroed statistics.
    pub fn new() -> (r: Self)
        ensures
            r.config == PatternSearchConfig::defaults(),
            r.stats_view() == PatternSearchStats::zeroed(),
    {
        PatternSearchIntegrator { config: PatternSearchConfig::default(), stats: PatternSearchStats::default() }
    }

    /// Scores every move by its pattern bonuses and returns the moves with
    /// their scores, highest first, moves of equal score in their given
    /// order.
    pub fn order_moves_by_patterns(&mut self, board: &Board, moves: &[Move], player: Player) -> (r: Vec<(Move, i32)>)
        requires
            old(self).config.bonuses_bounded(),
        ensures
            r@ == sort_desc(Seq::new(moves@.len(), |i: int| (moves@[i], move_score(old(self).config, moves@[i], player) as i32))),
            final(self).config == old(self).config,
            final(self).stats_view() == (PatternSearchStats {
                move_orderings: old(self).stats_view().move_orderings.wrapping_add(1),
                ..old(self).stats_view()
            }),
    {
        self.stats.move_orderings = self.stats.move_orderings.wrapping_add(1);
        let ghost input = Seq::new(moves@.len(), |i: int| (moves@[i], move_score(self.config, moves@[i], player) as i32));
        let mut sorted: Vec<(Move, i32)> = Vec::with_capacity(moves.len());
        let mut i: usize = 0;
        while i < moves.len()
            invariant
                i <= moves.len(),
                self.config.bonuses_bounded(),
                input == Seq::new(moves@.len(), |i: int| (moves@[i], move_score(self.config, moves@[i], player) as i32)),
                sorted@ == sort_desc(input.take(i as int)),
            decreases moves.len() - i,
        {
            let mv = moves[i];
            let score = self.score_move_by_patterns(board, &mv, player);
            let x = (mv, score);
            assert(input.take(i as int + 1).drop_last() =~= input.take(i as int));
            assert(input.take(i as int + 1).last() == x);
            let pos = find_insert_position(&sorted, score);
            sorted.insert(pos, x);
            i += 1;
        }
        assert(input.take(moves.len() as int) =~= input);
        sorted
    }

    /// Pattern bonus of one move.
    fn score_move_by_patterns(&self, board: &Board, mv: &Move, player: Player) -> (r: i32)
        requires
            self.config.bonuses_bounded(),
        ensures
            r == move_score(self.config, *mv, player),
    {
        let mut score: i32 = 0;
        if self.creates_fork(board, mv, player) {
            score += self.config.fork_bonus;
        }
        if self.is_central_move(mv) {
            score += self.config.center_move_bonus;
        }
        if self.improves_activity(mv, player) {
            score += self.config.activity_bonus;
        }
        if mv.is_capture {
            score += self.config.capture_bonus;
        }
        if mv.is_promotion {
            score += self.config.promotion_bonus;
        }
        score
    }

    /// Fork detection on a move: none are reported.
    fn creates_fork(&self, _board: &Board, _mv: &Move, _player: Player) -> (r: bool)
        ensures
            !r,
    {
        false
    }

    /// The move lands on one of the nine centre squares.
    pub fn is_central_move(&self, mv: &Move) -> (r: bool)
        ensures
            r == central_move(*mv),
    {
        let row = mv.to.row;
        let col = mv.to.col;
        row >= 3 && row <= 5 && col >= 3 && col <= 5
    }

    /// The move goes forward for `player`.
    pub fn improves_activity(&self, mv: &Move, player: Player) -> (r: bool)
        ensures
            r == advances(*mv, player),
    {
        match player {
            Player::Black => {
                let from = match mv.from {
                    Some(f) => f,
                    None => Position::new(8, 4),
                };
                mv.to.row < from.row
            },
            Player::White => {
                let from = match mv.from {
                    Some(f) => f,
                    None => Position::new(0, 4),
                };
                mv.to.row > from.row
            },
        }
    }

    /// Below the configured depth every position counts as quiet, and it is
    /// pruned when the window `beta - alpha` is narrower than the margin.
    pub fn should_prune_by_patterns(&mut self, board: &Board, player: Player, depth: u8, alpha: i32, beta: i32) -> (r: bool)
        requires
            i32::MIN <= beta - alpha <= i32::MAX,
        ensures
            r == (depth < old(self).config.min_depth_for_pruning && beta - alpha < old(self).config.pruning_margin),
            final(self).config == old(self).config,
            final(self).stats_view() == (PatternSearchStats {
                prune_checks: old(self).stats_view().prune_checks.wrapping_add(1),
                pruned_positions: if r {
                    old(self).stats_view().pruned_positions.wrapping_add(1)
                } else {
                    old(self).stats_view().pruned_positions
                },
                ..old(self).stats_view()
            }),
    {
        self.stats.prune_checks = self.stats.prune_checks.wrapping_add(1);
        if depth >= self.config.min_depth_for_pruning {
            return false;
        }
        if self.is_quiet_position(board, player) {
            let margin = self.config.pruning_margin;
            if beta - alpha < margin {
                self.stats.pruned_positions = self.stats.pruned_positions.wrapping_add(1);
                return true;
            }
        }
        false
    }

    /// Every position counts as quiet.
    fn is_quiet_position(&self, _board: &Board, _player: Player) -> (r: bool)
        ensures
            r,
    {
        true
    }

    /// Quiescence term from hanging pieces and immediate threats, both
    /// zero.
    pub fn evaluate_in_quiescence(&mut self, board: &Board, player: Player) -> (r: i32)
        ensures
            r == 0,
            final(self).config == old(self).config,
            final(self).stats_view() == (PatternSearchStats {
                quiescence_evals: old(self).stats_view().quiescence_evals.wrapping_add(1),
                ..old(self).stats_view()
            }),
    {
        self.stats.quiescence_evals = self.stats.quiescence_evals.wrapping_add(1);
        let mut score: i32 = 0;
        score += self.evaluate_hanging_pieces(board, player);
        score += self.evaluate_immediate_threats(board, player);
        score
    }

    fn evaluate_hanging_pieces(&self, _board: &Board, _player: Player) -> (r: i32)
        ensures
            r == 0,
    {
        0
    }

    fn evaluate_immediate_threats(&self, _board: &Board, _player: Player) -> (r: i32)
        ensures
            r == 0,
    {
        0
    }

    /// The statistics.
    pub fn stats(&self) -> (r: &PatternSearchStats)
        ensures
            *r == self.stats_view(),
    {
        &self.stats
    }

    /// Zeroes the statistics.
    pub fn reset_stats(&mut self)
        ensures
            final(self).stats_view() == PatternSearchStats::zeroed(),
            final(self).config == old(self).config,
    {
        self.stats = PatternSearchStats::default();
    }
}

impl Default for PatternSearchIntegrator {
    fn default() -> (r: Self)
        ensures
            r.config == PatternSearchConfig::defaults(),
            r.stats_view() == PatternSearchStats::zeroed(),
    {
        PatternSearchIntegrator::new()
    }
}

/// Where an entry of the given score goes into a list sorted by descending
/// score: after every entry scoring at least as much.
fn find_insert_position(sorted: &Vec<(Move, i32)>, score: i32) -> (r: usize)
    ensures
        forall|m: Move| r == insert_at(sorted@, (m, score)),
        r <= sorted.len(),
{
    let mut k: usize = sorted.len();
    assert(sorted@.take(sorted.len() as int) =~= sorted@);
    while k > 0
        invariant
            k <= sorted.len(),
            forall|m: Move| insert_at(sorted@, (m, score)) == insert_at(sorted@.take(k as int), (m, score)),
        decreases k,
    {
        if sorted[k - 1].1 >= score {
            return k;
        }
        assert(sorted@.take(k as int).drop_last() =~= sorted@.take(k as int - 1));
        k -= 1;
    }
    0
}

} // verus!
