//! Fast pattern detection: a knight-fork scan over precomputed attack
//! targets, centre occupation, timing statistics and a compact store of
//! pattern flags and tactical scores.

use vstd::prelude::*;
use crate::board::{Board, piece_at, sum_over};
use crate::clock::{clock_now, nanos_since};
use crate::opening_principles::center_squares;
use crate::types::{PieceType, Player, Position};

verus! {

/// The on-board squares a knight of `player` on `pos` jumps to, left one
/// first.
pub open spec fn knight_targets(pos: Position, player: Player) -> Seq<Position> {
    let dr: int = if player == Player::Black {
        -2
    } else {
        2
    };
    let r = pos.row + dr;
    let left = if 0 <= r < 9 && 0 <= pos.col - 1 < 9 {
        seq![Position { row: r as u8, col: (pos.col - 1) as u8 }]
    } else {
        Seq::empty()
    };
    let right = if 0 <= r < 9 && 0 <= pos.col + 1 < 9 {
        seq![Position { row: r as u8, col: (pos.col + 1) as u8 }]
    } else {
        Seq::empty()
    };
    left + right
}

/// Attack targets as the lookup tables give them: knight jumps; no other
/// kind has entries.
pub open spec fn table_attacks(pos: Position, pt: PieceType, player: Player) -> Seq<Position> {
    if pt == PieceType::Knight {
        knight_targets(pos, player)
    } else {
        Seq::empty()
    }
}

pub open spec fn enemy_on(b: Board, player: Player, p: Position) -> bool {
    match piece_at(b, p.row as int, p.col as int) {
        Some(pc) => pc.player != player,
        None => false,
    }
}

/// Number of target squares holding an enemy piece.
pub open spec fn enemy_count(b: Board, player: Player, targets: Seq<Position>) -> int {
    sum_over(targets, |p: Position| if enemy_on(b, player, p) { 1int } else { 0int })
}

/// The piece of `player` on square `i` attacks two or more enemy pieces.
pub open spec fn forks_from(b: Board, player: Player, i: int) -> bool {
    match b.squares@[i] {
        Some(pc) => pc.player == player && enemy_count(
            b,
            player,
            table_attacks(Position::at_index(i), pc.piece_type, player),
        ) >= 2,
        None => false,
    }
}

pub open spec fn has_fork(b: Board, player: Player) -> bool {
    exists|i: int| 0 <= i < 81 && #[trigger] forks_from(b, player, i)
}

/// +20 for an own piece on a centre square, -20 for an enemy one.
pub open spec fn center_occupation(b: Board, player: Player) -> int {
    sum_over(
        center_squares(),
        |c: Position|
            match piece_at(b, c.row as int, c.col as int) {
                Some(pc) => if pc.player == player {
                    20int
                } else {
                    -20int
                },
                None => 0int,
            },
    )
}

/// Attack lookup tables (knight jumps).
pub struct AttackLookupTables {}

impl AttackLookupTables {
    pub fn new() -> (r: Self) {
        AttackLookupTables {  }
    }

    /// The squares a piece of `piece_type` owned by `player` on `pos`
    /// attacks according to the tables.
    pub fn get_attacks(&self, pos: Position, piece_type: PieceType, player: Player) -> (r: Vec<Position>)
        requires
            pos.valid(),
        ensures
            r@ == table_attacks(pos, piece_type, player),
            forall|k: int| 0 <= k < r@.len() ==> (#[trigger] r@[k]).valid(),
    {
        self.compute_attacks(pos, piece_type, player)
    }

    fn compute_attacks(&self, pos: Position, piece_type: PieceType, player: Player) -> (r: Vec<Position>)
        requires
            pos.valid(),
        ensures
            r@ == table_attacks(pos, piece_type, player),
            forall|k: int| 0 <= k < r@.len() ==> (#[trigger] r@[k]).valid(),
    {
        let mut attacks: Vec<Position> = Vec::new();
        match piece_type {
            PieceType::Knight => {
                let row: i8 = match player {
                    Player::Black => pos.row as i8 - 2,
                    Player::White => pos.row as i8 + 2,
                };
                let col = pos.col as i8;
                if row >= 0 && row < 9 && col - 1 >= 0 {
                    attacks.push(Position::new(row as u8, (col - 1) as u8));
                }
                if row >= 0 && row < 9 && col + 1 < 9 {
                    attacks.push(Position::new(row as u8, (col + 1) as u8));
                }
                proof {
                    assert(attacks@ =~= knight_targets(pos, player));
                }
            },
            _ => {
                proof {
                    assert(attacks@ =~= Seq::<Position>::empty());
                }
            },
        }
        attacks
    }
}

/// Outcome of a fast pattern scan.
#[derive(Debug, Clone, Copy)]
pub struct FastPatternResult {
    pub has_fork: bool,
    pub has_pin: bool,
    pub has_outpost: bool,
    pub center_control: i32,
}

/// Counters of the fast detector.
#[derive(Debug, Clone, Copy)]
pub struct OptimizationStats {
    /// Number of fast detections.
    pub fast_detections: u64,
    /// Total time spent in nanoseconds.
    pub total_time_ns: u64,
}

impl Default for OptimizationStats {
    fn default() -> (r: Self)
        ensures
            r.fast_detections == 0,
            r.total_time_ns == 0,
    {
        OptimizationStats { fast_detections: 0, total_time_ns: 0 }
    }
}

/// Pattern detector over the attack lookup tables.
pub struct OptimizedPatternDetector {
    attack_tables: AttackLookupTables,
    stats: OptimizationStats,
}

fn count_enemies(board: &Board, player: Player, targets: &Vec<Position>) -> (r: usize)
    requires
        forall|k: int| 0 <= k < targets@.len() ==> (#[trigger] targets@[k]).valid(),
    ensures
        r == enemy_count(*board, player, targets@),
        r <= targets.len(),
{
    let mut n: usize = 0;
    let mut k: usize = 0;
    while k < targets.len()
        invariant
            k <= targets.len(),
            forall|k: int| 0 <= k < targets@.len() ==> (#[trigger] targets@[k]).valid(),
            n == enemy_count(*board, player, targets@.take(k as int)),
            n <= k,
        decreases targets.len() - k,
    {
        proof {
            crate::board::lemma_sum_take(
                targets@,
                |p: Position| if enemy_on(*board, player, p) { 1int } else { 0int },
                k as int,
            );
        }
        match board.get_piece(targets[k]) {
            Some(t) => {
                if t.player != player {
                    n += 1;
                }
            },
            None => {},
        }
        k += 1;
    }
    proof {
        crate::board::lemma_take_all(targets@);
    }
    n
}

impl OptimizedPatternDetector {
    pub closed spec fn detections(&self) -> u64 {
        self.stats.fast_detections
    }

    pub closed spec fn total_time(&self) -> u64 {
        self.stats.total_time_ns
    }

    /// A detector with zeroed statistics.
    pub fn new() -> (r: Self)
        ensures
            r.detections() == 0,
            r.total_time() == 0,
    {
        OptimizedPatternDetector { attack_tables: AttackLookupTables::new(), stats: OptimizationStats::default() }
    }

    /// Scans the board: a fork when one piece of `player` attacks two or
    /// more enemy pieces, no pins or outposts, and the centre occupation.
    /// The scan is counted and its duration added to the statistics.
    pub fn detect_patterns_fast(&mut self, board: &Board, player: Player) -> (r: FastPatternResult)
        ensures
            r.has_fork == has_fork(*board, player),
            !r.has_pin,
            !r.has_outpost,
            r.center_control == center_occupation(*board, player),
            final(self).detections() == old(self).detections().wrapping_add(1),
    {
        self.stats.fast_detections = self.stats.fast_detections.wrapping_add(1);
        let start = clock_now();
        let result = FastPatternResult {
            has_fork: self.detect_fork_fast(board, player),
            has_pin: self.detect_pin_fast(board, player),
            has_outpost: self.detect_outpost_fast(board, player),
            center_control: self.evaluate_center_fast(board, player),
        };
        let elapsed = nanos_since(&start);
        self.stats.total_time_ns = self.stats.total_time_ns.wrapping_add(elapsed);
        result
    }

    fn detect_fork_fast(&self, board: &Board, player: Player) -> (r: bool)
        ensures
            r == has_fork(*board, player),
    {
        let mut i: usize = 0;
        while i < 81
            invariant
                i <= 81,
                forall|j: int| 0 <= j < i ==> !#[trigger] forks_from(*board, player, j),
            decreases 81 - i,
        {
            match board.squares[i] {
                Some(piece) => {
                    if piece.player == player {
                        let pos = Position::from_index(i);
                        let attacks = self.attack_tables.get_attacks(pos, piece.piece_type, player);
                        let enemies = count_enemies(board, player, &attacks);
                        if enemies >= 2 {
                            assert(forks_from(*board, player, i as int));
                            return true;
                        }
                    }
                },
                None => {},
            }
            i += 1;
        }
        false
    }

    fn detect_pin_fast(&self, _board: &Board, _player: Player) -> (r: bool)
        ensures
            !r,
    {
        false
    }

    fn detect_outpost_fast(&self, _board: &Board, _player: Player) -> (r: bool)
        ensures
            !r,
    {
        false
    }

    fn evaluate_center_fast(&self, board: &Board, player: Player) -> (r: i32)
        ensures
            r == center_occupation(*board, player),
    {
        let centers = crate::opening_principles::center_positions();
        let ghost f = |c: Position|
            match piece_at(*board, c.row as int, c.col as int) {
                Some(pc) => if pc.player == player {
                    20int
                } else {
                    -20int
                },
                None => 0int,
            };
        let mut score: i32 = 0;
        let mut k: usize = 0;
        while k < 9
            invariant
                k <= 9,
                centers@ == center_squares(),
                f == (|c: Position|
                    match piece_at(*board, c.row as int, c.col as int) {
                        Some(pc) => if pc.player == player {
                            20int
                        } else {
                            -20int
                        },
                        None => 0int,
                    }),
                score == sum_over(center_squares().take(k as int), f),
                -20 * k <= score <= 20 * k,
            decreases 9 - k,
        {
            proof {
                crate::board::lemma_sum_take(center_squares(), f, k as int);
            }
            match board.get_piece(centers[k]) {
                Some(piece) => {
                    if piece.player == player {
                        score += 20;
                    } else {
                        score -= 20;
                    }
                },
                None => {},
            }
            k += 1;
        }
        proof {
            crate::board::lemma_take_all(center_squares());
        }
        score
    }

    /// The statistics.
    pub fn stats(&self) -> (r: &OptimizationStats)
        ensures
            r.fast_detections == self.detections(),
            r.total_time_ns == self.total_time(),
    {
        &self.stats
    }

    /// Average scan time in nanoseconds, zero before the first scan.
    pub fn avg_time_ns(&self) -> (r: u64)
        ensures
            r == (if self.detections() == 0 {
                0
            } else {
                self.total_time() / self.detections()
            }),
    {
        if self.stats.fast_detections == 0 {
            0
        } else {
            self.stats.total_time_ns / self.stats.fast_detections
        }
    }
}

impl Default for OptimizedPatternDetector {
    fn default() -> (r: Self)
        ensures
            r.detections() == 0,
            r.total_time() == 0,
    {
        OptimizedPatternDetector::new()
    }
}

/// Pattern `t` is flagged in `flags`.
pub open spec fn flag_set(flags: u8, t: u8) -> bool {
    flags & (1u8 << t) != 0
}

/// Clamps to the `i16` range.
pub open spec fn clamp16(v: i32) -> i16 {
    if v < -32768 {
        -32768i16
    } else if v > 32767 {
        32767i16
    } else {
        v as i16
    }
}

/// Pattern flags and scores in a few bytes.
pub struct CompactPatternStorage {
    pattern_flags: u8,
    tactical_mg: i16,
    tactical_eg: i16,
    positional_mg: i16,
    positional_eg: i16,
    endgame_mg: i16,
    endgame_eg: i16,
}

impl CompactPatternStorage {
    pub closed spec fn flags(&self) -> u8 {
        self.pattern_flags
    }

    pub closed spec fn tactical(&self) -> (i16, i16) {
        (self.tactical_mg, self.tactical_eg)
    }

    /// No pattern flagged, all scores zero.
    pub fn new() -> (r: Self)
        ensures
            r.flags() == 0,
            r.tactical() == (0i16, 0i16),
    {
        CompactPatternStorage {
            pattern_flags: 0,
            tactical_mg: 0,
            tactical_eg: 0,
            positional_mg: 0,
            positional_eg: 0,
            endgame_mg: 0,
            endgame_eg: 0,
        }
    }

    /// Flags pattern `pattern_type` (one of eight).
    pub fn set_pattern(&mut self, pattern_type: u8)
        requires
            pattern_type < 8,
        ensures
            final(self).flags() == old(self).flags() | (1u8 << pattern_type),
            final(self).tactical() == old(self).tactical(),
    {
        self.pattern_flags = self.pattern_flags | (1u8 << pattern_type);
    }

    /// Whether pattern `pattern_type` is flagged.
    pub fn has_pattern(&self, pattern_type: u8) -> (r: bool)
        requires
            pattern_type < 8,
        ensures
            r == flag_set(self.flags(), pattern_type),
    {
        (self.pattern_flags & (1u8 << pattern_type)) != 0
    }

    /// Stores the tactical score, each part clamped to the `i16` range.
    pub fn set_tactical_score(&mut self, mg: i32, eg: i32)
        ensures
            final(self).tactical() == (clamp16(mg), clamp16(eg)),
            final(self).flags() == old(self).flags(),
    {
        self.tactical_mg = if mg < -32768 {
            -32768
        } else if mg > 32767 {
            32767
        } else {
            mg as i16
        };
        self.tactical_eg = if eg < -32768 {
            -32768
        } else if eg > 32767 {
            32767
        } else {
            eg as i16
        };
    }

    /// The stored tactical score.
    pub fn get_tactical_score(&self) -> (r: (i32, i32))
        ensures
            r == (self.tactical().0 as i32, self.tactical().1 as i32),
    {
        (self.tactical_mg as i32, self.tactical_eg as i32)
    }
}

impl Default for CompactPatternStorage {
    fn default() -> (r: Self)
        ensures
            r.flags() == 0,
            r.tactical() == (0i16, 0i16),
    {
        CompactPatternStorage::new()
    }
}

/// Setting a pattern flag makes it present and leaves every other flag as
/// it was.
pub proof fn law_set_pattern(flags: u8, t: u8, u: u8)
    requires
        t < 8,
        u < 8,
    ensures
        flag_set(flags | (1u8 << t), t),
        u != t ==> flag_set(flags | (1u8 << t), u) == flag_set(flags, u),
{
    assert(((flags | (1u8 << t)) & (1u8 << t)) != 0) by (bit_vector)
        requires
            t < 8,
    ;
    assert(u != t ==> (((flags | (1u8 << t)) & (1u8 << u)) != 0) == ((flags & (1u8 << u)) != 0)) by (bit_vector)
        requires
            t < 8,
            u < 8,
    ;
}

/// A stored tactical score reads back clamped to the `i16` range.
pub proof fn law_tactical_round_trip(mg: i32, eg: i32)
    ensures
        -32768 <= clamp16(mg) <= 32767,
        (-32768 <= mg <= 32767) ==> clamp16(mg) as i32 == mg,
        mg > 32767 ==> clamp16(mg) == 32767,
        mg < -32768 ==> clamp16(mg) == -32768,
{
}

} // verus!
