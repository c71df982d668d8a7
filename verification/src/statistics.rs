//! Running statistics of evaluations: piece-square contributions per
//! sample, score and phase distributions, and timing extremes.

use vstd::prelude::*;
use crate::clock::{clock_now, nanos_since};
use crate::position_features::PositionFeatureStats;
use crate::positional_patterns::PositionalStatsSnapshot;
use crate::types::{PieceType, TaperedScore, trunc_div};

verus! {

/// Piece-square contribution of one piece kind.
#[derive(Debug, Clone, Copy, PartialEq, Eq, Structural)]
pub struct PieceSquarePieceTelemetry {
    pub piece: PieceType,
    pub mg: i32,
    pub eg: i32,
}

/// Piece-square totals of one evaluation and the kinds that contributed.
#[derive(Debug, Clone, Default)]
pub struct PieceSquareTelemetry {
    pub total_mg: i32,
    pub total_eg: i32,
    pub per_piece: Vec<PieceSquarePieceTelemetry>,
}

/// Entries for the first `n` kinds whose contribution is not zero in both
/// phases, in kind order.
pub open spec fn nonzero_entries(per_piece: Seq<TaperedScore>, n: int) -> Seq<PieceSquarePieceTelemetry>
    decreases n,
{
    if n <= 0 {
        Seq::empty()
    } else {
        let prev = nonzero_entries(per_piece, n - 1);
        let c = per_piece[n - 1];
        if c.mg != 0 || c.eg != 0 {
            prev.push(PieceSquarePieceTelemetry { piece: PieceType::from_idx(n - 1), mg: c.mg, eg: c.eg })
        } else {
            prev
        }
    }
}

impl PieceSquareTelemetry {
    /// Telemetry from a total and the contribution of each kind (indexed by
    /// kind); kinds contributing nothing are left out.
    pub fn from_contributions(total: TaperedScore, per_piece: &[TaperedScore; 14]) -> (r: Self)
        ensures
            r.total_mg == total.mg,
            r.total_eg == total.eg,
            r.per_piece@ == nonzero_entries(per_piece@, 14),
    {
        let mut entries: Vec<PieceSquarePieceTelemetry> = Vec::new();
        let mut i: usize = 0;
        while i < 14
            invariant
                i <= 14,
                entries@ == nonzero_entries(per_piece@, i as int),
            decreases 14 - i,
        {
            let contribution = per_piece[i];
            if contribution.mg != 0 || contribution.eg != 0 {
                entries.push(
                    PieceSquarePieceTelemetry { piece: PieceType::from_index(i), mg: contribution.mg, eg: contribution.eg },
                );
            }
            i += 1;
        }
        PieceSquareTelemetry { total_mg: total.mg, total_eg: total.eg, per_piece: entries }
    }
}

/// Sums of one kind's contributions over the recorded samples.
#[derive(Debug, Clone, Copy, Default)]
pub struct PieceSquarePieceAggregate {
    pub sum_mg: i64,
    pub sum_eg: i64,
    pub samples: u64,
}

/// Piece-square statistics over many evaluations: sums, the sample count,
/// per-kind sums and the last two totals.
#[derive(Debug, Clone, Default)]
pub struct PieceSquareStatisticsAggregate {
    total_mg_sum: i64,
    total_eg_sum: i64,
    sample_count: u64,
    per_piece: Vec<PieceSquarePieceAggregate>,
    last_total_mg: Option<i32>,
    last_total_eg: Option<i32>,
    previous_total_mg: Option<i32>,
    previous_total_eg: Option<i32>,
}

/// Count limit under which no 64-bit sum of the evaluation statistics can
/// overflow.
pub const SAMPLE_LIMIT: u64 = 4_000_000_000;

/// Sample limit of the piece-square aggregate, under which no per-kind sum
/// can overflow.
pub const PST_SAMPLE_LIMIT: u64 = 300_000_000;

impl PieceSquareStatisticsAggregate {
    pub closed spec fn samples(&self) -> nat {
        self.sample_count as nat
    }

    pub closed spec fn sums(&self) -> (int, int) {
        (self.total_mg_sum as int, self.total_eg_sum as int)
    }

    pub closed spec fn last(&self) -> (Option<i32>, Option<i32>) {
        (self.last_total_mg, self.last_total_eg)
    }

    pub closed spec fn previous(&self) -> (Option<i32>, Option<i32>) {
        (self.previous_total_mg, self.previous_total_eg)
    }

    /// Per-kind sums, present once anything was recorded.
    pub closed spec fn kind_sums(&self) -> Seq<PieceSquarePieceAggregate> {
        self.per_piece@
    }

    /// Sums are bounded by the sample count, and every kind counts at most
    /// as many samples as there are.
    pub closed spec fn wf(&self) -> bool {
        &&& self.sample_count <= PST_SAMPLE_LIMIT
        &&& -2147483648 * self.sample_count <= self.total_mg_sum <= 2147483647 * self.sample_count
        &&& -2147483648 * self.sample_count <= self.total_eg_sum <= 2147483647 * self.sample_count
        &&& (self.per_piece@.len() == 0 || self.per_piece@.len() == 14)
        &&& forall|k: int| 0 <= k < self.per_piece@.len() ==> {
            let a = #[trigger] self.per_piece@[k];
            &&& a.samples <= 14 * self.sample_count
            &&& -2147483648 * a.samples <= a.sum_mg <= 2147483647 * a.samples
            &&& -2147483648 * a.samples <= a.sum_eg <= 2147483647 * a.samples
        }
    }

    pub fn new() -> (r: Self)
        ensures
            r.wf(),
            r.samples() == 0,
            r.sums() == (0int, 0int),
            r.kind_sums().len() == 0,
            r.last() == (None::<i32>, None::<i32>),
            r.previous() == (None::<i32>, None::<i32>),
    {
        PieceSquareStatisticsAggregate {
            total_mg_sum: 0,
            total_eg_sum: 0,
            sample_count: 0,
            per_piece: Vec::new(),
            last_total_mg: None,
            last_total_eg: None,
            previous_total_mg: None,
            previous_total_eg: None,
        }
    }

    /// Adds one evaluation's telemetry: totals are summed and counted, the
    /// last totals become the previous ones, and each listed kind's
    /// contribution is added to that kind's sums.
    pub fn record(&mut self, telemetry: &PieceSquareTelemetry)
        requires
            old(self).wf(),
            old(self).samples() < PST_SAMPLE_LIMIT,
            telemetry.per_piece@.len() <= 14,
        ensures
            final(self).wf(),
            final(self).samples() == old(self).samples() + 1,
            final(self).sums() == (old(self).sums().0 + telemetry.total_mg, old(self).sums().1 + telemetry.total_eg),
            final(self).previous() == old(self).last(),
            final(self).last() == (Some(telemetry.total_mg), Some(telemetry.total_eg)),
            final(self).kind_sums().len() == 14,
    {
        if self.per_piece.len() != 14 {
            self.per_piece = vec![PieceSquarePieceAggregate { sum_mg: 0, sum_eg: 0, samples: 0 }; 14];
        }
        let n = self.sample_count;
        assert(-2147483648 * (n + 1) <= self.total_mg_sum + telemetry.total_mg <= 2147483647 * (n + 1)) by (nonlinear_arith)
            requires
                -2147483648 * n <= self.total_mg_sum <= 2147483647 * n,
                -2147483648 <= telemetry.total_mg <= 2147483647,
        ;
        assert(-2147483648 * (n + 1) <= self.total_eg_sum + telemetry.total_eg <= 2147483647 * (n + 1)) by (nonlinear_arith)
            requires
                -2147483648 * n <= self.total_eg_sum <= 2147483647 * n,
                -2147483648 <= telemetry.total_eg <= 2147483647,
        ;
        assert(2147483647 * (n + 1) <= 2147483647 * 300_000_000) by (nonlinear_arith)
            requires
                n + 1 <= 300_000_000,
        ;
        self.total_mg_sum = self.total_mg_sum + telemetry.total_mg as i64;
        self.total_eg_sum = self.total_eg_sum + telemetry.total_eg as i64;
        self.sample_count = self.sample_count + 1;
        self.previous_total_mg = self.last_total_mg;
        self.previous_total_eg = self.last_total_eg;
        self.last_total_mg = Some(telemetry.total_mg);
        self.last_total_eg = Some(telemetry.total_eg);
        let mut j: usize = 0;
        while j < telemetry.per_piece.len()
            invariant
                j <= telemetry.per_piece@.len(),
                telemetry.per_piece@.len() <= 14,
                self.per_piece@.len() == 14,
                self.sample_count == n + 1,
                n + 1 <= PST_SAMPLE_LIMIT,
                -2147483648 * self.sample_count <= self.total_mg_sum <= 2147483647 * self.sample_count,
                -2147483648 * self.sample_count <= self.total_eg_sum <= 2147483647 * self.sample_count,
                forall|k: int| 0 <= k < 14 ==> {
                    let a = #[trigger] self.per_piece@[k];
                    &&& a.samples <= 14 * n + j
                    &&& -2147483648 * a.samples <= a.sum_mg <= 2147483647 * a.samples
                    &&& -2147483648 * a.samples <= a.sum_eg <= 2147483647 * a.samples
                },
                self.previous_total_mg == old(self).last_total_mg,
                self.previous_total_eg == old(self).last_total_eg,
                self.last_total_mg == Some(telemetry.total_mg),
                self.last_total_eg == Some(telemetry.total_eg),
                self.total_mg_sum == old(self).total_mg_sum + telemetry.total_mg,
                self.total_eg_sum == old(self).total_eg_sum + telemetry.total_eg,
            decreases telemetry.per_piece@.len() - j,
        {
            let entry = telemetry.per_piece[j];
            let idx = entry.piece.as_index();
            let a = self.per_piece[idx];
            let s = a.samples;
            assert(s <= 14 * n + j);
            assert(-2147483648 * (s + 1) <= a.sum_mg + entry.mg <= 2147483647 * (s + 1)) by (nonlinear_arith)
                requires
                    -2147483648 * s <= a.sum_mg <= 2147483647 * s,
                    -2147483648 <= entry.mg <= 2147483647,
            ;
            assert(-2147483648 * (s + 1) <= a.sum_eg + entry.eg <= 2147483647 * (s + 1)) by (nonlinear_arith)
                requires
                    -2147483648 * s <= a.sum_eg <= 2147483647 * s,
                    -2147483648 <= entry.eg <= 2147483647,
            ;
            assert(2147483647 * (s + 1) <= 2147483647 * 4_200_000_000) by (nonlinear_arith)
                requires
                    s + 1 <= 4_200_000_000,
            ;
            let updated = PieceSquarePieceAggregate {
                sum_mg: a.sum_mg + entry.mg as i64,
                sum_eg: a.sum_eg + entry.eg as i64,
                samples: a.samples + 1,
            };
            self.per_piece.set(idx, updated);
            j += 1;
        }
    }

    /// Number of recorded evaluations.
    pub fn sample_count(&self) -> (r: u64)
        ensures
            r == self.samples(),
    {
        self.sample_count
    }

    /// Sums of the recorded totals (middlegame, endgame).
    pub fn total_sums(&self) -> (r: (i64, i64))
        ensures
            r.0 == self.sums().0,
            r.1 == self.sums().1,
    {
        (self.total_mg_sum, self.total_eg_sum)
    }

    /// Sums of one kind's recorded contributions, once anything was
    /// recorded.
    pub fn piece_sums(&self, piece: PieceType) -> (r: Option<PieceSquarePieceAggregate>)
        ensures
            r == if self.kind_sums().len() == 14 {
                Some(self.kind_sums()[piece.idx() as int])
            } else {
                None::<PieceSquarePieceAggregate>
            },
    {
        if self.per_piece.len() == 14 {
            Some(self.per_piece[piece.as_index()])
        } else {
            None
        }
    }

    /// Totals of the latest evaluation, once one was recorded.
    pub fn last_totals(&self) -> (r: Option<(i32, i32)>)
        ensures
            r == match self.last() {
                (Some(mg), Some(eg)) => Some((mg, eg)),
                _ => None,
            },
    {
        match (self.last_total_mg, self.last_total_eg) {
            (Some(mg), Some(eg)) => Some((mg, eg)),
            _ => None,
        }
    }

    /// Totals of the evaluation before the latest, once two were recorded.
    pub fn previous_totals(&self) -> (r: Option<(i32, i32)>)
        ensures
            r == match self.previous() {
                (Some(mg), Some(eg)) => Some((mg, eg)),
                _ => None,
            },
    {
        match (self.previous_total_mg, self.previous_total_eg) {
            (Some(mg), Some(eg)) => Some((mg, eg)),
            _ => None,
        }
    }
}

/// Bucket of a score in the ten 2000-wide buckets from -10000 to 10000,
/// scores outside falling into the end buckets.
pub open spec fn score_bucket(score: int) -> int {
    let b = trunc_div(score + 10000, 2000);
    if b < 0 { 0 } else if b > 9 { 9 } else { b }
}

/// Bucket of a phase in the 26 buckets of ten phase units.
pub open spec fn phase_bucket(phase: int) -> int {
    let b = trunc_div(phase, 10);
    if b < 0 { 0 } else if b > 25 { 25 } else { b }
}

/// Score sum, extremes, count and distribution.
#[derive(Debug, Clone, Copy, Default)]
pub struct ScoreStatistics {
    pub sum: i64,
    pub min: i32,
    pub max: i32,
    pub count: u64,
    pub distribution: [u64; 10],
}

impl ScoreStatistics {
    /// Adds a score: summed, counted, folded into the extremes (the first
    /// score sets both) and into its distribution bucket.
    pub fn record(&mut self, score: i32)
        requires
            score <= i32::MAX - 10000,
            i64::MIN <= old(self).sum + score <= i64::MAX,
            old(self).count < u64::MAX,
            forall|k: int| 0 <= k < 10 ==> #[trigger] old(self).distribution@[k] < u64::MAX,
        ensures
            final(self).sum == old(self).sum + score,
            final(self).count == old(self).count + 1,
            final(self).min == if old(self).count == 0 || score < old(self).min { score } else { old(self).min },
            final(self).max == if old(self).count == 0 || score > old(self).max { score } else { old(self).max },
            final(self).distribution@ == old(self).distribution@.update(
                score_bucket(score as int),
                (old(self).distribution@[score_bucket(score as int)] + 1) as u64,
            ),
    {
        self.sum = self.sum + score as i64;
        self.min = if self.count == 0 || score < self.min { score } else { self.min };
        self.max = if self.count == 0 || score > self.max { score } else { self.max };
        self.count = self.count + 1;
        let shifted = score + 10000;
        let q = if shifted >= 0 { shifted / 2000 } else { -((-shifted) / 2000) };
        let bucket: usize = if q < 0 { 0 } else if q > 9 { 9 } else { q as usize };
        self.distribution[bucket] = self.distribution[bucket] + 1;
    }
}

/// Phase sum, category counts and distribution.
#[derive(Debug, Clone, Copy, Default)]
pub struct PhaseStatistics {
    pub sum: i64,
    /// Phases of 192 and above.
    pub opening_count: u64,
    /// Phases from 64 below 192.
    pub middlegame_count: u64,
    /// Phases below 64.
    pub endgame_count: u64,
    pub distribution: [u64; 26],
}

impl PhaseStatistics {
    /// Adds a phase: summed, counted in its category and its bucket.
    pub fn record(&mut self, phase: i32)
        requires
            i64::MIN <= old(self).sum + phase <= i64::MAX,
            old(self).opening_count < u64::MAX,
            old(self).middlegame_count < u64::MAX,
            old(self).endgame_count < u64::MAX,
            forall|k: int| 0 <= k < 26 ==> #[trigger] old(self).distribution@[k] < u64::MAX,
        ensures
            final(self).sum == old(self).sum + phase,
            final(self).opening_count == old(self).opening_count + if phase >= 192 { 1int } else { 0int },
            final(self).middlegame_count == old(self).middlegame_count + if 64 <= phase < 192 { 1int } else { 0int },
            final(self).endgame_count == old(self).endgame_count + if phase < 64 { 1int } else { 0int },
            final(self).distribution@ == old(self).distribution@.update(
                phase_bucket(phase as int),
                (old(self).distribution@[phase_bucket(phase as int)] + 1) as u64,
            ),
    {
        self.sum = self.sum + phase as i64;
        if phase >= 192 {
            self.opening_count = self.opening_count + 1;
        } else if phase >= 64 {
            self.middlegame_count = self.middlegame_count + 1;
        } else {
            self.endgame_count = self.endgame_count + 1;
        }
        let q = if phase >= 0 { phase / 10 } else { -((-(phase as i64)) / 10) as i32 };
        let bucket: usize = if q < 0 { 0 } else if q > 25 { 25 } else { q as usize };
        self.distribution[bucket] = self.distribution[bucket] + 1;
    }
}

/// Timing sum, count and extremes.
#[derive(Debug, Clone, Copy, Default)]
pub struct PerformanceMetrics {
    pub total_time_ns: u64,
    pub timing_count: u64,
    pub min_time_ns: u64,
    pub max_time_ns: u64,
}

impl PerformanceMetrics {
    /// Adds a timing: summed, counted, and folded into the extremes (the
    /// first timing sets both).
    pub fn record_timing(&mut self, duration_ns: u64)
        requires
            old(self).total_time_ns + duration_ns <= u64::MAX,
            old(self).timing_count < u64::MAX,
        ensures
            final(self).total_time_ns == old(self).total_time_ns + duration_ns,
            final(self).timing_count == old(self).timing_count + 1,
            final(self).min_time_ns == if old(self).timing_count == 0 || duration_ns < old(self).min_time_ns {
                duration_ns
            } else {
                old(self).min_time_ns
            },
            final(self).max_time_ns == if old(self).timing_count == 0 || duration_ns > old(self).max_time_ns {
                duration_ns
            } else {
                old(self).max_time_ns
            },
    {
        self.total_time_ns = self.total_time_ns + duration_ns;
        self.timing_count = self.timing_count + 1;
        if self.timing_count == 1 {
            self.min_time_ns = duration_ns;
            self.max_time_ns = duration_ns;
        } else {
            if duration_ns < self.min_time_ns {
                self.min_time_ns = duration_ns;
            }
            if duration_ns > self.max_time_ns {
                self.max_time_ns = duration_ns;
            }
        }
    }
}


/// Longest single timing accepted, in nanoseconds (4 s).
pub const DURATION_LIMIT: u64 = 4_000_000_000;

/// Accuracy of predicted against actual scores: exact sums of the squared
/// and absolute errors, and the count.
#[derive(Debug, Clone, Copy, Default)]
pub struct AccuracyMetrics {
    pub sum_squared_error: u128,
    pub sum_absolute_error: u64,
    pub count: u64,
}

impl AccuracyMetrics {
    /// The sums are those of at most `SAMPLE_LIMIT` errors of 32-bit size.
    pub open spec fn bounded(self) -> bool {
        &&& self.count <= SAMPLE_LIMIT
        &&& self.sum_absolute_error <= 4294967296 * self.count
        &&& self.sum_squared_error <= 18446744073709551616 * self.count
    }

    /// Adds one prediction: its error's square and absolute value are summed
    /// and counted.
    pub fn record(&mut self, predicted: i32, actual: i32)
        requires
            old(self).bounded(),
            old(self).count < SAMPLE_LIMIT,
            i32::MIN <= predicted - actual <= i32::MAX,
        ensures
            final(self).bounded(),
            final(self).count == old(self).count + 1,
            final(self).sum_absolute_error == old(self).sum_absolute_error + abs_error(predicted as int, actual as int),
            final(self).sum_squared_error == old(self).sum_squared_error + abs_error(predicted as int, actual as int)
                * abs_error(predicted as int, actual as int),
    {
        let error = predicted as i64 - actual as i64;
        let magnitude: u64 = if error < 0 { (-error) as u64 } else { error as u64 };
        let n = self.count;
        assert(magnitude * magnitude <= 18446744073709551616) by (nonlinear_arith)
            requires
                magnitude <= 4294967296,
        ;
        assert(self.sum_absolute_error + magnitude <= 4294967296 * (n + 1)) by (nonlinear_arith)
            requires
                self.sum_absolute_error <= 4294967296 * n,
                magnitude <= 4294967296,
        ;
        assert(4294967296 * (n + 1) <= 4294967296 * 4_000_000_000) by (nonlinear_arith)
            requires
                n + 1 <= 4_000_000_000,
        ;
        assert(self.sum_squared_error + magnitude * magnitude <= 18446744073709551616 * (n + 1)) by (nonlinear_arith)
            requires
                self.sum_squared_error <= 18446744073709551616 * n,
                magnitude * magnitude <= 18446744073709551616,
        ;
        assert(18446744073709551616 * (n + 1) <= 18446744073709551616 * 4_000_000_000) by (nonlinear_arith)
            requires
                n + 1 <= 4_000_000_000,
        ;
        let m = magnitude as u128;
        self.sum_absolute_error = self.sum_absolute_error + magnitude;
        self.sum_squared_error = self.sum_squared_error + m * m;
        self.count = n + 1;
    }
}

pub open spec fn abs_error(predicted: int, actual: int) -> int {
    if predicted >= actual { predicted - actual } else { actual - predicted }
}

/// The latest evaluator telemetry this library can hold: piece-square
/// contributions and the position-feature and positional counters.
#[derive(Debug, Clone, Default)]
pub struct EvaluationTelemetry {
    pub pst: Option<PieceSquareTelemetry>,
    pub position_features: Option<PositionFeatureStats>,
    pub positional: Option<PositionalStatsSnapshot>,
}

/// Nothing recorded in the score statistics.
pub open spec fn scores_empty(s: ScoreStatistics) -> bool {
    &&& s.sum == 0 && s.min == 0 && s.max == 0 && s.count == 0
    &&& forall|k: int| 0 <= k < 10 ==> #[trigger] s.distribution@[k] == 0
}

/// Nothing recorded in the phase statistics.
pub open spec fn phases_empty(p: PhaseStatistics) -> bool {
    &&& p.sum == 0 && p.opening_count == 0 && p.middlegame_count == 0 && p.endgame_count == 0
    &&& forall|k: int| 0 <= k < 26 ==> #[trigger] p.distribution@[k] == 0
}

pub open spec fn fresh_accuracy() -> AccuracyMetrics {
    AccuracyMetrics { sum_squared_error: 0, sum_absolute_error: 0, count: 0 }
}

pub open spec fn fresh_timings() -> PerformanceMetrics {
    PerformanceMetrics { total_time_ns: 0, timing_count: 0, min_time_ns: 0, max_time_ns: 0 }
}

/// `b` is `a` after recording `score` (as `ScoreStatistics::record` does).
pub open spec fn score_recorded(a: ScoreStatistics, b: ScoreStatistics, score: int) -> bool {
    &&& b.sum == a.sum + score
    &&& b.count == a.count + 1
    &&& b.min == if a.count == 0 || score < a.min { score } else { a.min as int }
    &&& b.max == if a.count == 0 || score > a.max { score } else { a.max as int }
    &&& b.distribution@ == a.distribution@.update(score_bucket(score), (a.distribution@[score_bucket(score)] + 1) as u64)
}

/// `b` is `a` after recording `phase` (as `PhaseStatistics::record` does).
pub open spec fn phase_recorded(a: PhaseStatistics, b: PhaseStatistics, phase: int) -> bool {
    &&& b.sum == a.sum + phase
    &&& b.opening_count == a.opening_count + if phase >= 192 { 1int } else { 0int }
    &&& b.middlegame_count == a.middlegame_count + if 64 <= phase < 192 { 1int } else { 0int }
    &&& b.endgame_count == a.endgame_count + if phase < 64 { 1int } else { 0int }
    &&& b.distribution@ == a.distribution@.update(phase_bucket(phase), (a.distribution@[phase_bucket(phase)] + 1) as u64)
}

/// `b` is `a` after recording a timing of `d` nanoseconds.
pub open spec fn timing_recorded(a: PerformanceMetrics, b: PerformanceMetrics, d: int) -> bool {
    &&& b.total_time_ns == a.total_time_ns + d
    &&& b.timing_count == a.timing_count + 1
    &&& b.min_time_ns == if a.timing_count == 0 || d < a.min_time_ns { d } else { a.min_time_ns as int }
    &&& b.max_time_ns == if a.timing_count == 0 || d > a.max_time_ns { d } else { a.max_time_ns as int }
}

/// `b` is `a` after recording one prediction against its actual score.
pub open spec fn accuracy_recorded(a: AccuracyMetrics, b: AccuracyMetrics, predicted: int, actual: int) -> bool {
    &&& b.count == a.count + 1
    &&& b.sum_absolute_error == a.sum_absolute_error + abs_error(predicted, actual)
    &&& b.sum_squared_error == a.sum_squared_error + abs_error(predicted, actual) * abs_error(predicted, actual)
}

/// `b` is `a` after recording one piece-square telemetry sample.
pub open spec fn pst_recorded(a: PieceSquareStatisticsAggregate, b: PieceSquareStatisticsAggregate, t: PieceSquareTelemetry) -> bool {
    &&& b.wf()
    &&& b.samples() == a.samples() + 1
    &&& b.sums() == (a.sums().0 + t.total_mg, a.sums().1 + t.total_eg)
    &&& b.previous() == a.last()
    &&& b.last() == (Some(t.total_mg), Some(t.total_eg))
    &&& b.kind_sums().len() == 14
}

/// Statistics of evaluations: counts, score and phase distributions,
/// accuracy, timings, piece-square aggregates and the latest counters of
/// the feature evaluators; nothing is recorded while disabled.
#[derive(Debug, Clone)]
pub struct EvaluationStatistics {
    enabled: bool,
    evaluation_count: u64,
    score_stats: ScoreStatistics,
    phase_stats: PhaseStatistics,
    accuracy_metrics: AccuracyMetrics,
    performance_metrics: PerformanceMetrics,
    session_start: Option<std::time::Instant>,
    telemetry: Option<EvaluationTelemetry>,
    pst_stats: PieceSquareStatisticsAggregate,
    collect_position_feature_stats: bool,
    position_feature_stats: Option<PositionFeatureStats>,
    positional_stats: Option<PositionalStatsSnapshot>,
}

impl EvaluationStatistics {
    pub closed spec fn enabled_view(&self) -> bool {
        self.enabled
    }

    pub closed spec fn count_view(&self) -> u64 {
        self.evaluation_count
    }

    pub closed spec fn scores(&self) -> ScoreStatistics {
        self.score_stats
    }

    pub closed spec fn phases(&self) -> PhaseStatistics {
        self.phase_stats
    }

    pub closed spec fn accuracy_view(&self) -> AccuracyMetrics {
        self.accuracy_metrics
    }

    pub closed spec fn timings(&self) -> PerformanceMetrics {
        self.performance_metrics
    }

    pub closed spec fn pst_view(&self) -> PieceSquareStatisticsAggregate {
        self.pst_stats
    }

    pub closed spec fn collects_features(&self) -> bool {
        self.collect_position_feature_stats
    }

    pub closed spec fn feature_stats_view(&self) -> Option<PositionFeatureStats> {
        self.position_feature_stats
    }

    pub closed spec fn positional_view(&self) -> Option<PositionalStatsSnapshot> {
        self.positional_stats
    }

    pub closed spec fn telemetry_view(&self) -> Option<EvaluationTelemetry> {
        self.telemetry
    }

    /// Every sum is bounded by its count and every count by `SAMPLE_LIMIT`.
    pub closed spec fn wf(&self) -> bool {
        let s = self.score_stats;
        let p = self.phase_stats;
        let n = p.opening_count + p.middlegame_count + p.endgame_count;
        let t = self.performance_metrics;
        &&& self.evaluation_count <= SAMPLE_LIMIT
        &&& s.count <= SAMPLE_LIMIT
        &&& -2147483648 * s.count <= s.sum <= 2147483647 * s.count
        &&& forall|k: int| 0 <= k < 10 ==> #[trigger] s.distribution@[k] <= s.count
        &&& n <= SAMPLE_LIMIT
        &&& -2147483648 * n <= p.sum <= 2147483647 * n
        &&& forall|k: int| 0 <= k < 26 ==> #[trigger] p.distribution@[k] <= n
        &&& self.accuracy_metrics.bounded()
        &&& t.timing_count <= SAMPLE_LIMIT
        &&& t.total_time_ns <= DURATION_LIMIT * t.timing_count
        &&& self.pst_stats.wf()
    }

    /// Every count can take one more sample.
    pub closed spec fn room(&self) -> bool {
        let p = self.phase_stats;
        &&& self.evaluation_count < SAMPLE_LIMIT
        &&& self.score_stats.count < SAMPLE_LIMIT
        &&& p.opening_count + p.middlegame_count + p.endgame_count < SAMPLE_LIMIT
        &&& self.accuracy_metrics.count < SAMPLE_LIMIT
        &&& self.performance_metrics.timing_count < SAMPLE_LIMIT
    }

    /// A disabled tracker with nothing recorded.
    pub fn new() -> (r: Self)
        ensures
            r.wf(),
            r.room(),
            !r.enabled_view(),
            r.count_view() == 0,
            scores_empty(r.scores()),
            phases_empty(r.phases()),
            r.accuracy_view() == fresh_accuracy(),
            r.timings() == fresh_timings(),
            r.pst_view().samples() == 0,
            !r.collects_features(),
            r.feature_stats_view().is_none(),
            r.positional_view().is_none(),
            r.telemetry_view().is_none(),
    {
        let r = EvaluationStatistics {
            enabled: false,
            evaluation_count: 0,
            score_stats: ScoreStatistics { sum: 0, min: 0, max: 0, count: 0, distribution: [0u64; 10] },
            phase_stats: PhaseStatistics {
                sum: 0,
                opening_count: 0,
                middlegame_count: 0,
                endgame_count: 0,
                distribution: [0u64; 26],
            },
            accuracy_metrics: AccuracyMetrics { sum_squared_error: 0, sum_absolute_error: 0, count: 0 },
            performance_metrics: PerformanceMetrics { total_time_ns: 0, timing_count: 0, min_time_ns: 0, max_time_ns: 0 },
            session_start: None,
            telemetry: None,
            pst_stats: PieceSquareStatisticsAggregate::new(),
            collect_position_feature_stats: false,
            position_feature_stats: None,
            positional_stats: None,
        };
        r
    }

    /// Turns recording on and starts the session clock.
    pub fn enable(&mut self)
        requires
            old(self).wf(),
        ensures
            final(self).wf(),
            final(self).enabled_view(),
            final(self).count_view() == old(self).count_view(),
            final(self).scores() == old(self).scores(),
            final(self).phases() == old(self).phases(),
            final(self).accuracy_view() == old(self).accuracy_view(),
            final(self).timings() == old(self).timings(),
            final(self).pst_view() == old(self).pst_view(),
            final(self).room() == old(self).room(),
    {
        self.enabled = true;
        self.session_start = Some(clock_now());
    }

    /// Whether position-feature counters are kept; turning it off drops the
    /// counters kept so far.
    pub fn set_collect_position_feature_stats(&mut self, collect: bool)
        ensures
            final(self).collects_features() == collect,
            final(self).feature_stats_view() == if collect { old(self).feature_stats_view() } else { None },
            final(self).enabled_view() == old(self).enabled_view(),
            final(self).count_view() == old(self).count_view(),
            final(self).wf() == old(self).wf(),
            final(self).room() == old(self).room(),
    {
        self.collect_position_feature_stats = collect;
        if !collect {
            self.position_feature_stats = None;
        }
    }

    /// Keeps the latest position-feature counters, if they are collected.
    pub fn record_position_feature_stats(&mut self, stats: PositionFeatureStats)
        ensures
            final(self).feature_stats_view() == if old(self).collects_features() {
                Some(stats)
            } else {
                old(self).feature_stats_view()
            },
            final(self).collects_features() == old(self).collects_features(),
            final(self).enabled_view() == old(self).enabled_view(),
            final(self).wf() == old(self).wf(),
            final(self).room() == old(self).room(),
    {
        if self.collect_position_feature_stats {
            self.position_feature_stats = Some(stats);
        }
    }

    /// Keeps the latest positional pattern counters.
    pub fn record_positional_stats(&mut self, stats: PositionalStatsSnapshot)
        ensures
            final(self).positional_view() == Some(stats),
            final(self).enabled_view() == old(self).enabled_view(),
            final(self).wf() == old(self).wf(),
            final(self).room() == old(self).room(),
    {
        self.positional_stats = Some(stats);
    }

    /// Turns recording off.
    pub fn disable(&mut self)
        ensures
            !final(self).enabled_view(),
            final(self).count_view() == old(self).count_view(),
            final(self).scores() == old(self).scores(),
            final(self).phases() == old(self).phases(),
            final(self).wf() == old(self).wf(),
            final(self).room() == old(self).room(),
    {
        self.enabled = false;
    }

    proof fn lemma_phase_step(a: PhaseStatistics, b: PhaseStatistics, phase: int)
        requires
            phase_recorded(a, b, phase),
            i32::MIN <= phase <= i32::MAX,
            a.opening_count + a.middlegame_count + a.endgame_count < SAMPLE_LIMIT,
            -2147483648 * (a.opening_count + a.middlegame_count + a.endgame_count) <= a.sum <= 2147483647 * (
            a.opening_count + a.middlegame_count + a.endgame_count),
            forall|k: int| 0 <= k < 26 ==> #[trigger] a.distribution@[k] <= a.opening_count + a.middlegame_count
                + a.endgame_count,
        ensures
            b.opening_count + b.middlegame_count + b.endgame_count == a.opening_count + a.middlegame_count
                + a.endgame_count + 1,
            -2147483648 * (b.opening_count + b.middlegame_count + b.endgame_count) <= b.sum <= 2147483647 * (
            b.opening_count + b.middlegame_count + b.endgame_count),
            forall|k: int| 0 <= k < 26 ==> #[trigger] b.distribution@[k] <= b.opening_count + b.middlegame_count
                + b.endgame_count,
    {
        let n = a.opening_count + a.middlegame_count + a.endgame_count;
        assert(b.opening_count + b.middlegame_count + b.endgame_count == n + 1);
        assert forall|k: int| 0 <= k < 26 implies #[trigger] b.distribution@[k] <= n + 1 by {
            if k == phase_bucket(phase) {
            } else {
                assert(b.distribution@[k] == a.distribution@[k]);
            }
        }
    }

    proof fn lemma_score_step(a: ScoreStatistics, b: ScoreStatistics, score: int)
        requires
            score_recorded(a, b, score),
            i32::MIN <= score <= i32::MAX,
            -2147483648 * a.count <= a.sum <= 2147483647 * a.count,
            forall|k: int| 0 <= k < 10 ==> #[trigger] a.distribution@[k] <= a.count,
        ensures
            -2147483648 * b.count <= b.sum <= 2147483647 * b.count,
            forall|k: int| 0 <= k < 10 ==> #[trigger] b.distribution@[k] <= b.count,
    {
        assert forall|k: int| 0 <= k < 10 implies #[trigger] b.distribution@[k] <= b.count by {
            if k == score_bucket(score) {
            } else {
                assert(b.distribution@[k] == a.distribution@[k]);
            }
        }
    }

    /// Records an evaluation's score and phase, when enabled.
    pub fn record_evaluation(&mut self, score: i32, phase: i32)
        requires
            old(self).wf(),
            old(self).room(),
            score <= i32::MAX - 10000,
        ensures
            final(self).wf(),
            final(self).enabled_view() == old(self).enabled_view(),
            old(self).enabled_view() ==> {
                &&& final(self).count_view() == old(self).count_view() + 1
                &&& score_recorded(old(self).scores(), final(self).scores(), score as int)
                &&& phase_recorded(old(self).phases(), final(self).phases(), phase as int)
            },
            !old(self).enabled_view() ==> *final(self) == *old(self),
            final(self).accuracy_view() == old(self).accuracy_view(),
            final(self).timings() == old(self).timings(),
            final(self).pst_view() == old(self).pst_view(),
    {
        if !self.enabled {
            return;
        }
        let ghost s0 = self.score_stats;
        let ghost p0 = self.phase_stats;
        assert(2147483647 * s0.count <= 2147483647 * 4_000_000_000) by (nonlinear_arith)
            requires
                s0.count <= 4_000_000_000,
        ;
        let ghost pn = p0.opening_count + p0.middlegame_count + p0.endgame_count;
        assert(2147483647 * pn <= 2147483647 * 4_000_000_000) by (nonlinear_arith)
            requires
                pn <= 4_000_000_000,
        ;
        assert forall|k: int| 0 <= k < 10 implies #[trigger] s0.distribution@[k] < u64::MAX by {
            assert(s0.distribution@[k] <= s0.count);
        }
        assert forall|k: int| 0 <= k < 26 implies #[trigger] p0.distribution@[k] < u64::MAX by {
            assert(p0.distribution@[k] <= pn);
        }
        self.evaluation_count = self.evaluation_count + 1;
        self.score_stats.record(score);
        self.phase_stats.record(phase);
        proof {
            Self::lemma_score_step(s0, self.score_stats, score as int);
            Self::lemma_phase_step(p0, self.phase_stats, phase as int);
        }
    }

    /// Records a phase alone, when enabled.
    pub fn record_phase(&mut self, phase: i32)
        requires
            old(self).wf(),
            old(self).room(),
        ensures
            final(self).wf(),
            final(self).enabled_view() == old(self).enabled_view(),
            old(self).enabled_view() ==> phase_recorded(old(self).phases(), final(self).phases(), phase as int),
            !old(self).enabled_view() ==> *final(self) == *old(self),
            final(self).count_view() == old(self).count_view(),
            final(self).scores() == old(self).scores(),
    {
        if !self.enabled {
            return;
        }
        let ghost p0 = self.phase_stats;
        let ghost pn = p0.opening_count + p0.middlegame_count + p0.endgame_count;
        assert(2147483647 * pn <= 2147483647 * 4_000_000_000) by (nonlinear_arith)
            requires
                pn <= 4_000_000_000,
        ;
        assert forall|k: int| 0 <= k < 26 implies #[trigger] p0.distribution@[k] < u64::MAX by {
            assert(p0.distribution@[k] <= pn);
        }
        self.phase_stats.record(phase);
        proof {
            Self::lemma_phase_step(p0, self.phase_stats, phase as int);
        }
    }

    /// Records a prediction against the actual score, when enabled.
    pub fn record_accuracy(&mut self, predicted: i32, actual: i32)
        requires
            old(self).wf(),
            old(self).room(),
            i32::MIN <= predicted - actual <= i32::MAX,
        ensures
            final(self).wf(),
            final(self).enabled_view() == old(self).enabled_view(),
            old(self).enabled_view() ==> accuracy_recorded(
                old(self).accuracy_view(),
                final(self).accuracy_view(),
                predicted as int,
                actual as int,
            ),
            !old(self).enabled_view() ==> *final(self) == *old(self),
            final(self).count_view() == old(self).count_view(),
    {
        if !self.enabled {
            return;
        }
        self.accuracy_metrics.record(predicted, actual);
    }

    /// Records an evaluation's duration in nanoseconds, when enabled.
    pub fn record_timing(&mut self, duration_ns: u64)
        requires
            old(self).wf(),
            old(self).room(),
            duration_ns <= DURATION_LIMIT,
        ensures
            final(self).wf(),
            final(self).enabled_view() == old(self).enabled_view(),
            old(self).enabled_view() ==> timing_recorded(old(self).timings(), final(self).timings(), duration_ns as int),
            !old(self).enabled_view() ==> *final(self) == *old(self),
            final(self).count_view() == old(self).count_view(),
    {
        if !self.enabled {
            return;
        }
        let n = self.performance_metrics.timing_count;
        assert(self.performance_metrics.total_time_ns + duration_ns <= DURATION_LIMIT * (n + 1)) by (nonlinear_arith)
            requires
                self.performance_metrics.total_time_ns <= DURATION_LIMIT * n,
                duration_ns <= DURATION_LIMIT,
        ;
        assert(DURATION_LIMIT * (n + 1) <= DURATION_LIMIT * 4_000_000_000) by (nonlinear_arith)
            requires
                n + 1 <= 4_000_000_000,
        ;
        self.performance_metrics.record_timing(duration_ns);
    }

    /// Stores the evaluator's latest telemetry; when enabled, also adds its
    /// piece-square sample to the aggregate and keeps its counters (the
    /// position-feature ones only if they are collected).
    pub fn update_telemetry(&mut self, telemetry: EvaluationTelemetry)
        requires
            old(self).wf(),
            telemetry.pst.is_some() ==> old(self).pst_view().samples() < PST_SAMPLE_LIMIT,
            telemetry.pst matches Some(t) ==> t.per_piece@.len() <= 14,
        ensures
            final(self).wf(),
            final(self).telemetry_view() == Some(telemetry),
            final(self).enabled_view() == old(self).enabled_view(),
            final(self).count_view() == old(self).count_view(),
            final(self).collects_features() == old(self).collects_features(),
            match telemetry.pst {
                Some(t) if old(self).enabled_view() => pst_recorded(old(self).pst_view(), final(self).pst_view(), t),
                _ => final(self).pst_view() == old(self).pst_view(),
            },
            final(self).feature_stats_view() == match telemetry.position_features {
                Some(f) if old(self).enabled_view() && old(self).collects_features() => Some(f),
                _ => old(self).feature_stats_view(),
            },
            final(self).positional_view() == match telemetry.positional {
                Some(p) if old(self).enabled_view() => Some(p),
                _ => old(self).positional_view(),
            },
    {
        if self.enabled {
            match &telemetry.pst {
                Some(pst) => {
                    self.pst_stats.record(pst);
                },
                None => {},
            }
            if self.collect_position_feature_stats {
                match telemetry.position_features {
                    Some(stats) => {
                        self.position_feature_stats = Some(stats);
                    },
                    None => {},
                }
            }
            match telemetry.positional {
                Some(stats) => {
                    self.positional_stats = Some(stats);
                },
                None => {},
            }
        }
        self.telemetry = Some(telemetry);
    }

    /// The latest telemetry, once some was stored.
    pub fn telemetry(&self) -> (r: Option<&EvaluationTelemetry>)
        ensures
            r == match self.telemetry_view() {
                Some(t) => Some(&t),
                None => None::<&EvaluationTelemetry>,
            },
    {
        match &self.telemetry {
            Some(t) => Some(t),
            None => None,
        }
    }

    /// Clears everything recorded and restarts the session clock; the
    /// switches stay as they are.
    pub fn reset(&mut self)
        ensures
            final(self).wf(),
            final(self).room(),
            final(self).enabled_view() == old(self).enabled_view(),
            final(self).collects_features() == old(self).collects_features(),
            final(self).count_view() == 0,
            scores_empty(final(self).scores()),
            phases_empty(final(self).phases()),
            final(self).accuracy_view() == fresh_accuracy(),
            final(self).timings() == fresh_timings(),
            final(self).pst_view().samples() == 0,
            final(self).telemetry_view().is_none(),
            final(self).feature_stats_view() == if old(self).collects_features() {
                None
            } else {
                old(self).feature_stats_view()
            },
            final(self).positional_view().is_none(),
    {
        self.evaluation_count = 0;
        self.score_stats = ScoreStatistics { sum: 0, min: 0, max: 0, count: 0, distribution: [0u64; 10] };
        self.phase_stats = PhaseStatistics {
            sum: 0,
            opening_count: 0,
            middlegame_count: 0,
            endgame_count: 0,
            distribution: [0u64; 26],
        };
        self.accuracy_metrics = AccuracyMetrics { sum_squared_error: 0, sum_absolute_error: 0, count: 0 };
        self.performance_metrics = PerformanceMetrics { total_time_ns: 0, timing_count: 0, min_time_ns: 0, max_time_ns: 0 };
        self.session_start = Some(clock_now());
        self.telemetry = None;
        self.pst_stats = PieceSquareStatisticsAggregate::new();
        if self.collect_position_feature_stats {
            self.position_feature_stats = None;
        }
        self.positional_stats = None;
    }

    /// Number of recorded evaluations.
    pub fn count(&self) -> (r: u64)
        ensures
            r == self.count_view(),
    {
        self.evaluation_count
    }

    pub fn is_enabled(&self) -> (r: bool)
        ensures
            r == self.enabled_view(),
    {
        self.enabled
    }

    /// Whether every count can take one more sample.
    pub fn has_room(&self) -> (r: bool)
        ensures
            r == self.room(),
    {
        let p = self.phase_stats;
        self.evaluation_count < SAMPLE_LIMIT && self.score_stats.count < SAMPLE_LIMIT && p.opening_count
            < SAMPLE_LIMIT && p.middlegame_count < SAMPLE_LIMIT && p.endgame_count < SAMPLE_LIMIT
            && p.opening_count + p.middlegame_count + p.endgame_count < SAMPLE_LIMIT
            && self.accuracy_metrics.count < SAMPLE_LIMIT && self.performance_metrics.timing_count < SAMPLE_LIMIT
    }

    /// Whether the piece-square aggregate can take one more sample.
    pub fn has_telemetry_room(&self) -> (r: bool)
        ensures
            r == (self.pst_view().samples() < PST_SAMPLE_LIMIT),
    {
        self.pst_stats.sample_count() < PST_SAMPLE_LIMIT
    }

    /// The piece-square aggregate.
    pub fn pst_statistics(&self) -> (r: &PieceSquareStatisticsAggregate)
        ensures
            *r == self.pst_view(),
    {
        &self.pst_stats
    }

    pub fn score_statistics(&self) -> (r: ScoreStatistics)
        ensures
            r == self.scores(),
    {
        self.score_stats
    }

    pub fn phase_statistics(&self) -> (r: PhaseStatistics)
        ensures
            r == self.phases(),
    {
        self.phase_stats
    }

    pub fn accuracy_metrics(&self) -> (r: AccuracyMetrics)
        ensures
            r == self.accuracy_view(),
    {
        self.accuracy_metrics
    }

    pub fn performance_metrics(&self) -> (r: PerformanceMetrics)
        ensures
            r == self.timings(),
    {
        self.performance_metrics
    }

    pub fn position_feature_stats(&self) -> (r: Option<PositionFeatureStats>)
        ensures
            r == self.feature_stats_view(),
    {
        self.position_feature_stats
    }

    pub fn positional_stats(&self) -> (r: Option<PositionalStatsSnapshot>)
        ensures
            r == self.positional_view(),
    {
        self.positional_stats
    }

    /// Nanoseconds since the session clock started (enabling or resetting),
    /// if it has.
    pub fn session_nanos(&self) -> (r: Option<u64>)
        ensures
            r.is_some() == session_started(self),
    {
        match &self.session_start {
            Some(start) => Some(nanos_since(start)),
            None => None,
        }
    }
}

/// The session clock of `s` has been started.
pub closed spec fn session_started(s: &EvaluationStatistics) -> bool {
    s.session_start.is_some()
}

impl Default for EvaluationStatistics {
    fn default() -> (r: Self)
        ensures
            r.wf(),
            !r.enabled_view(),
            r.count_view() == 0,
    {
        EvaluationStatistics::new()
    }
}

} // verus!
