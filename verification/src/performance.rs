//! Profiling of the tapered evaluation and an evaluator that combines
//! material, piece-square tables and phase interpolation on a fast path.
//!
//! The profiler keeps bounded sample lists per evaluation stage and, for
//! sampled calls, a list of timings per named operation. Timing values come
//! from the monotonic clock; what is recorded, and when, is decided by the
//! sampling counter alone.

use vstd::prelude::*;
use crate::board::{Board, square_sum};
use crate::clock::{clock_now, nanos_since};
use crate::material::{HAND_LIMIT, MaterialEvaluationConfig, MaterialEvaluator, calculate_game_phase, game_phase,
    material_balance};
use crate::piece_square_tables::{PieceSquareTables, PieceSquareTableStorage, pst_value};
use crate::types::{CapturedPieces, PieceType, Player, Position, TaperedScore};

verus! {

/// Most samples kept per stage.
pub const MAX_SAMPLES: usize = 10000;

/// Timings recorded for one named operation.
#[derive(Clone, Debug)]
pub struct OperationTiming {
    pub name: String,
    pub samples: Vec<u64>,
}

/// No two entries share a name.
pub open spec fn names_distinct(s: Seq<OperationTiming>) -> bool {
    forall|i: int, j: int| 0 <= i < s.len() && 0 <= j < s.len() && i != j ==> #[trigger] s[i].name@ != #[trigger] s[j].name@
}

/// The timings recorded under `name` (empty when there are none).
pub open spec fn samples_of(s: Seq<OperationTiming>, name: Seq<char>) -> Seq<u64> {
    if exists|i: int| 0 <= i < s.len() && #[trigger] s[i].name@ == name {
        s[choose|i: int| 0 <= i < s.len() && #[trigger] s[i].name@ == name].samples@
    } else {
        Seq::empty()
    }
}

proof fn lemma_samples_at(s: Seq<OperationTiming>, i: int)
    requires
        names_distinct(s),
        0 <= i < s.len(),
    ensures
        samples_of(s, s[i].name@) == s[i].samples@,
{
    let name = s[i].name@;
    assert(s[i].name@ == name);
    let j = choose|j: int| 0 <= j < s.len() && #[trigger] s[j].name@ == name;
    if j != i {
        assert(s[i].name@ != s[j].name@);
    }
}

proof fn lemma_samples_absent(s: Seq<OperationTiming>, name: Seq<char>)
    requires
        forall|i: int| 0 <= i < s.len() ==> #[trigger] s[i].name@ != name,
    ensures
        samples_of(s, name) == Seq::<u64>::empty(),
{
}

/// Replacing the samples of entry `i` changes only what `samples_of` gives
/// for that entry's name.
proof fn lemma_samples_update(s: Seq<OperationTiming>, i: int, e: OperationTiming, name: Seq<char>)
    requires
        names_distinct(s),
        0 <= i < s.len(),
        e.name@ == s[i].name@,
    ensures
        names_distinct(s.update(i, e)),
        samples_of(s.update(i, e), name) == if name == s[i].name@ { e.samples@ } else { samples_of(s, name) },
{
    let t = s.update(i, e);
    assert forall|a: int, b: int| 0 <= a < t.len() && 0 <= b < t.len() && a != b implies #[trigger] t[a].name@
        != #[trigger] t[b].name@ by {
        assert(t[a].name@ == s[a].name@);
        assert(t[b].name@ == s[b].name@);
        assert(s[a].name@ != s[b].name@);
    }
    if name == s[i].name@ {
        lemma_samples_at(t, i);
    } else {
        if exists|k: int| 0 <= k < s.len() && #[trigger] s[k].name@ == name {
            let k = choose|k: int| 0 <= k < s.len() && #[trigger] s[k].name@ == name;
            lemma_samples_at(s, k);
            assert(t[k].name@ == name);
            lemma_samples_at(t, k);
        } else {
            assert forall|k: int| 0 <= k < t.len() implies #[trigger] t[k].name@ != name by {
                if k != i {
                    assert(t[k] == s[k]);
                }
            }
        }
    }
}

/// Appending an entry under a fresh name.
proof fn lemma_samples_push(s: Seq<OperationTiming>, e: OperationTiming, name: Seq<char>)
    requires
        names_distinct(s),
        forall|i: int| 0 <= i < s.len() ==> #[trigger] s[i].name@ != e.name@,
    ensures
        names_distinct(s.push(e)),
        samples_of(s.push(e), name) == if name == e.name@ { e.samples@ } else { samples_of(s, name) },
{
    let t = s.push(e);
    assert forall|a: int, b: int| 0 <= a < t.len() && 0 <= b < t.len() && a != b implies #[trigger] t[a].name@
        != #[trigger] t[b].name@ by {
        if a < s.len() && b < s.len() {
            assert(s[a].name@ != s[b].name@);
        } else if a < s.len() {
            assert(s[a].name@ != e.name@);
        } else {
            assert(s[b].name@ != e.name@);
        }
    }
    if name == e.name@ {
        lemma_samples_at(t, s.len() as int);
    } else if exists|k: int| 0 <= k < s.len() && #[trigger] s[k].name@ == name {
        let k = choose|k: int| 0 <= k < s.len() && #[trigger] s[k].name@ == name;
        lemma_samples_at(s, k);
        assert(t[k] == s[k]);
        lemma_samples_at(t, k);
    } else {
        assert forall|k: int| 0 <= k < t.len() implies #[trigger] t[k].name@ != name by {
            if k < s.len() {
                assert(t[k] == s[k]);
            }
        }
    }
}

/// One step of the sampling counter: whether the call is sampled and the
/// counter afterwards. Disabled profiling samples nothing and keeps the
/// counter; otherwise every `rate`-th call is sampled.
pub open spec fn sample_step(enabled: bool, counter: nat, rate: nat) -> (bool, nat) {
    if !enabled {
        (false, counter)
    } else if counter + 1 >= rate {
        (true, 0)
    } else {
        (false, (counter + 1) as nat)
    }
}

/// `next` follows a profiler whose flag, rate, counter, operation records,
/// record count and overhead are the given ones by one operation record of
/// `nanos` under `name`.
pub open spec fn operation_step(
    enabled: bool,
    rate: nat,
    counter: nat,
    before: Seq<OperationTiming>,
    operations_before: u64,
    overhead_before: u64,
    next: PerformanceProfiler,
    name: Seq<char>,
    nanos: u64,
) -> bool {
    let (sampled, c) = sample_step(enabled, counter, rate);
    &&& next.call_counter == c
    &&& sampled ==> {
        &&& forall|n: Seq<char>| #[trigger] samples_of(next.operation_timings@, n) == if n == name {
            samples_of(before, n).push(nanos)
        } else {
            samples_of(before, n)
        }
        &&& next.profiling_operations == operations_before + 1
    }
    &&& !sampled ==> {
        &&& next.operation_timings@ == before
        &&& next.profiling_operations == operations_before
        &&& next.profiling_overhead_ns == overhead_before
    }
}

/// Performance profiler for the evaluation stages.
#[derive(Clone, Debug)]
pub struct PerformanceProfiler {
    pub enabled: bool,
    /// Evaluation timings (nanoseconds).
    pub evaluation_times: Vec<u64>,
    pub phase_calc_times: Vec<u64>,
    pub pst_lookup_times: Vec<u64>,
    /// Middlegame part of each recorded piece-square contribution.
    pub pst_mg_totals: Vec<i32>,
    /// Endgame part of each recorded piece-square contribution.
    pub pst_eg_totals: Vec<i32>,
    pub interpolation_times: Vec<u64>,
    pub max_samples: usize,
    pub sample_rate: u32,
    pub call_counter: u32,
    pub operation_timings: Vec<OperationTiming>,
    /// Time spent recording operations.
    pub profiling_overhead_ns: u64,
    /// Number of operation records made.
    pub profiling_operations: u64,
}

impl PerformanceProfiler {
    pub open spec fn wf(&self) -> bool {
        &&& self.call_counter < u32::MAX
        &&& self.max_samples == MAX_SAMPLES
        &&& names_distinct(self.operation_timings@)
    }

    /// Most samples kept per stage.
    pub open spec fn max_samples_view(&self) -> nat {
        self.max_samples as nat
    }

    pub open spec fn rate(&self) -> nat {
        self.sample_rate as nat
    }

    pub open spec fn counter(&self) -> nat {
        self.call_counter as nat
    }

    /// Timings recorded under an operation name.
    pub open spec fn operation_samples(&self, name: Seq<char>) -> Seq<u64> {
        samples_of(self.operation_timings@, name)
    }

    /// The operation records, their count and overhead are those of `other`.
    pub open spec fn same_operations(&self, other: &Self) -> bool {
        &&& self.operation_timings@ == other.operation_timings@
        &&& self.profiling_operations == other.profiling_operations
        &&& self.profiling_overhead_ns == other.profiling_overhead_ns
    }

    /// A disabled profiler sampling every call, with no records.
    pub fn new() -> (r: Self)
        ensures
            r.wf(),
            !r.enabled,
            r.rate() == 1,
            r.counter() == 0,
            r.max_samples_view() == MAX_SAMPLES,
            r.evaluation_times@.len() == 0,
            r.phase_calc_times@.len() == 0,
            r.pst_lookup_times@.len() == 0,
            r.pst_mg_totals@.len() == 0,
            r.pst_eg_totals@.len() == 0,
            r.interpolation_times@.len() == 0,
            forall|n: Seq<char>| #[trigger] r.operation_samples(n) == Seq::<u64>::empty(),
            r.profiling_overhead_ns == 0,
            r.profiling_operations == 0,
    {
        PerformanceProfiler {
            enabled: false,
            evaluation_times: Vec::new(),
            phase_calc_times: Vec::new(),
            pst_lookup_times: Vec::new(),
            pst_mg_totals: Vec::new(),
            pst_eg_totals: Vec::new(),
            interpolation_times: Vec::new(),
            max_samples: MAX_SAMPLES,
            sample_rate: 1,
            call_counter: 0,
            operation_timings: Vec::new(),
            profiling_overhead_ns: 0,
            profiling_operations: 0,
        }
    }

    /// A new profiler sampling every `sample_rate`-th call.
    pub fn with_sample_rate(sample_rate: u32) -> (r: Self)
        ensures
            r.wf(),
            !r.enabled,
            r.rate() == sample_rate,
            r.counter() == 0,
            r.max_samples_view() == MAX_SAMPLES,
            r.evaluation_times@.len() == 0,
            r.phase_calc_times@.len() == 0,
            r.pst_lookup_times@.len() == 0,
            r.pst_mg_totals@.len() == 0,
            r.pst_eg_totals@.len() == 0,
            r.interpolation_times@.len() == 0,
            forall|n: Seq<char>| #[trigger] r.operation_samples(n) == Seq::<u64>::empty(),
            r.profiling_overhead_ns == 0,
            r.profiling_operations == 0,
    {
        PerformanceProfiler {
            enabled: false,
            evaluation_times: Vec::new(),
            phase_calc_times: Vec::new(),
            pst_lookup_times: Vec::new(),
            pst_mg_totals: Vec::new(),
            pst_eg_totals: Vec::new(),
            interpolation_times: Vec::new(),
            max_samples: MAX_SAMPLES,
            sample_rate,
            call_counter: 0,
            operation_timings: Vec::new(),
            profiling_overhead_ns: 0,
            profiling_operations: 0,
        }
    }

    /// Sets the sample rate, at least 1.
    pub fn set_sample_rate(&mut self, sample_rate: u32)
        ensures
            *final(self) == (PerformanceProfiler {
                sample_rate: if sample_rate >= 1 { sample_rate } else { 1 },
                ..*old(self)
            }),
            old(self).wf() ==> final(self).wf(),
    {
        self.sample_rate = if sample_rate >= 1 { sample_rate } else { 1 };
    }

    fn should_sample(&mut self) -> (r: bool)
        requires
            old(self).wf(),
        ensures
            (r, final(self).counter()) == sample_step(old(self).enabled, old(self).counter(), old(self).rate()),
            *final(self) == (PerformanceProfiler { call_counter: final(self).call_counter, ..*old(self) }),
            final(self).wf(),
    {
        if !self.enabled {
            return false;
        }
        self.call_counter += 1;
        if self.call_counter >= self.sample_rate {
            self.call_counter = 0;
            true
        } else {
            false
        }
    }

    fn append_timing(&mut self, operation: &str, nanos: u64)
        requires
            old(self).wf(),
        ensures
            final(self).wf(),
            forall|n: Seq<char>| #[trigger] samples_of(final(self).operation_timings@, n) == if n == operation@ {
                samples_of(old(self).operation_timings@, n).push(nanos)
            } else {
                samples_of(old(self).operation_timings@, n)
            },
            *final(self) == (PerformanceProfiler { operation_timings: final(self).operation_timings, ..*old(self) }),
    {
        let key = operation.to_owned();
        let ghost s0 = self.operation_timings@;
        let mut i: usize = 0;
        while i < self.operation_timings.len()
            invariant
                i <= self.operation_timings@.len(),
                *self == *old(self),
                self.wf(),
                self.operation_timings@ == s0,
                names_distinct(s0),
                key@ == operation@,
                forall|k: int| 0 <= k < i ==> #[trigger] s0[k].name@ != key@,
            decreases self.operation_timings@.len() - i,
        {
            if self.operation_timings[i].name == key {
                let mut entry = self.operation_timings.remove(i);
                entry.samples.push(nanos);
                proof {
                    lemma_samples_at(s0, i as int);
                    assert forall|n: Seq<char>| #[trigger] samples_of(s0.update(i as int, entry), n) == if n
                        == operation@ {
                        samples_of(s0, n).push(nanos)
                    } else {
                        samples_of(s0, n)
                    } by {
                        lemma_samples_update(s0, i as int, entry, n);
                    }
                    lemma_samples_update(s0, i as int, entry, key@);
                }
                self.operation_timings.insert(i, entry);
                assert(self.operation_timings@ =~= s0.update(i as int, entry));
                return;
            }
            i += 1;
        }
        let mut samples: Vec<u64> = Vec::new();
        samples.push(nanos);
        let entry = OperationTiming { name: key, samples };
        proof {
            lemma_samples_absent(s0, key@);
            assert forall|n: Seq<char>| #[trigger] samples_of(s0.push(entry), n) == if n == operation@ {
                samples_of(s0, n).push(nanos)
            } else {
                samples_of(s0, n)
            } by {
                lemma_samples_push(s0, entry, n);
                assert(seq![nanos] =~= Seq::<u64>::empty().push(nanos));
            }
            lemma_samples_push(s0, entry, key@);
        }
        self.operation_timings.push(entry);
    }

    /// Records a timing under an operation name when the call is sampled,
    /// and counts the record.
    pub fn record_operation(&mut self, operation: &str, nanos: u64)
        requires
            old(self).wf(),
            old(self).profiling_operations < u64::MAX,
        ensures
            final(self).wf(),
            operation_step(
                old(self).enabled,
                old(self).rate(),
                old(self).counter(),
                old(self).operation_timings@,
                old(self).profiling_operations,
                old(self).profiling_overhead_ns,
                *final(self),
                operation@,
                nanos,
            ),
            *final(self) == (PerformanceProfiler {
                operation_timings: final(self).operation_timings,
                call_counter: final(self).call_counter,
                profiling_operations: final(self).profiling_operations,
                profiling_overhead_ns: final(self).profiling_overhead_ns,
                ..*old(self)
            }),
    {
        if !self.should_sample() {
            return;
        }
        let overhead_start = clock_now();
        self.append_timing(operation, nanos);
        let overhead_ns = nanos_since(&overhead_start);
        self.profiling_overhead_ns = self.profiling_overhead_ns.wrapping_add(overhead_ns);
        self.profiling_operations += 1;
    }

    pub fn enable(&mut self)
        ensures
            final(self).enabled,
            *final(self) == (PerformanceProfiler { enabled: true, ..*old(self) }),
    {
        self.enabled = true;
    }

    pub fn disable(&mut self)
        ensures
            !final(self).enabled,
            *final(self) == (PerformanceProfiler { enabled: false, ..*old(self) }),
    {
        self.enabled = false;
    }

    /// Records an evaluation time when the call is sampled and the list has
    /// room; such a record is also made under the operation "evaluation".
    pub fn record_evaluation(&mut self, nanos: u64)
        requires
            old(self).wf(),
            old(self).profiling_operations < u64::MAX,
        ensures
            final(self).wf(),
            old(self).evaluation_times@.len() <= old(self).max_samples_view() ==> final(self).evaluation_times@.len()
                <= final(self).max_samples_view(),
            *final(self) == (PerformanceProfiler {
                evaluation_times: final(self).evaluation_times,
                operation_timings: final(self).operation_timings,
                call_counter: final(self).call_counter,
                profiling_operations: final(self).profiling_operations,
                profiling_overhead_ns: final(self).profiling_overhead_ns,
                ..*old(self)
            }),
            ({
                let (sampled, c) = sample_step(old(self).enabled, old(self).counter(), old(self).rate());
                if sampled && old(self).evaluation_times@.len() < old(self).max_samples_view() {
                    &&& final(self).evaluation_times@ == old(self).evaluation_times@.push(nanos)
                    &&& operation_step(
                        old(self).enabled,
                        old(self).rate(),
                        c,
                        old(self).operation_timings@,
                        old(self).profiling_operations,
                        old(self).profiling_overhead_ns,
                        *final(self),
                        "evaluation"@,
                        nanos,
                    )
                } else {
                    &&& final(self).evaluation_times@ == old(self).evaluation_times@
                    &&& final(self).counter() == c
                    &&& final(self).same_operations(old(self))
                }
            }),
    {
        if self.should_sample() && self.evaluation_times.len() < self.max_samples {
            self.evaluation_times.push(nanos);
            self.record_operation("evaluation", nanos);
        }
    }

    /// Records a phase calculation time (sampled like evaluations, under the
    /// operation "phase_calculation").
    pub fn record_phase_calculation(&mut self, nanos: u64)
        requires
            old(self).wf(),
            old(self).profiling_operations < u64::MAX,
        ensures
            final(self).wf(),
            old(self).phase_calc_times@.len() <= old(self).max_samples_view() ==> final(self).phase_calc_times@.len()
                <= final(self).max_samples_view(),
            *final(self) == (PerformanceProfiler {
                phase_calc_times: final(self).phase_calc_times,
                operation_timings: final(self).operation_timings,
                call_counter: final(self).call_counter,
                profiling_operations: final(self).profiling_operations,
                profiling_overhead_ns: final(self).profiling_overhead_ns,
                ..*old(self)
            }),
            ({
                let (sampled, c) = sample_step(old(self).enabled, old(self).counter(), old(self).rate());
                if sampled && old(self).phase_calc_times@.len() < old(self).max_samples_view() {
                    &&& final(self).phase_calc_times@ == old(self).phase_calc_times@.push(nanos)
                    &&& operation_step(
                        old(self).enabled,
                        old(self).rate(),
                        c,
                        old(self).operation_timings@,
                        old(self).profiling_operations,
                        old(self).profiling_overhead_ns,
                        *final(self),
                        "phase_calculation"@,
                        nanos,
                    )
                } else {
                    &&& final(self).phase_calc_times@ == old(self).phase_calc_times@
                    &&& final(self).counter() == c
                    &&& final(self).same_operations(old(self))
                }
            }),
    {
        if self.should_sample() && self.phase_calc_times.len() < self.max_samples {
            self.phase_calc_times.push(nanos);
            self.record_operation("phase_calculation", nanos);
        }
    }

    /// Records a piece-square lookup time while enabled and the list has
    /// room (no sampling).
    pub fn record_pst_lookup(&mut self, nanos: u64)
        ensures
            final(self).pst_lookup_times@ == if old(self).enabled && old(self).pst_lookup_times@.len()
                < old(self).max_samples_view() {
                old(self).pst_lookup_times@.push(nanos)
            } else {
                old(self).pst_lookup_times@
            },
            *final(self) == (PerformanceProfiler { pst_lookup_times: final(self).pst_lookup_times, ..*old(self) }),
    {
        if self.enabled && self.pst_lookup_times.len() < self.max_samples {
            self.pst_lookup_times.push(nanos);
        }
    }

    /// Records a piece-square contribution while enabled and the middlegame
    /// list has room.
    pub fn record_pst_score(&mut self, mg: i32, eg: i32)
        ensures
            old(self).enabled && old(self).pst_mg_totals@.len() < old(self).max_samples_view() ==> {
                &&& final(self).pst_mg_totals@ == old(self).pst_mg_totals@.push(mg)
                &&& final(self).pst_eg_totals@ == old(self).pst_eg_totals@.push(eg)
            },
            !(old(self).enabled && old(self).pst_mg_totals@.len() < old(self).max_samples_view()) ==> *final(self)
                == *old(self),
            *final(self) == (PerformanceProfiler {
                pst_mg_totals: final(self).pst_mg_totals,
                pst_eg_totals: final(self).pst_eg_totals,
                ..*old(self)
            }),
    {
        if self.enabled && self.pst_mg_totals.len() < self.max_samples {
            self.pst_mg_totals.push(mg);
            self.pst_eg_totals.push(eg);
        }
    }

    /// Records an interpolation time (sampled like evaluations, under the
    /// operation "interpolation").
    pub fn record_interpolation(&mut self, nanos: u64)
        requires
            old(self).wf(),
            old(self).profiling_operations < u64::MAX,
        ensures
            final(self).wf(),
            old(self).interpolation_times@.len() <= old(self).max_samples_view() ==> final(self).interpolation_times@.len()
                <= final(self).max_samples_view(),
            *final(self) == (PerformanceProfiler {
                interpolation_times: final(self).interpolation_times,
                operation_timings: final(self).operation_timings,
                call_counter: final(self).call_counter,
                profiling_operations: final(self).profiling_operations,
                profiling_overhead_ns: final(self).profiling_overhead_ns,
                ..*old(self)
            }),
            ({
                let (sampled, c) = sample_step(old(self).enabled, old(self).counter(), old(self).rate());
                if sampled && old(self).interpolation_times@.len() < old(self).max_samples_view() {
                    &&& final(self).interpolation_times@ == old(self).interpolation_times@.push(nanos)
                    &&& operation_step(
                        old(self).enabled,
                        old(self).rate(),
                        c,
                        old(self).operation_timings@,
                        old(self).profiling_operations,
                        old(self).profiling_overhead_ns,
                        *final(self),
                        "interpolation"@,
                        nanos,
                    )
                } else {
                    &&& final(self).interpolation_times@ == old(self).interpolation_times@
                    &&& final(self).counter() == c
                    &&& final(self).same_operations(old(self))
                }
            }),
    {
        if self.should_sample() && self.interpolation_times.len() < self.max_samples {
            self.interpolation_times.push(nanos);
            self.record_operation("interpolation", nanos);
        }
    }

    /// Clears every record and the sampling counter; the flag and the rate
    /// stay.
    pub fn reset(&mut self)
        ensures
            final(self).enabled == old(self).enabled,
            final(self).rate() == old(self).rate(),
            final(self).max_samples_view() == old(self).max_samples_view(),
            final(self).counter() == 0,
            final(self).evaluation_times@.len() == 0,
            final(self).phase_calc_times@.len() == 0,
            final(self).pst_lookup_times@.len() == 0,
            final(self).pst_mg_totals@.len() == 0,
            final(self).pst_eg_totals@.len() == 0,
            final(self).interpolation_times@.len() == 0,
            forall|n: Seq<char>| #[trigger] final(self).operation_samples(n) == Seq::<u64>::empty(),
            final(self).profiling_overhead_ns == 0,
            final(self).profiling_operations == 0,
            old(self).wf() ==> final(self).wf(),
    {
        self.evaluation_times.clear();
        self.phase_calc_times.clear();
        self.pst_lookup_times.clear();
        self.pst_mg_totals.clear();
        self.pst_eg_totals.clear();
        self.interpolation_times.clear();
        self.operation_timings.clear();
        self.call_counter = 0;
        self.profiling_overhead_ns = 0;
        self.profiling_operations = 0;
    }

    /// Number of evaluation samples.
    pub fn sample_count(&self) -> (r: usize)
        ensures
            r == self.evaluation_times@.len(),
    {
        self.evaluation_times.len()
    }

    /// Enables the profiler until the returned guard is dropped, which
    /// restores the previous flag.
    pub fn scoped_enable(&mut self) -> (g: PerformanceProfilerGuard<'_>)
        ensures
            g.previous() == old(self).enabled,
            g.current() == (PerformanceProfiler { enabled: true, ..*old(self) }),
    {
        let previous_state = self.enabled;
        self.enabled = true;
        PerformanceProfilerGuard { profiler: self, previous_state }
    }
}

impl Default for PerformanceProfiler {
    fn default() -> (r: Self)
        ensures
            r.wf(),
            !r.enabled,
            r.rate() == 1,
            r.counter() == 0,
            r.evaluation_times@.len() == 0,
            r.profiling_operations == 0,
    {
        Self::new()
    }
}

/// Keeps a profiler enabled while it lives; dropping it restores the flag
/// the profiler had before.
pub struct PerformanceProfilerGuard<'a> {
    profiler: &'a mut PerformanceProfiler,
    previous_state: bool,
}

impl<'a> PerformanceProfilerGuard<'a> {
    pub closed spec fn previous(&self) -> bool {
        self.previous_state
    }

    pub closed spec fn current(&self) -> PerformanceProfiler {
        *self.profiler
    }

    /// The guarded profiler.
    pub fn profiler(&self) -> (r: &PerformanceProfiler)
        ensures
            *r == self.current(),
    {
        &*self.profiler
    }
}

impl<'a> Drop for PerformanceProfilerGuard<'a> {
    fn drop(&mut self)
        opens_invariants none
        no_unwind
    {
        self.profiler.enabled = self.previous_state;
    }
}

} // verus!

verus! {

/// Largest piece-square value, in either phase, that a board square may
/// contribute to the optimized evaluation.
pub const PST_TERM_LIMIT: i32 = 20_000_000;

/// Piece-square contribution of square `i` from `player`'s side: the
/// piece's value for its owner, counted for `player` or against.
pub open spec fn pst_term(s: PieceSquareTableStorage, b: Board, player: Player, i: int, part: int) -> int {
    match b.squares@[i] {
        Some(pc) => {
            let v = pst_value(s, pc.piece_type, Position::at_index(i), pc.player);
            let x = if part == 0 { v.mg as int } else { v.eg as int };
            if pc.player == player { x } else { -x }
        },
        None => 0,
    }
}

/// Piece-square balance of the board from `player`'s side.
pub open spec fn pst_total(s: PieceSquareTableStorage, b: Board, player: Player, part: int) -> int {
    square_sum(|i: int| pst_term(s, b, player, i, part), 81)
}

/// Every occupied square's table values lie within the term limit.
pub open spec fn pst_bounded(s: PieceSquareTableStorage, b: Board) -> bool {
    forall|i: int| 0 <= i < 81 ==> {
        &&& -PST_TERM_LIMIT <= #[trigger] pst_term(s, b, Player::Black, i, 0) <= PST_TERM_LIMIT
        &&& -PST_TERM_LIMIT <= pst_term(s, b, Player::Black, i, 1) <= PST_TERM_LIMIT
    }
}

/// Blend of a middlegame and an endgame value at a phase, rounded toward
/// zero.
pub open spec fn blend(mg: int, eg: int, phase: int) -> int {
    crate::types::trunc_div(mg * phase + eg * (256 - phase), 256)
}

/// Score of the optimized evaluation: material plus piece-square balance,
/// interpolated at the game phase.
pub open spec fn optimized_score(
    config: MaterialEvaluationConfig,
    s: PieceSquareTableStorage,
    b: Board,
    hand: CapturedPieces,
    player: Player,
) -> int {
    blend(
        material_balance(config, b, hand, player, 0) + pst_total(s, b, player, 0),
        material_balance(config, b, hand, player, 1) + pst_total(s, b, player, 1),
        game_phase(b),
    )
}

/// Evaluator combining material, piece-square tables and linear phase
/// interpolation, with an attached profiler.
pub struct OptimizedEvaluator {
    material_eval: MaterialEvaluator,
    pst: PieceSquareTables,
    profiler: PerformanceProfiler,
}

impl OptimizedEvaluator {
    pub closed spec fn material_config(&self) -> MaterialEvaluationConfig {
        self.material_eval.config
    }

    pub closed spec fn tables(&self) -> PieceSquareTableStorage {
        self.pst.inner
    }

    pub closed spec fn profiler_state(&self) -> PerformanceProfiler {
        self.profiler
    }

    pub open spec fn wf(&self) -> bool {
        self.profiler_state().wf()
    }

    /// Default material settings, the built-in tables and a fresh profiler.
    pub fn new() -> (r: Self)
        ensures
            r.wf(),
            r.material_config() == (MaterialEvaluationConfig { include_hand_pieces: true }),
            r.tables() == crate::piece_square_tables::builtin_storage(),
            !r.profiler_state().enabled,
            r.profiler_state().evaluation_times@.len() == 0,
    {
        Self::with_config(&MaterialEvaluationConfig::default())
    }

    /// The given material settings with the built-in tables.
    pub fn with_config(material_config: &MaterialEvaluationConfig) -> (r: Self)
        ensures
            r.wf(),
            r.material_config() == *material_config,
            r.tables() == crate::piece_square_tables::builtin_storage(),
            !r.profiler_state().enabled,
            r.profiler_state().evaluation_times@.len() == 0,
    {
        Self::with_components(material_config, PieceSquareTables::new())
    }

    /// The given material settings and tables.
    pub fn with_components(material_config: &MaterialEvaluationConfig, pst: PieceSquareTables) -> (r: Self)
        ensures
            r.wf(),
            r.material_config() == *material_config,
            r.tables() == pst.inner,
            !r.profiler_state().enabled,
            r.profiler_state().evaluation_times@.len() == 0,
    {
        OptimizedEvaluator {
            material_eval: MaterialEvaluator::with_config(*material_config),
            pst,
            profiler: PerformanceProfiler::new(),
        }
    }

    /// Replaces the material settings.
    pub fn apply_material_config(&mut self, material_config: &MaterialEvaluationConfig)
        ensures
            final(self).material_config() == *material_config,
            final(self).tables() == old(self).tables(),
            final(self).profiler_state() == old(self).profiler_state(),
    {
        self.material_eval.apply_config(*material_config);
    }

    /// Replaces the piece-square tables.
    pub fn apply_piece_square_tables(&mut self, pst: PieceSquareTables)
        ensures
            final(self).tables() == pst.inner,
            final(self).material_config() == old(self).material_config(),
            final(self).profiler_state() == old(self).profiler_state(),
    {
        self.pst = pst;
    }

    fn calculate_phase_optimized(&mut self, board: &Board) -> (r: i32)
        requires
            old(self).wf(),
            old(self).profiler.profiling_operations < u64::MAX,
        ensures
            r == game_phase(*board),
            0 <= r <= 256,
            final(self).wf(),
            final(self).material_eval == old(self).material_eval,
            final(self).pst == old(self).pst,
            final(self).profiler.enabled == old(self).profiler.enabled,
            !old(self).profiler.enabled ==> final(self).profiler == old(self).profiler,
            final(self).profiler.profiling_operations <= old(self).profiler.profiling_operations + 1,
            final(self).profiler.evaluation_times@ == old(self).profiler.evaluation_times@,
            final(self).profiler.interpolation_times@ == old(self).profiler.interpolation_times@,
            final(self).profiler.pst_lookup_times@ == old(self).profiler.pst_lookup_times@,
            final(self).profiler.pst_mg_totals@ == old(self).profiler.pst_mg_totals@,
            final(self).profiler.pst_eg_totals@ == old(self).profiler.pst_eg_totals@,
            old(self).profiler.phase_calc_times@.is_prefix_of(final(self).profiler.phase_calc_times@),
            final(self).profiler.phase_calc_times@.len() <= old(self).profiler.phase_calc_times@.len() + 1,
    {
        let start = if self.profiler.enabled { Some(clock_now()) } else { None };
        let phase = calculate_game_phase(board);
        match start {
            Some(t) => {
                let elapsed = nanos_since(&t);
                self.profiler.record_phase_calculation(elapsed);
            },
            None => {},
        }
        phase
    }

    fn evaluate_pst_optimized(&mut self, board: &Board, player: Player) -> (r: TaperedScore)
        requires
            pst_bounded(old(self).pst.inner, *board),
        ensures
            r.mg == pst_total(old(self).pst.inner, *board, player, 0),
            r.eg == pst_total(old(self).pst.inner, *board, player, 1),
            -1_620_000_000 <= r.mg <= 1_620_000_000,
            -1_620_000_000 <= r.eg <= 1_620_000_000,
            final(self).material_eval == old(self).material_eval,
            final(self).pst == old(self).pst,
            old(self).profiler.wf() ==> final(self).profiler.wf(),
            !old(self).profiler.enabled ==> final(self).profiler == old(self).profiler,
            final(self).profiler == (PerformanceProfiler {
                pst_lookup_times: final(self).profiler.pst_lookup_times,
                pst_mg_totals: final(self).profiler.pst_mg_totals,
                pst_eg_totals: final(self).profiler.pst_eg_totals,
                ..old(self).profiler
            }),
            old(self).profiler.pst_lookup_times@.is_prefix_of(final(self).profiler.pst_lookup_times@),
            final(self).profiler.pst_lookup_times@.len() <= old(self).profiler.pst_lookup_times@.len() + 1,
            final(self).profiler.pst_mg_totals@ == if old(self).profiler.enabled
                && old(self).profiler.pst_mg_totals@.len() < old(self).profiler.max_samples {
                old(self).profiler.pst_mg_totals@.push(r.mg)
            } else {
                old(self).profiler.pst_mg_totals@
            },
            final(self).profiler.pst_eg_totals@ == if old(self).profiler.enabled
                && old(self).profiler.pst_mg_totals@.len() < old(self).profiler.max_samples {
                old(self).profiler.pst_eg_totals@.push(r.eg)
            } else {
                old(self).profiler.pst_eg_totals@
            },
    {
        let start = if self.profiler.enabled { Some(clock_now()) } else { None };
        let ghost s = self.pst.inner;
        let ghost fm = |i: int| pst_term(s, *board, player, i, 0);
        let ghost fe = |i: int| pst_term(s, *board, player, i, 1);
        let mut mg: i32 = 0;
        let mut eg: i32 = 0;
        let mut i: usize = 0;
        while i < 81
            invariant
                i <= 81,
                s == self.pst.inner,
                pst_bounded(s, *board),
                fm == (|i: int| pst_term(s, *board, player, i, 0)),
                fe == (|i: int| pst_term(s, *board, player, i, 1)),
                mg == square_sum(fm, i as int),
                eg == square_sum(fe, i as int),
                -20_000_000 * i <= mg <= 20_000_000 * i,
                -20_000_000 * i <= eg <= 20_000_000 * i,
            decreases 81 - i,
        {
            match board.squares[i] {
                Some(piece) => {
                    let pos = Position::from_index(i);
                    let v = self.pst.get_value(piece.piece_type, pos, piece.player);
                    proof {
                        assert(-PST_TERM_LIMIT <= pst_term(s, *board, Player::Black, i as int, 0) <= PST_TERM_LIMIT);
                    }
                    if piece.player == player {
                        mg += v.mg;
                        eg += v.eg;
                    } else {
                        mg -= v.mg;
                        eg -= v.eg;
                    }
                },
                None => {},
            }
            i += 1;
        }
        let score = TaperedScore::new_tapered(mg, eg);
        match start {
            Some(t) => {
                let elapsed = nanos_since(&t);
                self.profiler.record_pst_lookup(elapsed);
            },
            None => {},
        }
        self.profiler.record_pst_score(score.mg, score.eg);
        score
    }

    fn accumulate_scores_optimized(&mut self, board: &Board, player: Player, captured_pieces: &CapturedPieces) -> (r: TaperedScore)
        requires
            captured_pieces.counts_at_most(HAND_LIMIT),
            pst_bounded(old(self).pst.inner, *board),
        ensures
            r.mg == material_balance(old(self).material_eval.config, *board, *captured_pieces, player, 0)
                + pst_total(old(self).pst.inner, *board, player, 0),
            r.eg == material_balance(old(self).material_eval.config, *board, *captured_pieces, player, 1)
                + pst_total(old(self).pst.inner, *board, player, 1),
            final(self).material_eval == old(self).material_eval,
            final(self).pst == old(self).pst,
            old(self).profiler.wf() ==> final(self).profiler.wf(),
            !old(self).profiler.enabled ==> final(self).profiler == old(self).profiler,
            final(self).profiler == (PerformanceProfiler {
                pst_lookup_times: final(self).profiler.pst_lookup_times,
                pst_mg_totals: final(self).profiler.pst_mg_totals,
                pst_eg_totals: final(self).profiler.pst_eg_totals,
                ..old(self).profiler
            }),
            old(self).profiler.pst_lookup_times@.is_prefix_of(final(self).profiler.pst_lookup_times@),
            final(self).profiler.pst_lookup_times@.len() <= old(self).profiler.pst_lookup_times@.len() + 1,
            final(self).profiler.pst_mg_totals@ == if old(self).profiler.enabled
                && old(self).profiler.pst_mg_totals@.len() < old(self).profiler.max_samples {
                old(self).profiler.pst_mg_totals@.push(pst_total(old(self).pst.inner, *board, player, 0) as i32)
            } else {
                old(self).profiler.pst_mg_totals@
            },
            final(self).profiler.pst_eg_totals@ == if old(self).profiler.enabled
                && old(self).profiler.pst_mg_totals@.len() < old(self).profiler.max_samples {
                old(self).profiler.pst_eg_totals@.push(pst_total(old(self).pst.inner, *board, player, 1) as i32)
            } else {
                old(self).profiler.pst_eg_totals@
            },
    {
        let material = self.material_eval.evaluate_material(board, player, captured_pieces);
        let pst = self.evaluate_pst_optimized(board, player);
        material.plus(pst)
    }

    fn interpolate_optimized(&mut self, score: TaperedScore, phase: i32) -> (r: i32)
        requires
            old(self).wf(),
            old(self).profiler.profiling_operations < u64::MAX,
            0 <= phase <= 256,
        ensures
            r == blend(score.mg as int, score.eg as int, phase as int),
            final(self).wf(),
            final(self).material_eval == old(self).material_eval,
            final(self).pst == old(self).pst,
            final(self).profiler.enabled == old(self).profiler.enabled,
            !old(self).profiler.enabled ==> final(self).profiler == old(self).profiler,
            final(self).profiler.profiling_operations <= old(self).profiler.profiling_operations + 1,
            final(self).profiler.evaluation_times@ == old(self).profiler.evaluation_times@,
            final(self).profiler.phase_calc_times@ == old(self).profiler.phase_calc_times@,
            final(self).profiler.pst_lookup_times@ == old(self).profiler.pst_lookup_times@,
            final(self).profiler.pst_mg_totals@ == old(self).profiler.pst_mg_totals@,
            final(self).profiler.pst_eg_totals@ == old(self).profiler.pst_eg_totals@,
            old(self).profiler.interpolation_times@.is_prefix_of(final(self).profiler.interpolation_times@),
            final(self).profiler.interpolation_times@.len() <= old(self).profiler.interpolation_times@.len() + 1,
    {
        let start = if self.profiler.enabled { Some(clock_now()) } else { None };
        let result = score.interpolate(phase);
        match start {
            Some(t) => {
                let elapsed = nanos_since(&t);
                self.profiler.record_interpolation(elapsed);
            },
            None => {},
        }
        result
    }

    /// Material plus piece-square balance from `player`'s side, blended at
    /// the game phase. When the profiler is enabled, the stage timings are
    /// recorded as the profiler's sampling decides, and the piece-square
    /// balance is kept while its list has room.
    pub fn evaluate_optimized(&mut self, board: &Board, player: Player, captured_pieces: &CapturedPieces) -> (r: i32)
        requires
            old(self).wf(),
            captured_pieces.counts_at_most(HAND_LIMIT),
            pst_bounded(old(self).tables(), *board),
            old(self).profiler_state().profiling_operations <= u64::MAX - 3,
        ensures
            r == optimized_score(old(self).material_config(), old(self).tables(), *board, *captured_pieces, player),
            final(self).wf(),
            final(self).material_config() == old(self).material_config(),
            final(self).tables() == old(self).tables(),
            final(self).profiler_state().enabled == old(self).profiler_state().enabled,
            !old(self).profiler_state().enabled ==> final(self).profiler_state() == old(self).profiler_state(),
            final(self).profiler_state().profiling_operations <= old(self).profiler_state().profiling_operations + 3,
            old(self).profiler_state().evaluation_times@.is_prefix_of(final(self).profiler_state().evaluation_times@),
            final(self).profiler_state().evaluation_times@.len() <= old(self).profiler_state().evaluation_times@.len() + 1,
            old(self).profiler_state().phase_calc_times@.is_prefix_of(final(self).profiler_state().phase_calc_times@),
            final(self).profiler_state().phase_calc_times@.len() <= old(self).profiler_state().phase_calc_times@.len() + 1,
            old(self).profiler_state().pst_lookup_times@.is_prefix_of(final(self).profiler_state().pst_lookup_times@),
            final(self).profiler_state().pst_lookup_times@.len() <= old(self).profiler_state().pst_lookup_times@.len() + 1,
            old(self).profiler_state().interpolation_times@.is_prefix_of(
                final(self).profiler_state().interpolation_times@,
            ),
            final(self).profiler_state().interpolation_times@.len() <= old(self).profiler_state().interpolation_times@.len()
                + 1,
            final(self).profiler_state().pst_mg_totals@ == if old(self).profiler_state().enabled
                && old(self).profiler_state().pst_mg_totals@.len() < old(self).profiler_state().max_samples {
                old(self).profiler_state().pst_mg_totals@.push(pst_total(old(self).tables(), *board, player, 0) as i32)
            } else {
                old(self).profiler_state().pst_mg_totals@
            },
            final(self).profiler_state().pst_eg_totals@ == if old(self).profiler_state().enabled
                && old(self).profiler_state().pst_mg_totals@.len() < old(self).profiler_state().max_samples {
                old(self).profiler_state().pst_eg_totals@.push(pst_total(old(self).tables(), *board, player, 1) as i32)
            } else {
                old(self).profiler_state().pst_eg_totals@
            },
    {
        let start = if self.profiler.enabled { Some(clock_now()) } else { None };
        let phase = self.calculate_phase_optimized(board);
        let total = self.accumulate_scores_optimized(board, player, captured_pieces);
        let final_score = self.interpolate_optimized(total, phase);
        match start {
            Some(t) => {
                let elapsed = nanos_since(&t);
                self.profiler.record_evaluation(elapsed);
            },
            None => {},
        }
        final_score
    }

    /// The attached profiler.
    pub fn profiler(&self) -> (r: &PerformanceProfiler)
        ensures
            *r == self.profiler_state(),
    {
        &self.profiler
    }

    /// The attached profiler, for changes.
    pub fn profiler_mut(&mut self) -> (r: &mut PerformanceProfiler)
        ensures
            *r == old(self).profiler_state(),
            final(self).profiler_state() == *final(r),
            final(self).material_config() == old(self).material_config(),
            final(self).tables() == old(self).tables(),
    {
        &mut self.profiler
    }

    /// Clears the profiler's records.
    pub fn reset_profiler(&mut self)
        ensures
            final(self).material_config() == old(self).material_config(),
            final(self).tables() == old(self).tables(),
            final(self).profiler_state().enabled == old(self).profiler_state().enabled,
            final(self).profiler_state().rate() == old(self).profiler_state().rate(),
            final(self).profiler_state().counter() == 0,
            final(self).profiler_state().evaluation_times@.len() == 0,
            final(self).profiler_state().phase_calc_times@.len() == 0,
            final(self).profiler_state().pst_lookup_times@.len() == 0,
            final(self).profiler_state().pst_mg_totals@.len() == 0,
            final(self).profiler_state().pst_eg_totals@.len() == 0,
            final(self).profiler_state().interpolation_times@.len() == 0,
            forall|n: Seq<char>| #[trigger] final(self).profiler_state().operation_samples(n) == Seq::<u64>::empty(),
            final(self).profiler_state().profiling_overhead_ns == 0,
            final(self).profiler_state().profiling_operations == 0,
            old(self).wf() ==> final(self).wf(),
    {
        self.profiler.reset();
    }
}

impl Default for OptimizedEvaluator {
    fn default() -> (r: Self)
        ensures
            r.wf(),
            r.material_config() == (MaterialEvaluationConfig { include_hand_pieces: true }),
            r.tables() == crate::piece_square_tables::builtin_storage(),
    {
        Self::new()
    }
}

} // verus!

verus! {

proof fn lemma_square_sum_negated(f: spec_fn(int) -> int, g: spec_fn(int) -> int, n: int)
    requires
        forall|i: int| 0 <= i < n ==> #[trigger] g(i) == -f(i),
    ensures
        square_sum(g, n) == -square_sum(f, n),
    decreases n,
{
    if n > 0 {
        lemma_square_sum_negated(f, g, n - 1);
    }
}

proof fn lemma_hand_material_negated(hand: CapturedPieces, part: int, n: int)
    ensures
        crate::material::hand_material_upto(hand, Player::White, part, n) == -crate::material::hand_material_upto(
            hand,
            Player::Black,
            part,
            n,
        ),
    decreases n,
{
    if n > 0 {
        lemma_hand_material_negated(hand, part, n - 1);
        let pt = PieceType::from_idx(n - 1);
        let v = crate::material::part_of(crate::material::material_score(pt), part);
        let d = hand.hand(pt, Player::Black) - hand.hand(pt, Player::White);
        assert(v * (-d) == -(v * d)) by (nonlinear_arith);
    }
}

proof fn lemma_blend_negated(mg: int, eg: int, phase: int)
    ensures
        blend(-mg, -eg, phase) == -blend(mg, eg, phase),
{
    assert((-mg) * phase + (-eg) * (256 - phase) == -(mg * phase + eg * (256 - phase))) by (nonlinear_arith);
}

/// The optimized evaluation from White's side is the negation of the
/// evaluation from Black's side, for every position, hand and setting.
pub proof fn law_optimized_score_antisymmetric(
    config: MaterialEvaluationConfig,
    s: PieceSquareTableStorage,
    b: Board,
    hand: CapturedPieces,
)
    ensures
        optimized_score(config, s, b, hand, Player::White) == -optimized_score(config, s, b, hand, Player::Black),
{
    assert forall|part: int| #![auto] 0 <= part <= 1 implies material_balance(config, b, hand, Player::White, part)
        + pst_total(s, b, Player::White, part) == -(material_balance(config, b, hand, Player::Black, part) + pst_total(
        s,
        b,
        Player::Black,
        part,
    )) by {
        lemma_square_sum_negated(
            |i: int| crate::material::material_term(b, Player::Black, i, part),
            |i: int| crate::material::material_term(b, Player::White, i, part),
            81,
        );
        lemma_square_sum_negated(
            |i: int| pst_term(s, b, Player::Black, i, part),
            |i: int| pst_term(s, b, Player::White, i, part),
            81,
        );
        lemma_hand_material_negated(hand, part, 7);
    }
    let mg = material_balance(config, b, hand, Player::Black, 0) + pst_total(s, b, Player::Black, 0);
    let eg = material_balance(config, b, hand, Player::Black, 1) + pst_total(s, b, Player::Black, 1);
    lemma_blend_negated(mg, eg, game_phase(b));
}

} // verus!
