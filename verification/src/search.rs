//! Per-iteration decisions of a worker and the shared coordination state.
//!
//! A worker generates a keypair, scores the address, and decides whether
//! to report.  Two reporting policies exist: a fixed threshold, and
//! best-so-far against a shared best score.  The shared state is modelled
//! here as plain values with exact transition contracts; an embedding
//! that runs workers in parallel holds them in atomics and goes through
//! these decisions unchanged.

use vstd::prelude::*;

verus! {

/// Default minimum score for a report under the threshold policy.
pub const DEFAULT_MIN_SCORE: i32 = 400;

/// Every this many operations, the benchmark counter asks for a
/// throughput report.
pub const BENCHMARK_SAMPLE_INTERVAL: u64 = 10000;

/// Threshold policy: a score triggers a report exactly when it is
/// strictly greater than the configured minimum.
pub fn threshold_hit(score: i32, min_score: i32) -> (hit: bool)
    ensures
        hit == (score > min_score),
{
    score > min_score
}

/// Word count for a worker: a requested count of 12 or 24 wins;
/// otherwise odd workers search 12-word phrases and even workers 24-word
/// phrases, so both spaces are covered.
pub fn words_for_worker(worker_index: usize, requested: u32) -> (w: u32)
    ensures
        requested == 12 ==> w == 12,
        requested == 24 ==> w == 24,
        requested != 12 && requested != 24 ==> w == (
            if worker_index % 2 == 1 {
                12u32
            } else {
                24u32
            }
        ),
        w == 12 || w == 24,
{
    if requested == 12 {
        12
    } else if requested == 24 {
        24
    } else if worker_index % 2 == 1 {
        12
    } else {
        24
    }
}

/// Best-so-far policy, as one decision: a candidate is reported exactly
/// when its score is at least the current best and the pattern matched
/// its address.  Benchmark mode only adds counting on top of this and
/// never gates or alters it.
pub fn hit_decision(score: i32, current_best: i32, pattern_matched: bool) -> (hit: bool)
    ensures
        hit == (score >= current_best && pattern_matched),
{
    score >= current_best && pattern_matched
}

/// Benchmark cadence: whether the operation whose count before the
/// increment is `previous` falls on the sampling interval.  An embedding
/// that keeps the counter in an atomic hands the pre-increment value in.
pub fn sample_due(previous: u64) -> (due: bool)
    ensures
        due == (previous % BENCHMARK_SAMPLE_INTERVAL == 0),
{
    previous % BENCHMARK_SAMPLE_INTERVAL == 0
}

/// The shared best score, updated by every reported hit.
pub struct BestScore {
    best: i32,
}

impl BestScore {
    /// The current best score.
    pub closed spec fn spec_best(&self) -> int {
        self.best as int
    }

    /// Starts at zero, as at process start.
    pub fn new() -> (r: BestScore)
        ensures
            r.spec_best() == 0,
    {
        BestScore { best: 0 }
    }

    /// The current best score.
    pub fn current(&self) -> (b: i32)
        ensures
            b == self.spec_best(),
    {
        self.best
    }

    /// One observation under the best-so-far policy: a score at least the
    /// current best is reported and becomes the new best; any other score
    /// leaves the state alone.  The best never decreases, and every
    /// reported score is at least the best at the time of its report.
    pub fn observe(&mut self, score: i32) -> (reported: bool)
        ensures
            reported == (score >= old(self).spec_best()),
            final(self).spec_best() == (
                if score >= old(self).spec_best() {
                    score as int
                } else {
                    old(self).spec_best()
                }
            ),
            final(self).spec_best() >= old(self).spec_best(),
    {
        if score >= self.best {
            self.best = score;
            true
        } else {
            false
        }
    }
}

/// The best score after a sequence of observations, oldest first.
pub open spec fn best_after(init: int, scores: Seq<i32>) -> int
    decreases scores.len(),
{
    if scores.len() == 0 {
        init
    } else {
        best_after(
            if scores[0] >= init {
                scores[0] as int
            } else {
                init
            },
            scores.drop_first(),
        )
    }
}

/// Over any run of observations, in whatever order the workers'
/// observations interleave, the shared best score never decreases.
pub proof fn lemma_best_non_decreasing(init: int, scores: Seq<i32>)
    ensures
        best_after(init, scores) >= init,
    decreases scores.len(),
{
    if scores.len() > 0 {
        let next = if scores[0] >= init {
            scores[0] as int
        } else {
            init
        };
        lemma_best_non_decreasing(next, scores.drop_first());
    }
}

/// The monotonically increasing operation counter of benchmark mode.
pub struct OpsCounter {
    count: u64,
}

impl OpsCounter {
    /// Operations recorded so far.
    pub closed spec fn spec_count(&self) -> int {
        self.count as int
    }

    /// Starts at zero, as at process start.
    pub fn new() -> (r: OpsCounter)
        ensures
            r.spec_count() == 0,
    {
        OpsCounter { count: 0 }
    }

    /// Operations recorded so far.
    pub fn count(&self) -> (c: u64)
        ensures
            c == self.spec_count(),
    {
        self.count
    }

    /// Records one operation.  The verdict says whether this operation
    /// falls on the sampling cadence, judged by the count before the
    /// increment, and the counter only ever grows.
    pub fn record(&mut self) -> (sample: bool)
        requires
            old(self).spec_count() < u64::MAX,
        ensures
            final(self).spec_count() == old(self).spec_count() + 1,
            sample == (old(self).spec_count() % (BENCHMARK_SAMPLE_INTERVAL as int) == 0),
    {
        let before = self.count;
        self.count = self.count + 1;
        before % BENCHMARK_SAMPLE_INTERVAL == 0
    }
}

} // verus!
