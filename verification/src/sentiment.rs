//! The process-wide sentiment tracker.
//!
//! One task consumes the news stream, scores each headline through the
//! sentiment capability, and folds the scores into a single decaying
//! value that decision cycles read as their latest snapshot — eventually
//! consistent by design; no cycle ever waits for it. Each observation
//! keeps `DECAY_KEEP / DECAY_TOTAL` of the old value and admits the rest
//! from the new score, on the zero-based representation shifted up by
//! `SCORE_SCALE`, rounding down; the value provably never leaves
//! `[-SCORE_SCALE, SCORE_SCALE]`.

use vstd::prelude::*;

use crate::domain::SentimentSignals;
use crate::domain::SCORE_SCALE;

verus! {

/// Weight of the old value in one decay step, out of `DECAY_TOTAL`.
pub const DECAY_KEEP: i64 = 9;

pub const DECAY_TOTAL: i64 = 10;

/// The tracker's value after folding in one score: a weighted mean of the
/// old value and the score, computed on the `SCORE_SCALE`-shifted
/// representation with floor division.
pub open spec fn decayed(value: i64, score: i64) -> int {
    (DECAY_KEEP * (value + SCORE_SCALE) + (score + SCORE_SCALE)) / (DECAY_TOTAL as int)
        - SCORE_SCALE
}

/// Decaying aggregate of every headline score seen so far.
pub struct SentimentTracker {
    pub value: i64,
}

impl SentimentTracker {
    pub open spec fn wf(self) -> bool {
        -SCORE_SCALE <= self.value <= SCORE_SCALE
    }

    /// Before any headline, sentiment is neutral.
    pub fn new() -> (r: SentimentTracker)
        ensures
            r.value == 0,
            r.wf(),
    {
        SentimentTracker { value: 0 }
    }

    /// Fold one headline's score into the running value.
    pub fn observe(&mut self, score: i64)
        requires
            old(self).wf(),
            -SCORE_SCALE <= score <= SCORE_SCALE,
        ensures
            final(self).wf(),
            final(self).value == decayed(old(self).value, score),
    {
        let biased_value: u64 = (self.value + SCORE_SCALE) as u64;
        let biased_score: u64 = (score + SCORE_SCALE) as u64;
        let next: u64 = ((DECAY_KEEP as u64) * biased_value + biased_score) / (DECAY_TOTAL as u64);
        self.value = (next as i64) - SCORE_SCALE;
    }

    /// The snapshot a decision cycle reads.
    pub fn current(&self) -> (r: SentimentSignals)
        requires
            self.wf(),
        ensures
            r.score == self.value,
            r.wf(),
    {
        SentimentSignals { score: self.value }
    }
}

} // verus!
