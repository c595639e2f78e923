//! Defensive shell around technical analysis for one symbol.
//!
//! Candle streams are log-structured: duplicates and out-of-order
//! timestamps may arrive. The indicator fold must therefore be guarded so
//! that a duplicate or stale candle never corrupts indicator state. The
//! shell accepts a candle only when its timestamp is strictly newer than
//! every candle accepted so far; everything downstream (indicator state,
//! signals) is a function of the accepted log, so refusing a candle leaves
//! signals unchanged.

use vstd::prelude::*;

use crate::domain::Candle;
use crate::domain::Symbol;

verus! {

/// Per-symbol analyzer state: the log of accepted candles, in strictly
/// increasing timestamp order.
pub struct AnalyzerCore {
    pub symbol: Symbol,
    pub accepted: Vec<Candle>,
}

impl AnalyzerCore {
    /// Accepted candles carry this core's symbol and strictly increasing
    /// timestamps.
    pub open spec fn wf(self) -> bool {
        &&& forall|i: int, j: int|
            0 <= i < j < self.accepted@.len() ==> self.accepted@[i].ts < self.accepted@[j].ts
        &&& forall|i: int|
            0 <= i < self.accepted@.len() ==> self.accepted@[i].symbol@ == self.symbol@
    }

    /// Whether a candle with timestamp `ts` would be accepted next.
    pub open spec fn admits(self, ts: u64) -> bool {
        forall|i: int| 0 <= i < self.accepted@.len() ==> self.accepted@[i].ts < ts
    }

    pub fn new(symbol: Symbol) -> (r: AnalyzerCore)
        ensures
            r.symbol@ == symbol@,
            r.accepted@.len() == 0,
            r.wf(),
    {
        AnalyzerCore { symbol, accepted: Vec::new() }
    }

    /// Fold one candle into the state. A candle for another symbol, or one
    /// whose timestamp is not strictly newer than the log, is refused and
    /// the state is left exactly as it was; otherwise it is appended.
    /// Returns whether the candle was accepted.
    pub fn update_with_candle(&mut self, candle: &Candle) -> (accepted: bool)
        requires
            old(self).wf(),
        ensures
            final(self).wf(),
            final(self).symbol@ == old(self).symbol@,
            accepted == (candle.symbol@ == old(self).symbol@ && old(self).admits(candle.ts)),
            accepted ==> final(self).accepted@ == old(self).accepted@.push(*candle),
            !accepted ==> *final(self) == *old(self),
    {
        if !(candle.symbol == self.symbol) {
            return false;
        }
        let n = self.accepted.len();
        if n > 0 {
            let last = self.accepted[n - 1].ts;
            if candle.ts <= last {
                proof {
                    assert(self.accepted@[n - 1].ts >= candle.ts);
                }
                return false;
            }
            proof {
                assert forall|i: int| 0 <= i < self.accepted@.len() implies self.accepted@[i].ts
                    < candle.ts by {
                    if i < n - 1 {
                        assert(self.accepted@[i].ts < self.accepted@[n - 1].ts);
                    }
                }
            }
        }
        self.accepted.push(candle.clone());
        true
    }

    /// Number of candles available to indicators; indicators whose warm-up
    /// window exceeds this must report "not yet computable".
    pub fn history_len(&self) -> (n: usize)
        ensures
            n == self.accepted@.len(),
    {
        self.accepted.len()
    }
}

/// Feeding the same candle again, right after it was accepted, is refused
/// and leaves the analyzer state — and with it every signal derived from
/// the accepted log — unchanged. Together with `update_with_candle`'s
/// postcondition (a refused candle changes nothing), re-feeding any candle
/// twice leaves signals identical to feeding it once.
pub proof fn lemma_duplicate_candle_is_noop(pre: AnalyzerCore, post: AnalyzerCore, c: Candle)
    requires
        pre.wf(),
        post.symbol@ == pre.symbol@,
        post.accepted@ == pre.accepted@.push(c),
    ensures
        !post.admits(c.ts),
{
    assert(post.accepted@[post.accepted@.len() - 1] == c);
}

} // verus!
