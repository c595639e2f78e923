//! The per-symbol decision loop as an explicit state machine.
//!
//! One loop runs per traded symbol. Each capability call — indicator
//! update, decision engine, risk review, execution, commit-and-persist —
//! is performed by a driver outside this crate; the loop itself only
//! decides, from its stage and the event handed back, what its next
//! stage and next request are. A decision cycle is triggered by a candle
//! close, never by a tick alone: ticks only refresh the last seen price.
//! The news stream is process-wide and feeds the sentiment tracker
//! separately; a cycle reads whatever sentiment snapshot its driver holds
//! and never blocks on its freshness.
//!
//! Failure policy: any capability failure aborts only the current cycle
//! and returns the loop to `Idle`; the next market data event triggers
//! the next attempt. The one exception, a persistence failure after a
//! real fill, is the driver's to retry through `persist::PersistTask`.
//!
//! Shutdown is graceful: a stop request takes effect at once in `Idle`,
//! and otherwise lets the cycle in flight run to completion — a commit
//! under way is never abandoned — before the loop parks in `Stopped`.

use vstd::prelude::*;

use crate::analyzer::AnalyzerCore;
use crate::domain::Candle;
use crate::domain::Decision;
use crate::domain::Symbol;
use crate::domain::TechnicalSignals;
use crate::domain::Tick;
use crate::domain::Trade;
use crate::domain::FRAC_SCALE;
use crate::risk::enforce_no_escalation;
use crate::risk::spec_gate;

verus! {

/// Where one symbol's loop stands in its decision cycle.
pub enum CycleStage {
    /// Awaiting the next market data event.
    Idle,
    /// A fresh candle went to the indicator fold; awaiting signals.
    Analyzing,
    /// The decision engine is working on the snapshot it was handed.
    Deciding,
    /// The proposed decision is under risk review.
    RiskChecking { desired: Decision },
    /// The reviewed decision went to the executor.
    Executing { decision: Decision },
    /// A fill went to the single writer for commit and persistence.
    Committing { trade: Trade },
    /// The loop ended: its stream is exhausted or a shutdown completed.
    Stopped,
}

/// What the driver hands back to the loop.
pub enum CycleEvent {
    Candle(Candle),
    Tick(Tick),
    /// The indicator fold finished and read out its signals.
    SignalsReady(TechnicalSignals),
    /// The decision engine's proposal.
    DecisionReady(Decision),
    /// The risk manager's answer, still to be gated.
    RiskReady(Decision),
    /// The executor's outcome; `None` is an unfilled order.
    ExecutionReady(Option<Trade>),
    /// The writer finished the commit, or refused it.
    CommitDone(bool),
    /// Some capability call failed or timed out this cycle.
    CapabilityFailed,
    /// The process is shutting down; finish the cycle in flight, then
    /// park.
    ShutdownRequested,
}

/// What the loop asks its driver to do next.
pub enum CycleAction {
    /// Nothing: await the next event.
    Wait,
    /// Fold this candle into the technical analyzer, then read signals.
    UpdateAnalyzer { candle: Candle },
    /// Call the decision engine with a portfolio snapshot, the latest
    /// signals and sentiment, this symbol and this price.
    RequestDecision { symbol: Symbol, price: u64 },
    /// Pass the proposed decision to the risk manager, with the same
    /// snapshot.
    RequestRisk { desired: Decision },
    /// Hand the reviewed decision to the executor at this price.
    RequestExecution { decision: Decision, price: u64 },
    /// Hand the fill to the single writer: re-validate, apply, persist.
    RequestCommit { trade: Trade },
}

/// Where a finished cycle parks: `Idle` normally, `Stopped` once a
/// shutdown was requested.
pub open spec fn rest_stage(stop_requested: bool) -> CycleStage {
    if stop_requested {
        CycleStage::Stopped
    } else {
        CycleStage::Idle
    }
}

/// One symbol's loop: its analyzer shell, the last price seen, the stage
/// of the cycle in flight, and whether a shutdown is pending.
pub struct SymbolCycle {
    pub symbol: Symbol,
    pub analyzer: AnalyzerCore,
    pub last_price: Option<u64>,
    pub stage: CycleStage,
    pub stop_requested: bool,
}

impl SymbolCycle {
    /// A cycle in flight always has a price; what it carries forward is
    /// well-formed and never a Hold (Hold ends a cycle on the spot); an
    /// idle loop has no shutdown pending — a pending one parks it at
    /// once.
    pub open spec fn wf(self) -> bool {
        &&& self.analyzer.wf()
        &&& self.analyzer.symbol@ == self.symbol@
        &&& !(self.stage is Idle || self.stage is Stopped) ==> self.last_price is Some
        &&& self.stage is Idle ==> !self.stop_requested
        &&& match self.stage {
            CycleStage::RiskChecking { desired } => desired.wf() && !(desired is Hold),
            CycleStage::Executing { decision } => decision.wf() && !(decision is Hold),
            _ => true,
        }
    }

    pub fn new(symbol: Symbol) -> (r: SymbolCycle)
        ensures
            r.wf(),
            r.symbol@ == symbol@,
            r.stage is Idle,
            r.analyzer.accepted@.len() == 0,
    {
        let analyzer = AnalyzerCore::new(symbol.clone());
        SymbolCycle {
            symbol,
            analyzer,
            last_price: None,
            stage: CycleStage::Idle,
            stop_requested: false,
        }
    }

    /// Advance the loop by one event. The returned action is the only
    /// channel through which this cycle can touch anything shared: in
    /// particular, only `RequestCommit` — emitted only for a real fill —
    /// ever reaches the portfolio or the store, so a Hold at any stage
    /// leaves both exactly as they were.
    pub fn step(&mut self, event: CycleEvent) -> (action: CycleAction)
        requires
            old(self).wf(),
        ensures
            final(self).wf(),
            final(self).symbol@ == old(self).symbol@,
            // Only a real fill reaches the writer.
            (action matches CycleAction::RequestCommit { trade }
                ==> (old(self).stage matches CycleStage::Executing { decision: _ }
                && event matches CycleEvent::ExecutionReady(f) && f == Some(trade))),
            // A Hold proposal ends the cycle with no request at all.
            (match event {
                CycleEvent::DecisionReady(d) => (old(self).stage is Deciding && d is Hold)
                    ==> final(self).stage == rest_stage(old(self).stop_requested) && action
                    is Wait,
                _ => true,
            }),
            // A review gated to Hold ends the cycle with no request.
            (match (old(self).stage, event) {
                (
                    CycleStage::RiskChecking { desired },
                    CycleEvent::RiskReady(r),
                ) => if spec_gate(desired, r) is Hold {
                    final(self).stage == rest_stage(old(self).stop_requested) && action is Wait
                } else {
                    &&& final(self).stage matches CycleStage::Executing { decision } && decision
                        == spec_gate(desired, r)
                    &&& action matches CycleAction::RequestExecution { decision: d2, price } && (d2
                        == spec_gate(desired, r) && Some(price) == old(self).last_price)
                },
                _ => true,
            }),
            // An unfilled order is treated as Hold.
            (match (old(self).stage, event) {
                (CycleStage::Executing { decision: _ }, CycleEvent::ExecutionReady(f)) => match f {
                    None => final(self).stage == rest_stage(old(self).stop_requested) && action
                        is Wait,
                    Some(t) => {
                        &&& final(self).stage matches CycleStage::Committing { trade } && trade
                            == t
                        &&& action matches CycleAction::RequestCommit { trade: t2 } && t2 == t
                    },
                },
                _ => true,
            }),
            // A capability failure aborts only the current cycle.
            (event is CapabilityFailed && !(old(self).stage is Stopped) ==> final(self).stage
                == rest_stage(old(self).stop_requested) && action is Wait && final(self).analyzer
                == old(self).analyzer),
            // Candles drive the cycle; stale or foreign ones are refused.
            (match (old(self).stage, event) {
                (CycleStage::Idle, CycleEvent::Candle(c)) => if c.symbol@ == old(self).symbol@
                    && old(self).analyzer.admits(c.ts) {
                    &&& final(self).stage is Analyzing
                    &&& final(self).analyzer.accepted@ == old(self).analyzer.accepted@.push(c)
                    &&& final(self).last_price == Some(c.close)
                    &&& action matches CycleAction::UpdateAnalyzer { candle } && candle == c
                } else {
                    final(self).stage is Idle && action is Wait
                        && final(self).analyzer == old(self).analyzer
                },
                _ => true,
            }),
            // Ticks refresh the price but never trigger a decision.
            (match (old(self).stage, event) {
                (CycleStage::Idle, CycleEvent::Tick(t)) => final(self).stage is Idle && action
                    is Wait && (t.symbol@ == old(self).symbol@ ==> final(self).last_price == Some(
                    t.price,
                )),
                _ => true,
            }),
            // Signals hand over to the decision engine.
            (match (old(self).stage, event) {
                (CycleStage::Analyzing, CycleEvent::SignalsReady(_)) => {
                    &&& final(self).stage is Deciding
                    &&& action matches CycleAction::RequestDecision { symbol, price } && (symbol@
                        == old(self).symbol@ && Some(price) == old(self).last_price)
                },
                _ => true,
            }),
            // A well-formed proposal other than Hold goes to review.
            (match (old(self).stage, event) {
                (CycleStage::Deciding, CycleEvent::DecisionReady(d)) => if d is Hold || !d.wf() {
                    final(self).stage == rest_stage(old(self).stop_requested) && action is Wait
                } else {
                    &&& final(self).stage matches CycleStage::RiskChecking { desired } && desired
                        == d
                    &&& action matches CycleAction::RequestRisk { desired: d2 } && d2 == d
                },
                _ => true,
            }),
            // The writer's answer, success or refusal, ends the cycle.
            (match (old(self).stage, event) {
                (CycleStage::Committing { trade: _ }, CycleEvent::CommitDone(_)) => final(
                    self).stage == rest_stage(old(self).stop_requested) && action is Wait,
                _ => true,
            }),
            // A shutdown request parks an idle loop at once and otherwise
            // lets the cycle in flight finish first.
            (event is ShutdownRequested ==> action is Wait && (match old(self).stage {
                CycleStage::Idle => final(self).stage is Stopped,
                CycleStage::Stopped => final(self).stage is Stopped,
                _ => final(self).stage == old(self).stage && final(self).stop_requested
                    && final(self).analyzer == old(self).analyzer && final(self).last_price
                    == old(self).last_price,
            })),
            // A stopped loop stays stopped and requests nothing more.
            (old(self).stage is Stopped ==> *final(self) == *old(self) && action is Wait),
            // An event that does not belong to the current stage changes
            // nothing.
            (!step_expects(old(self).stage, event) ==> *final(self) == *old(self) && action
                is Wait),
    {
        match event {
            CycleEvent::Candle(c) => {
                match &self.stage {
                    CycleStage::Idle => {
                        let accepted = self.analyzer.update_with_candle(&c);
                        if accepted {
                            self.last_price = Some(c.close);
                            self.stage = CycleStage::Analyzing;
                            CycleAction::UpdateAnalyzer { candle: c }
                        } else {
                            CycleAction::Wait
                        }
                    },
                    _ => CycleAction::Wait,
                }
            },
            CycleEvent::Tick(t) => {
                match &self.stage {
                    CycleStage::Idle => {
                        if t.symbol == self.symbol {
                            self.last_price = Some(t.price);
                        }
                        CycleAction::Wait
                    },
                    _ => CycleAction::Wait,
                }
            },
            CycleEvent::SignalsReady(_signals) => {
                match &self.stage {
                    CycleStage::Analyzing => {
                        let price = self.last_price.unwrap();
                        self.stage = CycleStage::Deciding;
                        CycleAction::RequestDecision { symbol: self.symbol.clone(), price }
                    },
                    _ => CycleAction::Wait,
                }
            },
            CycleEvent::DecisionReady(d) => {
                match &self.stage {
                    CycleStage::Deciding => {
                        let hold = matches!(d, Decision::Hold);
                        let ok = match &d {
                            Decision::Buy { symbol: _, fraction_of_cash } => 1
                                <= *fraction_of_cash && *fraction_of_cash <= FRAC_SCALE,
                            _ => true,
                        };
                        if hold || !ok {
                            self.finish_cycle();
                            CycleAction::Wait
                        } else {
                            self.stage = CycleStage::RiskChecking { desired: d.clone() };
                            CycleAction::RequestRisk { desired: d }
                        }
                    },
                    _ => CycleAction::Wait,
                }
            },
            CycleEvent::RiskReady(r) => {
                match &self.stage {
                    CycleStage::RiskChecking { desired } => {
                        let desired = desired.clone();
                        let gated = enforce_no_escalation(&desired, r);
                        if matches!(gated, Decision::Hold) {
                            self.finish_cycle();
                            CycleAction::Wait
                        } else {
                            let price = self.last_price.unwrap();
                            self.stage = CycleStage::Executing { decision: gated.clone() };
                            CycleAction::RequestExecution { decision: gated, price }
                        }
                    },
                    _ => CycleAction::Wait,
                }
            },
            CycleEvent::ExecutionReady(fill) => {
                match &self.stage {
                    CycleStage::Executing { decision: _ } => {
                        match fill {
                            None => {
                                self.finish_cycle();
                                CycleAction::Wait
                            },
                            Some(t) => {
                                self.stage = CycleStage::Committing { trade: t.clone() };
                                CycleAction::RequestCommit { trade: t }
                            },
                        }
                    },
                    _ => CycleAction::Wait,
                }
            },
            CycleEvent::CommitDone(_ok) => {
                match &self.stage {
                    CycleStage::Committing { trade: _ } => {
                        self.finish_cycle();
                        CycleAction::Wait
                    },
                    _ => CycleAction::Wait,
                }
            },
            CycleEvent::CapabilityFailed => {
                match &self.stage {
                    CycleStage::Stopped => CycleAction::Wait,
                    _ => {
                        self.finish_cycle();
                        CycleAction::Wait
                    },
                }
            },
            CycleEvent::ShutdownRequested => {
                match &self.stage {
                    CycleStage::Idle => {
                        self.stage = CycleStage::Stopped;
                        CycleAction::Wait
                    },
                    CycleStage::Stopped => CycleAction::Wait,
                    _ => {
                        self.stop_requested = true;
                        CycleAction::Wait
                    },
                }
            },
        }
    }

    /// Park a finished cycle: in `Idle` normally, in `Stopped` once a
    /// shutdown was requested.
    fn finish_cycle(&mut self)
        ensures
            final(self).stage == rest_stage(old(self).stop_requested),
            final(self).symbol == old(self).symbol,
            final(self).analyzer == old(self).analyzer,
            final(self).last_price == old(self).last_price,
            final(self).stop_requested == old(self).stop_requested,
    {
        if self.stop_requested {
            self.stage = CycleStage::Stopped;
        } else {
            self.stage = CycleStage::Idle;
        }
    }
}

/// Whether `event` is one the loop reacts to in `stage`.
pub open spec fn step_expects(stage: CycleStage, event: CycleEvent) -> bool {
    match (stage, event) {
        (CycleStage::Stopped, _) => false,
        (_, CycleEvent::CapabilityFailed) => true,
        (_, CycleEvent::ShutdownRequested) => true,
        (CycleStage::Idle, CycleEvent::Candle(_)) => true,
        (CycleStage::Idle, CycleEvent::Tick(_)) => true,
        (CycleStage::Analyzing, CycleEvent::SignalsReady(_)) => true,
        (CycleStage::Deciding, CycleEvent::DecisionReady(_)) => true,
        (CycleStage::RiskChecking { desired: _ }, CycleEvent::RiskReady(_)) => true,
        (CycleStage::Executing { decision: _ }, CycleEvent::ExecutionReady(_)) => true,
        (CycleStage::Committing { trade: _ }, CycleEvent::CommitDone(_)) => true,
        _ => false,
    }
}

} // verus!
