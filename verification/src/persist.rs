//! The persistence step of a commit.
//!
//! After the Executor reports a real fill and the writer applies it to
//! the portfolio, the new portfolio snapshot must be saved and the trade
//! appended to the ledger. A failure here is the one failure that is
//! retried — with backoff, by the caller — rather than dropped, because
//! the trade is real: dropping it would let the durable state diverge
//! from the portfolio. The protocol below sequences save and record so
//! that a run that reaches `Done` has appended the trade to the ledger
//! exactly once, however many save attempts failed before.
//!
//! The driver performs one outside call per emitted action and reports
//! its outcome as the next event; an outcome is trusted to be truthful
//! (a failed append did not append).

use vstd::prelude::*;

verus! {

#[derive(Clone, Copy, Debug, PartialEq, Eq, Structural)]
pub enum PersistPhase {
    /// The portfolio snapshot is not yet durably saved.
    SavingPortfolio,
    /// The snapshot is saved; the trade is not yet in the ledger.
    RecordingTrade,
    /// Snapshot saved and trade recorded, both exactly once settled.
    Done,
    /// The retry budget ran out; the process must raise an alert.
    Escalated,
}

/// Outcome of the one outside call the driver was asked to make.
#[derive(Clone, Copy, Debug, PartialEq, Eq, Structural)]
pub enum PersistEvent {
    SaveOk,
    SaveFailed,
    RecordOk,
    RecordFailed,
}

/// What the driver must do next.
#[derive(Clone, Copy, Debug, PartialEq, Eq, Structural)]
pub enum PersistAction {
    /// Save the committed portfolio snapshot (again).
    SavePortfolio,
    /// Append the trade to the ledger.
    RecordTrade,
    /// Budget exhausted: raise a process-level alert.
    Escalate,
    /// Nothing left to do.
    Rest,
}

/// Retry state for persisting one committed fill.
#[derive(Clone, Copy, Debug, PartialEq, Eq, Structural)]
pub struct PersistTask {
    pub phase: PersistPhase,
    pub retries_left: u32,
}

/// The full transition relation: failures consume the retry budget and
/// re-issue the same action; an out-of-protocol event changes nothing.
pub open spec fn spec_persist_step(t: PersistTask, ev: PersistEvent) -> (PersistTask, PersistAction) {
    match (t.phase, ev) {
        (PersistPhase::SavingPortfolio, PersistEvent::SaveOk) => (
            PersistTask { phase: PersistPhase::RecordingTrade, ..t },
            PersistAction::RecordTrade,
        ),
        (PersistPhase::SavingPortfolio, PersistEvent::SaveFailed) => if t.retries_left > 0 {
            (
                PersistTask {
                    phase: PersistPhase::SavingPortfolio,
                    retries_left: (t.retries_left - 1) as u32,
                },
                PersistAction::SavePortfolio,
            )
        } else {
            (PersistTask { phase: PersistPhase::Escalated, ..t }, PersistAction::Escalate)
        },
        (PersistPhase::RecordingTrade, PersistEvent::RecordOk) => (
            PersistTask { phase: PersistPhase::Done, ..t },
            PersistAction::Rest,
        ),
        (PersistPhase::RecordingTrade, PersistEvent::RecordFailed) => if t.retries_left > 0 {
            (
                PersistTask {
                    phase: PersistPhase::RecordingTrade,
                    retries_left: (t.retries_left - 1) as u32,
                },
                PersistAction::RecordTrade,
            )
        } else {
            (PersistTask { phase: PersistPhase::Escalated, ..t }, PersistAction::Escalate)
        },
        _ => (t, PersistAction::Rest),
    }
}

impl PersistTask {
    /// Start persisting one committed fill; the driver's first action is
    /// to save the snapshot.
    pub fn new(retries: u32) -> (r: PersistTask)
        ensures
            r.phase is SavingPortfolio,
            r.retries_left == retries,
    {
        PersistTask { phase: PersistPhase::SavingPortfolio, retries_left: retries }
    }

    /// Advance the protocol on the outcome of the last outside call and
    /// say what to do next.
    pub fn step(&mut self, ev: PersistEvent) -> (action: PersistAction)
        ensures
            (*final(self), action) == spec_persist_step(*old(self), ev),
    {
        let (next, action) = match (self.phase, ev) {
            (PersistPhase::SavingPortfolio, PersistEvent::SaveOk) => (
                PersistTask { phase: PersistPhase::RecordingTrade, retries_left: self.retries_left },
                PersistAction::RecordTrade,
            ),
            (PersistPhase::SavingPortfolio, PersistEvent::SaveFailed) => {
                if self.retries_left > 0 {
                    (
                        PersistTask {
                            phase: PersistPhase::SavingPortfolio,
                            retries_left: self.retries_left - 1,
                        },
                        PersistAction::SavePortfolio,
                    )
                } else {
                    (
                        PersistTask {
                            phase: PersistPhase::Escalated,
                            retries_left: self.retries_left,
                        },
                        PersistAction::Escalate,
                    )
                }
            },
            (PersistPhase::RecordingTrade, PersistEvent::RecordOk) => (
                PersistTask { phase: PersistPhase::Done, retries_left: self.retries_left },
                PersistAction::Rest,
            ),
            (PersistPhase::RecordingTrade, PersistEvent::RecordFailed) => {
                if self.retries_left > 0 {
                    (
                        PersistTask {
                            phase: PersistPhase::RecordingTrade,
                            retries_left: self.retries_left - 1,
                        },
                        PersistAction::RecordTrade,
                    )
                } else {
                    (
                        PersistTask {
                            phase: PersistPhase::Escalated,
                            retries_left: self.retries_left,
                        },
                        PersistAction::Escalate,
                    )
                }
            },
            _ => (*self, PersistAction::Rest),
        };
        *self = next;
        action
    }
}

/// Where a run of the protocol ends.
pub open spec fn spec_persist_run(t: PersistTask, evs: Seq<PersistEvent>) -> PersistTask
    decreases evs.len(),
{
    if evs.len() == 0 {
        t
    } else {
        spec_persist_run(spec_persist_step(t, evs[0]).0, evs.drop_first())
    }
}

/// How many events of a run durably appended the trade to the ledger: a
/// `RecordOk` answered while the protocol was recording.
pub open spec fn records_in_run(t: PersistTask, evs: Seq<PersistEvent>) -> int
    decreases evs.len(),
{
    if evs.len() == 0 {
        0
    } else {
        (if t.phase is RecordingTrade && evs[0] is RecordOk {
            1int
        } else {
            0int
        }) + records_in_run(spec_persist_step(t, evs[0]).0, evs.drop_first())
    }
}

/// Exactly-once law for the ledger: whatever outcomes the store answers,
/// a run of the protocol appends the trade at most once, and a run that
/// starts unfinished and ends `Done` has appended it exactly once — a
/// save that failed and was retried cannot duplicate the trade record.
pub proof fn lemma_trade_recorded_exactly_once(t: PersistTask, evs: Seq<PersistEvent>)
    ensures
        records_in_run(t, evs) <= if t.phase is Done || t.phase is Escalated {
            0int
        } else {
            1int
        },
        records_in_run(t, evs) >= 0,
        (t.phase is SavingPortfolio || t.phase is RecordingTrade) && spec_persist_run(
            t,
            evs,
        ).phase is Done ==> records_in_run(t, evs) == 1,
    decreases evs.len(),
{
    if evs.len() == 0 {
    } else {
        let (t2, _) = spec_persist_step(t, evs[0]);
        lemma_trade_recorded_exactly_once(t2, evs.drop_first());
        lemma_terminal_phases_absorb(t2, evs.drop_first());
    }
}

/// `Done` and `Escalated` absorb: no event leads out of them.
pub proof fn lemma_terminal_phases_absorb(t: PersistTask, evs: Seq<PersistEvent>)
    ensures
        t.phase is Done ==> spec_persist_run(t, evs).phase is Done,
        t.phase is Escalated ==> spec_persist_run(t, evs).phase is Escalated,
    decreases evs.len(),
{
    if evs.len() > 0 {
        lemma_terminal_phases_absorb(spec_persist_step(t, evs[0]).0, evs.drop_first());
    }
}

} // verus!
