//! The risk gate.
//!
//! A proposed decision passes through risk review before execution. Review
//! may downgrade a decision — shrink a buy's fraction or collapse it to
//! Hold — but never upgrade it: the reviewed decision never exposes more
//! cash than the proposed one, and Hold is a fixed point. The crate ships
//! a conservative risk manager of its own, and a gate that holds any
//! external risk manager's answer to the same law.

use vstd::prelude::*;
use vstd::arithmetic::div_mod::lemma_div_is_ordered;
use vstd::arithmetic::mul::lemma_mul_inequality;

use crate::domain::Decision;
use crate::domain::Portfolio;
use crate::domain::FRAC_SCALE;

verus! {

/// Cash debited by a buy of `fraction` (in `FRAC_SCALE`-ths) of `cash`,
/// before fees: `floor(cash * fraction / FRAC_SCALE)`.
pub open spec fn buy_spend(cash: u64, fraction: u64) -> int {
    (cash * fraction) / (FRAC_SCALE as int)
}

/// Cash a decision would expose against portfolio `p`: what a buy would
/// spend; selling or holding exposes nothing.
pub open spec fn cash_exposure(d: Decision, p: Portfolio) -> int {
    match d {
        Decision::Buy { symbol: _, fraction_of_cash } => buy_spend(p.cash, fraction_of_cash),
        _ => 0,
    }
}

/// What the built-in risk manager answers: Hold stays Hold; a sell of a symbol
/// not held collapses to Hold; a buy collapses to Hold when malformed or
/// when it would spend nothing; everything else passes unchanged.
pub open spec fn spec_risk_review(d: Decision, p: Portfolio) -> Decision {
    match d {
        Decision::Hold => Decision::Hold,
        Decision::SellAll { symbol } => if p.has_position(symbol@) {
            d
        } else {
            Decision::Hold
        },
        Decision::Buy { symbol: _, fraction_of_cash } => if 1 <= fraction_of_cash <= FRAC_SCALE
            && buy_spend(p.cash, fraction_of_cash) > 0 {
            d
        } else {
            Decision::Hold
        },
    }
}

/// The crate's own conservative risk manager.
pub fn risk_review(desired: &Decision, portfolio: &Portfolio) -> (r: Decision)
    ensures
        r == spec_risk_review(*desired, *portfolio),
        r.wf(),
        cash_exposure(r, *portfolio) <= cash_exposure(*desired, *portfolio),
        desired.is_hold() ==> r.is_hold(),
{
    match desired {
        Decision::Hold => Decision::Hold,
        Decision::SellAll { symbol } => {
            match portfolio.find_position(symbol) {
                Some(_) => Decision::SellAll { symbol: symbol.clone() },
                None => Decision::Hold,
            }
        },
        Decision::Buy { symbol, fraction_of_cash } => {
            let frac = *fraction_of_cash;
            if 1 <= frac && frac <= FRAC_SCALE {
                proof {
                    lemma_mul_inequality(frac as int, FRAC_SCALE as int, portfolio.cash as int);
                    lemma_spend_fits(portfolio.cash, frac);
                }
                let spend: u64 = (((portfolio.cash as u128) * (frac as u128)) / (
                FRAC_SCALE as u128)) as u64;
                if spend > 0 {
                    Decision::Buy { symbol: symbol.clone(), fraction_of_cash: frac }
                } else {
                    Decision::Hold
                }
            } else {
                Decision::Hold
            }
        },
    }
}

/// A spend of at most the whole cash balance fits back into a `u64`.
pub proof fn lemma_spend_fits(cash: u64, fraction: u64)
    requires
        fraction <= FRAC_SCALE,
    ensures
        0 <= buy_spend(cash, fraction) <= cash,
{
    lemma_mul_inequality(fraction as int, FRAC_SCALE as int, cash as int);
    lemma_div_is_ordered(
        cash as int * fraction as int,
        cash as int * FRAC_SCALE as int,
        FRAC_SCALE as int,
    );
    assert(cash as int * FRAC_SCALE as int / (FRAC_SCALE as int) == cash as int)
        by (nonlinear_arith);
}

/// Whether `r` is a lawful downgrade of the proposed decision `d`: the
/// same intent with no greater size, or Hold.
pub open spec fn lawful_downgrade(d: Decision, r: Decision) -> bool {
    match r {
        Decision::Hold => true,
        Decision::Buy { symbol: rs, fraction_of_cash: rf } => match d {
            Decision::Buy { symbol: ds, fraction_of_cash: df } => rs@ == ds@ && 1 <= rf <= df,
            _ => false,
        },
        Decision::SellAll { symbol: rs } => match d {
            Decision::SellAll { symbol: ds } => rs@ == ds@,
            _ => false,
        },
    }
}

/// Accept a well-formed lawful downgrade; answer Hold otherwise.
pub open spec fn spec_gate(desired: Decision, reviewed: Decision) -> Decision {
    if lawful_downgrade(desired, reviewed) && reviewed.wf() {
        reviewed
    } else {
        Decision::Hold
    }
}

/// Gate on the answer of an external risk manager: anything that is not a
/// lawful downgrade of the proposed decision resolves to Hold, so the
/// no-escalation law holds whatever it answered.
pub fn enforce_no_escalation(desired: &Decision, reviewed: Decision) -> (r: Decision)
    requires
        desired.wf(),
    ensures
        r == spec_gate(*desired, reviewed),
        r.wf(),
        lawful_downgrade(*desired, r),
{
    match reviewed {
        Decision::Hold => Decision::Hold,
        Decision::Buy { symbol: rs, fraction_of_cash: rf } => {
            match desired {
                Decision::Buy { symbol: ds, fraction_of_cash: df } => {
                    if rs == *ds && 1 <= rf && rf <= *df {
                        Decision::Buy { symbol: rs, fraction_of_cash: rf }
                    } else {
                        Decision::Hold
                    }
                },
                _ => Decision::Hold,
            }
        },
        Decision::SellAll { symbol: rs } => {
            match desired {
                Decision::SellAll { symbol: ds } => {
                    if rs == *ds {
                        Decision::SellAll { symbol: rs }
                    } else {
                        Decision::Hold
                    }
                },
                _ => Decision::Hold,
            }
        },
    }
}

/// No-escalation law: a lawful downgrade never exposes more cash than the
/// proposed decision, against any portfolio; Hold is a fixed point of
/// review. Every decision that reaches execution has passed
/// `risk_review` or `enforce_no_escalation`, whose answers satisfy
/// `lawful_downgrade`, so no reviewed decision ever exposes more cash
/// than the one proposed.
pub proof fn lemma_risk_never_escalates(d: Decision, r: Decision, p: Portfolio)
    requires
        lawful_downgrade(d, r),
    ensures
        cash_exposure(r, p) <= cash_exposure(d, p),
        d is Hold ==> r is Hold,
{
    match r {
        Decision::Hold => {
            assert(cash_exposure(r, p) == 0);
            assert(cash_exposure(d, p) >= 0) by {
                match d {
                    Decision::Buy { symbol: _, fraction_of_cash } => {
                        assert(buy_spend(p.cash, fraction_of_cash) >= 0);
                    },
                    _ => {},
                }
            }
        },
        Decision::Buy { symbol: _, fraction_of_cash: rf } => {
            match d {
                Decision::Buy { symbol: _, fraction_of_cash: df } => {
                    lemma_mul_inequality(rf as int, df as int, p.cash as int);
                    lemma_div_is_ordered(
                        p.cash as int * rf as int,
                        p.cash as int * df as int,
                        FRAC_SCALE as int,
                    );
                },
                _ => {},
            }
        },
        Decision::SellAll { symbol: _ } => {},
    }
}

} // verus!
