//! Turning a reviewed decision into the intent sent to the Executor.
//!
//! The Executing stage hands the Executor an `OrderRequest`: a market
//! order whose quantity realizes the decision against the portfolio
//! snapshot at the given price. A Hold, an unfunded or unpriceable buy,
//! or a sell of nothing yields no intent at all.

use vstd::prelude::*;

use crate::domain::Decision;
use crate::domain::OrderRequest;
use crate::domain::OrderType;
use crate::domain::Portfolio;
use crate::domain::Side;
use crate::domain::QTY_SCALE;
use crate::risk::buy_spend;
use crate::risk::lemma_spend_fits;
use vstd::arithmetic::mul::lemma_mul_inequality;

verus! {

/// Quantity (in `QTY_SCALE`-ths of a unit) that the buy's cash spend pays
/// for at `price`: `floor(spend * QTY_SCALE / price)`. Meaningful only
/// for a positive price.
pub open spec fn spec_buy_quantity(cash: u64, fraction: u64, price: u64) -> int {
    (buy_spend(cash, fraction) * QTY_SCALE) / (price as int)
}

/// Build the order intent for a reviewed decision, if the decision calls
/// for one: a buy whose spend buys at least one quantity step becomes a
/// market buy of exactly that quantity, a sell of a held position becomes
/// a market sell of the whole held quantity, and everything else — Hold,
/// a zero price, a spend that buys nothing, a quantity beyond `u64`, a
/// sell of nothing — yields `None`.
pub fn order_request_for(decision: &Decision, portfolio: &Portfolio, price: u64) -> (r: Option<
    OrderRequest,
>)
    requires
        decision.wf(),
        portfolio.wf(),
    ensures
        match *decision {
            Decision::Hold => r is None,
            Decision::Buy { symbol, fraction_of_cash } => {
                let q = spec_buy_quantity(portfolio.cash, fraction_of_cash, price);
                if price > 0 && 0 < q <= u64::MAX {
                    &&& r matches Some(o) && (o.symbol@ == symbol@ && o.side is Buy && o.quantity
                        == q && o.order_type is Market && o.price is None)
                } else {
                    r is None
                }
            },
            Decision::SellAll { symbol } => {
                if portfolio.has_position(symbol@) {
                    &&& r matches Some(o) && (o.symbol@ == symbol@ && o.side is Sell && o.quantity
                        == portfolio.position_at(symbol@).quantity && o.order_type is Market
                        && o.price is None)
                } else {
                    r is None
                }
            },
        },
{
    match decision {
        Decision::Hold => None,
        Decision::Buy { symbol, fraction_of_cash } => {
            if price == 0 {
                return None;
            }
            proof {
                lemma_mul_inequality(
                    *fraction_of_cash as int,
                    crate::domain::FRAC_SCALE as int,
                    portfolio.cash as int,
                );
                lemma_spend_fits(portfolio.cash, *fraction_of_cash);
            }
            let spend: u128 = ((portfolio.cash as u128) * (*fraction_of_cash as u128)) / (
            crate::domain::FRAC_SCALE as u128);
            let quantity: u128 = (spend * (QTY_SCALE as u128)) / (price as u128);
            if quantity == 0 || quantity > u64::MAX as u128 {
                return None;
            }
            Some(
                OrderRequest {
                    symbol: symbol.clone(),
                    side: Side::Buy,
                    quantity: quantity as u64,
                    order_type: OrderType::Market,
                    price: None,
                },
            )
        },
        Decision::SellAll { symbol } => {
            match portfolio.find_position(symbol) {
                Some(i) => {
                    proof {
                        lemma_found_index(*portfolio, symbol@, i as int);
                    }
                    Some(
                        OrderRequest {
                            symbol: symbol.clone(),
                            side: Side::Sell,
                            quantity: portfolio.positions[i].quantity,
                            order_type: OrderType::Market,
                            price: None,
                        },
                    )
                },
                None => None,
            }
        },
    }
}

/// In a well-formed portfolio the found index is the chosen one.
proof fn lemma_found_index(p: Portfolio, sym: Seq<char>, i: int)
    requires
        p.wf(),
        0 <= i < p.positions@.len(),
        p.positions@[i].symbol@ == sym,
    ensures
        p.has_position(sym),
        p.position_at(sym) == p.positions@[i],
{
    assert(p.has_position(sym));
    let j = p.position_index(sym);
    if j != i {
        if j < i {
            assert(p.positions@[j].symbol@ != p.positions@[i].symbol@);
        } else {
            assert(p.positions@[i].symbol@ != p.positions@[j].symbol@);
        }
    }
}

} // verus!
