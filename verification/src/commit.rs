//! The serialized commit step.
//!
//! Every symbol loop funnels its fills into one logical writer that holds
//! the shared portfolio exclusively. A commit re-validates against the
//! *current* portfolio — not the snapshot the decision was made from —
//! and either applies the whole trade or leaves the portfolio exactly as
//! it was. Because cash is unsigned and a buy is admitted only when the
//! current cash covers its full debit, no interleaving of commits can
//! drive cash negative or spend the same cash twice.

use vstd::prelude::*;
use vstd::arithmetic::div_mod::lemma_div_is_ordered;
use vstd::arithmetic::mul::lemma_mul_inequality;

use crate::domain::Portfolio;
use crate::domain::Position;
use crate::domain::Side;
use crate::domain::Trade;
use crate::domain::QTY_SCALE;

verus! {

/// Why a commit was refused; the portfolio is untouched in every case.
#[derive(Clone, Copy, Debug, PartialEq, Eq, Structural)]
pub enum CommitError {
    /// Buy: the fill's quantity is zero; an empty fill buys nothing.
    EmptyFill,
    /// Buy: the current cash no longer covers cost plus fee.
    InsufficientCash,
    /// Buy: the merged position's quantity would not fit.
    QuantityOverflow,
    /// Sell: no position is held for the trade's symbol.
    UnknownPosition,
    /// Sell: the fill's quantity is not the held quantity.
    QuantityMismatch,
    /// Sell: fee exceeds cash plus proceeds, or cash would not fit.
    CashOutOfRange,
}

/// Cash value of `quantity` (in `QTY_SCALE`-ths of a unit) at `price`:
/// `floor(price * quantity / QTY_SCALE)`. For a buy this is the cost, for
/// a sell the proceeds, fees apart.
pub open spec fn trade_cost(price: u64, quantity: u64) -> int {
    (price * quantity) / (QTY_SCALE as int)
}

/// Average entry price after merging `add_qty` units bought at `price`
/// into a position of `qty` units at `avg`: the quantity-weighted mean,
/// rounded down.
pub open spec fn merged_avg_price(qty: u64, avg: u64, add_qty: u64, price: u64) -> int {
    (qty * avg + add_qty * price) / (qty + add_qty) as int
}

/// Whether the current portfolio admits this trade: the re-validation run
/// at commit time, against the live portfolio rather than the snapshot
/// the decision was made from.
pub open spec fn commit_admissible(p: Portfolio, t: Trade) -> bool {
    match t.side {
        Side::Buy => {
            &&& trade_cost(t.price, t.quantity) + t.fee <= p.cash
            &&& t.quantity > 0
            &&& (p.has_position(t.symbol@) ==> p.position_at(t.symbol@).quantity + t.quantity
                <= u64::MAX)
        },
        Side::Sell => {
            &&& p.has_position(t.symbol@)
            &&& p.position_at(t.symbol@).quantity == t.quantity
            &&& t.fee <= p.cash + trade_cost(t.price, t.quantity)
            &&& p.cash + trade_cost(t.price, t.quantity) - t.fee <= u64::MAX
        },
    }
}

/// Cash after an admissible trade.
pub open spec fn cash_after(p: Portfolio, t: Trade) -> int {
    match t.side {
        Side::Buy => p.cash - trade_cost(t.price, t.quantity) - t.fee,
        Side::Sell => p.cash + trade_cost(t.price, t.quantity) - t.fee,
    }
}

/// Positions after an admissible trade, as a relation on views: a first
/// buy appends, a repeated buy merges quantity and weighted average
/// price, a sell removes the whole position.
pub open spec fn positions_after(p: Portfolio, t: Trade, post: Seq<Position>) -> bool {
    match t.side {
        Side::Buy => {
            if p.has_position(t.symbol@) {
                post == p.positions@.update(
                    p.position_index(t.symbol@),
                    Position {
                        symbol: p.position_at(t.symbol@).symbol,
                        quantity: (p.position_at(t.symbol@).quantity + t.quantity) as u64,
                        avg_price: merged_avg_price(
                            p.position_at(t.symbol@).quantity,
                            p.position_at(t.symbol@).avg_price,
                            t.quantity,
                            t.price,
                        ) as u64,
                    },
                )
            } else {
                post == p.positions@.push(
                    Position { symbol: t.symbol, quantity: t.quantity, avg_price: t.price },
                )
            }
        },
        Side::Sell => post == p.positions@.remove(p.position_index(t.symbol@)),
    }
}

/// Which refusal an inadmissible trade earns; meaningful only when
/// `commit_admissible` fails.
pub open spec fn commit_refusal(p: Portfolio, t: Trade) -> CommitError {
    match t.side {
        Side::Buy => {
            if t.quantity == 0 {
                CommitError::EmptyFill
            } else if trade_cost(t.price, t.quantity) + t.fee > p.cash {
                CommitError::InsufficientCash
            } else {
                CommitError::QuantityOverflow
            }
        },
        Side::Sell => {
            if !p.has_position(t.symbol@) {
                CommitError::UnknownPosition
            } else if p.position_at(t.symbol@).quantity != t.quantity {
                CommitError::QuantityMismatch
            } else {
                CommitError::CashOutOfRange
            }
        },
    }
}

/// The exact outcome `commit_trade` promises: admissible trades are
/// applied in full, inadmissible ones refused with the matching error and
/// the portfolio untouched.
pub open spec fn commit_outcome(
    pre: Portfolio,
    t: Trade,
    post: Portfolio,
    r: Result<(), CommitError>,
) -> bool {
    &&& r is Ok <==> commit_admissible(pre, t)
    &&& (r is Ok ==> post.cash == cash_after(pre, t) && positions_after(pre, t, post.positions@))
    &&& (r is Err ==> post == pre)
    &&& (r matches Err(e) ==> e == commit_refusal(pre, t))
}

impl Portfolio {
    /// Apply one fill to the live portfolio, re-validating first. This is
    /// the single writer's step: callers serialize all commits through
    /// one `&mut Portfolio`.
    pub fn commit_trade(&mut self, trade: &Trade) -> (r: Result<(), CommitError>)
        requires
            old(self).wf(),
        ensures
            final(self).wf(),
            commit_outcome(*old(self), *trade, *final(self), r),
            r is Err ==> *final(self) == *old(self),
    {
        proof {
            lemma_cost_bounds(trade.price, trade.quantity);
        }
        let cost128: u128 = ((trade.price as u128) * (trade.quantity as u128)) / (
        QTY_SCALE as u128);
        match trade.side {
            Side::Buy => {
                if trade.quantity == 0 {
                    return Err(CommitError::EmptyFill);
                }
                if cost128 + (trade.fee as u128) > (self.cash as u128) {
                    return Err(CommitError::InsufficientCash);
                }
                let cost: u64 = cost128 as u64;
                match self.find_position(&trade.symbol) {
                    Some(i) => {
                        let held_qty = self.positions[i].quantity;
                        let held_avg = self.positions[i].avg_price;
                        if trade.quantity > u64::MAX - held_qty {
                            return Err(CommitError::QuantityOverflow);
                        }
                        let new_qty: u64 = held_qty + trade.quantity;
                        proof {
                            lemma_merged_avg_fits(held_qty, held_avg, trade.quantity, trade.price);
                        }
                        let weighted: u128 = (held_qty as u128) * (held_avg as u128) + (
                        trade.quantity as u128) * (trade.price as u128);
                        let new_avg: u64 = (weighted / (new_qty as u128)) as u64;
                        let symbol = self.positions[i].symbol.clone();
                        self.positions.set(
                            i,
                            Position { symbol, quantity: new_qty, avg_price: new_avg },
                        );
                        self.cash = self.cash - cost - trade.fee;
                        proof {
                            let sym = trade.symbol@;
                            assert(old(self).positions@[i as int].symbol@ == sym);
                            lemma_position_index_is(*old(self), sym, i as int);
                            let pre = old(self).positions@;
                            let post = self.positions@;
                            assert forall|a: int|
                                0 <= a < post.len() implies (post[a].symbol@ == pre[a].symbol@
                                && post[a].quantity > 0) by {
                                if a != i as int {
                                    assert(post[a] == pre[a]);
                                }
                            }
                        }
                        Ok(())
                    },
                    None => {
                        self.positions.push(
                            Position {
                                symbol: trade.symbol.clone(),
                                quantity: trade.quantity,
                                avg_price: trade.price,
                            },
                        );
                        self.cash = self.cash - cost - trade.fee;
                        Ok(())
                    },
                }
            },
            Side::Sell => {
                match self.find_position(&trade.symbol) {
                    Some(i) => {
                        proof {
                            lemma_position_index_is(*old(self), trade.symbol@, i as int);
                        }
                        if !(self.positions[i].quantity == trade.quantity) {
                            return Err(CommitError::QuantityMismatch);
                        }
                        let gross: u128 = (self.cash as u128) + cost128;
                        if (trade.fee as u128) > gross {
                            return Err(CommitError::CashOutOfRange);
                        }
                        let net: u128 = gross - (trade.fee as u128);
                        if net > u64::MAX as u128 {
                            return Err(CommitError::CashOutOfRange);
                        }
                        self.positions.remove(i);
                        self.cash = net as u64;
                        Ok(())
                    },
                    None => Err(CommitError::UnknownPosition),
                }
            },
        }
    }
}

/// Cash debited by attempt `k` of a run: cost plus fee for a committed
/// buy, nothing for a refused attempt or a sell.
pub open spec fn debit_of(t: Trade, ok: bool) -> int {
    if ok && t.side is Buy {
        trade_cost(t.price, t.quantity) + t.fee
    } else {
        0
    }
}

/// Cash credited by attempt `k` of a run: proceeds net of fee for a
/// committed sell (negative when the fee exceeds the proceeds), nothing
/// otherwise.
pub open spec fn credit_of(t: Trade, ok: bool) -> int {
    if ok && t.side is Sell {
        trade_cost(t.price, t.quantity) - t.fee
    } else {
        0
    }
}

/// Total cash debited across a run of commit attempts.
pub open spec fn total_debits(ts: Seq<Trade>, oks: Seq<bool>) -> int
    decreases ts.len(),
{
    if ts.len() == 0 || ts.len() != oks.len() {
        0
    } else {
        total_debits(ts.drop_last(), oks.drop_last()) + debit_of(ts.last(), oks.last())
    }
}

/// Total cash credited across a run of commit attempts.
pub open spec fn total_credits(ts: Seq<Trade>, oks: Seq<bool>) -> int
    decreases ts.len(),
{
    if ts.len() == 0 || ts.len() != oks.len() {
        0
    } else {
        total_credits(ts.drop_last(), oks.drop_last()) + credit_of(ts.last(), oks.last())
    }
}

/// A serialized run of the single writer: a chain of portfolio states,
/// one commit attempt between each pair of neighbours, each attempt
/// re-validated against the state the previous one left and applied or
/// refused exactly as `commit_outcome` says.
pub open spec fn serialized_run(
    states: Seq<Portfolio>,
    ts: Seq<Trade>,
    oks: Seq<bool>,
    first: Portfolio,
    last: Portfolio,
) -> bool {
    &&& states.len() == ts.len() + 1
    &&& oks.len() == ts.len()
    &&& states[0] == first
    &&& states[states.len() - 1] == last
    &&& forall|k: int|
        0 <= k < ts.len() ==> commit_outcome(
            states[k],
            ts[k],
            #[trigger] states[k + 1],
            if oks[k] {
                Result::Ok(())
            } else {
                Result::Err(commit_refusal(states[k], ts[k]))
            },
        )
}

impl Portfolio {
    /// The single writer draining a run of commit attempts, in arrival
    /// order: this is what "concurrent" commits reduce to, since all
    /// symbol loops reach the portfolio only through this writer.
    ///
    /// Serialization correctness: cash, being unsigned and never
    /// underflowed, is non-negative in the final and every intermediate
    /// committed state, and the cash debited by the committed buys of any
    /// prefix of the run never exceeds the cash that funded it — the
    /// initial cash plus the cash credited by committed sells of that
    /// prefix. Two attempts can therefore never spend the same cash: the
    /// later one is re-validated against the cash the earlier one left.
    pub fn commit_all(&mut self, trades: &Vec<Trade>) -> (committed: Vec<bool>)
        requires
            old(self).wf(),
        ensures
            final(self).wf(),
            committed@.len() == trades@.len(),
            exists|states: Seq<Portfolio>|
                serialized_run(states, trades@, committed@, *old(self), *final(self)),
            final(self).cash == old(self).cash - total_debits(trades@, committed@)
                + total_credits(trades@, committed@),
            forall|k: int|
                0 <= k <= trades@.len() ==> #[trigger] total_debits(
                    trades@.take(k),
                    committed@.take(k),
                ) <= old(self).cash + total_credits(trades@.take(k), committed@.take(k)),
    {
        let ghost cash0 = self.cash as int;
        let n = trades.len();
        let mut committed: Vec<bool> = Vec::new();
        let ghost mut states: Seq<Portfolio> = seq![*self];
        let mut i: usize = 0;
        while i < n
            invariant
                i <= n,
                n == trades@.len(),
                committed@.len() == i as int,
                self.wf(),
                states.len() == i + 1,
                states[0] == *old(self),
                states[i as int] == *self,
                forall|k: int|
                    0 <= k < i ==> commit_outcome(
                        states[k],
                        trades@[k],
                        #[trigger] states[k + 1],
                        if committed@[k] {
                            Result::Ok(())
                        } else {
                            Result::Err(commit_refusal(states[k], trades@[k]))
                        },
                    ),
                self.cash == cash0 - total_debits(trades@.take(i as int), committed@)
                    + total_credits(trades@.take(i as int), committed@),
                forall|k: int|
                    0 <= k <= i ==> #[trigger] total_debits(
                        trades@.take(k),
                        committed@.take(k),
                    ) <= cash0 + total_credits(trades@.take(k), committed@.take(k)),
            decreases n - i,
        {
            let ghost pre = *self;
            let ghost pre_committed = committed@;
            let ok = match self.commit_trade(&trades[i]) {
                Ok(()) => true,
                Err(_) => false,
            };
            committed.push(ok);
            i = i + 1;
            proof {
                states = states.push(*self);
                let t = trades@;
                let c = committed@;
                let i = i as int;
                assert(t.take(i).drop_last() =~= t.take(i - 1));
                assert(c.drop_last() =~= pre_committed);
                assert(c.take(i) =~= c);
                assert(t.take(i).last() == t[i - 1]);
                assert(total_debits(t.take(i), c) == total_debits(t.take(i - 1), pre_committed)
                    + debit_of(t[i - 1], ok));
                assert(total_credits(t.take(i), c) == total_credits(t.take(i - 1), pre_committed)
                    + credit_of(t[i - 1], ok));
                assert forall|k: int| 0 <= k <= i implies #[trigger] total_debits(
                    t.take(k),
                    c.take(k),
                ) <= cash0 + total_credits(t.take(k), c.take(k)) by {
                    if k < i {
                        assert(c.take(k) =~= pre_committed.take(k));
                        assert(total_debits(t.take(k), pre_committed.take(k)) <= cash0
                            + total_credits(t.take(k), pre_committed.take(k)));
                    } else {
                        assert(c.take(k) =~= c);
                    }
                }
            }
        }
        proof {
            assert(trades@.take(n as int) =~= trades@);
            assert(serialized_run(states, trades@, committed@, *old(self), *self));
        }
        committed
    }
}

/// `find_position`'s witness is the index `position_index` chooses, since
/// symbols are pairwise distinct in a well-formed portfolio.
proof fn lemma_position_index_is(p: Portfolio, sym: Seq<char>, i: int)
    requires
        p.wf(),
        0 <= i < p.positions@.len(),
        p.positions@[i].symbol@ == sym,
    ensures
        p.has_position(sym),
        p.position_index(sym) == i,
        p.position_at(sym) == p.positions@[i],
{
    assert(p.has_position(sym));
    let j = p.position_index(sym);
    if j != i {
        if j < i {
            assert(p.positions@[j].symbol@ != p.positions@[i].symbol@);
        } else {
            assert(p.positions@[i].symbol@ != p.positions@[j].symbol@);
        }
    }
}

/// The cash value of any `u64` price and quantity fits comfortably below
/// `u128` overflow, and below `u64::MAX * u64::MAX`.
proof fn lemma_cost_bounds(price: u64, quantity: u64)
    ensures
        0 <= price * quantity <= u64::MAX * u64::MAX,
        0 <= trade_cost(price, quantity) <= (price * quantity) as int,
{
    lemma_mul_inequality(price as int, u64::MAX as int, quantity as int);
    lemma_mul_inequality(quantity as int, u64::MAX as int, u64::MAX as int);
    assert(price as int * quantity as int <= u64::MAX as int * u64::MAX as int) by (
    nonlinear_arith);
    assert(trade_cost(price, quantity) <= price as int * quantity as int) by (nonlinear_arith)
        requires
            price as int * quantity as int >= 0,
    ;
}

/// The weighted sum fits in `u128` and the merged average lies between
/// zero and the larger of the two prices, so it fits back into `u64`.
proof fn lemma_merged_avg_fits(qty: u64, avg: u64, add_qty: u64, price: u64)
    requires
        qty + add_qty <= u64::MAX,
        add_qty > 0,
    ensures
        0 <= qty * avg + add_qty * price <= u64::MAX * u64::MAX,
        0 <= merged_avg_price(qty, avg, add_qty, price) <= u64::MAX,
{
    let hi = if avg >= price {
        avg as int
    } else {
        price as int
    };
    assert(qty * avg + add_qty * price <= (qty + add_qty) * hi) by (nonlinear_arith)
        requires
            avg <= hi,
            price <= hi,
            qty >= 0,
            add_qty >= 0,
    ;
    assert((qty + add_qty) * hi <= u64::MAX * u64::MAX) by (nonlinear_arith)
        requires
            qty + add_qty <= u64::MAX,
            0 <= hi <= u64::MAX,
    ;
    lemma_div_is_ordered(
        qty as int * avg as int + add_qty as int * price as int,
        (qty + add_qty) as int * hi,
        (qty + add_qty) as int,
    );
    assert((qty + add_qty) as int * hi / (qty + add_qty) as int == hi) by (nonlinear_arith)
        requires
            qty + add_qty > 0,
    ;
}

} // verus!
