//! Value types shared by every stage of the pipeline.
//!
//! All amounts are fixed-point integers so that every arithmetic step can
//! be reasoned about exactly:
//! - cash, prices and fees are whole cash units (`u64`);
//! - asset quantities are `u64` counts of `1 / QTY_SCALE` of one asset unit;
//! - a buy's fraction of cash is a `u64` in `1..=FRAC_SCALE`;
//! - a sentiment score is an `i64` in `-SCORE_SCALE..=SCORE_SCALE`;
//! - timestamps are `u64` (seconds since an arbitrary epoch).

use vstd::prelude::*;

verus! {

/// One asset unit is `QTY_SCALE` quantity steps; a `quantity` field of
/// `QTY_SCALE / 2` means half an asset unit.
pub const QTY_SCALE: u64 = 10_000;

/// A buy spends `fraction_of_cash / FRAC_SCALE` of the portfolio's cash.
pub const FRAC_SCALE: u64 = 10_000;

/// Sentiment scores range over `-SCORE_SCALE..=SCORE_SCALE`, standing for
/// the real interval [-1, 1].
pub const SCORE_SCALE: i64 = 10_000;

/// Key for all per-symbol state.
pub type Symbol = String;

#[derive(Clone, Copy, Debug, PartialEq, Eq, Structural)]
pub enum Side {
    Buy,
    Sell,
}

#[derive(Clone, Copy, Debug, PartialEq, Eq, Structural)]
pub enum OrderType {
    Market,
    Limit,
}

/// Aggregated open/high/low/close/volume over one interval for one symbol.
#[derive(Debug)]
pub struct Candle {
    pub ts: u64,
    pub open: u64,
    pub high: u64,
    pub low: u64,
    pub close: u64,
    pub volume: u64,
    pub symbol: Symbol,
    pub interval_secs: u64,
}

/// A single trade/quote event at a point in time.
#[derive(Debug)]
pub struct Tick {
    pub ts: u64,
    pub price: u64,
    pub volume: u64,
    pub symbol: Symbol,
}

/// The intent handed to the Executor.
#[derive(Debug)]
pub struct OrderRequest {
    pub symbol: Symbol,
    pub side: Side,
    pub quantity: u64,
    pub order_type: OrderType,
    pub price: Option<u64>,
}

/// The immutable record of a filled order.
#[derive(Debug)]
pub struct Trade {
    pub ts: u64,
    pub symbol: Symbol,
    pub side: Side,
    pub price: u64,
    pub quantity: u64,
    pub fee: u64,
}

/// A held quantity of one symbol. Stored positions are never flat: a
/// position that reaches quantity zero is removed from the portfolio.
#[derive(Debug)]
pub struct Position {
    pub symbol: Symbol,
    pub quantity: u64,
    pub avg_price: u64,
}

/// Cash plus at most one position per symbol. `cash` is unsigned, so a
/// committed portfolio can never hold negative cash.
#[derive(Debug)]
pub struct Portfolio {
    pub cash: u64,
    pub positions: Vec<Position>,
}

impl Portfolio {
    /// Structural invariant: position symbols are pairwise distinct and no
    /// stored position is flat.
    pub open spec fn wf(self) -> bool {
        &&& forall|i: int, j: int|
            0 <= i < j < self.positions@.len() ==> self.positions@[i].symbol@
                != self.positions@[j].symbol@
        &&& forall|i: int| 0 <= i < self.positions@.len() ==> self.positions@[i].quantity > 0
    }

    pub open spec fn has_position(self, sym: Seq<char>) -> bool {
        exists|i: int| 0 <= i < self.positions@.len() && self.positions@[i].symbol@ == sym
    }

    /// Index of the position for `sym`; meaningful only when `has_position`.
    pub open spec fn position_index(self, sym: Seq<char>) -> int {
        choose|i: int| 0 <= i < self.positions@.len() && self.positions@[i].symbol@ == sym
    }

    pub open spec fn position_at(self, sym: Seq<char>) -> Position {
        self.positions@[self.position_index(sym)]
    }

    /// Look up the position for `symbol`, if any.
    pub fn find_position(&self, symbol: &Symbol) -> (r: Option<usize>)
        ensures
            match r {
                Some(i) => i < self.positions@.len() && self.positions@[i as int].symbol@
                    == symbol@,
                None => !self.has_position(symbol@),
            },
    {
        let n = self.positions.len();
        let mut i: usize = 0;
        while i < n
            invariant
                i <= n,
                n == self.positions@.len(),
                forall|j: int| 0 <= j < i ==> self.positions@[j].symbol@ != symbol@,
            decreases n - i,
        {
            if self.positions[i].symbol == *symbol {
                return Some(i);
            }
            i = i + 1;
        }
        None
    }

    pub fn empty() -> (r: Portfolio)
        ensures
            r.cash == 0,
            r.positions@.len() == 0,
            r.wf(),
    {
        Portfolio { cash: 0, positions: Vec::new() }
    }
}

/// Indicator readings; a field is `None` during warm-up, never a made-up
/// value.
#[derive(Clone, Copy, Debug)]
pub struct TechnicalSignals {
    pub rsi: Option<u64>,
    pub ema_short: Option<u64>,
    pub ema_long: Option<u64>,
    pub bollinger_upper: Option<u64>,
    pub bollinger_lower: Option<u64>,
}

/// Bounded sentiment reading.
#[derive(Clone, Copy, Debug)]
pub struct SentimentSignals {
    pub score: i64,
}

impl SentimentSignals {
    pub open spec fn wf(self) -> bool {
        -SCORE_SCALE <= self.score <= SCORE_SCALE
    }
}

/// Exactly one variant is active: buy a fraction of cash, liquidate a
/// position entirely, or do nothing.
#[derive(Debug)]
pub enum Decision {
    Buy { symbol: Symbol, fraction_of_cash: u64 },
    SellAll { symbol: Symbol },
    Hold,
}

impl Decision {
    /// A buy's fraction lies in `(0, 1]`, i.e. `1..=FRAC_SCALE`.
    pub open spec fn wf(self) -> bool {
        match self {
            Decision::Buy { symbol: _, fraction_of_cash } => 1 <= fraction_of_cash <= FRAC_SCALE,
            _ => true,
        }
    }

    pub open spec fn is_hold(self) -> bool {
        self is Hold
    }
}

impl Clone for Candle {
    fn clone(&self) -> (r: Self)
        ensures
            r == *self,
    {
        Candle {
            ts: self.ts,
            open: self.open,
            high: self.high,
            low: self.low,
            close: self.close,
            volume: self.volume,
            symbol: self.symbol.clone(),
            interval_secs: self.interval_secs,
        }
    }
}

impl Clone for Tick {
    fn clone(&self) -> (r: Self)
        ensures
            r == *self,
    {
        Tick {
            ts: self.ts,
            price: self.price,
            volume: self.volume,
            symbol: self.symbol.clone(),
        }
    }
}

impl Clone for OrderRequest {
    fn clone(&self) -> (r: Self)
        ensures
            r == *self,
    {
        OrderRequest {
            symbol: self.symbol.clone(),
            side: self.side,
            quantity: self.quantity,
            order_type: self.order_type,
            price: self.price,
        }
    }
}

impl Clone for Trade {
    fn clone(&self) -> (r: Self)
        ensures
            r == *self,
    {
        Trade {
            ts: self.ts,
            symbol: self.symbol.clone(),
            side: self.side,
            price: self.price,
            quantity: self.quantity,
            fee: self.fee,
        }
    }
}

impl Clone for Position {
    fn clone(&self) -> (r: Self)
        ensures
            r == *self,
    {
        Position {
            symbol: self.symbol.clone(),
            quantity: self.quantity,
            avg_price: self.avg_price,
        }
    }
}

impl Clone for Portfolio {
    fn clone(&self) -> (r: Self)
        ensures
            r.cash == self.cash,
            r.positions@ == self.positions@,
    {
        let n = self.positions.len();
        let mut positions: Vec<Position> = Vec::new();
        let mut i: usize = 0;
        while i < n
            invariant
                i <= n,
                n == self.positions@.len(),
                positions@.len() == i as int,
                forall|j: int| 0 <= j < i ==> positions@[j] == self.positions@[j],
            decreases n - i,
        {
            positions.push(self.positions[i].clone());
            i = i + 1;
        }
        proof {
            assert(positions@ =~= self.positions@);
        }
        Portfolio { cash: self.cash, positions }
    }
}

impl Clone for Decision {
    fn clone(&self) -> (r: Self)
        ensures
            r == *self,
    {
        match self {
            Decision::Buy { symbol, fraction_of_cash } => Decision::Buy {
                symbol: symbol.clone(),
                fraction_of_cash: *fraction_of_cash,
            },
            Decision::SellAll { symbol } => Decision::SellAll { symbol: symbol.clone() },
            Decision::Hold => Decision::Hold,
        }
    }
}

} // verus!
