use trader::commit::CommitError;
use trader::domain::Portfolio;
use trader::domain::Position;
use trader::domain::Side;
use trader::domain::Trade;

fn buy(symbol: &str, price: u64, quantity: u64, fee: u64) -> Trade {
    Trade { ts: 1, symbol: symbol.to_string(), side: Side::Buy, price, quantity, fee }
}

fn sell(symbol: &str, price: u64, quantity: u64, fee: u64) -> Trade {
    Trade { ts: 2, symbol: symbol.to_string(), side: Side::Sell, price, quantity, fee }
}

#[test]
fn first_fill_commits_exactly() {
    // Buy 0.5 BTC at 1000 with fee 1 out of 1000 cash:
    // cash = 1000 - 500 - 1 = 499, position 0.5 at avg price 1000.
    let mut p = Portfolio { cash: 1000, positions: vec![] };
    let t = buy("BTC", 1000, 5000, 1);
    assert!(p.commit_trade(&t).is_ok());
    assert_eq!(p.cash, 499);
    assert_eq!(p.positions.len(), 1);
    assert_eq!(p.positions[0].symbol, "BTC");
    assert_eq!(p.positions[0].quantity, 5000);
    assert_eq!(p.positions[0].avg_price, 1000);
}

#[test]
fn repeated_buy_merges_weighted_average() {
    let mut p = Portfolio { cash: 1000, positions: vec![] };
    assert!(p.commit_trade(&buy("ETH", 100, 10000, 0)).is_ok());
    assert!(p.commit_trade(&buy("ETH", 200, 10000, 0)).is_ok());
    assert_eq!(p.cash, 1000 - 100 - 200);
    assert_eq!(p.positions.len(), 1);
    assert_eq!(p.positions[0].quantity, 20000);
    assert_eq!(p.positions[0].avg_price, 150);
}

#[test]
fn sell_all_removes_position_and_credits_cash() {
    let mut p = Portfolio {
        cash: 10,
        positions: vec![Position { symbol: "BTC".to_string(), quantity: 5000, avg_price: 1000 }],
    };
    assert!(p.commit_trade(&sell("BTC", 1200, 5000, 2)).is_ok());
    // proceeds 600, fee 2.
    assert_eq!(p.cash, 10 + 600 - 2);
    assert!(p.positions.is_empty());
}

#[test]
fn second_overlapping_spend_is_revalidated_and_refused() {
    // Two symbols' loops each decided to spend 0.8 of the same 1000 cash;
    // the writer serializes them: the first commits in full, the second's
    // re-validation sees only 200 left and refuses.
    let mut p = Portfolio { cash: 1000, positions: vec![] };
    let first = buy("BTC", 1000, 8000, 0);
    let second = buy("ETH", 1000, 8000, 0);
    assert!(p.commit_trade(&first).is_ok());
    assert_eq!(p.cash, 200);
    assert_eq!(p.commit_trade(&second), Err(CommitError::InsufficientCash));
    assert_eq!(p.cash, 200);
    assert_eq!(p.positions.len(), 1);
    assert_eq!(p.positions[0].symbol, "BTC");
}

#[test]
fn commit_all_serializes_overlapping_spends() {
    let mut p = Portfolio { cash: 1000, positions: vec![] };
    let attempts = vec![buy("BTC", 1000, 8000, 0), buy("ETH", 1000, 8000, 0)];
    let committed = p.commit_all(&attempts);
    assert_eq!(committed, vec![true, false]);
    assert_eq!(p.cash, 200);
}

#[test]
fn buy_insufficient_cash_is_refused_unchanged() {
    let mut p = Portfolio { cash: 499, positions: vec![] };
    let t = buy("BTC", 1000, 5000, 1);
    assert_eq!(p.commit_trade(&t), Err(CommitError::InsufficientCash));
    assert_eq!(p.cash, 499);
    assert!(p.positions.is_empty());
}

#[test]
fn zero_quantity_buy_is_refused() {
    let mut p = Portfolio { cash: 1000, positions: vec![] };
    assert_eq!(p.commit_trade(&buy("BTC", 1000, 0, 0)), Err(CommitError::EmptyFill));
}

#[test]
fn sell_of_unknown_position_is_refused() {
    let mut p = Portfolio { cash: 100, positions: vec![] };
    assert_eq!(p.commit_trade(&sell("BTC", 1000, 5000, 0)), Err(CommitError::UnknownPosition));
    assert_eq!(p.cash, 100);
}

#[test]
fn sell_of_partial_quantity_is_refused() {
    let mut p = Portfolio {
        cash: 0,
        positions: vec![Position { symbol: "BTC".to_string(), quantity: 5000, avg_price: 1000 }],
    };
    assert_eq!(p.commit_trade(&sell("BTC", 1000, 4999, 0)), Err(CommitError::QuantityMismatch));
    assert_eq!(p.positions.len(), 1);
}

#[test]
fn sell_whose_fee_exceeds_funds_is_refused() {
    let mut p = Portfolio {
        cash: 0,
        positions: vec![Position { symbol: "BTC".to_string(), quantity: 1, avg_price: 1 }],
    };
    // proceeds floor(1 * 1 / 10000) = 0, fee 5 > 0 cash.
    assert_eq!(p.commit_trade(&sell("BTC", 1, 1, 5)), Err(CommitError::CashOutOfRange));
}

#[test]
fn sell_that_overflows_cash_is_refused() {
    let mut p = Portfolio {
        cash: u64::MAX,
        positions: vec![Position { symbol: "BTC".to_string(), quantity: 10000, avg_price: 1 }],
    };
    assert_eq!(p.commit_trade(&sell("BTC", 7, 10000, 0)), Err(CommitError::CashOutOfRange));
    assert_eq!(p.cash, u64::MAX);
}

#[test]
fn buy_that_overflows_held_quantity_is_refused() {
    let mut p = Portfolio {
        cash: u64::MAX,
        positions: vec![Position {
            symbol: "BTC".to_string(),
            quantity: u64::MAX,
            avg_price: 1,
        }],
    };
    assert_eq!(p.commit_trade(&buy("BTC", 1, 10000, 0)), Err(CommitError::QuantityOverflow));
    assert_eq!(p.positions[0].quantity, u64::MAX);
}
