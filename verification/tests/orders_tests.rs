use trader::domain::Decision;
use trader::domain::OrderType;
use trader::domain::Portfolio;
use trader::domain::Position;
use trader::domain::Side;
use trader::orders::order_request_for;

#[test]
fn a_funded_buy_becomes_a_market_order() {
    // Spending half of 1000 cash at price 1000 buys 0.5 of a unit.
    let p = Portfolio { cash: 1000, positions: vec![] };
    let d = Decision::Buy { symbol: "BTC".to_string(), fraction_of_cash: 5000 };
    let o = order_request_for(&d, &p, 1000).unwrap();
    assert_eq!(o.symbol, "BTC");
    assert_eq!(o.side, Side::Buy);
    assert_eq!(o.quantity, 5000);
    assert_eq!(o.order_type, OrderType::Market);
    assert!(o.price.is_none());
}

#[test]
fn a_spend_that_buys_nothing_yields_no_intent() {
    // floor(1 * 1 / 10000) = 0 cash spent: nothing to order.
    let p = Portfolio { cash: 1, positions: vec![] };
    let d = Decision::Buy { symbol: "BTC".to_string(), fraction_of_cash: 1 };
    assert!(order_request_for(&d, &p, 1000).is_none());
    // A zero price can never be priced into a quantity.
    let d = Decision::Buy { symbol: "BTC".to_string(), fraction_of_cash: 5000 };
    assert!(order_request_for(&d, &p, 0).is_none());
}

#[test]
fn sell_all_orders_the_whole_held_quantity() {
    let p = Portfolio {
        cash: 0,
        positions: vec![Position { symbol: "BTC".to_string(), quantity: 7500, avg_price: 900 }],
    };
    let d = Decision::SellAll { symbol: "BTC".to_string() };
    let o = order_request_for(&d, &p, 1000).unwrap();
    assert_eq!(o.side, Side::Sell);
    assert_eq!(o.quantity, 7500);
    let none = order_request_for(&Decision::SellAll { symbol: "ETH".to_string() }, &p, 1000);
    assert!(none.is_none());
}

#[test]
fn hold_yields_no_intent() {
    let p = Portfolio { cash: 1000, positions: vec![] };
    assert!(order_request_for(&Decision::Hold, &p, 1000).is_none());
}
