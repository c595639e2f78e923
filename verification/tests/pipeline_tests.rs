use trader::analyzer::AnalyzerCore;
use trader::cycle::CycleAction;
use trader::cycle::CycleEvent;
use trader::cycle::CycleStage;
use trader::cycle::SymbolCycle;
use trader::domain::Candle;
use trader::domain::Decision;
use trader::domain::Portfolio;
use trader::domain::Side;
use trader::domain::TechnicalSignals;
use trader::domain::Tick;
use trader::domain::Trade;
use trader::risk::enforce_no_escalation;
use trader::risk::risk_review;

fn candle(symbol: &str, ts: u64, close: u64) -> Candle {
    Candle {
        ts,
        open: close,
        high: close,
        low: close,
        close,
        volume: 10,
        symbol: symbol.to_string(),
        interval_secs: 60,
    }
}

fn no_signals() -> TechnicalSignals {
    TechnicalSignals {
        rsi: None,
        ema_short: None,
        ema_long: None,
        bollinger_upper: None,
        bollinger_lower: None,
    }
}

#[test]
fn refeeding_a_candle_leaves_analyzer_unchanged() {
    let mut a = AnalyzerCore::new("BTC".to_string());
    let c = candle("BTC", 100, 42);
    assert!(a.update_with_candle(&c));
    assert_eq!(a.history_len(), 1);
    // The same candle again: refused, state identical.
    assert!(!a.update_with_candle(&c));
    assert_eq!(a.history_len(), 1);
    assert_eq!(a.accepted[0].ts, 100);
}

#[test]
fn stale_and_foreign_candles_are_refused() {
    let mut a = AnalyzerCore::new("BTC".to_string());
    assert!(a.update_with_candle(&candle("BTC", 100, 42)));
    assert!(!a.update_with_candle(&candle("BTC", 99, 41)));
    assert!(!a.update_with_candle(&candle("ETH", 101, 41)));
    assert!(a.update_with_candle(&candle("BTC", 101, 43)));
    assert_eq!(a.history_len(), 2);
}

#[test]
fn risk_review_passes_a_funded_buy_unchanged() {
    let p = Portfolio { cash: 1000, positions: vec![] };
    let d = Decision::Buy { symbol: "BTC".to_string(), fraction_of_cash: 5000 };
    let r = risk_review(&d, &p);
    assert!(matches!(r, Decision::Buy { ref symbol, fraction_of_cash: 5000 } if symbol == "BTC"));
}

#[test]
fn risk_review_downgrades_an_unfunded_buy_to_hold() {
    // Spending 1/10000 of 1 cash unit rounds to nothing: Hold.
    let p = Portfolio { cash: 1, positions: vec![] };
    let d = Decision::Buy { symbol: "BTC".to_string(), fraction_of_cash: 1 };
    assert!(matches!(risk_review(&d, &p), Decision::Hold));
}

#[test]
fn risk_review_downgrades_a_sell_of_nothing_to_hold() {
    let p = Portfolio { cash: 1000, positions: vec![] };
    let d = Decision::SellAll { symbol: "BTC".to_string() };
    assert!(matches!(risk_review(&d, &p), Decision::Hold));
    assert!(matches!(risk_review(&Decision::Hold, &p), Decision::Hold));
}

#[test]
fn escalating_review_is_gated_to_hold() {
    let desired = Decision::Buy { symbol: "BTC".to_string(), fraction_of_cash: 5000 };
    let escalated = Decision::Buy { symbol: "BTC".to_string(), fraction_of_cash: 8000 };
    assert!(matches!(enforce_no_escalation(&desired, escalated), Decision::Hold));
    let shrunk = Decision::Buy { symbol: "BTC".to_string(), fraction_of_cash: 3000 };
    assert!(matches!(
        enforce_no_escalation(&desired, shrunk),
        Decision::Buy { fraction_of_cash: 3000, .. }
    ));
    let other_symbol = Decision::SellAll { symbol: "BTC".to_string() };
    assert!(matches!(enforce_no_escalation(&desired, other_symbol), Decision::Hold));
}

#[test]
fn full_cycle_commits_one_trade() {
    let mut loop_ = SymbolCycle::new("BTC".to_string());
    let mut portfolio = Portfolio { cash: 1000, positions: vec![] };

    let action = loop_.step(CycleEvent::Candle(candle("BTC", 100, 1000)));
    assert!(matches!(action, CycleAction::UpdateAnalyzer { .. }));

    let action = loop_.step(CycleEvent::SignalsReady(no_signals()));
    assert!(matches!(action, CycleAction::RequestDecision { ref symbol, price: 1000 } if symbol == "BTC"));

    let proposed = Decision::Buy { symbol: "BTC".to_string(), fraction_of_cash: 5000 };
    let action = loop_.step(CycleEvent::DecisionReady(proposed));
    assert!(matches!(action, CycleAction::RequestRisk { .. }));

    let reviewed = Decision::Buy { symbol: "BTC".to_string(), fraction_of_cash: 5000 };
    let action = loop_.step(CycleEvent::RiskReady(reviewed));
    let price = match action {
        CycleAction::RequestExecution { decision: _, price } => price,
        _ => panic!("expected an execution request"),
    };
    assert_eq!(price, 1000);

    let fill = Trade {
        ts: 100,
        symbol: "BTC".to_string(),
        side: Side::Buy,
        price: 1000,
        quantity: 5000,
        fee: 1,
    };
    let action = loop_.step(CycleEvent::ExecutionReady(Some(fill)));
    let trade = match action {
        CycleAction::RequestCommit { trade } => trade,
        _ => panic!("expected a commit request"),
    };
    assert!(portfolio.commit_trade(&trade).is_ok());
    assert_eq!(portfolio.cash, 499);

    let action = loop_.step(CycleEvent::CommitDone(true));
    assert!(matches!(action, CycleAction::Wait));
    assert!(matches!(loop_.stage, CycleStage::Idle));
}

#[test]
fn hold_decision_ends_the_cycle_with_no_request() {
    let mut loop_ = SymbolCycle::new("BTC".to_string());
    loop_.step(CycleEvent::Candle(candle("BTC", 100, 1000)));
    loop_.step(CycleEvent::SignalsReady(no_signals()));
    let action = loop_.step(CycleEvent::DecisionReady(Decision::Hold));
    assert!(matches!(action, CycleAction::Wait));
    assert!(matches!(loop_.stage, CycleStage::Idle));
}

#[test]
fn review_gated_to_hold_ends_the_cycle() {
    let mut loop_ = SymbolCycle::new("BTC".to_string());
    loop_.step(CycleEvent::Candle(candle("BTC", 100, 1000)));
    loop_.step(CycleEvent::SignalsReady(no_signals()));
    loop_.step(CycleEvent::DecisionReady(Decision::Buy {
        symbol: "BTC".to_string(),
        fraction_of_cash: 5000,
    }));
    let action = loop_.step(CycleEvent::RiskReady(Decision::Hold));
    assert!(matches!(action, CycleAction::Wait));
    assert!(matches!(loop_.stage, CycleStage::Idle));
}

#[test]
fn unfilled_order_is_treated_as_hold() {
    let mut loop_ = SymbolCycle::new("BTC".to_string());
    loop_.step(CycleEvent::Candle(candle("BTC", 100, 1000)));
    loop_.step(CycleEvent::SignalsReady(no_signals()));
    loop_.step(CycleEvent::DecisionReady(Decision::Buy {
        symbol: "BTC".to_string(),
        fraction_of_cash: 5000,
    }));
    loop_.step(CycleEvent::RiskReady(Decision::Buy {
        symbol: "BTC".to_string(),
        fraction_of_cash: 5000,
    }));
    let action = loop_.step(CycleEvent::ExecutionReady(None));
    assert!(matches!(action, CycleAction::Wait));
    assert!(matches!(loop_.stage, CycleStage::Idle));
}

#[test]
fn capability_failure_aborts_only_the_cycle() {
    let mut loop_ = SymbolCycle::new("BTC".to_string());
    loop_.step(CycleEvent::Candle(candle("BTC", 100, 1000)));
    let action = loop_.step(CycleEvent::CapabilityFailed);
    assert!(matches!(action, CycleAction::Wait));
    assert!(matches!(loop_.stage, CycleStage::Idle));
    // The analyzer's log survives; the next candle starts the next cycle.
    assert_eq!(loop_.analyzer.history_len(), 1);
    let action = loop_.step(CycleEvent::Candle(candle("BTC", 101, 1001)));
    assert!(matches!(action, CycleAction::UpdateAnalyzer { .. }));
}

#[test]
fn shutdown_parks_an_idle_loop_at_once() {
    let mut loop_ = SymbolCycle::new("BTC".to_string());
    let action = loop_.step(CycleEvent::ShutdownRequested);
    assert!(matches!(action, CycleAction::Wait));
    assert!(matches!(loop_.stage, CycleStage::Stopped));
    // Stopped absorbs: nothing more is requested or accepted.
    let action = loop_.step(CycleEvent::Candle(candle("BTC", 100, 1000)));
    assert!(matches!(action, CycleAction::Wait));
    assert!(matches!(loop_.stage, CycleStage::Stopped));
}

#[test]
fn shutdown_mid_cycle_lets_the_commit_finish() {
    let mut loop_ = SymbolCycle::new("BTC".to_string());
    loop_.step(CycleEvent::Candle(candle("BTC", 100, 1000)));
    loop_.step(CycleEvent::SignalsReady(no_signals()));
    loop_.step(CycleEvent::DecisionReady(Decision::Buy {
        symbol: "BTC".to_string(),
        fraction_of_cash: 5000,
    }));
    // The stop request arrives while risk review is in flight.
    let action = loop_.step(CycleEvent::ShutdownRequested);
    assert!(matches!(action, CycleAction::Wait));
    assert!(matches!(loop_.stage, CycleStage::RiskChecking { .. }));

    loop_.step(CycleEvent::RiskReady(Decision::Buy {
        symbol: "BTC".to_string(),
        fraction_of_cash: 5000,
    }));
    let fill = Trade {
        ts: 100,
        symbol: "BTC".to_string(),
        side: Side::Buy,
        price: 1000,
        quantity: 5000,
        fee: 1,
    };
    // The fill still reaches the writer; only then does the loop park.
    let action = loop_.step(CycleEvent::ExecutionReady(Some(fill)));
    assert!(matches!(action, CycleAction::RequestCommit { .. }));
    let action = loop_.step(CycleEvent::CommitDone(true));
    assert!(matches!(action, CycleAction::Wait));
    assert!(matches!(loop_.stage, CycleStage::Stopped));
}

#[test]
fn ticks_refresh_price_but_trigger_nothing() {
    let mut loop_ = SymbolCycle::new("BTC".to_string());
    let action = loop_.step(CycleEvent::Tick(Tick {
        ts: 50,
        price: 900,
        volume: 1,
        symbol: "BTC".to_string(),
    }));
    assert!(matches!(action, CycleAction::Wait));
    assert!(matches!(loop_.stage, CycleStage::Idle));
    assert_eq!(loop_.last_price, Some(900));
}
