use trader::config::classify_database_url;
use trader::config::AppConfig;
use trader::config::ConfigError;
use trader::config::DatabaseKind;
use trader::persist::PersistAction;
use trader::persist::PersistEvent;
use trader::persist::PersistPhase;
use trader::persist::PersistTask;
use trader::sentiment::SentimentTracker;

#[test]
fn persistence_retry_records_the_fill_exactly_once() {
    // The store fails once after a successful fill, then succeeds on
    // retry: the trade ends up recorded exactly once.
    let mut task = PersistTask::new(3);
    let mut record_requests = 0;

    let action = task.step(PersistEvent::SaveFailed);
    assert_eq!(action, PersistAction::SavePortfolio);
    let action = task.step(PersistEvent::SaveOk);
    if action == PersistAction::RecordTrade {
        record_requests += 1;
    }
    let action = task.step(PersistEvent::RecordOk);
    assert_eq!(action, PersistAction::Rest);
    assert_eq!(task.phase, PersistPhase::Done);
    assert_eq!(record_requests, 1);

    // Anything after Done asks for nothing more.
    assert_eq!(task.step(PersistEvent::RecordOk), PersistAction::Rest);
    assert_eq!(task.phase, PersistPhase::Done);
}

#[test]
fn record_failures_are_retried_within_budget() {
    let mut task = PersistTask::new(1);
    assert_eq!(task.step(PersistEvent::SaveOk), PersistAction::RecordTrade);
    assert_eq!(task.step(PersistEvent::RecordFailed), PersistAction::RecordTrade);
    assert_eq!(task.step(PersistEvent::RecordOk), PersistAction::Rest);
    assert_eq!(task.phase, PersistPhase::Done);
}

#[test]
fn exhausted_retry_budget_escalates() {
    let mut task = PersistTask::new(0);
    assert_eq!(task.step(PersistEvent::SaveFailed), PersistAction::Escalate);
    assert_eq!(task.phase, PersistPhase::Escalated);
    // Escalated absorbs: no further persistence work is requested.
    assert_eq!(task.step(PersistEvent::SaveOk), PersistAction::Rest);
    assert_eq!(task.phase, PersistPhase::Escalated);
}

#[test]
fn default_config_is_paper_against_the_local_store() {
    let cfg = AppConfig::default();
    assert_eq!(cfg.mode, "paper");
    assert_eq!(cfg.database_url, "sqlite://ai_trader.db");
    assert!(cfg.exchange_api_key.is_none());
    assert!(cfg.exchange_api_secret.is_none());
}

#[test]
fn defaults_apply_when_nothing_is_configured() {
    let cfg = AppConfig::load(&vec![]).unwrap();
    assert_eq!(cfg.mode, "paper");
    assert_eq!(cfg.database_url, "sqlite://ai_trader.db");
    assert!(cfg.exchange_api_key.is_none());
    assert!(cfg.exchange_api_secret.is_none());
}

#[test]
fn later_sources_override_earlier_ones() {
    let sources = vec![
        ("mode".to_string(), "live".to_string()),
        ("database_url".to_string(), "postgres://db/one".to_string()),
        ("mode".to_string(), "paper".to_string()),
        ("exchange_api_key".to_string(), "k".to_string()),
    ];
    let cfg = AppConfig::load(&sources).unwrap();
    assert_eq!(cfg.mode, "paper");
    assert_eq!(cfg.database_url, "postgres://db/one");
    assert_eq!(cfg.exchange_api_key.as_deref(), Some("k"));
    assert!(cfg.exchange_api_secret.is_none());
}

#[test]
fn an_unknown_mode_is_fatal() {
    let sources = vec![("mode".to_string(), "backtest".to_string())];
    assert!(matches!(AppConfig::load(&sources), Err(ConfigError::InvalidMode)));
}

#[test]
fn connection_strings_are_classified_by_scheme() {
    assert_eq!(classify_database_url("postgres://db/x"), Some(DatabaseKind::Postgres));
    assert_eq!(classify_database_url("postgresql://db/x"), Some(DatabaseKind::Postgres));
    assert_eq!(classify_database_url("sqlite://ai_trader.db"), Some(DatabaseKind::Sqlite));
    assert_eq!(classify_database_url("sqlite::memory:"), Some(DatabaseKind::Sqlite));
    assert_eq!(classify_database_url("mysql://db/x"), None);
    assert_eq!(classify_database_url(""), None);
}

#[test]
fn sentiment_starts_neutral_and_decays_toward_scores() {
    let mut s = SentimentTracker::new();
    assert_eq!(s.current().score, 0);
    s.observe(10_000);
    assert_eq!(s.value, 1_000);
    s.observe(10_000);
    assert_eq!(s.value, 1_900);
}

#[test]
fn sentiment_stays_bounded_at_the_extremes() {
    let mut s = SentimentTracker::new();
    for _ in 0..100 {
        s.observe(10_000);
        assert!(s.value <= 10_000);
    }
    for _ in 0..100 {
        s.observe(-10_000);
        assert!(s.value >= -10_000);
    }
}
