//! Core of a multi-symbol trading agent: domain types on fixed-point
//! integer amounts, the per-symbol decision cycle, the risk gate, the
//! serialized portfolio commit with re-validation, and the persistence
//! retry protocol. Market data, news, databases and brokers live outside
//! this crate; the logic that decides and commits lives here.

pub mod analyzer;
pub mod commit;
pub mod config;
pub mod cycle;
pub mod domain;
pub mod orders;
pub mod persist;
pub mod risk;
pub mod sentiment;
