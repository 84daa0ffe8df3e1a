//! Decision engine of an unattended funding-offer manager for a margin-lending
//! market: it turns a wallet balance, the open offers, recent candle highs and
//! the configured thresholds into one action per poll cycle.
//!
//! Amounts are fixed-point integers of eight decimals (`allocation::UNIT`).
//! Rates are fixed-point integers too; the logic does not depend on their
//! scale, and the program around it uses `config::RATE_SCALE`.

pub mod error;
pub mod estimator;
pub mod allocation;
pub mod reconcile;
pub mod config;
pub mod account;
pub mod strategy;
