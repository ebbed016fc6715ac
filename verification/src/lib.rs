//! The domain of a small trading system: orders, fills, the account snapshot
//! the risk checks read, the risk rules and their engine, the decisions of the
//! services that keep the risk state in step with what the exchange reports,
//! start-up configuration, and the strategy engine's request checks, answers
//! and back-test accounting.
pub mod decimal;
pub mod text;
pub mod clock;
pub mod model;
pub mod risk_state;
pub mod risk;
pub mod port;
pub mod service;
pub mod bootstrap;
pub mod strategy_api;
