//! The strategy engine's HTTP interface: response envelopes, the service
//! configuration, strategy evaluation results, strategy creation and
//! back-testing.
pub mod dto;
pub mod config;
pub mod evaluate;
pub mod strategies;
pub mod backtest;
