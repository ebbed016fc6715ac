//! Risk rules, their results and the engine that runs them in order.
pub mod result;
pub mod rule;
pub mod engine;
