//! The decisions of the services that keep the risk state in step with orders,
//! fills and the exchange.  Each decision is a function from what happened to the
//! changes the risk state must receive; whoever owns the risk state applies them in
//! order.
pub mod state_update;
pub mod fill_processor;
pub mod order_lifecycle_service;
pub mod risk_state_coordinator;
pub mod risk_state_initializer;
pub mod execution_service;
