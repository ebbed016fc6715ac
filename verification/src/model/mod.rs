//! Domain models: orders, intents, trades, fills and audit events.
pub mod order;
pub mod audit_event;
pub mod order_intent;
pub mod trade;
pub mod execution_fill;
