//! Audit records of risk decisions and execution outcomes.
use crate::clock::{new_id, now_millis};
use crate::decimal::Dec;
use crate::model::order_intent::OrderSide;
use vstd::prelude::*;

verus! {

/// An intent that the risk checks rejected.
#[derive(Debug, Clone)]
pub struct RiskRejectedEvent {
    /// Event id (the number of a UUID).
    pub event_id: u128,
    /// Strategy id.
    pub strategy_id: u128,
    /// Trading pair.
    pub symbol: String,
    /// Side.
    pub side: OrderSide,
    /// Quantity.
    pub quantity: Dec,
    /// Price, if any.
    pub price: Option<Dec>,
    /// Why it was rejected.
    pub reject_reason: String,
    /// The rejection code.
    pub reject_code: String,
    /// Time in milliseconds since the Unix epoch.
    pub timestamp: i64,
}

impl RiskRejectedEvent {
    /// A rejection record with a fresh id, stamped now.
    pub fn new(
        strategy_id: u128,
        symbol: String,
        side: OrderSide,
        quantity: Dec,
        price: Option<Dec>,
        reject_reason: String,
        reject_code: String,
    ) -> (r: Self)
        ensures
            r.strategy_id == strategy_id,
            r.symbol@ == symbol@,
            r.side == side,
            r.quantity == quantity,
            r.price == price,
            r.reject_reason@ == reject_reason@,
            r.reject_code@ == reject_code@,
    {
        RiskRejectedEvent {
            event_id: new_id(),
            strategy_id,
            symbol,
            side,
            quantity,
            price,
            reject_reason,
            reject_code,
            timestamp: now_millis(),
        }
    }
}

/// The outcome of an execution.
#[derive(Debug, Clone)]
pub struct ExecutionResultEvent {
    /// Event id (the number of a UUID).
    pub event_id: u128,
    /// Strategy id.
    pub strategy_id: u128,
    /// Trading pair.
    pub symbol: String,
    /// Side.
    pub side: OrderSide,
    /// Quantity.
    pub quantity: Dec,
    /// Whether it succeeded.
    pub success: bool,
    /// The exchange's order id, on success.
    pub exchange_order_id: Option<String>,
    /// The error, on failure.
    pub error_message: Option<String>,
    /// Time in milliseconds since the Unix epoch.
    pub timestamp: i64,
}

impl ExecutionResultEvent {
    /// A success record with the exchange's order id.
    pub fn success(
        strategy_id: u128,
        symbol: String,
        side: OrderSide,
        quantity: Dec,
        exchange_order_id: String,
    ) -> (r: Self)
        ensures
            r.strategy_id == strategy_id,
            r.symbol@ == symbol@,
            r.side == side,
            r.quantity == quantity,
            r.success,
            r.exchange_order_id matches Some(id) && id@ == exchange_order_id@,
            r.error_message is None,
    {
        ExecutionResultEvent {
            event_id: new_id(),
            strategy_id,
            symbol,
            side,
            quantity,
            success: true,
            exchange_order_id: Some(exchange_order_id),
            error_message: None,
            timestamp: now_millis(),
        }
    }

    /// A failure record with the error message.
    pub fn failure(
        strategy_id: u128,
        symbol: String,
        side: OrderSide,
        quantity: Dec,
        error_message: String,
    ) -> (r: Self)
        ensures
            r.strategy_id == strategy_id,
            r.symbol@ == symbol@,
            r.side == side,
            r.quantity == quantity,
            !r.success,
            r.exchange_order_id is None,
            r.error_message matches Some(e) && e@ == error_message@,
    {
        ExecutionResultEvent {
            event_id: new_id(),
            strategy_id,
            symbol,
            side,
            quantity,
            success: false,
            exchange_order_id: None,
            error_message: Some(error_message),
            timestamp: now_millis(),
        }
    }
}

} // verus!
