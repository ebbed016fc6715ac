//! Trade intents produced by strategies, before any risk check.
use crate::clock::{new_id, now_millis};
use crate::decimal::Dec;
use vstd::prelude::*;

verus! {

/// The side of an intent.
#[derive(Debug, Clone, Copy, PartialEq, Eq, Structural)]
pub enum OrderSide {
    /// Buy.
    Buy,
    /// Sell.
    Sell,
}

/// What a strategy would like to trade.  It must pass the risk checks before it
/// becomes an execution command.  Identifiers are the 128-bit numbers of UUIDs; the
/// time is in milliseconds since the Unix epoch; the confidence (between 0 and 1)
/// is carried as the bits of its IEEE-754 double.
#[derive(Debug, Clone)]
pub struct OrderIntent {
    /// Intent id.
    pub id: u128,
    /// Strategy id.
    pub strategy_id: u128,
    /// Trading pair.
    pub symbol: String,
    /// Side.
    pub side: OrderSide,
    /// Quantity.
    pub quantity: Dec,
    /// Wanted price; `None` for a market order.
    pub price: Option<Dec>,
    /// The bits of the confidence.
    pub confidence: u64,
    /// Creation time.
    pub created_at: i64,
}

impl OrderIntent {
    /// A new intent with a fresh id, created now.
    pub fn new(
        strategy_id: u128,
        symbol: String,
        side: OrderSide,
        quantity: Dec,
        price: Option<Dec>,
        confidence: u64,
    ) -> (r: Self)
        ensures
            r.strategy_id == strategy_id,
            r.symbol@ == symbol@,
            r.side == side,
            r.quantity == quantity,
            r.price == price,
            r.confidence == confidence,
    {
        OrderIntent {
            id: new_id(),
            strategy_id,
            symbol,
            side,
            quantity,
            price,
            confidence,
            created_at: now_millis(),
        }
    }
}

} // verus!
