//! Executed trades.
use crate::clock::{new_id, now_millis};
use crate::decimal::Dec;
use crate::model::order::OrderSide;
use crate::text::owned;
use vstd::prelude::*;

verus! {

/// A trade.  Identifiers are the 128-bit numbers of UUIDs; the time is in
/// milliseconds since the Unix epoch.
#[derive(Debug, Clone)]
pub struct Trade {
    /// Trade id.
    pub id: u128,
    /// Order id.
    pub order_id: u128,
    /// User id.
    pub user_id: u128,
    /// Trading pair.
    pub symbol: String,
    /// Side.
    pub side: OrderSide,
    /// Quantity.
    pub quantity: Dec,
    /// Price.
    pub price: Dec,
    /// Fee.
    pub fee: Dec,
    /// Asset the fee is paid in.
    pub fee_currency: String,
    /// The exchange's trade id, if known.
    pub exchange_trade_id: Option<String>,
    /// Whether this side was the maker.
    pub is_maker: bool,
    /// Trade time.
    pub trade_time: i64,
}

impl Trade {
    /// A new taker trade with no fee (in USDT), a fresh id, at the current time.
    pub fn new(
        order_id: u128,
        user_id: u128,
        symbol: String,
        side: OrderSide,
        quantity: Dec,
        price: Dec,
    ) -> (r: Self)
        ensures
            r.order_id == order_id,
            r.user_id == user_id,
            r.symbol@ == symbol@,
            r.side == side,
            r.quantity == quantity,
            r.price == price,
            r.fee.parts() == (0int, 0int),
            r.fee_currency@ == "USDT"@,
            r.exchange_trade_id is None,
            !r.is_maker,
    {
        Trade {
            id: new_id(),
            order_id,
            user_id,
            symbol,
            side,
            quantity,
            price,
            fee: Dec::zero(),
            fee_currency: owned("USDT"),
            exchange_trade_id: None,
            is_maker: false,
            trade_time: now_millis(),
        }
    }
}

} // verus!
