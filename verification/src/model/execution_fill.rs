//! Events reported by the exchange about an order: accepted, filled, cancelled.
use crate::clock::{new_id, now_millis};
use crate::decimal::{opt_parts, spec_difference, spec_product, value_lt, Dec};
use crate::text::{all_ascii, ascii_upper_seq, owned, str_eq, to_uppercase, unicode_uppercase};
use vstd::prelude::*;

verus! {

/// The side of a fill.
#[derive(Debug, Clone, Copy, PartialEq, Eq, Structural)]
pub enum FillSide {
    /// Buy.
    Buy,
    /// Sell.
    Sell,
}

impl FillSide {
    /// The text of each side.
    pub open spec fn spec_as_str(self) -> Seq<char> {
        match self {
            FillSide::Buy => "BUY"@,
            FillSide::Sell => "SELL"@,
        }
    }

    /// The side whose text is `u` (already in upper case), if any.
    pub open spec fn parse_upper(u: Seq<char>) -> Option<FillSide> {
        if u == "BUY"@ {
            Some(FillSide::Buy)
        } else if u == "SELL"@ {
            Some(FillSide::Sell)
        } else {
            None
        }
    }

    /// The side named by an upper-cased text.
    pub fn from_uppercased(u: &str) -> (r: Option<Self>)
        ensures
            r == Self::parse_upper(u@),
    {
        if str_eq(u, "BUY") {
            Some(FillSide::Buy)
        } else if str_eq(u, "SELL") {
            Some(FillSide::Sell)
        } else {
            None
        }
    }

    /// Parses a side, ignoring case.
    pub fn from_str(s: &str) -> (r: Option<Self>)
        ensures
            r == Self::parse_upper(unicode_uppercase(s@)),
    {
        let u = to_uppercase(s);
        Self::from_uppercased(u.as_str())
    }

    /// The side as text.
    pub fn as_str(&self) -> (r: &'static str)
        ensures
            r@ == self.spec_as_str(),
    {
        match self {
            FillSide::Buy => "BUY",
            FillSide::Sell => "SELL",
        }
    }

    /// Each side's text is ASCII and parses back to the side once upper-cased.
    pub proof fn lemma_text_round_trip(self)
        ensures
            all_ascii(self.spec_as_str()),
            Self::parse_upper(ascii_upper_seq(self.spec_as_str())) == Some(self),
    {
        reveal_strlit("BUY");
        reveal_strlit("SELL");
        assert(ascii_upper_seq("BUY"@) =~= "BUY"@);
        assert(ascii_upper_seq("SELL"@) =~= "SELL"@);
        assert("BUY"@.len() != "SELL"@.len());
    }
}

/// Whether a fill leaves part of the order open.
#[derive(Debug, Clone, Copy, PartialEq, Eq, Structural)]
pub enum FillType {
    /// Part of the order remains.
    Partial,
    /// The order is completely filled.
    Full,
}

/// A fill reported by the exchange.  Identifiers are the 128-bit numbers of UUIDs;
/// times are milliseconds since the Unix epoch.
#[derive(Debug, Clone)]
pub struct ExecutionFill {
    /// Event id.
    pub id: u128,
    /// The exchange's order id.
    pub order_id: String,
    /// Client order id, if any.
    pub client_order_id: Option<String>,
    /// Trading pair.
    pub symbol: String,
    /// Side.
    pub side: FillSide,
    /// Partial or full.
    pub fill_type: FillType,
    /// Quantity filled by this event.
    pub filled_quantity: Dec,
    /// Price of this fill.
    pub fill_price: Dec,
    /// Quantity filled so far, this event included.
    pub cumulative_quantity: Dec,
    /// Quantity of the order.
    pub original_quantity: Dec,
    /// Commission.
    pub commission: Dec,
    /// Asset the commission is paid in.
    pub commission_asset: String,
    /// Fill time.
    pub fill_time: i64,
    /// Time the event was made.
    pub created_at: i64,
}

impl ExecutionFill {
    /// A partial fill, with no commission (in USDT).
    pub fn partial(
        order_id: String,
        symbol: String,
        side: FillSide,
        filled_quantity: Dec,
        fill_price: Dec,
        cumulative_quantity: Dec,
        original_quantity: Dec,
    ) -> (r: Self)
        ensures
            r.order_id@ == order_id@,
            r.client_order_id is None,
            r.symbol@ == symbol@,
            r.side == side,
            r.fill_type == FillType::Partial,
            r.filled_quantity == filled_quantity,
            r.fill_price == fill_price,
            r.cumulative_quantity == cumulative_quantity,
            r.original_quantity == original_quantity,
            r.commission.parts() == (0int, 0int),
            r.commission_asset@ == "USDT"@,
    {
        let fill_time = now_millis();
        let created_at = now_millis();
        ExecutionFill {
            id: new_id(),
            order_id,
            client_order_id: None,
            symbol,
            side,
            fill_type: FillType::Partial,
            filled_quantity,
            fill_price,
            cumulative_quantity,
            original_quantity,
            commission: Dec::zero(),
            commission_asset: owned("USDT"),
            fill_time,
            created_at,
        }
    }

    /// A full fill of the whole order in one event, with no commission (in USDT):
    /// the cumulative and original quantities are the filled quantity.
    pub fn full(
        order_id: String,
        symbol: String,
        side: FillSide,
        filled_quantity: Dec,
        fill_price: Dec,
    ) -> (r: Self)
        ensures
            r.order_id@ == order_id@,
            r.client_order_id is None,
            r.symbol@ == symbol@,
            r.side == side,
            r.fill_type == FillType::Full,
            r.filled_quantity == filled_quantity,
            r.fill_price == fill_price,
            r.cumulative_quantity == filled_quantity,
            r.original_quantity == filled_quantity,
            r.commission.parts() == (0int, 0int),
            r.commission_asset@ == "USDT"@,
    {
        let fill_time = now_millis();
        let created_at = now_millis();
        ExecutionFill {
            id: new_id(),
            order_id,
            client_order_id: None,
            symbol,
            side,
            fill_type: FillType::Full,
            filled_quantity,
            fill_price,
            cumulative_quantity: filled_quantity,
            original_quantity: filled_quantity,
            commission: Dec::zero(),
            commission_asset: owned("USDT"),
            fill_time,
            created_at,
        }
    }

    /// Whether the order is completely filled.
    pub fn is_full(&self) -> (r: bool)
        ensures
            r == (self.fill_type == FillType::Full),
    {
        self.fill_type == FillType::Full
    }

    /// Whether part of the order remains.
    pub fn is_partial(&self) -> (r: bool)
        ensures
            r == (self.fill_type == FillType::Partial),
    {
        self.fill_type == FillType::Partial
    }

    /// The quantity of the order not yet filled: original minus cumulative.
    pub fn remaining_quantity(&self) -> (r: Dec)
        requires
            spec_difference(self.original_quantity, self.cumulative_quantity) is Some,
        ensures
            Some(r.parts()) == spec_difference(self.original_quantity, self.cumulative_quantity),
    {
        self.original_quantity.sub(&self.cumulative_quantity)
    }

    /// The quantity not yet filled where it can be computed; `None` where the
    /// subtraction overflows.
    pub fn checked_remaining_quantity(&self) -> (r: Option<Dec>)
        ensures
            opt_parts(r) == spec_difference(self.original_quantity, self.cumulative_quantity),
    {
        if self.original_quantity.checked_sub(&self.cumulative_quantity).is_some() {
            Some(self.remaining_quantity())
        } else {
            None
        }
    }

    /// The change of position this fill makes: the filled quantity for a buy,
    /// its negation for a sell.
    pub open spec fn spec_position_delta(self) -> (int, int) {
        match self.side {
            FillSide::Buy => self.filled_quantity.parts(),
            FillSide::Sell => (-self.filled_quantity.parts().0, self.filled_quantity.parts().1),
        }
    }

    /// The change of position this fill makes (positive adds, negative reduces).
    pub fn position_delta(&self) -> (r: Dec)
        ensures
            r.parts() == self.spec_position_delta(),
    {
        match self.side {
            FillSide::Buy => self.filled_quantity,
            FillSide::Sell => self.filled_quantity.neg(),
        }
    }

    /// The traded amount: filled quantity times fill price.
    pub fn notional(&self) -> (r: Dec)
        requires
            spec_product(self.filled_quantity, self.fill_price) is Some,
        ensures
            Some(r.parts()) == spec_product(self.filled_quantity, self.fill_price),
    {
        self.filled_quantity.mul(&self.fill_price)
    }
}

/// Why an order was cancelled.
#[derive(Debug, Clone, Copy, PartialEq, Eq, Structural)]
pub enum CancelReason {
    /// The user asked.
    UserRequested,
    /// The system cancelled it (e.g. a risk control).
    SystemCanceled,
    /// It timed out.
    Expired,
    /// The exchange rejected it.
    ExchangeRejected,
}

/// An order was cancelled.
#[derive(Debug, Clone)]
pub struct OrderCanceled {
    /// Event id (the number of a UUID).
    pub id: u128,
    /// The exchange's order id.
    pub order_id: String,
    /// Trading pair.
    pub symbol: String,
    /// Side.
    pub side: FillSide,
    /// Quantity of the order.
    pub original_quantity: Dec,
    /// Quantity filled before the cancellation.
    pub filled_quantity: Dec,
    /// Why.
    pub reason: CancelReason,
    /// Time of cancellation, in milliseconds since the Unix epoch.
    pub canceled_at: i64,
}

impl OrderCanceled {
    /// A cancellation event with a fresh id, stamped now.
    pub fn new(
        order_id: String,
        symbol: String,
        side: FillSide,
        original_quantity: Dec,
        filled_quantity: Dec,
        reason: CancelReason,
    ) -> (r: Self)
        ensures
            r.order_id@ == order_id@,
            r.symbol@ == symbol@,
            r.side == side,
            r.original_quantity == original_quantity,
            r.filled_quantity == filled_quantity,
            r.reason == reason,
    {
        OrderCanceled {
            id: new_id(),
            order_id,
            symbol,
            side,
            original_quantity,
            filled_quantity,
            reason,
            canceled_at: now_millis(),
        }
    }

    /// Whether part of the order was never filled (filled < original).
    pub fn has_unfilled(&self) -> (r: bool)
        ensures
            r == value_lt(self.filled_quantity, self.original_quantity),
    {
        self.filled_quantity.lt(&self.original_quantity)
    }

    /// The quantity never filled: original minus filled.
    pub fn unfilled_quantity(&self) -> (r: Dec)
        requires
            spec_difference(self.original_quantity, self.filled_quantity) is Some,
        ensures
            Some(r.parts()) == spec_difference(self.original_quantity, self.filled_quantity),
    {
        self.original_quantity.sub(&self.filled_quantity)
    }

    /// The quantity never filled where it can be computed; `None` where the
    /// subtraction overflows.
    pub fn checked_unfilled_quantity(&self) -> (r: Option<Dec>)
        ensures
            opt_parts(r) == spec_difference(self.original_quantity, self.filled_quantity),
    {
        if self.original_quantity.checked_sub(&self.filled_quantity).is_some() {
            Some(self.unfilled_quantity())
        } else {
            None
        }
    }
}

/// The exchange accepted an order (accepted is not filled).
#[derive(Debug, Clone)]
pub struct OrderAccepted {
    /// Event id (the number of a UUID).
    pub id: u128,
    /// The exchange's order id.
    pub order_id: String,
    /// Client order id, if any.
    pub client_order_id: Option<String>,
    /// Trading pair.
    pub symbol: String,
    /// Side.
    pub side: FillSide,
    /// Order type in upper case, e.g. "LIMIT" or "MARKET".
    pub order_type: String,
    /// Quantity.
    pub quantity: Dec,
    /// Limit price, if any.
    pub price: Option<Dec>,
    /// Time of acceptance, in milliseconds since the Unix epoch.
    pub accepted_at: i64,
}

impl OrderAccepted {
    /// An acceptance event; the order type is stored upper-cased.
    pub fn new(
        order_id: String,
        symbol: String,
        side: FillSide,
        order_type: &str,
        quantity: Dec,
        price: Option<Dec>,
    ) -> (r: Self)
        ensures
            r.order_id@ == order_id@,
            r.client_order_id is None,
            r.symbol@ == symbol@,
            r.side == side,
            r.order_type@ == unicode_uppercase(order_type@),
            r.quantity == quantity,
            r.price == price,
    {
        let order_type = to_uppercase(order_type);
        OrderAccepted {
            id: new_id(),
            order_id,
            client_order_id: None,
            symbol,
            side,
            order_type,
            quantity,
            price,
            accepted_at: now_millis(),
        }
    }

    /// Whether it is a limit order.
    pub fn is_limit(&self) -> (r: bool)
        ensures
            r == (self.order_type@ == "LIMIT"@),
    {
        str_eq(self.order_type.as_str(), "LIMIT")
    }

    /// Whether it is a market order.
    pub fn is_market(&self) -> (r: bool)
        ensures
            r == (self.order_type@ == "MARKET"@),
    {
        str_eq(self.order_type.as_str(), "MARKET")
    }
}

/// A fill is exactly one of partial and full.
pub proof fn lemma_fill_is_partial_xor_full(fill: ExecutionFill)
    ensures
        (fill.fill_type == FillType::Full) != (fill.fill_type == FillType::Partial),
{
}

/// An accepted order is never both a limit and a market order.
pub proof fn lemma_accepted_not_limit_and_market(event: OrderAccepted)
    ensures
        !(event.order_type@ == "LIMIT"@ && event.order_type@ == "MARKET"@),
{
    reveal_strlit("LIMIT");
    reveal_strlit("MARKET");
    assert("LIMIT"@.len() != "MARKET"@.len());
}

} // verus!
