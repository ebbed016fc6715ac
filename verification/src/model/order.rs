//! Orders as they are stored.
use crate::clock::{new_id, now_millis};
use crate::decimal::Dec;
use crate::text::{all_ascii, ascii_upper_seq, str_eq, to_uppercase, unicode_uppercase};
use vstd::prelude::*;

verus! {

/// The status of an order.
#[derive(Debug, Clone, Copy, PartialEq, Eq, Structural)]
pub enum OrderStatus {
    /// Waiting to be filled.
    Pending,
    /// Partly filled.
    PartiallyFilled,
    /// Completely filled.
    Filled,
    /// Cancelled.
    Cancelled,
    /// Rejected.
    Rejected,
    /// Expired.
    Expired,
}

impl OrderStatus {
    /// The text of each status.
    pub open spec fn spec_as_str(self) -> Seq<char> {
        match self {
            OrderStatus::Pending => "PENDING"@,
            OrderStatus::PartiallyFilled => "PARTIALLY_FILLED"@,
            OrderStatus::Filled => "FILLED"@,
            OrderStatus::Cancelled => "CANCELLED"@,
            OrderStatus::Rejected => "REJECTED"@,
            OrderStatus::Expired => "EXPIRED"@,
        }
    }

    /// The status whose text is `u` (already in upper case), if any.
    pub open spec fn parse_upper(u: Seq<char>) -> Option<OrderStatus> {
        if u == "PENDING"@ {
            Some(OrderStatus::Pending)
        } else if u == "PARTIALLY_FILLED"@ {
            Some(OrderStatus::PartiallyFilled)
        } else if u == "FILLED"@ {
            Some(OrderStatus::Filled)
        } else if u == "CANCELLED"@ {
            Some(OrderStatus::Cancelled)
        } else if u == "REJECTED"@ {
            Some(OrderStatus::Rejected)
        } else if u == "EXPIRED"@ {
            Some(OrderStatus::Expired)
        } else {
            None
        }
    }

    /// The status as text.
    pub fn as_str(&self) -> (r: &'static str)
        ensures
            r@ == self.spec_as_str(),
    {
        match self {
            OrderStatus::Pending => "PENDING",
            OrderStatus::PartiallyFilled => "PARTIALLY_FILLED",
            OrderStatus::Filled => "FILLED",
            OrderStatus::Cancelled => "CANCELLED",
            OrderStatus::Rejected => "REJECTED",
            OrderStatus::Expired => "EXPIRED",
        }
    }

    /// The status named by an upper-cased text.
    pub fn from_uppercased(u: &str) -> (r: Option<Self>)
        ensures
            r == Self::parse_upper(u@),
    {
        if str_eq(u, "PENDING") {
            Some(OrderStatus::Pending)
        } else if str_eq(u, "PARTIALLY_FILLED") {
            Some(OrderStatus::PartiallyFilled)
        } else if str_eq(u, "FILLED") {
            Some(OrderStatus::Filled)
        } else if str_eq(u, "CANCELLED") {
            Some(OrderStatus::Cancelled)
        } else if str_eq(u, "REJECTED") {
            Some(OrderStatus::Rejected)
        } else if str_eq(u, "EXPIRED") {
            Some(OrderStatus::Expired)
        } else {
            None
        }
    }

    /// Parses a status, ignoring case.
    pub fn from_str(s: &str) -> (r: Option<Self>)
        ensures
            r == Self::parse_upper(unicode_uppercase(s@)),
    {
        let u = to_uppercase(s);
        Self::from_uppercased(u.as_str())
    }

    /// Each status's text is ASCII and parses back to the status once upper-cased.
    pub proof fn lemma_text_round_trip(self)
        ensures
            all_ascii(self.spec_as_str()),
            Self::parse_upper(ascii_upper_seq(self.spec_as_str())) == Some(self),
    {
        reveal_strlit("PENDING");
        reveal_strlit("PARTIALLY_FILLED");
        reveal_strlit("FILLED");
        reveal_strlit("CANCELLED");
        reveal_strlit("REJECTED");
        reveal_strlit("EXPIRED");
        assert(ascii_upper_seq("PENDING"@) =~= "PENDING"@);
        assert(ascii_upper_seq("PARTIALLY_FILLED"@) =~= "PARTIALLY_FILLED"@);
        assert(ascii_upper_seq("FILLED"@) =~= "FILLED"@);
        assert(ascii_upper_seq("CANCELLED"@) =~= "CANCELLED"@);
        assert(ascii_upper_seq("REJECTED"@) =~= "REJECTED"@);
        assert(ascii_upper_seq("EXPIRED"@) =~= "EXPIRED"@);
        assert("EXPIRED"@[0] != "PENDING"@[0]);
        assert("FILLED"@.len() != "PENDING"@.len());
        assert("FILLED"@.len() != "PARTIALLY_FILLED"@.len());
        assert("CANCELLED"@.len() != "PENDING"@.len());
        assert("CANCELLED"@.len() != "PARTIALLY_FILLED"@.len());
        assert("CANCELLED"@.len() != "FILLED"@.len());
        assert("REJECTED"@.len() != "PENDING"@.len());
        assert("REJECTED"@.len() != "PARTIALLY_FILLED"@.len());
        assert("REJECTED"@.len() != "FILLED"@.len());
        assert("REJECTED"@.len() != "CANCELLED"@.len());
        assert("EXPIRED"@.len() != "PARTIALLY_FILLED"@.len());
        assert("EXPIRED"@.len() != "FILLED"@.len());
        assert("EXPIRED"@.len() != "CANCELLED"@.len());
        assert("EXPIRED"@.len() != "REJECTED"@.len());
        assert("PARTIALLY_FILLED"@.len() != "PENDING"@.len());
    }
}

/// The side of an order.
#[derive(Debug, Clone, Copy, PartialEq, Eq, Structural)]
pub enum OrderSide {
    /// Buy.
    Buy,
    /// Sell.
    Sell,
}

impl OrderSide {
    /// The side as text.
    pub fn as_str(&self) -> (r: &'static str)
        ensures
            r@ == (match self {
                OrderSide::Buy => "BUY"@,
                OrderSide::Sell => "SELL"@,
            }),
    {
        match self {
            OrderSide::Buy => "BUY",
            OrderSide::Sell => "SELL",
        }
    }
}

/// The type of an order.
#[derive(Debug, Clone, Copy, PartialEq, Eq, Structural)]
pub enum OrderType {
    /// Market order.
    Market,
    /// Limit order.
    Limit,
}

impl OrderType {
    /// The type as text.
    pub fn as_str(&self) -> (r: &'static str)
        ensures
            r@ == (match self {
                OrderType::Market => "MARKET"@,
                OrderType::Limit => "LIMIT"@,
            }),
    {
        match self {
            OrderType::Market => "MARKET",
            OrderType::Limit => "LIMIT",
        }
    }
}

/// An order.  Identifiers are the 128-bit numbers of UUIDs; times are
/// milliseconds since the Unix epoch.
#[derive(Debug, Clone)]
pub struct Order {
    /// Order id.
    pub id: u128,
    /// User id.
    pub user_id: u128,
    /// Strategy id, if any.
    pub strategy_id: Option<u128>,
    /// Trading pair.
    pub symbol: String,
    /// Order type.
    pub order_type: OrderType,
    /// Side.
    pub side: OrderSide,
    /// Quantity.
    pub quantity: Dec,
    /// Limit price, if any.
    pub price: Option<Dec>,
    /// Status.
    pub status: OrderStatus,
    /// Quantity filled so far.
    pub filled_quantity: Dec,
    /// Average fill price, if any.
    pub average_price: Option<Dec>,
    /// The exchange's order id, if known.
    pub exchange_order_id: Option<String>,
    /// Creation time.
    pub created_at: i64,
    /// Last update time.
    pub updated_at: i64,
}

impl Order {
    /// A new pending order with nothing filled, a fresh id, and creation and
    /// update times both set to now.
    pub fn new(
        user_id: u128,
        strategy_id: Option<u128>,
        symbol: String,
        order_type: OrderType,
        side: OrderSide,
        quantity: Dec,
        price: Option<Dec>,
    ) -> (r: Self)
        ensures
            r.user_id == user_id,
            r.strategy_id == strategy_id,
            r.symbol@ == symbol@,
            r.order_type == order_type,
            r.side == side,
            r.quantity == quantity,
            r.price == price,
            r.status == OrderStatus::Pending,
            r.filled_quantity.parts() == (0int, 0int),
            r.average_price is None,
            r.exchange_order_id is None,
            r.created_at == r.updated_at,
    {
        let now = now_millis();
        Order {
            id: new_id(),
            user_id,
            strategy_id,
            symbol,
            order_type,
            side,
            quantity,
            price,
            status: OrderStatus::Pending,
            filled_quantity: Dec::zero(),
            average_price: None,
            exchange_order_id: None,
            created_at: now,
            updated_at: now,
        }
    }
}

} // verus!
