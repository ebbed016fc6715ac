//! Execution commands: order types, sides and time-in-force, and the commands
//! and results exchanged with an execution venue.
use crate::decimal::Dec;
use crate::text::{all_ascii, ascii_lower_seq, str_eq, to_lowercase, trim, unicode_lowercase, unicode_trim};
use vstd::prelude::*;

verus! {

/// The type of an order sent for execution.
#[derive(Debug, Clone, Copy, PartialEq, Eq, Structural)]
pub enum OrderType {
    /// Filled at once at the best market price.
    Market,
    /// Filled only at the given price or better.
    Limit,
    /// A limit order placed once the stop price is reached.
    StopLossLimit,
    /// A limit order placed once the take-profit price is reached.
    TakeProfitLimit,
    /// A market order placed once the stop price is reached.
    StopLossMarket,
    /// A market order placed once the take-profit price is reached.
    TakeProfitMarket,
}

impl OrderType {
    /// The exchange's name of each order type.
    pub open spec fn spec_binance_str(self) -> Seq<char> {
        match self {
            OrderType::Market => "MARKET"@,
            OrderType::Limit => "LIMIT"@,
            OrderType::StopLossLimit => "STOP_LOSS_LIMIT"@,
            OrderType::TakeProfitLimit => "TAKE_PROFIT_LIMIT"@,
            OrderType::StopLossMarket => "STOP_LOSS"@,
            OrderType::TakeProfitMarket => "TAKE_PROFIT"@,
        }
    }

    /// The exchange's name of the order type.
    pub fn to_binance_str(&self) -> (r: &'static str)
        ensures
            r@ == self.spec_binance_str(),
    {
        match self {
            OrderType::Market => "MARKET",
            OrderType::Limit => "LIMIT",
            OrderType::StopLossLimit => "STOP_LOSS_LIMIT",
            OrderType::TakeProfitLimit => "TAKE_PROFIT_LIMIT",
            OrderType::StopLossMarket => "STOP_LOSS",
            OrderType::TakeProfitMarket => "TAKE_PROFIT",
        }
    }
}

/// The side of an order sent for execution.
#[derive(Debug, Clone, Copy, PartialEq, Eq, Structural)]
pub enum OrderSide {
    /// Buy.
    Buy,
    /// Sell.
    Sell,
}

impl OrderSide {
    /// The side named by a lower-case text, if any.
    pub open spec fn parse_lower(l: Seq<char>) -> Option<OrderSide> {
        if l == "buy"@ {
            Some(OrderSide::Buy)
        } else if l == "sell"@ {
            Some(OrderSide::Sell)
        } else {
            None
        }
    }

    /// The exchange's name of each side.
    pub open spec fn spec_binance_str(self) -> Seq<char> {
        match self {
            OrderSide::Buy => "BUY"@,
            OrderSide::Sell => "SELL"@,
        }
    }

    /// The side named by a lower-case text.
    pub fn from_lowercased(l: &str) -> (r: Option<Self>)
        ensures
            r == Self::parse_lower(l@),
    {
        if str_eq(l, "buy") {
            Some(OrderSide::Buy)
        } else if str_eq(l, "sell") {
            Some(OrderSide::Sell)
        } else {
            None
        }
    }

    /// Parses a side: surrounding white space is dropped and case is ignored.
    pub fn from_str(s: &str) -> (r: Option<Self>)
        ensures
            r == Self::parse_lower(unicode_lowercase(unicode_trim(s@))),
    {
        let t = trim(s);
        let l = to_lowercase(t);
        Self::from_lowercased(l.as_str())
    }

    /// The exchange's name of the side.
    pub fn to_binance_str(&self) -> (r: &'static str)
        ensures
            r@ == self.spec_binance_str(),
    {
        match self {
            OrderSide::Buy => "BUY",
            OrderSide::Sell => "SELL",
        }
    }

    /// The exchange's name of each side is ASCII and parses back to the side once
    /// lower-cased.
    pub proof fn lemma_binance_text_round_trip(self)
        ensures
            all_ascii(self.spec_binance_str()),
            Self::parse_lower(ascii_lower_seq(self.spec_binance_str())) == Some(self),
    {
        reveal_strlit("BUY");
        reveal_strlit("SELL");
        reveal_strlit("buy");
        reveal_strlit("sell");
        assert(ascii_lower_seq("BUY"@) =~= "buy"@);
        assert(ascii_lower_seq("SELL"@) =~= "sell"@);
        assert("sell"@.len() != "buy"@.len());
    }
}

/// How long an order stays in force.
#[derive(Debug, Clone, Copy, PartialEq, Eq, Structural)]
pub enum TimeInForce {
    /// Good till cancelled.
    GTC,
    /// Immediate or cancel: what is not filled at once is cancelled.
    IOC,
    /// Fill or kill: filled completely or not at all.
    FOK,
}

impl TimeInForce {
    /// The exchange's name of each time in force.
    pub open spec fn spec_binance_str(self) -> Seq<char> {
        match self {
            TimeInForce::GTC => "GTC"@,
            TimeInForce::IOC => "IOC"@,
            TimeInForce::FOK => "FOK"@,
        }
    }

    /// The exchange's name of the time in force.
    pub fn to_binance_str(&self) -> (r: &'static str)
        ensures
            r@ == self.spec_binance_str(),
    {
        match self {
            TimeInForce::GTC => "GTC",
            TimeInForce::IOC => "IOC",
            TimeInForce::FOK => "FOK",
        }
    }
}

/// A command to execute an order.
#[derive(Debug, Clone)]
pub struct ExecutionCommand {
    /// Trading pair, such as BTCUSDT.
    pub symbol: String,
    /// Side.
    pub side: OrderSide,
    /// Order type.
    pub order_type: OrderType,
    /// Quantity.
    pub quantity: Dec,
    /// Limit price (limit orders only).
    pub price: Option<Dec>,
    /// Trigger price (stop-loss and take-profit orders only).
    pub stop_price: Option<Dec>,
    /// Time in force (limit orders only).
    pub time_in_force: Option<TimeInForce>,
    /// Client order id, for idempotence.
    pub client_order_id: Option<String>,
}

impl ExecutionCommand {
    /// The command's fields other than the symbol and the client order id.
    pub open spec fn shape(self) -> (OrderSide, OrderType, Dec, Option<Dec>, Option<Dec>, Option<TimeInForce>) {
        (self.side, self.order_type, self.quantity, self.price, self.stop_price, self.time_in_force)
    }

    /// A market order.
    pub fn market(symbol: String, side: OrderSide, quantity: Dec) -> (r: Self)
        ensures
            r.symbol@ == symbol@,
            r.shape() == (side, OrderType::Market, quantity, None::<Dec>, None::<Dec>, None::<TimeInForce>),
            r.client_order_id is None,
    {
        ExecutionCommand {
            symbol,
            side,
            order_type: OrderType::Market,
            quantity,
            price: None,
            stop_price: None,
            time_in_force: None,
            client_order_id: None,
        }
    }

    /// A limit order, good till cancelled.
    pub fn limit(symbol: String, side: OrderSide, quantity: Dec, price: Dec) -> (r: Self)
        ensures
            r.symbol@ == symbol@,
            r.shape() == (side, OrderType::Limit, quantity, Some(price), None::<Dec>, Some(TimeInForce::GTC)),
            r.client_order_id is None,
    {
        ExecutionCommand {
            symbol,
            side,
            order_type: OrderType::Limit,
            quantity,
            price: Some(price),
            stop_price: None,
            time_in_force: Some(TimeInForce::GTC),
            client_order_id: None,
        }
    }

    /// A stop-loss limit order, good till cancelled.
    pub fn stop_loss_limit(symbol: String, side: OrderSide, quantity: Dec, price: Dec, stop_price: Dec) -> (r: Self)
        ensures
            r.symbol@ == symbol@,
            r.shape() == (side, OrderType::StopLossLimit, quantity, Some(price), Some(stop_price), Some(TimeInForce::GTC)),
            r.client_order_id is None,
    {
        ExecutionCommand {
            symbol,
            side,
            order_type: OrderType::StopLossLimit,
            quantity,
            price: Some(price),
            stop_price: Some(stop_price),
            time_in_force: Some(TimeInForce::GTC),
            client_order_id: None,
        }
    }

    /// A take-profit limit order, good till cancelled.
    pub fn take_profit_limit(symbol: String, side: OrderSide, quantity: Dec, price: Dec, stop_price: Dec) -> (r: Self)
        ensures
            r.symbol@ == symbol@,
            r.shape() == (side, OrderType::TakeProfitLimit, quantity, Some(price), Some(stop_price), Some(TimeInForce::GTC)),
            r.client_order_id is None,
    {
        ExecutionCommand {
            symbol,
            side,
            order_type: OrderType::TakeProfitLimit,
            quantity,
            price: Some(price),
            stop_price: Some(stop_price),
            time_in_force: Some(TimeInForce::GTC),
            client_order_id: None,
        }
    }

    /// A stop-loss market order.
    pub fn stop_loss_market(symbol: String, side: OrderSide, quantity: Dec, stop_price: Dec) -> (r: Self)
        ensures
            r.symbol@ == symbol@,
            r.shape() == (side, OrderType::StopLossMarket, quantity, None::<Dec>, Some(stop_price), None::<TimeInForce>),
            r.client_order_id is None,
    {
        ExecutionCommand {
            symbol,
            side,
            order_type: OrderType::StopLossMarket,
            quantity,
            price: None,
            stop_price: Some(stop_price),
            time_in_force: None,
            client_order_id: None,
        }
    }

    /// A take-profit market order.
    pub fn take_profit_market(symbol: String, side: OrderSide, quantity: Dec, stop_price: Dec) -> (r: Self)
        ensures
            r.symbol@ == symbol@,
            r.shape() == (side, OrderType::TakeProfitMarket, quantity, None::<Dec>, Some(stop_price), None::<TimeInForce>),
            r.client_order_id is None,
    {
        ExecutionCommand {
            symbol,
            side,
            order_type: OrderType::TakeProfitMarket,
            quantity,
            price: None,
            stop_price: Some(stop_price),
            time_in_force: None,
            client_order_id: None,
        }
    }

    /// The command with the given client order id.
    pub fn with_client_order_id(self, client_order_id: String) -> (r: Self)
        ensures
            r.symbol@ == self.symbol@,
            r.shape() == self.shape(),
            r.client_order_id matches Some(c) && c@ == client_order_id@,
    {
        let mut c = self;
        c.client_order_id = Some(client_order_id);
        c
    }

    /// The command with the given time in force.
    pub fn with_time_in_force(self, time_in_force: TimeInForce) -> (r: Self)
        ensures
            r.symbol@ == self.symbol@,
            r.shape() == (self.side, self.order_type, self.quantity, self.price, self.stop_price, Some(time_in_force)),
            r.client_order_id == self.client_order_id,
    {
        let mut c = self;
        c.time_in_force = Some(time_in_force);
        c
    }
}

/// What an execution venue reports for a command.
#[derive(Debug, Clone)]
pub struct ExecutionResult {
    /// The exchange's order id.
    pub order_id: String,
    /// Client order id.
    pub client_order_id: Option<String>,
    /// Trading pair.
    pub symbol: String,
    /// Order status, as the exchange writes it.
    pub status: String,
    /// Quantity filled.
    pub executed_qty: Dec,
    /// Average fill price.
    pub avg_price: Option<Dec>,
}

} // verus!
