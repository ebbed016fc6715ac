//! What the exchange reports when queried: balances, futures positions, orders
//! and cancellations.
use crate::decimal::Dec;
use crate::text::{all_ascii, ascii_upper_seq, str_eq, to_uppercase, unicode_uppercase};
use vstd::prelude::*;

verus! {

/// A spot balance of one asset.
#[derive(Debug, Clone)]
pub struct AccountBalance {
    /// Asset name (USDT, BTC, ...).
    pub asset: String,
    /// Available amount.
    pub free: Dec,
    /// Amount held by open orders.
    pub locked: Dec,
}

/// A futures position.
#[derive(Debug, Clone)]
pub struct Position {
    /// Trading pair.
    pub symbol: String,
    /// "LONG" or "SHORT".
    pub side: String,
    /// Size of the position.
    pub quantity: Dec,
    /// Average entry price.
    pub entry_price: Dec,
    /// Mark price.
    pub mark_price: Dec,
    /// Unrealised profit and loss.
    pub unrealized_pnl: Dec,
    /// Leverage.
    pub leverage: u32,
    /// "isolated" or "cross".
    pub margin_type: String,
}

/// The status of an order on the exchange.
#[derive(Debug, Clone, Copy, PartialEq, Eq, Structural)]
pub enum ExchangeOrderStatus {
    /// New.
    New,
    /// Partly filled.
    PartiallyFilled,
    /// Completely filled.
    Filled,
    /// Cancelled.
    Canceled,
    /// Rejected.
    Rejected,
    /// Expired.
    Expired,
}

impl ExchangeOrderStatus {
    /// The exchange's text of each status.
    pub open spec fn spec_text(self) -> Seq<char> {
        match self {
            ExchangeOrderStatus::New => "NEW"@,
            ExchangeOrderStatus::PartiallyFilled => "PARTIALLY_FILLED"@,
            ExchangeOrderStatus::Filled => "FILLED"@,
            ExchangeOrderStatus::Canceled => "CANCELED"@,
            ExchangeOrderStatus::Rejected => "REJECTED"@,
            ExchangeOrderStatus::Expired => "EXPIRED"@,
        }
    }

    /// The status named by an upper-case text; an unknown text means `New`.
    pub open spec fn parse_upper(u: Seq<char>) -> ExchangeOrderStatus {
        if u == "PARTIALLY_FILLED"@ {
            ExchangeOrderStatus::PartiallyFilled
        } else if u == "FILLED"@ {
            ExchangeOrderStatus::Filled
        } else if u == "CANCELED"@ {
            ExchangeOrderStatus::Canceled
        } else if u == "REJECTED"@ {
            ExchangeOrderStatus::Rejected
        } else if u == "EXPIRED"@ {
            ExchangeOrderStatus::Expired
        } else {
            ExchangeOrderStatus::New
        }
    }

    /// The status named by an upper-cased text; `New` for any other text.
    pub fn from_uppercased(u: &str) -> (r: Self)
        ensures
            r == Self::parse_upper(u@),
    {
        if str_eq(u, "NEW") {
            proof {
                reveal_strlit("NEW");
                reveal_strlit("PARTIALLY_FILLED");
                reveal_strlit("FILLED");
                reveal_strlit("CANCELED");
                reveal_strlit("REJECTED");
                reveal_strlit("EXPIRED");
                assert("NEW"@.len() != "PARTIALLY_FILLED"@.len());
                assert("NEW"@.len() != "FILLED"@.len());
                assert("NEW"@.len() != "CANCELED"@.len());
                assert("NEW"@.len() != "REJECTED"@.len());
                assert("NEW"@.len() != "EXPIRED"@.len());
            }
            ExchangeOrderStatus::New
        } else if str_eq(u, "PARTIALLY_FILLED") {
            ExchangeOrderStatus::PartiallyFilled
        } else if str_eq(u, "FILLED") {
            ExchangeOrderStatus::Filled
        } else if str_eq(u, "CANCELED") {
            ExchangeOrderStatus::Canceled
        } else if str_eq(u, "REJECTED") {
            ExchangeOrderStatus::Rejected
        } else if str_eq(u, "EXPIRED") {
            ExchangeOrderStatus::Expired
        } else {
            ExchangeOrderStatus::New
        }
    }

    /// Parses a status, ignoring case; an unknown text means `New`.
    pub fn from_str(s: &str) -> (r: Self)
        ensures
            r == Self::parse_upper(unicode_uppercase(s@)),
    {
        let u = to_uppercase(s);
        Self::from_uppercased(u.as_str())
    }

    /// Each status's text is ASCII and parses back to the status.
    pub proof fn lemma_text_round_trip(self)
        ensures
            all_ascii(self.spec_text()),
            Self::parse_upper(ascii_upper_seq(self.spec_text())) == self,
    {
        reveal_strlit("NEW");
        reveal_strlit("PARTIALLY_FILLED");
        reveal_strlit("FILLED");
        reveal_strlit("CANCELED");
        reveal_strlit("REJECTED");
        reveal_strlit("EXPIRED");
        assert(ascii_upper_seq("NEW"@) =~= "NEW"@);
        assert(ascii_upper_seq("PARTIALLY_FILLED"@) =~= "PARTIALLY_FILLED"@);
        assert(ascii_upper_seq("FILLED"@) =~= "FILLED"@);
        assert(ascii_upper_seq("CANCELED"@) =~= "CANCELED"@);
        assert(ascii_upper_seq("REJECTED"@) =~= "REJECTED"@);
        assert(ascii_upper_seq("EXPIRED"@) =~= "EXPIRED"@);
        assert("NEW"@.len() != "PARTIALLY_FILLED"@.len());
        assert("NEW"@.len() != "FILLED"@.len());
        assert("NEW"@.len() != "CANCELED"@.len());
        assert("NEW"@.len() != "REJECTED"@.len());
        assert("NEW"@.len() != "EXPIRED"@.len());
        assert("FILLED"@.len() != "PARTIALLY_FILLED"@.len());
        assert("CANCELED"@.len() != "PARTIALLY_FILLED"@.len());
        assert("CANCELED"@.len() != "FILLED"@.len());
        assert("REJECTED"@.len() != "PARTIALLY_FILLED"@.len());
        assert("REJECTED"@.len() != "FILLED"@.len());
        assert("REJECTED"@[0] != "CANCELED"@[0]);
        assert("EXPIRED"@.len() != "PARTIALLY_FILLED"@.len());
        assert("EXPIRED"@.len() != "FILLED"@.len());
        assert("EXPIRED"@.len() != "CANCELED"@.len());
        assert("EXPIRED"@.len() != "REJECTED"@.len());
    }
}

/// An order as the exchange reports it.
#[derive(Debug, Clone)]
pub struct ExchangeOrder {
    /// The exchange's order id.
    pub order_id: String,
    /// Client order id.
    pub client_order_id: Option<String>,
    /// Trading pair.
    pub symbol: String,
    /// "BUY" or "SELL".
    pub side: String,
    /// "MARKET", "LIMIT", ...
    pub order_type: String,
    /// Status.
    pub status: ExchangeOrderStatus,
    /// Order price.
    pub price: Dec,
    /// Order quantity.
    pub quantity: Dec,
    /// Quantity filled.
    pub executed_qty: Dec,
    /// Average fill price.
    pub avg_price: Dec,
    /// Creation time, in milliseconds since the Unix epoch.
    pub created_at: i64,
    /// Update time, in milliseconds since the Unix epoch.
    pub updated_at: i64,
}

/// The outcome of a cancellation.
#[derive(Debug, Clone)]
pub struct CancelOrderResult {
    /// Order id.
    pub order_id: String,
    /// Trading pair.
    pub symbol: String,
    /// Whether the order was cancelled.
    pub success: bool,
    /// What went wrong, on failure.
    pub error: Option<String>,
}

} // verus!
