//! Strategy signals and what a strategy evaluation answers.
use crate::clock::now_millis;
use crate::decimal::Dec;
use crate::text::owned;
use vstd::prelude::*;

verus! {

/// What a signal asks for.
#[derive(Debug, Clone, Copy, PartialEq, Eq, Structural)]
pub enum SignalType {
    /// Buy.
    Buy,
    /// Sell.
    Sell,
    /// Do nothing.
    Hold,
}

/// A trading signal of a strategy.  Identifiers are the 128-bit numbers of
/// UUIDs; the confidence is carried as the bits of its IEEE-754 double.
#[derive(Debug, Clone)]
pub struct Signal {
    /// Signal id.
    pub id: u128,
    /// Strategy id.
    pub strategy_id: u128,
    /// Trading pair.
    pub symbol: String,
    /// What the signal asks for.
    pub signal_type: SignalType,
    /// Price.
    pub price: Dec,
    /// Quantity.
    pub quantity: Dec,
    /// The bits of the confidence.
    pub confidence: u64,
}

/// A request to evaluate a strategy on one trade.
#[derive(Debug, Clone)]
pub struct EvaluateRequest {
    /// Strategy id.
    pub strategy_id: u128,
    /// Trading pair.
    pub symbol: String,
    /// Trade price.
    pub price: Dec,
    /// Trade quantity.
    pub quantity: Dec,
    /// Trade time, in milliseconds since the Unix epoch.
    pub timestamp: i64,
    /// Whether the buyer was the maker.
    pub is_buyer_maker: bool,
}

/// An order intent proposed by an evaluation.
#[derive(Debug, Clone)]
pub struct OrderIntentDto {
    /// Intent id (the signal's).
    pub id: u128,
    /// Strategy id.
    pub strategy_id: u128,
    /// Trading pair.
    pub symbol: String,
    /// "buy" or "sell".
    pub side: String,
    /// Quantity.
    pub quantity: Dec,
    /// Limit price.
    pub price: Option<Dec>,
    /// Order type, "limit".
    pub order_type: String,
    /// The bits of the confidence.
    pub confidence: u64,
    /// Creation time, in milliseconds since the Unix epoch.
    pub created_at: i64,
}

/// The answer to an evaluation.
#[derive(Debug, Clone)]
pub struct EvaluateResponse {
    /// Whether an intent is proposed.
    pub has_intent: bool,
    /// The intent.
    pub intent: Option<OrderIntentDto>,
}

/// The side text of a buy or sell signal.
pub open spec fn signal_side(t: SignalType) -> Seq<char> {
    match t {
        SignalType::Buy => "buy"@,
        SignalType::Sell => "sell"@,
        SignalType::Hold => "hold"@,
    }
}

/// The answer to an evaluation that produced `signal`: no intent for no signal
/// or a hold signal; otherwise a limit intent at the signal's price, with the
/// signal's id, strategy, pair, quantity and confidence, and the side "buy" or
/// "sell".
pub fn evaluate_response(signal: Option<Signal>) -> (r: EvaluateResponse)
    ensures
        r.has_intent == (signal matches Some(s) && s.signal_type != SignalType::Hold),
        r.intent is Some == r.has_intent,
        r.intent matches Some(i) ==> (signal matches Some(s) && {
            &&& i.id == s.id
            &&& i.strategy_id == s.strategy_id
            &&& i.symbol@ == s.symbol@
            &&& i.side@ == signal_side(s.signal_type)
            &&& i.quantity == s.quantity
            &&& i.price == Some(s.price)
            &&& i.order_type@ == "limit"@
            &&& i.confidence == s.confidence
        }),
{
    match signal {
        Some(sig) => {
            let side = match sig.signal_type {
                SignalType::Buy => "buy",
                SignalType::Sell => "sell",
                SignalType::Hold => "hold",
            };
            if sig.signal_type == SignalType::Hold {
                EvaluateResponse { has_intent: false, intent: None }
            } else {
                EvaluateResponse {
                    has_intent: true,
                    intent: Some(OrderIntentDto {
                        id: sig.id,
                        strategy_id: sig.strategy_id,
                        symbol: sig.symbol,
                        side: owned(side),
                        quantity: sig.quantity,
                        price: Some(sig.price),
                        order_type: owned("limit"),
                        confidence: sig.confidence,
                        created_at: now_millis(),
                    }),
                }
            }
        },
        None => EvaluateResponse { has_intent: false, intent: None },
    }
}

} // verus!
