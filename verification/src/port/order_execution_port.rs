//! The result of executing an order intent.
use vstd::prelude::*;

verus! {

/// What executing an order intent gave.
#[derive(Debug, Clone)]
pub struct ExecutionResult {
    /// The exchange's order id.
    pub order_id: String,
    /// Trading pair.
    pub symbol: String,
    /// Whether the order was placed.
    pub success: bool,
    /// What went wrong, on failure.
    pub error: Option<String>,
}

} // verus!
