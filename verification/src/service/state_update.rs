//! A change to the risk state, as the risk state port receives it.
use crate::decimal::Dec;
use crate::risk_state::{OpenOrderView, RiskOpenOrder};
use vstd::prelude::*;

verus! {

/// A change to the risk state.
#[derive(Debug, Clone)]
pub enum RiskStateUpdate {
    /// Add `delta` to the position in `symbol` (positive adds, negative reduces),
    /// traded at `price`.
    UpdatePosition { symbol: String, delta: Dec, price: Dec },
    /// Record a new open order.
    AddOpenOrder { order: RiskOpenOrder },
    /// Forget the open order with this id.
    RemoveOpenOrder { order_id: String },
    /// Set the free and locked amounts of `asset`.
    UpdateBalance { asset: String, free: Dec, locked: Dec },
}

/// What a change says, with texts as character sequences and decimals as
/// (mantissa, scale) pairs.
pub enum StateChange {
    /// See `RiskStateUpdate::UpdatePosition`.
    Position { symbol: Seq<char>, delta: (int, int), price: (int, int) },
    /// See `RiskStateUpdate::AddOpenOrder`.
    AddOrder { order: OpenOrderView },
    /// See `RiskStateUpdate::RemoveOpenOrder`.
    RemoveOrder { order_id: Seq<char> },
    /// See `RiskStateUpdate::UpdateBalance`.
    Balance { asset: Seq<char>, free: (int, int), locked: (int, int) },
}

impl View for RiskStateUpdate {
    type V = StateChange;

    open spec fn view(&self) -> StateChange {
        match self {
            RiskStateUpdate::UpdatePosition { symbol, delta, price } => StateChange::Position {
                symbol: symbol@,
                delta: delta.parts(),
                price: price.parts(),
            },
            RiskStateUpdate::AddOpenOrder { order } => StateChange::AddOrder { order: order@ },
            RiskStateUpdate::RemoveOpenOrder { order_id } => StateChange::RemoveOrder { order_id: order_id@ },
            RiskStateUpdate::UpdateBalance { asset, free, locked } => StateChange::Balance {
                asset: asset@,
                free: free.parts(),
                locked: locked.parts(),
            },
        }
    }
}

/// The changes a sequence of updates makes, in order.
pub open spec fn changes(updates: Seq<RiskStateUpdate>) -> Seq<StateChange> {
    updates.map_values(|u: RiskStateUpdate| u@)
}

/// The changes of a sequence of updates are those of its updates, one for one.
pub proof fn lemma_changes(updates: Seq<RiskStateUpdate>)
    ensures
        changes(updates).len() == updates.len(),
        forall|i: int| 0 <= i < updates.len() ==> (#[trigger] changes(updates)[i]) == updates[i]@,
{
}

} // verus!
