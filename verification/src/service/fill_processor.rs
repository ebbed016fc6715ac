//! Turns order acceptances, fills and cancellations into risk state changes:
//! an accepted order becomes open; a fill moves the position, and a full fill
//! also closes the order; a cancellation closes the order.
use crate::decimal::Dec;
use crate::model::execution_fill::{CancelReason, ExecutionFill, FillSide, FillType, OrderAccepted, OrderCanceled};
use crate::risk_state::{OpenOrderView, RiskOpenOrder};
use crate::service::state_update::{changes, lemma_changes, RiskStateUpdate, StateChange};
use crate::text::owned;
use vstd::prelude::*;

verus! {

/// The open order an acceptance records: the price is zero when none is given,
/// the creation time is the acceptance time.
pub open spec fn accepted_order(e: OrderAccepted) -> OpenOrderView {
    OpenOrderView {
        order_id: e.order_id@,
        symbol: e.symbol@,
        side: e.side.spec_as_str(),
        quantity: e.quantity.parts(),
        price: match e.price {
            Some(p) => p.parts(),
            None => (0, 0),
        },
        created_at: e.accepted_at,
    }
}

/// The change of position for `quantity` on `side`: the quantity for a buy, its
/// negation for a sell.
pub open spec fn side_delta(side: FillSide, quantity: (int, int)) -> (int, int) {
    match side {
        FillSide::Buy => quantity,
        FillSide::Sell => (-quantity.0, quantity.1),
    }
}

/// The changes a fill makes: the position moves by the fill's delta at the fill
/// price; a full fill then closes the order.
pub open spec fn fill_changes(f: ExecutionFill) -> Seq<StateChange> {
    seq![StateChange::Position { symbol: f.symbol@, delta: f.spec_position_delta(), price: f.fill_price.parts() }]
        + if f.fill_type == FillType::Full {
        seq![StateChange::RemoveOrder { order_id: f.order_id@ }]
    } else {
        Seq::<StateChange>::empty()
    }
}

/// Decides the risk state changes for acceptances, fills and cancellations.
pub struct FillProcessor {}

impl FillProcessor {
    /// A fill processor.
    pub fn new() -> (r: Self) {
        FillProcessor {}
    }

    /// An accepted order becomes an open order (accepted is not filled).
    pub fn on_order_accepted(&self, event: &OrderAccepted) -> (r: Vec<RiskStateUpdate>)
        ensures
            changes(r@) == seq![StateChange::AddOrder { order: accepted_order(*event) }],
    {
        let price = match event.price {
            Some(p) => p,
            None => Dec::zero(),
        };
        let order = RiskOpenOrder {
            order_id: event.order_id.clone(),
            symbol: event.symbol.clone(),
            side: owned(event.side.as_str()),
            quantity: event.quantity,
            price,
            created_at: event.accepted_at,
        };
        let mut r: Vec<RiskStateUpdate> = Vec::new();
        r.push(RiskStateUpdate::AddOpenOrder { order });
        assert(changes(r@) =~= seq![StateChange::AddOrder { order: accepted_order(*event) }]);
        r
    }

    /// A fill moves the position by its delta at its price; a full fill also
    /// closes the order, a partial fill leaves it open.
    pub fn on_execution_fill(&self, fill: &ExecutionFill) -> (r: Vec<RiskStateUpdate>)
        ensures
            changes(r@) == fill_changes(*fill),
    {
        let mut r: Vec<RiskStateUpdate> = Vec::new();
        r.push(RiskStateUpdate::UpdatePosition {
            symbol: fill.symbol.clone(),
            delta: fill.position_delta(),
            price: fill.fill_price,
        });
        if fill.is_full() {
            r.push(RiskStateUpdate::RemoveOpenOrder { order_id: fill.order_id.clone() });
        }
        assert(changes(r@) =~= fill_changes(*fill));
        r
    }

    /// A cancellation closes the order; what was filled before stays in the
    /// position.
    pub fn on_order_canceled(&self, event: &OrderCanceled) -> (r: Vec<RiskStateUpdate>)
        ensures
            changes(r@) == seq![StateChange::RemoveOrder { order_id: event.order_id@ }],
    {
        let mut r: Vec<RiskStateUpdate> = Vec::new();
        r.push(RiskStateUpdate::RemoveOpenOrder { order_id: event.order_id.clone() });
        assert(changes(r@) =~= seq![StateChange::RemoveOrder { order_id: event.order_id@ }]);
        r
    }

    /// A market order accepted and at once filled completely: the order opens
    /// (at price zero), the position moves by the quantity, the order closes.
    pub fn simulate_market_order_fill(
        &self,
        order_id: &str,
        symbol: &str,
        side: FillSide,
        quantity: Dec,
        fill_price: Dec,
    ) -> (r: Vec<RiskStateUpdate>)
        ensures
            r@.len() == 3,
            r@[0]@ matches StateChange::AddOrder { order } && order.order_id == order_id@ && order.symbol == symbol@
                && order.side == side.spec_as_str() && order.quantity == quantity.parts() && order.price == (0int, 0int),
            r@[1]@ == (StateChange::Position { symbol: symbol@, delta: side_delta(side, quantity.parts()), price: fill_price.parts() }),
            r@[2]@ == (StateChange::RemoveOrder { order_id: order_id@ }),
    {
        let accepted = OrderAccepted::new(owned(order_id), owned(symbol), side, "MARKET", quantity, None);
        let mut r = self.on_order_accepted(&accepted);
        let fill = ExecutionFill::full(owned(order_id), owned(symbol), side, quantity, fill_price);
        let mut more = self.on_execution_fill(&fill);
        proof {
            lemma_changes(r@);
            lemma_changes(more@);
            assert(changes(r@)[0] == r@[0]@);
            assert(changes(more@)[0] == more@[0]@);
            assert(changes(more@)[1] == more@[1]@);
        }
        r.append(&mut more);
        r
    }

    /// A partial fill of `filled_qty` (of `original_qty`, `cumulative_qty` filled
    /// so far) at `fill_price`: the position moves, the order stays open.
    pub fn simulate_partial_fill(
        &self,
        order_id: &str,
        symbol: &str,
        side: FillSide,
        original_qty: Dec,
        filled_qty: Dec,
        cumulative_qty: Dec,
        fill_price: Dec,
    ) -> (r: Vec<RiskStateUpdate>)
        ensures
            changes(r@) == seq![StateChange::Position { symbol: symbol@, delta: side_delta(side, filled_qty.parts()), price: fill_price.parts() }],
    {
        let fill = ExecutionFill::partial(
            owned(order_id),
            owned(symbol),
            side,
            filled_qty,
            fill_price,
            cumulative_qty,
            original_qty,
        );
        let r = self.on_execution_fill(&fill);
        assert(fill_changes(fill) =~= seq![StateChange::Position { symbol: symbol@, delta: side_delta(side, filled_qty.parts()), price: fill_price.parts() }]);
        r
    }

    /// A user cancellation of an order that was never filled: the order closes.
    pub fn simulate_cancel_unfilled(&self, order_id: &str, symbol: &str, side: FillSide, original_qty: Dec) -> (r: Vec<
        RiskStateUpdate,
    >)
        ensures
            changes(r@) == seq![StateChange::RemoveOrder { order_id: order_id@ }],
    {
        let cancel = OrderCanceled::new(owned(order_id), owned(symbol), side, original_qty, Dec::zero(), CancelReason::UserRequested);
        self.on_order_canceled(&cancel)
    }

    /// A user cancellation after `filled_qty` was filled: the order closes, the
    /// position keeps what was filled.
    pub fn simulate_cancel_partial(
        &self,
        order_id: &str,
        symbol: &str,
        side: FillSide,
        original_qty: Dec,
        filled_qty: Dec,
    ) -> (r: Vec<RiskStateUpdate>)
        ensures
            changes(r@) == seq![StateChange::RemoveOrder { order_id: order_id@ }],
    {
        let cancel = OrderCanceled::new(owned(order_id), owned(symbol), side, original_qty, filled_qty, CancelReason::UserRequested);
        self.on_order_canceled(&cancel)
    }
}

/// A full fill closes its order and a partial fill never does; either way the
/// position moves first, by the fill's delta.
pub proof fn lemma_fill_closes_order_iff_full(f: ExecutionFill)
    ensures
        fill_changes(f)[0] == (StateChange::Position { symbol: f.symbol@, delta: f.spec_position_delta(), price: f.fill_price.parts() }),
        f.fill_type == FillType::Full ==> fill_changes(f).len() == 2 && fill_changes(f)[1] == (StateChange::RemoveOrder { order_id: f.order_id@ }),
        f.fill_type == FillType::Partial ==> fill_changes(f).len() == 1,
        forall|i: int| 0 <= i < fill_changes(f).len() && (#[trigger] fill_changes(f)[i] is RemoveOrder) ==> f.fill_type == FillType::Full,
{
}

} // verus!
