//! Seeds the risk state from what the exchange reports: balances that hold
//! something, positions that are not flat (short ones negative), and the open
//! orders with what remains of them.
use crate::decimal::{lemma_compare_zero, spec_difference, spec_zero, value_lt, Dec};
use crate::port::exchange_query_port::{AccountBalance, ExchangeOrder, Position};
use crate::risk_state::{OpenOrderView, RiskOpenOrder};
use crate::service::state_update::{changes, lemma_changes, RiskStateUpdate, StateChange};
use crate::text::{eq_ignore_ascii_case, str_eq_ignore_ascii_case};
use vstd::prelude::*;

verus! {

/// A balance is synced when its free or its locked amount is above zero.
pub open spec fn has_holdings(b: AccountBalance) -> bool {
    value_lt(spec_zero(), b.free) || value_lt(spec_zero(), b.locked)
}

/// The changes that sync the balances: each balance that holds something sets
/// its asset's free and locked amounts, in order.
pub open spec fn balance_changes(bs: Seq<AccountBalance>) -> Seq<StateChange>
    decreases bs.len(),
{
    if bs.len() == 0 {
        Seq::empty()
    } else {
        balance_changes(bs.drop_last()) + if has_holdings(bs.last()) {
            seq![StateChange::Balance { asset: bs.last().asset@, free: bs.last().free.parts(), locked: bs.last().locked.parts() }]
        } else {
            Seq::<StateChange>::empty()
        }
    }
}

/// The balance change of one exchange balance: its asset with its free amount
/// as free and its locked amount as locked.
pub open spec fn balance_change_of(b: AccountBalance) -> StateChange {
    StateChange::Balance { asset: b.asset@, free: b.free.parts(), locked: b.locked.parts() }
}

/// Syncing the balances keeps exactly the balances that hold something, in their
/// order, and each becomes the change that sets its asset's free amount to the
/// balance's free amount and its locked amount to the balance's locked amount.
pub proof fn law_balance_changes(bs: Seq<AccountBalance>)
    ensures
        balance_changes(bs) == bs.filter(|b: AccountBalance| has_holdings(b)).map_values(|b: AccountBalance| balance_change_of(b)),
    decreases bs.len(),
{
    reveal(Seq::filter);
    let keep = |b: AccountBalance| has_holdings(b);
    let change = |b: AccountBalance| balance_change_of(b);
    if bs.len() > 0 {
        law_balance_changes(bs.drop_last());
        let kept = bs.drop_last().filter(keep);
        assert(bs.filter(keep) == (if keep(bs.last()) {
            kept.push(bs.last())
        } else {
            kept
        }));
        if has_holdings(bs.last()) {
            assert(kept.push(bs.last()).map_values(change) =~= kept.map_values(change).push(balance_change_of(bs.last())));
        }
        assert(balance_changes(bs) =~= bs.filter(keep).map_values(change));
    } else {
        assert(bs.filter(keep) =~= bs);
        assert(balance_changes(bs) =~= bs.filter(keep).map_values(change));
    }
}

/// The size of a position with the sign of its side: negative for a "SHORT"
/// position (any case), positive otherwise.
pub open spec fn signed_size(p: Position) -> (int, int) {
    let a = if p.quantity.parts().0 < 0 { -p.quantity.parts().0 } else { p.quantity.parts().0 };
    if eq_ignore_ascii_case(p.side@, "SHORT"@) {
        (-a, p.quantity.parts().1)
    } else {
        (a, p.quantity.parts().1)
    }
}

/// The changes that sync the positions: each position that is not flat moves
/// the pair's position by its signed size at its entry price, in order.
pub open spec fn position_changes(ps: Seq<Position>) -> Seq<StateChange>
    decreases ps.len(),
{
    if ps.len() == 0 {
        Seq::empty()
    } else {
        position_changes(ps.drop_last()) + if ps.last().quantity.parts().0 != 0 {
            seq![StateChange::Position { symbol: ps.last().symbol@, delta: signed_size(ps.last()), price: ps.last().entry_price.parts() }]
        } else {
            Seq::<StateChange>::empty()
        }
    }
}

/// Every order's remaining quantity (quantity minus executed) can be computed.
pub open spec fn remainders_fit(os: Seq<ExchangeOrder>) -> bool {
    forall|i: int| 0 <= i < os.len() ==> (#[trigger] spec_difference(os[i].quantity, os[i].executed_qty)) is Some
}

/// The open order recorded for an order the exchange reports open: its quantity
/// is what remains of it.
pub open spec fn remaining_order(o: ExchangeOrder) -> OpenOrderView {
    OpenOrderView {
        order_id: o.order_id@,
        symbol: o.symbol@,
        side: o.side@,
        quantity: spec_difference(o.quantity, o.executed_qty)->0,
        price: o.price.parts(),
        created_at: o.created_at,
    }
}

/// The changes that sync the open orders: each becomes an open order, in order.
pub open spec fn order_changes(os: Seq<ExchangeOrder>) -> Seq<StateChange> {
    os.map_values(|o: ExchangeOrder| StateChange::AddOrder { order: remaining_order(o) })
}

/// The text of a query's error, if it failed.
pub open spec fn error_text<T>(r: Result<T, String>) -> Option<Seq<char>> {
    match r {
        Ok(_) => None,
        Err(e) => Some(e@),
    }
}

/// `acc` with the failure of fetching `what` (error `err`) added, after "; "
/// when `acc` already names one; unchanged when the query answered.
pub open spec fn noted(acc: Seq<char>, what: Seq<char>, err: Option<Seq<char>>) -> Seq<char> {
    match err {
        None => acc,
        Some(e) => (if acc.len() == 0 {
            Seq::empty()
        } else {
            acc + "; "@
        }) + what + ": "@ + e,
    }
}

/// The error of a seeding whose queries failed as given: each failed query,
/// balances then positions then open orders, as "what: error", separated by
/// "; ".
pub open spec fn seed_failures(balances: Option<Seq<char>>, positions: Option<Seq<char>>, orders: Option<Seq<char>>) -> Seq<char> {
    noted(noted(noted(Seq::empty(), "获取现货余额失败"@, balances), "获取合约持仓失败"@, positions), "获取未完成订单失败"@, orders)
}

/// Adds the failure of fetching `what` with error `err` to `acc`.
fn note_failure(acc: &mut String, what: &str, err: &str)
    ensures
        final(acc)@ == noted(old(acc)@, what@, Some(err@)),
{
    if acc.as_str().unicode_len() > 0 {
        acc.append("; ");
    }
    acc.append(what);
    acc.append(": ");
    acc.append(err);
}

/// What seeding the risk state comes to.
#[derive(Debug)]
pub struct SeedPlan {
    /// The changes of the queries that answered, in order.
    pub updates: Vec<RiskStateUpdate>,
    /// `Ok` when every query answered; otherwise which ones failed and why.
    pub outcome: Result<(), String>,
}

/// Seeds the risk state from the exchange.
pub struct RiskStateInitializer;

impl RiskStateInitializer {
    /// The balance changes: those balances with a free or locked amount above zero.
    pub fn sync_balances(balances: &Vec<AccountBalance>) -> (r: Vec<RiskStateUpdate>)
        ensures
            changes(r@) == balance_changes(balances@),
    {
        let mut r: Vec<RiskStateUpdate> = Vec::new();
        let mut i: usize = 0;
        let zero = Dec::zero();
        while i < balances.len()
            invariant
                i <= balances@.len(),
                zero == spec_zero(),
                changes(r@) == balance_changes(balances@.take(i as int)),
            decreases balances@.len() - i,
        {
            assert(balances@.take(i + 1).drop_last() =~= balances@.take(i as int));
            let b = &balances[i];
            let ghost prev = r@;
            if b.free.gt(&zero) || b.locked.gt(&zero) {
                r.push(RiskStateUpdate::UpdateBalance { asset: b.asset.clone(), free: b.free, locked: b.locked });
                proof {
                    lemma_changes(prev);
                    lemma_changes(r@);
                    assert(changes(r@) =~= changes(prev) + seq![r@.last()@]);
                }
            }
            i = i + 1;
        }
        assert(balances@.take(i as int) =~= balances@);
        r
    }

    /// The position changes: each position that is not flat, with its size
    /// negative for a short position, at its entry price.
    pub fn sync_positions(positions: &Vec<Position>) -> (r: Vec<RiskStateUpdate>)
        ensures
            changes(r@) == position_changes(positions@),
    {
        let mut r: Vec<RiskStateUpdate> = Vec::new();
        let mut i: usize = 0;
        let zero = Dec::zero();
        while i < positions.len()
            invariant
                i <= positions@.len(),
                zero == spec_zero(),
                changes(r@) == position_changes(positions@.take(i as int)),
            decreases positions@.len() - i,
        {
            assert(positions@.take(i + 1).drop_last() =~= positions@.take(i as int));
            let p = &positions[i];
            let ghost prev = r@;
            let size = p.quantity.abs();
            proof {
                lemma_compare_zero(size);
                assert(positions@.take(i + 1).last() == positions@[i as int]);
            }
            if size.gt(&zero) {
                let qty = if str_eq_ignore_ascii_case(p.side.as_str(), "SHORT") {
                    size.neg()
                } else {
                    size
                };
                r.push(RiskStateUpdate::UpdatePosition { symbol: p.symbol.clone(), delta: qty, price: p.entry_price });
                proof {
                    lemma_changes(prev);
                    lemma_changes(r@);
                    assert(changes(r@) =~= changes(prev) + seq![r@.last()@]);
                    assert(r@.last()@ == (StateChange::Position { symbol: positions@[i as int].symbol@, delta: signed_size(positions@[i as int]), price: positions@[i as int].entry_price.parts() }));
                }
            } else {
                assert(changes(r@) =~= changes(prev) + Seq::<StateChange>::empty());
            }
            i = i + 1;
        }
        assert(positions@.take(i as int) =~= positions@);
        r
    }

    /// The open order changes: each order becomes an open order for what remains
    /// of it (quantity minus executed quantity).
    pub fn sync_open_orders(orders: &Vec<ExchangeOrder>) -> (r: Vec<RiskStateUpdate>)
        requires
            remainders_fit(orders@),
        ensures
            changes(r@) == order_changes(orders@),
    {
        let mut r: Vec<RiskStateUpdate> = Vec::new();
        let mut i: usize = 0;
        while i < orders.len()
            invariant
                i <= orders@.len(),
                remainders_fit(orders@),
                changes(r@) == order_changes(orders@.take(i as int)),
            decreases orders@.len() - i,
        {
            let o = &orders[i];
            assert(spec_difference(orders@[i as int].quantity, orders@[i as int].executed_qty) is Some);
            let ghost prev = r@;
            let order = RiskOpenOrder {
                order_id: o.order_id.clone(),
                symbol: o.symbol.clone(),
                side: o.side.clone(),
                quantity: o.quantity.sub(&o.executed_qty),
                price: o.price,
                created_at: o.created_at,
            };
            r.push(RiskStateUpdate::AddOpenOrder { order });
            proof {
                lemma_changes(prev);
                lemma_changes(r@);
                assert(orders@.take(i + 1) =~= orders@.take(i as int).push(orders@[i as int]));
                assert(r@.last()@ == (StateChange::AddOrder { order: remaining_order(orders@[i as int]) }));
                assert forall|j: int| 0 <= j < r@.len() implies #[trigger] changes(r@)[j] == order_changes(orders@.take(i + 1))[j] by {
                    if j < i {
                        assert(changes(r@)[j] == changes(prev)[j]);
                        assert(order_changes(orders@.take(i + 1))[j] == order_changes(orders@.take(i as int))[j]);
                    }
                }
                assert(changes(r@) =~= order_changes(orders@.take(i + 1)));
            }
            i = i + 1;
        }
        assert(orders@.take(i as int) =~= orders@);
        r
    }

    /// Whether every order's remaining quantity can be computed.
    fn remainders_computable(orders: &Vec<ExchangeOrder>) -> (r: bool)
        ensures
            r == remainders_fit(orders@),
    {
        let mut i: usize = 0;
        while i < orders.len()
            invariant
                i <= orders@.len(),
                forall|j: int| 0 <= j < i ==> (#[trigger] spec_difference(orders@[j].quantity, orders@[j].executed_qty)) is Some,
            decreases orders@.len() - i,
        {
            if orders[i].quantity.checked_sub(&orders[i].executed_qty).is_none() {
                return false;
            }
            i = i + 1;
        }
        true
    }

    /// Seeds the risk state from what the exchange gave for balances, positions
    /// and open orders: every query is used that answered, in that order, and the
    /// changes of those that answered are kept; the outcome is `Ok` when all three
    /// answered and an error naming each failed query (with what was being
    /// fetched) otherwise.  `None` when an open order's remaining quantity
    /// overflows.
    pub fn initialize(
        balances: &Result<Vec<AccountBalance>, String>,
        positions: &Result<Vec<Position>, String>,
        orders: &Result<Vec<ExchangeOrder>, String>,
    ) -> (r: Option<SeedPlan>)
        ensures
            r is None <==> (orders matches Ok(os) && !remainders_fit(os@)),
            r matches Some(plan) ==> changes(plan.updates@) == (match balances {
                Ok(bs) => balance_changes(bs@),
                Err(_) => Seq::empty(),
            }) + (match positions {
                Ok(ps) => position_changes(ps@),
                Err(_) => Seq::empty(),
            }) + (match orders {
                Ok(os) => order_changes(os@),
                Err(_) => Seq::empty(),
            }),
            r matches Some(plan) ==> (plan.outcome is Ok <==> (balances is Ok && positions is Ok && orders is Ok)),
            r matches Some(plan) ==> (plan.outcome matches Err(e) ==> e@ == seed_failures(
                error_text(*balances),
                error_text(*positions),
                error_text(*orders),
            )),
    {
        let mut r: Vec<RiskStateUpdate> = Vec::new();
        let mut failures = String::new();
        match balances {
            Ok(bs) => {
                r = Self::sync_balances(bs);
            },
            Err(e) => {
                note_failure(&mut failures, "获取现货余额失败", e.as_str());
            },
        }
        let ghost after_balances = r@;
        let mut p: Vec<RiskStateUpdate> = Vec::new();
        match positions {
            Ok(ps) => {
                p = Self::sync_positions(ps);
            },
            Err(e) => {
                note_failure(&mut failures, "获取合约持仓失败", e.as_str());
            },
        }
        let mut o: Vec<RiskStateUpdate> = Vec::new();
        match orders {
            Ok(os) => {
                if !Self::remainders_computable(os) {
                    return None;
                }
                o = Self::sync_open_orders(os);
            },
            Err(e) => {
                note_failure(&mut failures, "获取未完成订单失败", e.as_str());
            },
        }
        let ghost pv = p@;
        let ghost ov = o@;
        r.append(&mut p);
        r.append(&mut o);
        proof {
            assert(r@ == after_balances + pv + ov);
            assert(changes(r@) =~= changes(after_balances) + changes(pv) + changes(ov));
        }
        let outcome = if balances.is_ok() && positions.is_ok() && orders.is_ok() {
            Ok(())
        } else {
            Err(failures)
        };
        Some(SeedPlan { updates: r, outcome })
    }
}

} // verus!
