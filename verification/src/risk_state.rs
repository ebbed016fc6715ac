//! The account state the risk checks read: balances, positions and open orders.
use crate::decimal::{decimal_sum, lemma_parts_determine, spec_zero, Dec};
use crate::text::{eq_ignore_ascii_case, str_eq, str_eq_ignore_ascii_case};
use vstd::prelude::*;

verus! {

/// The balance of one asset.
#[derive(Debug, Clone)]
pub struct RiskBalance {
    /// Asset name (USDT, BTC, ...).
    pub asset: String,
    /// Free amount.
    pub free: Dec,
    /// Locked amount.
    pub locked: Dec,
}

/// The position in one trading pair.
#[derive(Debug, Clone)]
pub struct RiskPosition {
    /// Trading pair.
    pub symbol: String,
    /// Quantity: positive long, negative short.
    pub quantity: Dec,
    /// Average entry price.
    pub entry_price: Dec,
    /// Unrealized profit and loss.
    pub unrealized_pnl: Dec,
}

/// An order that is still open.
#[derive(Debug, Clone)]
pub struct RiskOpenOrder {
    /// Order id.
    pub order_id: String,
    /// Trading pair.
    pub symbol: String,
    /// Side: "BUY" or "SELL".
    pub side: String,
    /// Quantity.
    pub quantity: Dec,
    /// Price.
    pub price: Dec,
    /// Creation time in milliseconds since the Unix epoch.
    pub created_at: i64,
}

/// What an open order says, with its texts as character sequences and its
/// decimals as (mantissa, scale) pairs.
pub struct OpenOrderView {
    /// Order id.
    pub order_id: Seq<char>,
    /// Trading pair.
    pub symbol: Seq<char>,
    /// Side.
    pub side: Seq<char>,
    /// Quantity.
    pub quantity: (int, int),
    /// Price.
    pub price: (int, int),
    /// Creation time.
    pub created_at: i64,
}

impl View for RiskOpenOrder {
    type V = OpenOrderView;

    open spec fn view(&self) -> OpenOrderView {
        OpenOrderView {
            order_id: self.order_id@,
            symbol: self.symbol@,
            side: self.side@,
            quantity: self.quantity.parts(),
            price: self.price.parts(),
            created_at: self.created_at,
        }
    }
}

/// A read-only picture of the account.
#[derive(Debug, Clone)]
pub struct RiskStateSnapshot {
    /// Balances.
    pub balances: Vec<RiskBalance>,
    /// Positions.
    pub positions: Vec<RiskPosition>,
    /// Open orders.
    pub open_orders: Vec<RiskOpenOrder>,
}

impl Default for RiskStateSnapshot {
    fn default() -> (r: Self)
        ensures
            r.balances@.len() == 0,
            r.positions@.len() == 0,
            r.open_orders@.len() == 0,
    {
        RiskStateSnapshot { balances: Vec::new(), positions: Vec::new(), open_orders: Vec::new() }
    }
}

/// The first balance whose asset equals `asset` up to ASCII case.
pub open spec fn find_balance(bs: Seq<RiskBalance>, asset: Seq<char>) -> Option<RiskBalance>
    decreases bs.len(),
{
    if bs.len() == 0 {
        None
    } else if eq_ignore_ascii_case(bs[0].asset@, asset) {
        Some(bs[0])
    } else {
        find_balance(bs.drop_first(), asset)
    }
}

/// The first position whose symbol equals `symbol` up to ASCII case.
pub open spec fn find_position(ps: Seq<RiskPosition>, symbol: Seq<char>) -> Option<RiskPosition>
    decreases ps.len(),
{
    if ps.len() == 0 {
        None
    } else if eq_ignore_ascii_case(ps[0].symbol@, symbol) {
        Some(ps[0])
    } else {
        find_position(ps.drop_first(), symbol)
    }
}

/// How many open orders are for `symbol` (up to ASCII case).
pub open spec fn count_orders(os: Seq<RiskOpenOrder>, symbol: Seq<char>) -> nat
    decreases os.len(),
{
    if os.len() == 0 {
        0
    } else {
        count_orders(os.drop_last(), symbol) + if eq_ignore_ascii_case(os.last().symbol@, symbol) {
            1nat
        } else {
            0nat
        }
    }
}

/// The quantities of the open orders for `symbol` (up to ASCII case) on side
/// `side` (exactly), added up from zero in order as `Decimal` adds them; `None`
/// where an addition overflows.
pub open spec fn pending_sum(os: Seq<RiskOpenOrder>, symbol: Seq<char>, side: Seq<char>) -> Option<(int, int)>
    decreases os.len(),
{
    if os.len() == 0 {
        Some((0, 0))
    } else {
        match pending_sum(os.drop_last(), symbol, side) {
            None => None,
            Some(acc) => if eq_ignore_ascii_case(os.last().symbol@, symbol) && os.last().side@ == side {
                decimal_sum(acc.0, acc.1, os.last().quantity.parts().0, os.last().quantity.parts().1)
            } else {
                Some(acc)
            },
        }
    }
}

impl RiskStateSnapshot {
    /// The free balance of `asset`: that of the first balance whose asset equals it
    /// up to ASCII case, zero if there is none.
    pub open spec fn spec_free_balance(self, asset: Seq<char>) -> Dec {
        match find_balance(self.balances@, asset) {
            Some(b) => b.free,
            None => spec_zero(),
        }
    }

    /// The position quantity in `symbol`: that of the first position whose symbol
    /// equals it up to ASCII case, zero if there is none.
    pub open spec fn spec_position_qty(self, symbol: Seq<char>) -> Dec {
        match find_position(self.positions@, symbol) {
            Some(p) => p.quantity,
            None => spec_zero(),
        }
    }

    /// The free balance of `asset` (matched ignoring ASCII case), zero if unknown.
    pub fn get_free_balance(&self, asset: &str) -> (r: Dec)
        ensures
            r == self.spec_free_balance(asset@),
    {
        let mut i: usize = 0;
        assert(self.balances@.skip(0) =~= self.balances@);
        while i < self.balances.len()
            invariant
                i <= self.balances@.len(),
                find_balance(self.balances@, asset@) == find_balance(self.balances@.skip(i as int), asset@),
            decreases self.balances@.len() - i,
        {
            assert(self.balances@.skip(i as int).drop_first() =~= self.balances@.skip(i + 1));
            if str_eq_ignore_ascii_case(self.balances[i].asset.as_str(), asset) {
                return self.balances[i].free;
            }
            i = i + 1;
        }
        let z = Dec::zero();
        proof {
            lemma_parts_determine(z, spec_zero());
        }
        z
    }

    /// The position quantity in `symbol` (matched ignoring ASCII case), zero if none.
    pub fn get_position_qty(&self, symbol: &str) -> (r: Dec)
        ensures
            r == self.spec_position_qty(symbol@),
    {
        let mut i: usize = 0;
        assert(self.positions@.skip(0) =~= self.positions@);
        while i < self.positions.len()
            invariant
                i <= self.positions@.len(),
                find_position(self.positions@, symbol@) == find_position(self.positions@.skip(i as int), symbol@),
            decreases self.positions@.len() - i,
        {
            assert(self.positions@.skip(i as int).drop_first() =~= self.positions@.skip(i + 1));
            if str_eq_ignore_ascii_case(self.positions[i].symbol.as_str(), symbol) {
                return self.positions[i].quantity;
            }
            i = i + 1;
        }
        let z = Dec::zero();
        proof {
            lemma_parts_determine(z, spec_zero());
        }
        z
    }

    /// How many open orders are for `symbol` (matched ignoring ASCII case).
    pub fn get_open_order_count(&self, symbol: &str) -> (r: usize)
        ensures
            r == count_orders(self.open_orders@, symbol@),
    {
        let mut n: usize = 0;
        let mut i: usize = 0;
        while i < self.open_orders.len()
            invariant
                i <= self.open_orders@.len(),
                n <= i,
                n == count_orders(self.open_orders@.take(i as int), symbol@),
            decreases self.open_orders@.len() - i,
        {
            assert(self.open_orders@.take(i + 1).drop_last() =~= self.open_orders@.take(i as int));
            if str_eq_ignore_ascii_case(self.open_orders[i].symbol.as_str(), symbol) {
                n = n + 1;
            }
            i = i + 1;
        }
        assert(self.open_orders@.take(i as int) =~= self.open_orders@);
        n
    }

    /// The quantities of the open orders for `symbol` (ignoring ASCII case) on side
    /// `side`, added from zero; `None` where the sum overflows.
    fn pending_qty(&self, symbol: &str, side: &str) -> (r: Option<Dec>)
        ensures
            r matches Some(d) ==> Some(d.parts()) == pending_sum(self.open_orders@, symbol@, side@),
            r is None ==> pending_sum(self.open_orders@, symbol@, side@) is None,
    {
        let mut acc = Dec::zero();
        let mut i: usize = 0;
        while i < self.open_orders.len()
            invariant
                i <= self.open_orders@.len(),
                Some(acc.parts()) == pending_sum(self.open_orders@.take(i as int), symbol@, side@),
            decreases self.open_orders@.len() - i,
        {
            assert(self.open_orders@.take(i + 1).drop_last() =~= self.open_orders@.take(i as int));
            let o = &self.open_orders[i];
            if str_eq_ignore_ascii_case(o.symbol.as_str(), symbol) && str_eq(o.side.as_str(), side) {
                match acc.checked_add(&o.quantity) {
                    Some(next) => {
                        acc = next;
                    },
                    None => {
                        proof {
                            lemma_pending_sum_none_extends(self.open_orders@, symbol@, side@, i + 1);
                        }
                        return None;
                    },
                }
            }
            i = i + 1;
        }
        assert(self.open_orders@.take(i as int) =~= self.open_orders@);
        Some(acc)
    }

    /// The total quantity of the open buy orders for `symbol`; `None` where the
    /// sum overflows.
    pub fn checked_pending_buy_qty(&self, symbol: &str) -> (r: Option<Dec>)
        ensures
            r matches Some(d) ==> Some(d.parts()) == pending_sum(self.open_orders@, symbol@, "BUY"@),
            r is None ==> pending_sum(self.open_orders@, symbol@, "BUY"@) is None,
    {
        if self.pending_qty(symbol, "BUY").is_some() {
            Some(self.get_pending_buy_qty(symbol))
        } else {
            None
        }
    }

    /// The total quantity of the open sell orders for `symbol`; `None` where the
    /// sum overflows.
    pub fn checked_pending_sell_qty(&self, symbol: &str) -> (r: Option<Dec>)
        ensures
            r matches Some(d) ==> Some(d.parts()) == pending_sum(self.open_orders@, symbol@, "SELL"@),
            r is None ==> pending_sum(self.open_orders@, symbol@, "SELL"@) is None,
    {
        if self.pending_qty(symbol, "SELL").is_some() {
            Some(self.get_pending_sell_qty(symbol))
        } else {
            None
        }
    }

    /// The total quantity of the open buy orders ("BUY") for `symbol` (matched
    /// ignoring ASCII case).
    pub fn get_pending_buy_qty(&self, symbol: &str) -> (r: Dec)
        requires
            pending_sum(self.open_orders@, symbol@, "BUY"@) is Some,
        ensures
            Some(r.parts()) == pending_sum(self.open_orders@, symbol@, "BUY"@),
    {
        self.pending_qty(symbol, "BUY").unwrap()
    }

    /// The total quantity of the open sell orders ("SELL") for `symbol` (matched
    /// ignoring ASCII case).
    pub fn get_pending_sell_qty(&self, symbol: &str) -> (r: Dec)
        requires
            pending_sum(self.open_orders@, symbol@, "SELL"@) is Some,
        ensures
            Some(r.parts()) == pending_sum(self.open_orders@, symbol@, "SELL"@),
    {
        self.pending_qty(symbol, "SELL").unwrap()
    }
}

/// Once a prefix of the orders overflows, every longer prefix does too.
proof fn lemma_pending_sum_none_extends(os: Seq<RiskOpenOrder>, symbol: Seq<char>, side: Seq<char>, k: int)
    requires
        0 <= k <= os.len(),
        pending_sum(os.take(k), symbol, side) is None,
    ensures
        pending_sum(os, symbol, side) is None,
    decreases os.len() - k,
{
    if k < os.len() {
        assert(os.take(k + 1).drop_last() =~= os.take(k));
        lemma_pending_sum_none_extends(os, symbol, side, k + 1);
    } else {
        assert(os.take(k) =~= os);
    }
}

} // verus!
