//! Order time-outs: an open order older than its time to live is expired and
//! must leave the risk state, so that orders never filled do not hold the open
//! order limits forever.
use crate::clock::now_millis;
use crate::decimal::Dec;
use crate::risk_state::{RiskOpenOrder, RiskStateSnapshot};
use crate::text::{parse_i64, parse_u64, signed_text_value, str_eq, to_lowercase, unicode_lowercase, unsigned_text_value};
use vstd::prelude::*;

verus! {

/// How the order time-out check runs.
#[derive(Debug, Clone)]
pub struct OrderLifecycleConfig {
    /// Time to live of an open order, in milliseconds (default five minutes).
    pub order_ttl_ms: i64,
    /// Time between two checks, in milliseconds (default thirty seconds).
    pub check_interval_ms: u64,
    /// Whether the check runs.
    pub enabled: bool,
}

impl Default for OrderLifecycleConfig {
    fn default() -> (r: Self)
        ensures
            r.order_ttl_ms == 300_000,
            r.check_interval_ms == 30_000,
            r.enabled,
    {
        OrderLifecycleConfig { order_ttl_ms: 300_000, check_interval_ms: 30_000, enabled: true }
    }
}

/// The `i64` a text denotes, as `str::parse::<i64>` reads it; `None` when the text
/// is not an integer or the integer is out of range.
pub open spec fn parsed_i64(t: Seq<char>) -> Option<i64> {
    match signed_text_value(t) {
        Some(v) => if i64::MIN <= v <= i64::MAX {
            Some(v as i64)
        } else {
            None
        },
        None => None,
    }
}

/// The `u64` a text denotes, as `str::parse::<u64>` reads it; `None` when the text
/// is not an unsigned integer or the integer is out of range.
pub open spec fn parsed_u64(t: Seq<char>) -> Option<u64> {
    match unsigned_text_value(t) {
        Some(v) => if v <= u64::MAX {
            Some(v as u64)
        } else {
            None
        },
        None => None,
    }
}

/// A switch is on when its text lower-cased is "true", or when it is "1".
pub open spec fn switch_on(t: Seq<char>) -> bool {
    unicode_lowercase(t) == "true"@ || t == "1"@
}

/// The configuration read from the values of `ORDER_TTL_MS`,
/// `ORDER_CHECK_INTERVAL_MS` and `ORDER_LIFECYCLE_ENABLED` (`None` when a variable
/// is not set): a number that does not parse keeps the default, a set switch is
/// on or off as `switch_on` says.
pub open spec fn config_from_values(
    ttl: Option<Seq<char>>,
    interval: Option<Seq<char>>,
    enabled: Option<Seq<char>>,
) -> (i64, u64, bool) {
    (
        match ttl {
            Some(t) => match parsed_i64(t) {
                Some(v) => v,
                None => 300_000,
            },
            None => 300_000,
        },
        match interval {
            Some(t) => match parsed_u64(t) {
                Some(v) => v,
                None => 30_000,
            },
            None => 30_000,
        },
        match enabled {
            Some(t) => switch_on(t),
            None => true,
        },
    )
}

/// The view of an optional text.
pub open spec fn opt_text(t: Option<&str>) -> Option<Seq<char>> {
    match t {
        Some(s) => Some(s@),
        None => None,
    }
}

impl OrderLifecycleConfig {
    /// The configuration from the values of the three environment variables
    /// (`None` for one that is not set), starting from the defaults.
    pub fn from_env_values(ttl: Option<&str>, interval: Option<&str>, enabled: Option<&str>) -> (r: Self)
        ensures
            (r.order_ttl_ms, r.check_interval_ms, r.enabled) == config_from_values(opt_text(ttl), opt_text(interval), opt_text(enabled)),
    {
        let mut config = Self::default();
        if let Some(t) = ttl {
            if let Some(v) = parse_i64(t) {
                config.order_ttl_ms = v;
            }
        }
        if let Some(t) = interval {
            if let Some(v) = parse_u64(t) {
                config.check_interval_ms = v;
            }
        }
        if let Some(t) = enabled {
            let lower = to_lowercase(t);
            config.enabled = str_eq(lower.as_str(), "true") || str_eq(t, "1");
        }
        config
    }
}

/// An open order that timed out.
#[derive(Debug, Clone)]
pub struct ExpiredOrder {
    /// Order id.
    pub order_id: String,
    /// Trading pair.
    pub symbol: String,
    /// Side.
    pub side: String,
    /// Quantity.
    pub quantity: Dec,
    /// Creation time, in milliseconds since the Unix epoch.
    pub created_at: i64,
    /// Time it was found expired, in milliseconds since the Unix epoch.
    pub expired_at: i64,
}

/// An order is expired at `now` when its age exceeds the time to live.
pub open spec fn is_expired(o: RiskOpenOrder, now: int, ttl: int) -> bool {
    now - o.created_at > ttl
}

/// Whether an order is expired at `now`, as a predicate.
pub open spec fn expired_at(now: int, ttl: int) -> spec_fn(RiskOpenOrder) -> bool {
    |o: RiskOpenOrder| is_expired(o, now, ttl)
}

/// Whether an order is still live at `now`, as a predicate.
pub open spec fn live_at(now: int, ttl: int) -> spec_fn(RiskOpenOrder) -> bool {
    |o: RiskOpenOrder| !is_expired(o, now, ttl)
}

/// The open orders expired at `now`, in their order.
pub open spec fn expired_of(os: Seq<RiskOpenOrder>, now: int, ttl: int) -> Seq<RiskOpenOrder> {
    os.filter(expired_at(now, ttl))
}

/// The open orders not expired at `now`, in their order.
pub open spec fn retained_of(os: Seq<RiskOpenOrder>, now: int, ttl: int) -> Seq<RiskOpenOrder> {
    os.filter(live_at(now, ttl))
}

/// `e` records that the open order `o` expired at `now`.
pub open spec fn records_expiry(e: ExpiredOrder, o: RiskOpenOrder, now: i64) -> bool {
    &&& e.order_id@ == o.order_id@
    &&& e.symbol@ == o.symbol@
    &&& e.side@ == o.side@
    &&& e.quantity == o.quantity
    &&& e.created_at == o.created_at
    &&& e.expired_at == now
}

/// `r` records, one for one and in order, the expiry at `now` of the orders `os`.
pub open spec fn records_expiries(r: Seq<ExpiredOrder>, os: Seq<RiskOpenOrder>, now: i64) -> bool {
    &&& r.len() == os.len()
    &&& forall|i: int| 0 <= i < r.len() ==> records_expiry(#[trigger] r[i], os[i], now)
}

/// Finds the open orders that timed out.
pub struct OrderLifecycleService {
    config: OrderLifecycleConfig,
}

impl OrderLifecycleService {
    /// The configuration in use.
    pub closed spec fn spec_config(self) -> OrderLifecycleConfig {
        self.config
    }

    /// A service with the given configuration.
    pub fn new(config: OrderLifecycleConfig) -> (r: Self)
        ensures
            r.spec_config() == config,
    {
        OrderLifecycleService { config }
    }

    /// The configuration in use.
    pub fn config(&self) -> (r: &OrderLifecycleConfig)
        ensures
            *r == self.spec_config(),
    {
        &self.config
    }

    /// The open orders of `snapshot` whose age at `now` exceeds the time to live,
    /// in their order, each stamped as expired at `now`; none when the check is
    /// disabled.  Each of them is to be removed from the risk state.
    pub fn expired_orders_at(&self, snapshot: &RiskStateSnapshot, now: i64) -> (r: Vec<ExpiredOrder>)
        ensures
            !self.spec_config().enabled ==> r@.len() == 0,
            self.spec_config().enabled ==> records_expiries(
                r@,
                expired_of(snapshot.open_orders@, now as int, self.spec_config().order_ttl_ms as int),
                now,
            ),
    {
        let mut expired: Vec<ExpiredOrder> = Vec::new();
        if !self.config.enabled {
            return expired;
        }
        let ttl = self.config.order_ttl_ms;
        let ghost os = snapshot.open_orders@;
        let ghost pred = expired_at(now as int, ttl as int);
        let mut i: usize = 0;
        while i < snapshot.open_orders.len()
            invariant
                os == snapshot.open_orders@,
                i <= os.len(),
                pred == expired_at(now as int, ttl as int),
                ttl == self.spec_config().order_ttl_ms,
                records_expiries(expired@, os.take(i as int).filter(pred), now),
            decreases os.len() - i,
        {
            let ghost before = os.take(i as int).filter(pred);
            proof {
                reveal(Seq::filter);
                assert(os.take(i + 1).drop_last() =~= os.take(i as int));
                assert(os.take(i + 1).last() == os[i as int]);
            }
            let o = &snapshot.open_orders[i];
            let age: i128 = (now as i128) - (o.created_at as i128);
            if age > ttl as i128 {
                assert(pred(os[i as int]));
                let e = ExpiredOrder {
                    order_id: o.order_id.clone(),
                    symbol: o.symbol.clone(),
                    side: o.side.clone(),
                    quantity: o.quantity,
                    created_at: o.created_at,
                    expired_at: now,
                };
                assert(records_expiry(e, os[i as int], now));
                let ghost prev = expired@;
                expired.push(e);
                assert(os.take(i + 1).filter(pred) == before.push(os[i as int]));
                assert forall|j: int| 0 <= j < expired@.len() implies records_expiry(
                    #[trigger] expired@[j],
                    os.take(i + 1).filter(pred)[j],
                    now,
                ) by {
                    if j < before.len() {
                        assert(expired@[j] == prev[j]);
                    }
                }
            } else {
                assert(!pred(os[i as int]));
                assert(os.take(i + 1).filter(pred) == before);
            }
            i = i + 1;
        }
        assert(os.take(i as int) =~= os);
        expired
    }

    /// The open orders of `snapshot` that timed out, measured against the clock
    /// read once: whatever time the clock gave, the result is what
    /// `expired_orders_at` gives for that time.
    pub fn check_expired_orders(&self, snapshot: &RiskStateSnapshot) -> (r: Vec<ExpiredOrder>)
        ensures
            !self.spec_config().enabled ==> r@.len() == 0,
            self.spec_config().enabled ==> exists|now: i64| records_expiries(
                r@,
                expired_of(snapshot.open_orders@, now as int, self.spec_config().order_ttl_ms as int),
                now,
            ),
    {
        let now = now_millis();
        self.expired_orders_at(snapshot, now)
    }
}

/// Every open order is either expired or retained, never both: the two lists
/// together are as long as the open orders, an expired order's age exceeds the
/// time to live, and a retained one's does not.
pub proof fn lemma_expiry_partitions(os: Seq<RiskOpenOrder>, now: int, ttl: int)
    ensures
        expired_of(os, now, ttl).len() + retained_of(os, now, ttl).len() == os.len(),
        forall|i: int| 0 <= i < expired_of(os, now, ttl).len() ==> is_expired(#[trigger] expired_of(os, now, ttl)[i], now, ttl),
        forall|i: int| 0 <= i < retained_of(os, now, ttl).len() ==> !is_expired(#[trigger] retained_of(os, now, ttl)[i], now, ttl),
    decreases os.len(),
{
    broadcast use vstd::seq_lib::group_filter_ensures;
    reveal(Seq::filter);
    if os.len() > 0 {
        lemma_expiry_partitions(os.drop_last(), now, ttl);
    }
}

/// With a time to live that is not negative, an order created at `now` (or
/// later) is never expired at `now`, and once an order has expired it stays
/// expired at every later time.
pub proof fn lemma_expiry_monotone(o: RiskOpenOrder, now: int, later: int, ttl: int)
    requires
        ttl >= 0,
        now <= later,
    ensures
        o.created_at >= now ==> !is_expired(o, now, ttl),
        is_expired(o, now, ttl) ==> is_expired(o, later, ttl),
{
}

} // verus!
