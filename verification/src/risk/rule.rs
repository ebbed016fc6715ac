//! Risk rules: each reads an intent and a snapshot of the account and either
//! passes or rejects with a reason; none changes the state.
use crate::decimal::Dec;
use crate::model::order_intent::{OrderIntent, OrderSide};
use crate::risk::result::{RiskCheckResult, RiskRejectReason};
use crate::risk_state::{count_orders, RiskStateSnapshot};
use vstd::prelude::*;

verus! {

/// What a rule reads: the intent and the account snapshot.
#[derive(Debug, Clone, Copy)]
pub struct RiskContext<'a> {
    /// The intent.
    pub intent: &'a OrderIntent,
    /// The account snapshot.
    pub state: &'a RiskStateSnapshot,
}

impl<'a> RiskContext<'a> {
    /// A context over `intent` and `state`.
    pub fn new(intent: &'a OrderIntent, state: &'a RiskStateSnapshot) -> (r: Self)
        ensures
            r.intent == intent,
            r.state == state,
    {
        RiskContext { intent, state }
    }
}

/// A risk rule.  `check` must only read its context.
pub trait RiskRule: Send + Sync {
    /// The rule's name.
    spec fn spec_name(&self) -> Seq<char>;

    /// What the rule checks, in words.
    spec fn spec_description(&self) -> Seq<char>;

    /// Whether the rule is enabled.
    spec fn spec_enabled(&self) -> bool;

    /// The inputs on which `check` runs without failing.
    spec fn can_check(&self, intent: OrderIntent, state: RiskStateSnapshot) -> bool;

    /// What `check` returns.
    spec fn spec_check(&self, intent: OrderIntent, state: RiskStateSnapshot) -> RiskCheckResult;

    /// The rule's name (for logs and monitoring).
    fn name(&self) -> (r: &'static str)
        ensures
            r@ == self.spec_name(),
    ;

    /// What the rule checks.
    fn description(&self) -> (r: &'static str)
        ensures
            r@ == self.spec_description(),
    ;

    /// Checks the intent against the snapshot.
    fn check(&self, ctx: &RiskContext) -> (r: RiskCheckResult)
        requires
            self.can_check(*ctx.intent, *ctx.state),
        ensures
            r == self.spec_check(*ctx.intent, *ctx.state),
    ;

    /// Whether the rule is enabled.
    fn is_enabled(&self) -> (r: bool)
        ensures
            r == self.spec_enabled(),
    ;

    /// Whether `check` can run on the context's inputs.
    fn can_run(&self, ctx: &RiskContext) -> (r: bool)
        ensures
            r == self.can_check(*ctx.intent, *ctx.state),
    ;
}

/// The limits of `MaxOpenOrdersRule`.
#[derive(Debug, Clone, Copy)]
pub struct MaxOpenOrdersRuleConfig {
    /// Largest number of open orders in one trading pair.
    pub max_orders_per_symbol: usize,
    /// Largest number of open orders in all, if limited.
    pub max_orders_global: Option<usize>,
}

impl Default for MaxOpenOrdersRuleConfig {
    /// Ten per trading pair and fifty in all.
    fn default() -> (r: Self)
        ensures
            r.max_orders_per_symbol == 10,
            r.max_orders_global == Some(50usize),
    {
        MaxOpenOrdersRuleConfig { max_orders_per_symbol: 10, max_orders_global: Some(50) }
    }
}

/// Rejects an intent when there are already too many open orders.
#[derive(Debug)]
pub struct MaxOpenOrdersRule {
    config: MaxOpenOrdersRuleConfig,
}

impl MaxOpenOrdersRule {
    /// The rule's limits.
    pub closed spec fn spec_config(self) -> MaxOpenOrdersRuleConfig {
        self.config
    }

    /// A rule with the given limits.
    pub fn new(config: MaxOpenOrdersRuleConfig) -> (r: Self)
        ensures
            r.spec_config() == config,
    {
        MaxOpenOrdersRule { config }
    }

    /// A rule with the default limits.
    pub fn with_default() -> (r: Self)
        ensures
            r.spec_config().max_orders_per_symbol == 10,
            r.spec_config().max_orders_global == Some(50usize),
    {
        Self::new(MaxOpenOrdersRuleConfig::default())
    }

    /// A rule that limits only the orders per trading pair.
    pub fn with_max_per_symbol(max_orders: usize) -> (r: Self)
        ensures
            r.spec_config().max_orders_per_symbol == max_orders,
            r.spec_config().max_orders_global is None,
    {
        Self::new(MaxOpenOrdersRuleConfig { max_orders_per_symbol: max_orders, max_orders_global: None })
    }

    /// A rule that limits the orders per trading pair and in all.
    pub fn with_limits(max_per_symbol: usize, max_global: usize) -> (r: Self)
        ensures
            r.spec_config().max_orders_per_symbol == max_per_symbol,
            r.spec_config().max_orders_global == Some(max_global),
    {
        Self::new(MaxOpenOrdersRuleConfig { max_orders_per_symbol: max_per_symbol, max_orders_global: Some(max_global) })
    }

    /// The rule's outcome: rejected with the pair's count when it has reached the
    /// per-pair limit; otherwise rejected with the total when a global limit is set
    /// and reached; otherwise passed.
    pub open spec fn outcome(config: MaxOpenOrdersRuleConfig, intent: OrderIntent, state: RiskStateSnapshot) -> RiskCheckResult {
        let n = count_orders(state.open_orders@, intent.symbol@);
        if n >= config.max_orders_per_symbol {
            RiskCheckResult::Rejected(RiskRejectReason::OpenOrderLimitExceeded { current: n as usize, max_allowed: config.max_orders_per_symbol })
        } else {
            match config.max_orders_global {
                Some(g) => if state.open_orders@.len() >= g {
                    RiskCheckResult::Rejected(RiskRejectReason::OpenOrderLimitExceeded { current: state.open_orders@.len() as usize, max_allowed: g })
                } else {
                    RiskCheckResult::Passed
                },
                None => RiskCheckResult::Passed,
            }
        }
    }
}

impl RiskRule for MaxOpenOrdersRule {
    open spec fn spec_name(&self) -> Seq<char> {
        "max_open_orders"@
    }

    open spec fn spec_description(&self) -> Seq<char> {
        "检查当前未完成订单数量是否超过限制"@
    }

    open spec fn spec_enabled(&self) -> bool {
        true
    }

    open spec fn can_check(&self, intent: OrderIntent, state: RiskStateSnapshot) -> bool {
        true
    }

    open spec fn spec_check(&self, intent: OrderIntent, state: RiskStateSnapshot) -> RiskCheckResult {
        Self::outcome(self.spec_config(), intent, state)
    }

    fn name(&self) -> (r: &'static str) {
        "max_open_orders"
    }

    fn description(&self) -> (r: &'static str) {
        "检查当前未完成订单数量是否超过限制"
    }

    fn check(&self, ctx: &RiskContext) -> (r: RiskCheckResult) {
        let intent = ctx.intent;
        let state = ctx.state;
        let symbol_order_count = state.get_open_order_count(intent.symbol.as_str());
        if symbol_order_count >= self.config.max_orders_per_symbol {
            return RiskCheckResult::rejected(
                RiskRejectReason::OpenOrderLimitExceeded { current: symbol_order_count, max_allowed: self.config.max_orders_per_symbol },
            );
        }
        if let Some(max_global) = self.config.max_orders_global {
            let total_order_count = state.open_orders.len();
            if total_order_count >= max_global {
                return RiskCheckResult::rejected(
                    RiskRejectReason::OpenOrderLimitExceeded { current: total_order_count, max_allowed: max_global },
                );
            }
        }
        RiskCheckResult::passed()
    }

    fn is_enabled(&self) -> (r: bool) {
        true
    }

    fn can_run(&self, ctx: &RiskContext) -> (r: bool) {
        true
    }
}

/// The open-order limits, the per-pair limit first: whenever the intent's pair
/// (matched ignoring ASCII case) already has at least the per-pair limit of open
/// orders, the rule rejects with that count and that limit, whatever the global
/// limit is.  Below the per-pair limit, a global limit that the open orders in
/// all have reached rejects with their total and that limit; otherwise the
/// intent passes.
pub proof fn law_open_order_limits(rule: MaxOpenOrdersRule, intent: OrderIntent, state: RiskStateSnapshot)
    ensures
        count_orders(state.open_orders@, intent.symbol@) >= rule.spec_config().max_orders_per_symbol ==> rule.spec_check(intent, state)
            == RiskCheckResult::Rejected(
            RiskRejectReason::OpenOrderLimitExceeded {
                current: count_orders(state.open_orders@, intent.symbol@) as usize,
                max_allowed: rule.spec_config().max_orders_per_symbol,
            },
        ),
        count_orders(state.open_orders@, intent.symbol@) < rule.spec_config().max_orders_per_symbol ==> (match rule.spec_config().max_orders_global {
            Some(g) => if state.open_orders@.len() >= g {
                rule.spec_check(intent, state) == RiskCheckResult::Rejected(
                    RiskRejectReason::OpenOrderLimitExceeded { current: state.open_orders@.len() as usize, max_allowed: g },
                )
            } else {
                rule.spec_check(intent, state) is Passed
            },
            None => rule.spec_check(intent, state) is Passed,
        }),
{
}

/// The limit of `MaxPositionRule`.
#[derive(Debug, Clone, Copy)]
pub struct MaxPositionRuleConfig {
    /// Largest absolute position.
    pub max_position: Dec,
}

impl Default for MaxPositionRuleConfig {
    /// A limit of 100.
    fn default() -> (r: Self)
        ensures
            r.max_position.parts() == (100int, 0int),
    {
        MaxPositionRuleConfig { max_position: Dec::from_i64(100) }
    }
}

/// Rejects an intent that would take the position beyond its limit.
#[derive(Debug)]
pub struct MaxPositionRule {
    config: MaxPositionRuleConfig,
}

/// The change of position an intent asks for: its quantity for a buy, the negated
/// quantity for a sell.
pub open spec fn intent_delta(intent: OrderIntent) -> (int, int) {
    match intent.side {
        OrderSide::Buy => intent.quantity.parts(),
        OrderSide::Sell => (-intent.quantity.parts().0, intent.quantity.parts().1),
    }
}

/// The scale at which the position after an intent is exactly written: the
/// larger of the two scales.
pub open spec fn position_scale(current: (int, int), delta: (int, int)) -> nat {
    if current.1 >= delta.1 {
        current.1 as nat
    } else {
        delta.1 as nat
    }
}

/// The exact position after an intent, as a mantissa at `position_scale`.
pub open spec fn exact_position(current: (int, int), delta: (int, int)) -> int {
    let s = position_scale(current, delta);
    current.0 * crate::decimal::pow10((s - current.1) as nat) + delta.0 * crate::decimal::pow10((s - delta.1) as nat)
}

/// The magnitude of `x / 10^s` is above the limit `max`.
pub open spec fn exceeds_limit(max: (int, int), x: int, s: nat) -> bool {
    max.0 * crate::decimal::pow10(s) < (if x < 0 { -x } else { x }) * crate::decimal::pow10(max.1 as nat)
}

impl MaxPositionRule {
    /// The rule's limit.
    pub closed spec fn spec_config(self) -> MaxPositionRuleConfig {
        self.config
    }

    /// A rule with the given limit.
    pub fn new(config: MaxPositionRuleConfig) -> (r: Self)
        ensures
            r.spec_config() == config,
    {
        MaxPositionRule { config }
    }

    /// A rule with the default limit (100).
    pub fn with_default() -> (r: Self)
        ensures
            r.spec_config().max_position.parts() == (100int, 0int),
    {
        Self::new(MaxPositionRuleConfig::default())
    }

    /// A rule with the limit `max_position`.
    pub fn with_max(max_position: Dec) -> (r: Self)
        ensures
            r.spec_config().max_position == max_position,
    {
        Self::new(MaxPositionRuleConfig { max_position })
    }

    /// The position the intent would leave, as `Decimal` adds the current position
    /// and the intent's change.
    pub open spec fn expected(intent: OrderIntent, state: RiskStateSnapshot) -> Option<(int, int)> {
        crate::decimal::decimal_sum(
            state.spec_position_qty(intent.symbol@).parts().0,
            state.spec_position_qty(intent.symbol@).parts().1,
            intent_delta(intent).0,
            intent_delta(intent).1,
        )
    }

    /// The rule's outcome: rejected, with the current position, the requested
    /// quantity and the limit, when the absolute value of the expected position
    /// exceeds the limit; passed otherwise.
    pub open spec fn outcome(config: MaxPositionRuleConfig, intent: OrderIntent, state: RiskStateSnapshot) -> RiskCheckResult {
        let e = Self::expected(intent, state)->0;
        let abs_m = if e.0 < 0 { -e.0 } else { e.0 };
        if config.max_position.parts().0 * crate::decimal::pow10(e.1 as nat) < abs_m * crate::decimal::pow10(config.max_position.parts().1 as nat) {
            RiskCheckResult::Rejected(RiskRejectReason::PositionLimitExceeded {
                current: state.spec_position_qty(intent.symbol@),
                requested: intent.quantity,
                max_allowed: config.max_position,
            })
        } else {
            RiskCheckResult::Passed
        }
    }
}

impl RiskRule for MaxPositionRule {
    open spec fn spec_name(&self) -> Seq<char> {
        "max_position"@
    }

    open spec fn spec_description(&self) -> Seq<char> {
        "检查订单执行后是否会超过最大持仓限制"@
    }

    open spec fn spec_enabled(&self) -> bool {
        true
    }

    open spec fn can_check(&self, intent: OrderIntent, state: RiskStateSnapshot) -> bool {
        Self::expected(intent, state) is Some
    }

    open spec fn spec_check(&self, intent: OrderIntent, state: RiskStateSnapshot) -> RiskCheckResult {
        Self::outcome(self.spec_config(), intent, state)
    }

    fn name(&self) -> (r: &'static str) {
        "max_position"
    }

    fn description(&self) -> (r: &'static str) {
        "检查订单执行后是否会超过最大持仓限制"
    }

    fn check(&self, ctx: &RiskContext) -> (r: RiskCheckResult)
        ensures
            ({
                let cur = ctx.state.spec_position_qty(ctx.intent.symbol@).parts();
                let d = intent_delta(*ctx.intent);
                crate::decimal::fits_mantissa(exact_position(cur, d)) ==> (r is Rejected <==> exceeds_limit(
                    self.spec_config().max_position.parts(),
                    exact_position(cur, d),
                    position_scale(cur, d),
                ))
            }),
    {
        let intent = ctx.intent;
        let state = ctx.state;
        let current_position = state.get_position_qty(intent.symbol.as_str());
        let position_delta = match intent.side {
            OrderSide::Buy => intent.quantity,
            OrderSide::Sell => intent.quantity.neg(),
        };
        proof {
            crate::decimal::lemma_parts_determine(current_position, state.spec_position_qty(intent.symbol@));
        }
        let expected_position = current_position.add(&position_delta);
        proof {
            let cur = current_position.parts();
            let d = position_delta.parts();
            let s = crate::decimal::max_scale(current_position, position_delta);
            assert(s == position_scale(cur, d));
            assert(crate::decimal::exact_sum(current_position, position_delta) == exact_position(cur, d));
            if crate::decimal::fits_mantissa(exact_position(cur, d)) {
                crate::decimal::lemma_scaled_compare(
                    self.config.max_position.parts().0,
                    expected_position.parts().0,
                    exact_position(cur, d),
                    expected_position.parts().1 as nat,
                    s,
                    self.config.max_position.parts().1 as nat,
                );
            }
        }
        if expected_position.abs().gt(&self.config.max_position) {
            return RiskCheckResult::rejected(
                RiskRejectReason::PositionLimitExceeded {
                    current: current_position,
                    requested: intent.quantity,
                    max_allowed: self.config.max_position,
                },
            );
        }
        RiskCheckResult::passed()
    }

    fn is_enabled(&self) -> (r: bool) {
        true
    }

    fn can_run(&self, ctx: &RiskContext) -> (r: bool) {
        let current_position = ctx.state.get_position_qty(ctx.intent.symbol.as_str());
        let position_delta = match ctx.intent.side {
            OrderSide::Buy => ctx.intent.quantity,
            OrderSide::Sell => ctx.intent.quantity.neg(),
        };
        current_position.checked_add(&position_delta).is_some()
    }
}

} // verus!
