//! The risk engine: runs its rules in order and stops at the first rejection.
use crate::model::order_intent::OrderIntent;
use crate::risk::result::{rejection_text, RiskCheckResult};
use crate::risk::rule::{MaxOpenOrdersRule, MaxPositionRule, RiskContext, RiskRule};
use crate::risk_state::RiskStateSnapshot;
use vstd::prelude::*;

verus! {

/// A rule the engine runs: one of the built-in rules, or any other rule.
pub enum EngineRule {
    /// The position limit.
    MaxPosition(MaxPositionRule),
    /// The open-order limits.
    MaxOpenOrders(MaxOpenOrdersRule),
    /// Any other rule.
    Custom(Box<dyn RiskRule>),
}

impl RiskRule for EngineRule {
    open spec fn spec_name(&self) -> Seq<char> {
        match self {
            EngineRule::MaxPosition(r) => r.spec_name(),
            EngineRule::MaxOpenOrders(r) => r.spec_name(),
            EngineRule::Custom(r) => r.spec_name(),
        }
    }

    open spec fn spec_description(&self) -> Seq<char> {
        match self {
            EngineRule::MaxPosition(r) => r.spec_description(),
            EngineRule::MaxOpenOrders(r) => r.spec_description(),
            EngineRule::Custom(r) => r.spec_description(),
        }
    }

    open spec fn spec_enabled(&self) -> bool {
        match self {
            EngineRule::MaxPosition(r) => r.spec_enabled(),
            EngineRule::MaxOpenOrders(r) => r.spec_enabled(),
            EngineRule::Custom(r) => r.spec_enabled(),
        }
    }

    open spec fn can_check(&self, intent: OrderIntent, state: RiskStateSnapshot) -> bool {
        match self {
            EngineRule::MaxPosition(r) => r.can_check(intent, state),
            EngineRule::MaxOpenOrders(r) => r.can_check(intent, state),
            EngineRule::Custom(r) => r.can_check(intent, state),
        }
    }

    open spec fn spec_check(&self, intent: OrderIntent, state: RiskStateSnapshot) -> RiskCheckResult {
        match self {
            EngineRule::MaxPosition(r) => r.spec_check(intent, state),
            EngineRule::MaxOpenOrders(r) => r.spec_check(intent, state),
            EngineRule::Custom(r) => r.spec_check(intent, state),
        }
    }

    fn name(&self) -> (r: &'static str) {
        match self {
            EngineRule::MaxPosition(r) => r.name(),
            EngineRule::MaxOpenOrders(r) => r.name(),
            EngineRule::Custom(r) => r.name(),
        }
    }

    fn description(&self) -> (r: &'static str) {
        match self {
            EngineRule::MaxPosition(r) => r.description(),
            EngineRule::MaxOpenOrders(r) => r.description(),
            EngineRule::Custom(r) => r.description(),
        }
    }

    fn check(&self, ctx: &RiskContext) -> (r: RiskCheckResult) {
        match self {
            EngineRule::MaxPosition(r) => r.check(ctx),
            EngineRule::MaxOpenOrders(r) => r.check(ctx),
            EngineRule::Custom(r) => r.check(ctx),
        }
    }

    fn is_enabled(&self) -> (r: bool) {
        match self {
            EngineRule::MaxPosition(r) => r.is_enabled(),
            EngineRule::MaxOpenOrders(r) => r.is_enabled(),
            EngineRule::Custom(r) => r.is_enabled(),
        }
    }
    fn can_run(&self, ctx: &RiskContext) -> (r: bool) {
        match self {
            EngineRule::MaxPosition(r) => r.can_run(ctx),
            EngineRule::MaxOpenOrders(r) => r.can_run(ctx),
            EngineRule::Custom(r) => r.can_run(ctx),
        }
    }
}

/// The result of running `rules` in order: the first rejection by an enabled rule,
/// or passed when every enabled rule passes.  Disabled rules are skipped.
pub open spec fn engine_outcome(rules: Seq<EngineRule>, intent: OrderIntent, state: RiskStateSnapshot) -> RiskCheckResult
    decreases rules.len(),
{
    if rules.len() == 0 {
        RiskCheckResult::Passed
    } else if !rules[0].spec_enabled() {
        engine_outcome(rules.drop_first(), intent, state)
    } else if rules[0].spec_check(intent, state) is Rejected {
        rules[0].spec_check(intent, state)
    } else {
        engine_outcome(rules.drop_first(), intent, state)
    }
}

/// Every enabled rule that the engine reaches (up to the first rejection) can run.
pub open spec fn engine_can_run(rules: Seq<EngineRule>, intent: OrderIntent, state: RiskStateSnapshot) -> bool
    decreases rules.len(),
{
    if rules.len() == 0 {
        true
    } else if !rules[0].spec_enabled() {
        engine_can_run(rules.drop_first(), intent, state)
    } else {
        rules[0].can_check(intent, state) && (rules[0].spec_check(intent, state) is Rejected || engine_can_run(
            rules.drop_first(),
            intent,
            state,
        ))
    }
}

/// Runs risk rules in order.  It holds no business state and changes none.
pub struct RiskEngine {
    rules: Vec<EngineRule>,
}

impl RiskEngine {
    /// The rules, in the order they run.
    pub closed spec fn spec_rules(self) -> Seq<EngineRule> {
        self.rules@
    }

    /// An engine without rules.
    pub fn new() -> (r: Self)
        ensures
            r.spec_rules().len() == 0,
    {
        RiskEngine { rules: Vec::new() }
    }

    /// The engine with `rule` added last.
    pub fn add_rule(self, rule: EngineRule) -> (r: Self)
        ensures
            r.spec_rules() == self.spec_rules().push(rule),
    {
        let mut s = self;
        s.push_rule(rule);
        s
    }

    /// Adds `rule` last.
    pub fn push_rule(&mut self, rule: EngineRule)
        ensures
            final(self).spec_rules() == old(self).spec_rules().push(rule),
    {
        self.rules.push(rule);
    }

    /// The number of rules.
    pub fn rule_count(&self) -> (r: usize)
        ensures
            r == self.spec_rules().len(),
    {
        self.rules.len()
    }

    /// The names of the rules, in order.
    pub fn rule_names(&self) -> (r: Vec<&'static str>)
        ensures
            r@.len() == self.spec_rules().len(),
            forall|i: int| 0 <= i < r@.len() ==> (#[trigger] r@[i])@ == self.spec_rules()[i].spec_name(),
    {
        let mut names: Vec<&'static str> = Vec::new();
        let mut i: usize = 0;
        while i < self.rules.len()
            invariant
                i <= self.rules@.len(),
                names@.len() == i,
                forall|j: int| 0 <= j < i ==> (#[trigger] names@[j])@ == self.rules@[j].spec_name(),
            decreases self.rules@.len() - i,
        {
            names.push(self.rules[i].name());
            i = i + 1;
        }
        names
    }

    /// Runs the enabled rules in order and returns the first rejection; passed
    /// when every enabled rule passes.
    pub fn check(&self, intent: &OrderIntent, state: &RiskStateSnapshot) -> (r: RiskCheckResult)
        requires
            engine_can_run(self.spec_rules(), *intent, *state),
        ensures
            r == engine_outcome(self.spec_rules(), *intent, *state),
    {
        let ctx = RiskContext::new(intent, state);
        let mut i: usize = 0;
        assert(self.rules@.skip(0) =~= self.rules@);
        while i < self.rules.len()
            invariant
                i <= self.rules@.len(),
                ctx.intent == intent,
                ctx.state == state,
                engine_outcome(self.rules@, *intent, *state) == engine_outcome(self.rules@.skip(i as int), *intent, *state),
                engine_can_run(self.rules@.skip(i as int), *intent, *state),
            decreases self.rules@.len() - i,
        {
            assert(self.rules@.skip(i as int).drop_first() =~= self.rules@.skip(i + 1));
            let rule = &self.rules[i];
            if rule.is_enabled() {
                let result = rule.check(&ctx);
                if result.is_rejected() {
                    return result;
                }
            }
            i = i + 1;
        }
        RiskCheckResult::passed()
    }

    /// Runs the enabled rules in order as `check` does, but first asks each rule
    /// it reaches whether it can run: `None` when one cannot (where `check` would
    /// fail), the outcome otherwise.
    pub fn try_check(&self, intent: &OrderIntent, state: &RiskStateSnapshot) -> (r: Option<RiskCheckResult>)
        ensures
            r is Some <==> engine_can_run(self.spec_rules(), *intent, *state),
            r matches Some(res) ==> res == engine_outcome(self.spec_rules(), *intent, *state),
    {
        let ctx = RiskContext::new(intent, state);
        let mut i: usize = 0;
        assert(self.rules@.skip(0) =~= self.rules@);
        while i < self.rules.len()
            invariant
                i <= self.rules@.len(),
                ctx.intent == intent,
                ctx.state == state,
                engine_outcome(self.rules@, *intent, *state) == engine_outcome(self.rules@.skip(i as int), *intent, *state),
                engine_can_run(self.rules@, *intent, *state) == engine_can_run(self.rules@.skip(i as int), *intent, *state),
            decreases self.rules@.len() - i,
        {
            assert(self.rules@.skip(i as int).drop_first() =~= self.rules@.skip(i + 1));
            let rule = &self.rules[i];
            if rule.is_enabled() {
                if !rule.can_run(&ctx) {
                    return None;
                }
                let result = rule.check(&ctx);
                if result.is_rejected() {
                    return Some(result);
                }
            }
            i = i + 1;
        }
        Some(RiskCheckResult::passed())
    }

    /// `Ok(())` when the check passes; the rejection's "code: message" otherwise.
    pub fn check_as_result(&self, intent: &OrderIntent, state: &RiskStateSnapshot) -> (r: Result<(), String>)
        requires
            engine_can_run(self.spec_rules(), *intent, *state),
        ensures
            match engine_outcome(self.spec_rules(), *intent, *state) {
                RiskCheckResult::Passed => r is Ok,
                RiskCheckResult::Rejected(reason) => r matches Err(e) && e@ == rejection_text(reason),
            },
    {
        self.check(intent, state).into_result()
    }
}

impl Default for RiskEngine {
    fn default() -> (r: Self)
        ensures
            r.spec_rules().len() == 0,
    {
        Self::new()
    }
}

/// An engine with the usual rules: the position limit (100), then the open-order
/// limits (10 per pair, 50 in all).
pub fn create_default_risk_engine() -> (r: RiskEngine)
    ensures
        r.spec_rules().len() == 2,
        r.spec_rules()[0] matches EngineRule::MaxPosition(p) && p.spec_config().max_position.parts() == (100int, 0int),
        r.spec_rules()[1] matches EngineRule::MaxOpenOrders(o) && o.spec_config().max_orders_per_symbol == 10
            && o.spec_config().max_orders_global == Some(50usize),
{
    let e = RiskEngine::new().add_rule(EngineRule::MaxPosition(MaxPositionRule::with_default()));
    e.add_rule(EngineRule::MaxOpenOrders(MaxOpenOrdersRule::with_default()))
}

/// An engine without rules passes every intent.
pub proof fn lemma_empty_engine_passes(intent: OrderIntent, state: RiskStateSnapshot)
    ensures
        engine_outcome(Seq::<EngineRule>::empty(), intent, state) is Passed,
{
}

/// The engine passes exactly when no enabled rule rejects; when it rejects, the
/// rejection is that of the first enabled rule that rejects, and every enabled rule
/// before it passed.
pub proof fn lemma_engine_first_rejection(rules: Seq<EngineRule>, intent: OrderIntent, state: RiskStateSnapshot)
    ensures
        (engine_outcome(rules, intent, state) is Passed) <==> (forall|i: int|
            0 <= i < rules.len() && (#[trigger] rules[i]).spec_enabled() ==> rules[i].spec_check(intent, state) is Passed),
        engine_outcome(rules, intent, state) is Rejected ==> exists|k: int|
            0 <= k < rules.len() && (#[trigger] rules[k]).spec_enabled() && engine_outcome(rules, intent, state) == rules[k].spec_check(intent, state)
                && (forall|j: int| 0 <= j < k && (#[trigger] rules[j]).spec_enabled() ==> rules[j].spec_check(intent, state) is Passed),
    decreases rules.len(),
{
    if rules.len() > 0 {
        let rest = rules.drop_first();
        lemma_engine_first_rejection(rest, intent, state);
        assert forall|i: int| 0 <= i < rest.len() implies #[trigger] rest[i] == rules[i + 1] by {}
        if engine_outcome(rules, intent, state) is Rejected {
            if rules[0].spec_enabled() && rules[0].spec_check(intent, state) is Rejected {
                assert(engine_outcome(rules, intent, state) == rules[0].spec_check(intent, state));
            } else {
                let k = choose|k: int|
                    0 <= k < rest.len() && (#[trigger] rest[k]).spec_enabled() && engine_outcome(rest, intent, state) == rest[k].spec_check(intent, state)
                        && (forall|j: int| 0 <= j < k && (#[trigger] rest[j]).spec_enabled() ==> rest[j].spec_check(intent, state) is Passed);
                assert(rules[k + 1] == rest[k]);
                assert forall|j: int| 0 <= j < k + 1 && (#[trigger] rules[j]).spec_enabled() implies rules[j].spec_check(intent, state) is Passed by {
                    if j > 0 {
                        assert(rules[j] == rest[j - 1]);
                    }
                }
            }
        }
        if engine_outcome(rules, intent, state) is Passed {
            assert forall|i: int| 0 <= i < rules.len() && (#[trigger] rules[i]).spec_enabled() implies rules[i].spec_check(intent, state) is Passed by {
                if i > 0 {
                    assert(rules[i] == rest[i - 1]);
                }
            }
        } else {
            if forall|i: int| 0 <= i < rules.len() && (#[trigger] rules[i]).spec_enabled() ==> rules[i].spec_check(intent, state) is Passed {
                assert forall|i: int| 0 <= i < rest.len() && (#[trigger] rest[i]).spec_enabled() implies rest[i].spec_check(intent, state) is Passed by {
                    assert(rest[i] == rules[i + 1]);
                }
            }
        }
    }
}

} // verus!
