//! The decisions of the trading chain: market event → strategy → risk check →
//! execution → follow-up.  What happens outside (asking the strategy, the risk
//! check, the execution venue, the audit trail, the order store, the risk state)
//! is done by the caller; this module decides what to record and which changes
//! the risk state receives.
use crate::clock::{new_id, now_millis};
use crate::decimal::{decimal_difference, decimal_product, decimal_sum, spec_zero, Dec};
use crate::model::audit_event::{ExecutionResultEvent, RiskRejectedEvent};
use crate::model::execution_fill::{ExecutionFill, FillSide, FillType};
use crate::model::order::{Order, OrderSide as StoredSide, OrderStatus, OrderType};
use crate::model::order_intent::{OrderIntent, OrderSide};
use crate::port::order_execution_port::ExecutionResult;
use crate::risk::result::{rejection_text, RiskRejectReason};
use crate::risk_state::{find_balance, RiskOpenOrder, RiskStateSnapshot};
use crate::service::state_update::{changes, lemma_changes, RiskStateUpdate, StateChange};
use crate::text::{
    all_ascii, ascii_upper_seq, eq_ignore_ascii_case, is_ascii_alnum, owned, str_eq_ignore_ascii_case, to_uppercase, trim, unicode_trim,
    unicode_uppercase,
};
use vstd::prelude::*;
use vstd::string::*;

verus! {

/// The number of characters before the first `:` (the whole length when there is
/// none).
pub open spec fn first_colon(s: Seq<char>) -> nat
    decreases s.len(),
{
    if s.len() == 0 {
        0
    } else if s[0] == ':' {
        0
    } else {
        1 + first_colon(s.drop_first())
    }
}

/// `s` with every space replaced by `_`.
pub open spec fn underscored(s: Seq<char>) -> Seq<char> {
    s.map_values(|c: char| if c == ' ' { '_' } else { c })
}

/// The code of a rejection reason: the part before the first `:` (all of it when
/// there is none), trimmed, upper-cased, with spaces turned into `_`.
pub open spec fn reject_code(reason: Seq<char>) -> Seq<char> {
    underscored(unicode_uppercase(unicode_trim(reason.take(first_colon(reason) as int))))
}

/// A character of a code: an upper-case ASCII letter, a digit or `_`.
pub open spec fn is_code_char(c: char) -> bool {
    ('A' <= c && c <= 'Z') || ('0' <= c && c <= '9') || c == '_'
}

/// Every character is a code character.
pub open spec fn all_code_chars(s: Seq<char>) -> bool
    decreases s.len(),
{
    s.len() == 0 || (is_code_char(s[0]) && all_code_chars(s.drop_first()))
}

/// A plain code: code characters only, starting and ending with a letter or
/// digit.
pub open spec fn plain_code(s: Seq<char>) -> bool {
    &&& s.len() > 0
    &&& all_code_chars(s)
    &&& is_ascii_alnum(s[0])
    &&& is_ascii_alnum(s.last())
}

/// The characters of a string of code characters, one by one.
proof fn lemma_code_chars(s: Seq<char>)
    requires
        all_code_chars(s),
    ensures
        forall|i: int| 0 <= i < s.len() ==> is_code_char(#[trigger] s[i]),
    decreases s.len(),
{
    if s.len() > 0 {
        lemma_code_chars(s.drop_first());
        assert forall|i: int| 0 <= i < s.len() implies is_code_char(#[trigger] s[i]) by {
            if i > 0 {
                assert(s[i] == s.drop_first()[i - 1]);
            }
        }
    }
}

/// A plain code comes back unchanged from trimming, upper-casing and turning
/// spaces into `_`, provided the trimming and upper-casing keep what their
/// documented ASCII behaviour keeps.
proof fn lemma_plain_code_is_fixed(h: Seq<char>)
    requires
        plain_code(h),
    ensures
        all_ascii(h),
        ascii_upper_seq(h) == h,
        underscored(h) == h,
{
    lemma_code_chars(h);
    assert(ascii_upper_seq(h) =~= h);
    assert(underscored(h) =~= h);
}

/// Every rejection's code is a plain code, and the error text of a rejection
/// ("code: message") has its code before its first `:`.
pub proof fn lemma_rejection_text_code(reason: RiskRejectReason)
    ensures
        plain_code(reason.spec_code()),
        rejection_text(reason).take(first_colon(rejection_text(reason)) as int) == reason.spec_code(),
{
    reveal_with_fuel(all_code_chars, 32);
    reveal_strlit("POSITION_LIMIT_EXCEEDED");
    reveal_strlit("OPEN_ORDER_LIMIT_EXCEEDED");
    reveal_strlit("ORDER_QTY_EXCEEDED");
    reveal_strlit("ORDER_QTY_TOO_SMALL");
    reveal_strlit("NOTIONAL_EXCEEDED");
    reveal_strlit("SYMBOL_NOT_ALLOWED");
    reveal_strlit("INSUFFICIENT_BALANCE");
    reveal_strlit("LEVERAGE_EXCEEDED");
    reveal_strlit("DRAWDOWN_EXCEEDED");
    reveal_strlit("COOLDOWN_NOT_EXPIRED");
    reveal_strlit("MARKET_ORDER_NOTIONAL_EXCEEDED");
    reveal_strlit("MARGIN_RATIO_TOO_LOW");
    reveal_strlit("CUSTOM_REJECT");
    reveal_strlit(": ");
    let code = reason.spec_code();
    let text = rejection_text(reason);
    assert(plain_code(code));
    lemma_code_chars(code);
    assert(text[code.len() as int] == ':');
    assert forall|j: int| 0 <= j < code.len() implies text[j] != ':' by {
        assert(text[j] == code[j]);
        assert(is_code_char(code[j]));
    }
    lemma_first_colon(text, code.len() as int);
    assert(text.take(code.len() as int) =~= code);
}

/// `first_colon` is the first index holding `:`, or the length.
proof fn lemma_first_colon(s: Seq<char>, k: int)
    requires
        0 <= k <= s.len(),
        forall|j: int| 0 <= j < k ==> s[j] != ':',
        k == s.len() || s[k] == ':',
    ensures
        first_colon(s) == k,
    decreases s.len(),
{
    if s.len() > 0 && k > 0 {
        assert forall|j: int| 0 <= j < k - 1 implies s.drop_first()[j] != ':' by {
            assert(s.drop_first()[j] == s[j + 1]);
        }
        lemma_first_colon(s.drop_first(), k - 1);
    }
}

/// `s` with every space replaced by `_`.
fn underscore_spaces(s: &str) -> (r: String)
    ensures
        r@ == underscored(s@),
{
    let n = s.unicode_len();
    let mut r = String::new();
    let mut i: usize = 0;
    while i < n
        invariant
            n == s@.len(),
            i <= n,
            r@ == underscored(s@.take(i as int)),
        decreases n - i,
    {
        let c = s.get_char(i);
        if c == ' ' {
            r.append("_");
            proof { reveal_strlit("_"); }
        } else {
            r.append(s.substring_char(i, i + 1));
        }
        assert(underscored(s@.take(i + 1)) =~= underscored(s@.take(i as int)) + seq![if c == ' ' { '_' } else { c }]);
        assert(r@ =~= underscored(s@.take(i + 1)));
        i = i + 1;
    }
    assert(s@.take(n as int) =~= s@);
    r
}

/// The fee rate of a simulated fill, 0.1%, as (mantissa, scale).
pub open spec fn fee_rate() -> (int, int) {
    (1, 3)
}

/// The fee of a simulated fill: quantity times price times 0.1%, as `Decimal`
/// multiplies; `None` where a product overflows.
pub open spec fn simulated_fee(quantity: Dec, price: Dec) -> Option<(int, int)> {
    match decimal_product(quantity.parts().0, quantity.parts().1, price.parts().0, price.parts().1) {
        Some(n) => decimal_product(n.0, n.1, fee_rate().0, fee_rate().1),
        None => None,
    }
}

/// The free quote balance (USDT) after a fill: the traded amount (filled
/// quantity times price) and the commission are taken off for a buy; the amount
/// is added and the commission taken off for a sell; `None` where an operation
/// overflows.
pub open spec fn free_after_fill(free: Dec, f: ExecutionFill) -> Option<(int, int)> {
    match decimal_product(f.filled_quantity.parts().0, f.filled_quantity.parts().1, f.fill_price.parts().0, f.fill_price.parts().1) {
        None => None,
        Some(n) => {
            let moved = match f.side {
                FillSide::Buy => decimal_difference(free.parts().0, free.parts().1, n.0, n.1),
                FillSide::Sell => decimal_sum(free.parts().0, free.parts().1, n.0, n.1),
            };
            match moved {
                Some(a) => decimal_difference(a.0, a.1, f.commission.parts().0, f.commission.parts().1),
                None => None,
            }
        },
    }
}

/// The locked quote balance (USDT) of a snapshot: that of the first balance whose
/// asset is USDT up to ASCII case, zero if none.
pub open spec fn quote_locked(s: RiskStateSnapshot) -> (int, int) {
    match find_balance(s.balances@, "USDT"@) {
        Some(b) => b.locked.parts(),
        None => (0, 0),
    }
}

/// The balance change of a fill against a snapshot can be computed.
pub open spec fn fill_balance_fits(f: ExecutionFill, snapshot: Option<RiskStateSnapshot>) -> bool {
    snapshot matches Some(s) ==> free_after_fill(s.spec_free_balance("USDT"@), f) is Some
}

/// The changes a fill makes when a risk state is configured: the position moves
/// by the fill's delta at the fill price; when a snapshot could be read, the
/// quote balance (USDT) gets its new free amount and keeps its locked amount; a
/// full fill then closes the order.
pub open spec fn applied_fill_changes(f: ExecutionFill, snapshot: Option<RiskStateSnapshot>) -> Seq<StateChange> {
    seq![StateChange::Position { symbol: f.symbol@, delta: f.spec_position_delta(), price: f.fill_price.parts() }]
        + match snapshot {
        Some(s) => seq![StateChange::Balance {
            asset: "USDT"@,
            free: free_after_fill(s.spec_free_balance("USDT"@), f)->0,
            locked: quote_locked(s),
        }],
        None => Seq::<StateChange>::empty(),
    } + if f.fill_type == FillType::Full {
        seq![StateChange::RemoveOrder { order_id: f.order_id@ }]
    } else {
        Seq::<StateChange>::empty()
    }
}

/// The view of an optional snapshot reference.
pub open spec fn opt_snapshot(s: Option<&RiskStateSnapshot>) -> Option<RiskStateSnapshot> {
    match s {
        Some(x) => Some(*x),
        None => None,
    }
}

/// The fill side of an intent's side.
pub open spec fn fill_side_of(side: OrderSide) -> FillSide {
    match side {
        OrderSide::Buy => FillSide::Buy,
        OrderSide::Sell => FillSide::Sell,
    }
}

/// The side an order is stored with for an intent's side.
pub open spec fn stored_side_of(side: OrderSide) -> StoredSide {
    match side {
        OrderSide::Buy => StoredSide::Buy,
        OrderSide::Sell => StoredSide::Sell,
    }
}

/// The price an intent is filled at in the simulation: its price, zero for a
/// market intent.
pub open spec fn fill_price_of(intent: OrderIntent) -> Dec {
    match intent.price {
        Some(p) => p,
        None => spec_zero(),
    }
}

/// What follows an execution, in the order it is carried out.
#[derive(Debug, Clone)]
pub struct ExecutionFollowUp {
    /// The open order the risk state records (success, with a risk state).
    pub open_order: Option<RiskOpenOrder>,
    /// The immediate full fill to apply with `apply_execution_fill` (success).
    pub fill: Option<ExecutionFill>,
    /// The pair whose order time the risk check records (success).
    pub order_time_symbol: Option<String>,
    /// The audit record (with an audit trail).
    pub audit: Option<ExecutionResultEvent>,
    /// The order to store (success, with an order store).
    pub order: Option<Order>,
    /// The open order to forget (failure, with a risk state and an order id).
    pub remove_order_id: Option<String>,
}

/// `u` is what follows the successful execution of `intent` as order `order_id`
/// for a service with the given parts.
pub open spec fn success_follow_up(
    u: ExecutionFollowUp,
    has_risk_state: bool,
    has_order_repo: bool,
    has_audit: bool,
    intent: OrderIntent,
    order_id: Seq<char>,
) -> bool {
    &&& (u.open_order is Some <==> has_risk_state)
    &&& u.open_order matches Some(o) ==> {
        &&& o.order_id@ == order_id
        &&& o.symbol@ == intent.symbol@
        &&& o.side@ == fill_side_of(intent.side).spec_as_str()
        &&& o.quantity == intent.quantity
        &&& o.price == fill_price_of(intent)
    }
    &&& u.fill matches Some(f) && {
        &&& f.order_id@ == order_id
        &&& f.symbol@ == intent.symbol@
        &&& f.side == fill_side_of(intent.side)
        &&& f.fill_type == FillType::Full
        &&& f.filled_quantity == intent.quantity
        &&& f.fill_price == fill_price_of(intent)
        &&& f.cumulative_quantity == intent.quantity
        &&& f.original_quantity == intent.quantity
        &&& Some(f.commission.parts()) == simulated_fee(intent.quantity, fill_price_of(intent))
        &&& f.commission_asset@ == "USDT"@
    }
    &&& u.order_time_symbol matches Some(t) && t@ == intent.symbol@
    &&& (u.audit is Some <==> has_audit)
    &&& u.audit matches Some(e) ==> {
        &&& e.strategy_id == intent.strategy_id
        &&& e.symbol@ == intent.symbol@
        &&& e.side == intent.side
        &&& e.quantity == intent.quantity
        &&& e.success
        &&& e.exchange_order_id matches Some(x) && x@ == order_id
    }
    &&& (u.order is Some <==> has_order_repo)
    &&& u.order matches Some(o) ==> {
        &&& o.user_id == intent.strategy_id
        &&& o.strategy_id == Some(intent.strategy_id)
        &&& o.symbol@ == intent.symbol@
        &&& o.side == stored_side_of(intent.side)
        &&& o.order_type == (if intent.price is Some { OrderType::Limit } else { OrderType::Market })
        &&& o.quantity == intent.quantity
        &&& o.price == intent.price
        &&& o.status == OrderStatus::Filled
        &&& o.exchange_order_id matches Some(x) && x@ == order_id
        &&& o.filled_quantity == intent.quantity
        &&& o.average_price == intent.price
    }
    &&& u.remove_order_id is None
}

/// `u` is what follows the failed execution of `intent` (order id `order_id`,
/// error `error`) for a service with the given parts: the open order is
/// forgotten when there is a risk state and an order id, and the failure is
/// audited with its error, "Unknown error" when none was given.
pub open spec fn failure_follow_up(
    u: ExecutionFollowUp,
    has_risk_state: bool,
    has_audit: bool,
    intent: OrderIntent,
    order_id: Seq<char>,
    error: Option<Seq<char>>,
) -> bool {
    &&& u.open_order is None
    &&& u.fill is None
    &&& u.order_time_symbol is None
    &&& u.order is None
    &&& (u.remove_order_id is Some <==> (has_risk_state && order_id.len() > 0))
    &&& u.remove_order_id matches Some(x) ==> x@ == order_id
    &&& (u.audit is Some <==> has_audit)
    &&& u.audit matches Some(e) ==> {
        &&& e.strategy_id == intent.strategy_id
        &&& e.symbol@ == intent.symbol@
        &&& e.side == intent.side
        &&& e.quantity == intent.quantity
        &&& !e.success
        &&& e.exchange_order_id is None
        &&& e.error_message matches Some(m) && m@ == (match error {
            Some(x) => x,
            None => "Unknown error"@,
        })
    }
}

/// The view of an optional text.
pub open spec fn opt_string(t: Option<String>) -> Option<Seq<char>> {
    match t {
        Some(s) => Some(s@),
        None => None,
    }
}

/// The change of position an order report makes: the quantity when the side is
/// "BUY" (any case), its negation otherwise.
pub open spec fn report_delta(side: Seq<char>, quantity: Dec) -> (int, int) {
    if eq_ignore_ascii_case(side, "BUY"@) {
        quantity.parts()
    } else {
        (-quantity.parts().0, quantity.parts().1)
    }
}

/// Where the trading chain stands for one market event.
#[derive(Debug)]
pub enum ChainStage {
    /// Waiting for the strategy's answer.
    Evaluating,
    /// The strategy proposed this intent; waiting for the risk check.
    Checking(OrderIntent),
    /// The intent passed the risk check; waiting for its execution.
    Executing(OrderIntent),
    /// The chain ended with this outcome.
    Finished(Result<(), String>),
}

/// What the outside work of a stage gave.
#[derive(Debug)]
pub enum ChainEvent {
    /// The strategy's answer: an intent, nothing to do, or an error.
    Evaluated(Result<Option<OrderIntent>, String>),
    /// The risk check's answer: passed, or rejected with a reason.
    Checked(Result<(), String>),
    /// The execution's answer, or the error it failed with.
    Executed(Result<ExecutionResult, String>),
}

/// The next stage, and what to record or carry out on the way.
#[derive(Debug)]
pub struct ChainStep {
    /// The next stage.
    pub stage: ChainStage,
    /// The record of a risk rejection, with an audit trail.
    pub rejected: Option<RiskRejectedEvent>,
    /// The record of an execution error, with an audit trail.
    pub failed: Option<ExecutionResultEvent>,
    /// What follows an execution that returned a result.
    pub follow_up: Option<ExecutionFollowUp>,
}

/// The stage that follows `stage` on `event`: no intent ends the chain well, a
/// strategy error ends it with that error; an intent goes to the risk check; a
/// rejection ends the chain well without executing; a pass goes to execution;
/// an execution error ends the chain with that error; an execution result ends
/// it well.  An event that does not answer the stage changes nothing.
pub open spec fn next_stage(stage: ChainStage, event: ChainEvent) -> ChainStage {
    match (stage, event) {
        (ChainStage::Evaluating, ChainEvent::Evaluated(Ok(Some(intent)))) => ChainStage::Checking(intent),
        (ChainStage::Evaluating, ChainEvent::Evaluated(Ok(None))) => ChainStage::Finished(Ok(())),
        (ChainStage::Evaluating, ChainEvent::Evaluated(Err(e))) => ChainStage::Finished(Err(e)),
        (ChainStage::Checking(intent), ChainEvent::Checked(Ok(()))) => ChainStage::Executing(intent),
        (ChainStage::Checking(_), ChainEvent::Checked(Err(_))) => ChainStage::Finished(Ok(())),
        (ChainStage::Executing(_), ChainEvent::Executed(Ok(_))) => ChainStage::Finished(Ok(())),
        (ChainStage::Executing(_), ChainEvent::Executed(Err(e))) => ChainStage::Finished(Err(e)),
        (s, _) => s,
    }
}

/// The execution succeeded but the fee of its simulated fill overflows.
pub open spec fn fee_overflows(stage: ChainStage, event: ChainEvent) -> bool {
    match (stage, event) {
        (ChainStage::Executing(i), ChainEvent::Executed(Ok(res))) => res.success && simulated_fee(i.quantity, fill_price_of(i)) is None,
        _ => false,
    }
}

/// `e` records that `intent` was rejected for `reason`.
pub open spec fn rejection_record(e: RiskRejectedEvent, intent: OrderIntent, reason: Seq<char>) -> bool {
    &&& e.strategy_id == intent.strategy_id
    &&& e.symbol@ == intent.symbol@
    &&& e.side == intent.side
    &&& e.quantity == intent.quantity
    &&& e.price == intent.price
    &&& e.reject_reason@ == reason
    &&& e.reject_code@ == reject_code(reason)
}

/// `e` records that executing `intent` failed with `error`.
pub open spec fn failure_record(e: ExecutionResultEvent, intent: OrderIntent, error: Seq<char>) -> bool {
    &&& e.strategy_id == intent.strategy_id
    &&& e.symbol@ == intent.symbol@
    &&& e.side == intent.side
    &&& e.quantity == intent.quantity
    &&& !e.success
    &&& e.exchange_order_id is None
    &&& e.error_message matches Some(m) && m@ == error
}

/// What a step records and carries out: a rejection record for a rejected
/// intent and a failure record for an execution error (each only with an audit
/// trail), the follow-up of an execution result; nothing otherwise.
pub open spec fn step_effects(
    step: ChainStep,
    has_risk_state: bool,
    has_order_repo: bool,
    has_audit: bool,
    stage: ChainStage,
    event: ChainEvent,
) -> bool {
    match (stage, event) {
        (ChainStage::Checking(i), ChainEvent::Checked(Err(reason))) => {
            &&& (step.rejected is Some <==> has_audit)
            &&& (step.rejected matches Some(e) ==> rejection_record(e, i, reason@))
            &&& step.failed is None
            &&& step.follow_up is None
        },
        (ChainStage::Executing(i), ChainEvent::Executed(Err(msg))) => {
            &&& step.rejected is None
            &&& (step.failed is Some <==> has_audit)
            &&& (step.failed matches Some(e) ==> failure_record(e, i, msg@))
            &&& step.follow_up is None
        },
        (ChainStage::Executing(i), ChainEvent::Executed(Ok(res))) => {
            &&& step.rejected is None
            &&& step.failed is None
            &&& step.follow_up matches Some(u) && if res.success {
                success_follow_up(u, has_risk_state, has_order_repo, has_audit, i, res.order_id@)
            } else {
                failure_follow_up(u, has_risk_state, has_audit, i, res.order_id@, opt_string(res.error))
            }
        },
        _ => step.rejected is None && step.failed is None && step.follow_up is None,
    }
}

/// A finished chain stays finished, with its outcome, whatever event comes.
pub proof fn lemma_finished_is_final(stage: ChainStage, event: ChainEvent)
    requires
        stage is Finished,
    ensures
        stage_view(next_stage(stage, event)) == stage_view(stage),
{
}

/// An intent reaches execution only by passing the risk check: the chain is
/// executing after a step only if it was executing already, or it was checking
/// and the check passed.  A rejected intent ends the chain successfully and is
/// never executed.
pub proof fn lemma_execution_needs_a_pass(stage: ChainStage, event: ChainEvent)
    ensures
        next_stage(stage, event) is Executing ==> (stage is Executing || (stage is Checking && event matches ChainEvent::Checked(Ok(_)))),
        (stage is Checking && event matches ChainEvent::Checked(Err(_))) ==> stage_view(next_stage(stage, event)) == stage_view(
            ChainStage::Finished(Ok(())),
        ),
{
}

/// The other answers of the chain: a proposed intent goes to the risk check
/// unchanged; an execution result ends the chain well; an execution error ends
/// it with that error.
pub proof fn law_chain_answers(intent: OrderIntent, result: ExecutionResult, error: String)
    ensures
        stage_view(next_stage(ChainStage::Evaluating, ChainEvent::Evaluated(Ok(Some(intent))))) == stage_view(ChainStage::Checking(intent)),
        stage_view(next_stage(ChainStage::Executing(intent), ChainEvent::Executed(Ok(result)))) == (3int, None::<OrderIntent>, Some(Ok::<(), Seq<char>>(()))),
        stage_view(next_stage(ChainStage::Executing(intent), ChainEvent::Executed(Err(error)))) == (3int, None::<OrderIntent>, Some(Err::<(), Seq<char>>(error@))),
{
}

/// An intent that passes the risk check goes on to execution: from the checking
/// stage, a passing check leads to the executing stage with the same intent.
pub proof fn law_pass_goes_to_execution(intent: OrderIntent)
    ensures
        stage_view(next_stage(ChainStage::Checking(intent), ChainEvent::Checked(Ok(())))) == stage_view(ChainStage::Executing(intent)),
{
}

/// A fill moves the free quote balance by its traded amount and always pays its
/// commission: the traded amount is the filled quantity times the fill price; a
/// buy takes it off the free balance and a sell adds it; the commission is then
/// taken off that (never added), so the new free balance is a difference whose
/// subtrahend is the commission.
pub proof fn law_fill_pays_commission(free: Dec, f: ExecutionFill)
    ensures
        free_after_fill(free, f) is Some ==> ({
            let product = decimal_product(f.filled_quantity.parts().0, f.filled_quantity.parts().1, f.fill_price.parts().0, f.fill_price.parts().1);
            let n = product->0;
            let moved = if f.side == FillSide::Buy {
                decimal_difference(free.parts().0, free.parts().1, n.0, n.1)
            } else {
                decimal_sum(free.parts().0, free.parts().1, n.0, n.1)
            };
            let a = moved->0;
            &&& product is Some
            &&& moved is Some
            &&& decimal_difference(a.0, a.1, f.commission.parts().0, f.commission.parts().1) == free_after_fill(free, f)
        }),
{
}

/// The changes a fill makes, in order: the pair's position moves by the filled
/// quantity (added for a buy, taken off for a sell) at the fill price; with a
/// snapshot, the quote asset (USDT) gets the free amount left after the fill
/// (`free_after_fill`) and keeps the snapshot's locked amount; a full fill then
/// closes the order, and nothing else follows.
pub proof fn law_fill_changes(f: ExecutionFill, snapshot: Option<RiskStateSnapshot>)
    ensures
        applied_fill_changes(f, snapshot).len() == 1 + (if snapshot is Some { 1int } else { 0int }) + (if f.fill_type == FillType::Full {
            1int
        } else {
            0int
        }),
        applied_fill_changes(f, snapshot)[0] == (StateChange::Position {
            symbol: f.symbol@,
            delta: (if f.side == FillSide::Buy {
                f.filled_quantity.parts().0
            } else {
                -f.filled_quantity.parts().0
            }, f.filled_quantity.parts().1),
            price: f.fill_price.parts(),
        }),
        snapshot matches Some(s) ==> applied_fill_changes(f, snapshot)[1] == (StateChange::Balance {
            asset: "USDT"@,
            free: free_after_fill(s.spec_free_balance("USDT"@), f)->0,
            locked: quote_locked(s),
        }),
        f.fill_type == FillType::Full ==> applied_fill_changes(f, snapshot).last() == (StateChange::RemoveOrder { order_id: f.order_id@ }),
{
}

/// A strategy that proposes nothing ends the chain successfully, and a strategy
/// error ends it with that error; neither reaches the risk check.
pub proof fn lemma_no_intent_no_check(event: ChainEvent)
    ensures
        event matches ChainEvent::Evaluated(Ok(None)) ==> stage_view(next_stage(ChainStage::Evaluating, event)) == stage_view(
            ChainStage::Finished(Ok(())),
        ),
        event matches ChainEvent::Evaluated(Err(e)) ==> stage_view(next_stage(ChainStage::Evaluating, event)) == (3int, None::<OrderIntent>, Some(Err::<(), Seq<char>>(e@))),
{
}

/// The view of a stage, with texts as character sequences.
pub open spec fn stage_view(stage: ChainStage) -> (int, Option<OrderIntent>, Option<Result<(), Seq<char>>>) {
    match stage {
        ChainStage::Evaluating => (0, None, None),
        ChainStage::Checking(i) => (1, Some(i), None),
        ChainStage::Executing(i) => (2, Some(i), None),
        ChainStage::Finished(Ok(())) => (3, None, Some(Ok(()))),
        ChainStage::Finished(Err(e)) => (3, None, Some(Err(e@))),
    }
}

/// Decides what the trading chain records and which changes the risk state
/// receives.  The strategy, risk check and execution venue are always there;
/// the risk state, the order store and the audit trail are optional.
#[derive(Debug, Clone, Copy)]
pub struct ExecutionService {
    has_risk_state: bool,
    has_order_repo: bool,
    has_audit: bool,
}

impl ExecutionService {
    /// Whether a risk state is configured.
    pub closed spec fn spec_has_risk_state(self) -> bool {
        self.has_risk_state
    }

    /// Whether an order store is configured.
    pub closed spec fn spec_has_order_repo(self) -> bool {
        self.has_order_repo
    }

    /// Whether an audit trail is configured.
    pub closed spec fn spec_has_audit(self) -> bool {
        self.has_audit
    }

    /// A service with neither risk state, order store nor audit trail.
    pub fn new() -> (r: Self)
        ensures
            !r.spec_has_risk_state(),
            !r.spec_has_order_repo(),
            !r.spec_has_audit(),
    {
        ExecutionService { has_risk_state: false, has_order_repo: false, has_audit: false }
    }

    /// A service with an order store only.
    pub fn with_repository() -> (r: Self)
        ensures
            !r.spec_has_risk_state(),
            r.spec_has_order_repo(),
            !r.spec_has_audit(),
    {
        ExecutionService { has_risk_state: false, has_order_repo: true, has_audit: false }
    }

    /// A service with whichever of the three optional parts are present.
    pub fn with_full_config(has_risk_state: bool, has_order_repo: bool, has_audit: bool) -> (r: Self)
        ensures
            r.spec_has_risk_state() == has_risk_state,
            r.spec_has_order_repo() == has_order_repo,
            r.spec_has_audit() == has_audit,
    {
        ExecutionService { has_risk_state, has_order_repo, has_audit }
    }

    /// The code of a rejection reason: the part before the first `:` (all of it
    /// when there is none), trimmed, upper-cased, spaces turned into `_`.
    pub fn extract_reject_code(reason: &str) -> (r: String)
        ensures
            r@ == reject_code(reason@),
            plain_code(reason@.take(first_colon(reason@) as int)) ==> r@ == reason@.take(first_colon(reason@) as int),
    {
        let n = reason.unicode_len();
        let mut pos: usize = 0;
        while pos < n && reason.get_char(pos) != ':'
            invariant
                n == reason@.len(),
                pos <= n,
                forall|j: int| 0 <= j < pos ==> reason@[j] != ':',
            decreases n - pos,
        {
            pos = pos + 1;
        }
        proof {
            lemma_first_colon(reason@, pos as int);
        }
        let head = reason.substring_char(0, pos);
        assert(head@ =~= reason@.take(pos as int));
        let t = trim(head);
        let u = to_uppercase(t);
        proof {
            if plain_code(head@) {
                lemma_plain_code_is_fixed(head@);
            }
        }
        underscore_spaces(u.as_str())
    }

    /// The audit record of a rejected intent, when an audit trail is configured:
    /// the intent's strategy, pair, side, quantity and price, the reason, and the
    /// reason's code.  Nothing is executed after a rejection, and the chain ends
    /// successfully.
    pub fn on_risk_rejected(&self, intent: &OrderIntent, reason: String) -> (r: Option<RiskRejectedEvent>)
        ensures
            r is Some <==> self.spec_has_audit(),
            r matches Some(e) ==> rejection_record(e, *intent, reason@),
    {
        if !self.has_audit {
            return None;
        }
        let code = Self::extract_reject_code(reason.as_str());
        Some(RiskRejectedEvent::new(
            intent.strategy_id,
            intent.symbol.clone(),
            intent.side,
            intent.quantity,
            intent.price,
            reason,
            code,
        ))
    }

    /// The audit record of an execution that failed with `error`, when an audit
    /// trail is configured.
    pub fn on_execution_error(&self, intent: &OrderIntent, error: String) -> (r: Option<ExecutionResultEvent>)
        ensures
            r is Some <==> self.spec_has_audit(),
            r matches Some(e) ==> failure_record(e, *intent, error@),
    {
        if !self.has_audit {
            return None;
        }
        Some(ExecutionResultEvent::failure(intent.strategy_id, intent.symbol.clone(), intent.side, intent.quantity, error))
    }

    /// The fee of a simulated fill: quantity times price times 0.1%.
    pub fn simulated_commission(quantity: &Dec, price: &Dec) -> (r: Dec)
        requires
            simulated_fee(*quantity, *price) is Some,
        ensures
            Some(r.parts()) == simulated_fee(*quantity, *price),
    {
        let notional = quantity.mul(price);
        let rate = Dec::new(1, 3);
        notional.mul(&rate)
    }

    /// The full fill that stands for an order filled at once: the whole quantity
    /// at `price`, with `commission` in USDT.
    pub fn simulated_fill(order_id: &str, symbol: &str, side: FillSide, quantity: Dec, price: Dec, commission: Dec) -> (r: ExecutionFill)
        ensures
            r.order_id@ == order_id@,
            r.client_order_id is None,
            r.symbol@ == symbol@,
            r.side == side,
            r.fill_type == FillType::Full,
            r.filled_quantity == quantity,
            r.fill_price == price,
            r.cumulative_quantity == quantity,
            r.original_quantity == quantity,
            r.commission == commission,
            r.commission_asset@ == "USDT"@,
    {
        let fill_time = now_millis();
        let created_at = now_millis();
        ExecutionFill {
            id: new_id(),
            order_id: owned(order_id),
            client_order_id: None,
            symbol: owned(symbol),
            side,
            fill_type: FillType::Full,
            filled_quantity: quantity,
            fill_price: price,
            cumulative_quantity: quantity,
            original_quantity: quantity,
            commission,
            commission_asset: owned("USDT"),
            fill_time,
            created_at,
        }
    }

    /// The locked amount of the first balance of `asset` (ASCII case ignored),
    /// zero if none.
    fn locked_balance(snapshot: &RiskStateSnapshot, asset: &str) -> (r: Dec)
        ensures
            r.parts() == (match find_balance(snapshot.balances@, asset@) {
                Some(b) => b.locked.parts(),
                None => (0int, 0int),
            }),
    {
        let mut i: usize = 0;
        assert(snapshot.balances@.skip(0) =~= snapshot.balances@);
        while i < snapshot.balances.len()
            invariant
                i <= snapshot.balances@.len(),
                find_balance(snapshot.balances@, asset@) == find_balance(snapshot.balances@.skip(i as int), asset@),
            decreases snapshot.balances@.len() - i,
        {
            assert(snapshot.balances@.skip(i as int).drop_first() =~= snapshot.balances@.skip(i + 1));
            if str_eq_ignore_ascii_case(snapshot.balances[i].asset.as_str(), asset) {
                return snapshot.balances[i].locked;
            }
            i = i + 1;
        }
        Dec::zero()
    }

    /// The changes a fill makes to the risk state, in order: the position moves
    /// by the fill's delta at the fill price; when `snapshot` (read from the risk
    /// state) is given, the quote balance (USDT) gets its new free amount and
    /// keeps its locked amount; a full fill closes the order, a partial one leaves
    /// it open.  Nothing when no risk state is configured.
    pub fn apply_execution_fill(&self, fill: &ExecutionFill, snapshot: Option<&RiskStateSnapshot>) -> (r: Vec<RiskStateUpdate>)
        requires
            self.spec_has_risk_state() ==> fill_balance_fits(*fill, opt_snapshot(snapshot)),
        ensures
            !self.spec_has_risk_state() ==> r@.len() == 0,
            self.spec_has_risk_state() ==> changes(r@) == applied_fill_changes(*fill, opt_snapshot(snapshot)),
    {
        let mut r: Vec<RiskStateUpdate> = Vec::new();
        if !self.has_risk_state {
            return r;
        }
        r.push(RiskStateUpdate::UpdatePosition {
            symbol: fill.symbol.clone(),
            delta: fill.position_delta(),
            price: fill.fill_price,
        });
        let ghost first = r@;
        if let Some(s) = snapshot {
            let current_free = s.get_free_balance("USDT");
            let notional = fill.notional();
            let new_free = match fill.side {
                FillSide::Buy => current_free.sub(&notional).sub(&fill.commission),
                FillSide::Sell => current_free.add(&notional).sub(&fill.commission),
            };
            let locked = Self::locked_balance(s, "USDT");
            r.push(RiskStateUpdate::UpdateBalance { asset: owned("USDT"), free: new_free, locked });
        }
        let ghost second = r@;
        if fill.is_full() {
            r.push(RiskStateUpdate::RemoveOpenOrder { order_id: fill.order_id.clone() });
        }
        proof {
            lemma_changes(r@);
            lemma_changes(first);
            lemma_changes(second);
            assert(changes(r@) =~= applied_fill_changes(*fill, opt_snapshot(snapshot)));
        }
        r
    }

    /// What follows an execution: on success, the open order (with a risk
    /// state), the immediate full fill at the intent's price (zero for a market
    /// intent) with a 0.1% fee, the pair whose order time is recorded, the success
    /// record (with an audit trail) and the filled order to store (with an order
    /// store); on failure, the open order to forget (with a risk state and an order
    /// id) and the failure record (with an audit trail).
    pub fn follow_up(&self, intent: &OrderIntent, result: &ExecutionResult) -> (r: ExecutionFollowUp)
        requires
            result.success ==> simulated_fee(intent.quantity, fill_price_of(*intent)) is Some,
        ensures
            result.success ==> success_follow_up(r, self.spec_has_risk_state(), self.spec_has_order_repo(), self.spec_has_audit(), *intent, result.order_id@),
            !result.success ==> failure_follow_up(r, self.spec_has_risk_state(), self.spec_has_audit(), *intent, result.order_id@, opt_string(result.error)),
    {
        if result.success {
            let side = match intent.side {
                OrderSide::Buy => FillSide::Buy,
                OrderSide::Sell => FillSide::Sell,
            };
            let price = match intent.price {
                Some(p) => p,
                None => Dec::zero(),
            };
            let open_order = if self.has_risk_state {
                Some(RiskOpenOrder {
                    order_id: result.order_id.clone(),
                    symbol: intent.symbol.clone(),
                    side: owned(side.as_str()),
                    quantity: intent.quantity,
                    price,
                    created_at: now_millis(),
                })
            } else {
                None
            };
            let commission = Self::simulated_commission(&intent.quantity, &price);
            let fill = Self::simulated_fill(result.order_id.as_str(), intent.symbol.as_str(), side, intent.quantity, price, commission);
            let audit = if self.has_audit {
                Some(ExecutionResultEvent::success(
                    intent.strategy_id,
                    intent.symbol.clone(),
                    intent.side,
                    intent.quantity,
                    result.order_id.clone(),
                ))
            } else {
                None
            };
            let order = if self.has_order_repo {
                let order_type = if intent.price.is_some() {
                    OrderType::Limit
                } else {
                    OrderType::Market
                };
                let stored_side = match intent.side {
                    OrderSide::Buy => StoredSide::Buy,
                    OrderSide::Sell => StoredSide::Sell,
                };
                let created_at = now_millis();
                let updated_at = now_millis();
                Some(Order {
                    id: new_id(),
                    user_id: intent.strategy_id,
                    strategy_id: Some(intent.strategy_id),
                    symbol: intent.symbol.clone(),
                    order_type,
                    side: stored_side,
                    quantity: intent.quantity,
                    price: intent.price,
                    status: OrderStatus::Filled,
                    filled_quantity: intent.quantity,
                    average_price: intent.price,
                    exchange_order_id: Some(result.order_id.clone()),
                    created_at,
                    updated_at,
                })
            } else {
                None
            };
            ExecutionFollowUp {
                open_order,
                fill: Some(fill),
                order_time_symbol: Some(intent.symbol.clone()),
                audit,
                order,
                remove_order_id: None,
            }
        } else {
            let remove_order_id = if self.has_risk_state && result.order_id.unicode_len() > 0 {
                Some(result.order_id.clone())
            } else {
                None
            };
            let audit = if self.has_audit {
                let error = match &result.error {
                    Some(e) => e.clone(),
                    None => owned("Unknown error"),
                };
                Some(ExecutionResultEvent::failure(intent.strategy_id, intent.symbol.clone(), intent.side, intent.quantity, error))
            } else {
                None
            };
            ExecutionFollowUp { open_order: None, fill: None, order_time_symbol: None, audit, order: None, remove_order_id }
        }
    }

    /// `follow_up` where the simulated fee can be computed; `None` where it
    /// overflows.
    pub fn checked_follow_up(&self, intent: &OrderIntent, result: &ExecutionResult) -> (r: Option<ExecutionFollowUp>)
        ensures
            r is None <==> (result.success && simulated_fee(intent.quantity, fill_price_of(*intent)) is None),
            r matches Some(u) ==> (result.success ==> success_follow_up(u, self.spec_has_risk_state(), self.spec_has_order_repo(), self.spec_has_audit(), *intent, result.order_id@)),
            r matches Some(u) ==> (!result.success ==> failure_follow_up(u, self.spec_has_risk_state(), self.spec_has_audit(), *intent, result.order_id@, opt_string(result.error))),
    {
        if result.success {
            let price = match intent.price {
                Some(p) => p,
                None => Dec::zero(),
            };
            let fits = match intent.quantity.checked_mul(&price) {
                Some(n) => n.checked_mul(&Dec::new(1, 3)).is_some(),
                None => false,
            };
            if !fits {
                return None;
            }
        }
        Some(self.follow_up(intent, result))
    }

    /// One step of the chain for a market event: the next stage, and the records
    /// and follow-up that go with it.  A rejection is recorded (with an audit
    /// trail) and nothing is executed; an execution error is recorded (with an
    /// audit trail); an execution result brings its follow-up.  `None` where the
    /// follow-up's fee overflows.
    pub fn advance(&self, stage: ChainStage, event: ChainEvent) -> (r: Option<ChainStep>)
        ensures
            r is None <==> fee_overflows(stage, event),
            r matches Some(step) ==> stage_view(step.stage) == stage_view(next_stage(stage, event)),
            r matches Some(step) ==> step_effects(step, self.spec_has_risk_state(), self.spec_has_order_repo(), self.spec_has_audit(), stage, event),
    {
        match stage {
            ChainStage::Evaluating => match event {
                ChainEvent::Evaluated(Ok(Some(intent))) => Some(ChainStep { stage: ChainStage::Checking(intent), rejected: None, failed: None, follow_up: None }),
                ChainEvent::Evaluated(Ok(None)) => Some(ChainStep { stage: ChainStage::Finished(Ok(())), rejected: None, failed: None, follow_up: None }),
                ChainEvent::Evaluated(Err(e)) => Some(ChainStep { stage: ChainStage::Finished(Err(e)), rejected: None, failed: None, follow_up: None }),
                _ => Some(ChainStep { stage: ChainStage::Evaluating, rejected: None, failed: None, follow_up: None }),
            },
            ChainStage::Checking(intent) => match event {
                ChainEvent::Checked(Ok(())) => Some(ChainStep { stage: ChainStage::Executing(intent), rejected: None, failed: None, follow_up: None }),
                ChainEvent::Checked(Err(reason)) => {
                    let rejected = self.on_risk_rejected(&intent, reason);
                    Some(ChainStep { stage: ChainStage::Finished(Ok(())), rejected, failed: None, follow_up: None })
                },
                _ => Some(ChainStep { stage: ChainStage::Checking(intent), rejected: None, failed: None, follow_up: None }),
            },
            ChainStage::Executing(intent) => match event {
                ChainEvent::Executed(Ok(result)) => match self.checked_follow_up(&intent, &result) {
                    Some(u) => Some(ChainStep { stage: ChainStage::Finished(Ok(())), rejected: None, failed: None, follow_up: Some(u) }),
                    None => None,
                },
                ChainEvent::Executed(Err(e)) => {
                    let failed = self.on_execution_error(&intent, e.clone());
                    Some(ChainStep { stage: ChainStage::Finished(Err(e)), rejected: None, failed, follow_up: None })
                },
                _ => Some(ChainStep { stage: ChainStage::Executing(intent), rejected: None, failed: None, follow_up: None }),
            },
            ChainStage::Finished(outcome) => Some(ChainStep { stage: ChainStage::Finished(outcome), rejected: None, failed: None, follow_up: None }),
        }
    }

    /// A report that an order filled completely: the order closes, then the
    /// position moves by the filled quantity ("BUY", any case, adds; anything else
    /// reduces) at the average price.  Nothing without a risk state.
    pub fn on_order_filled(&self, order_id: &str, symbol: &str, side: &str, filled_qty: Dec, avg_price: Dec) -> (r: Vec<RiskStateUpdate>)
        ensures
            !self.spec_has_risk_state() ==> r@.len() == 0,
            self.spec_has_risk_state() ==> changes(r@) == seq![
                StateChange::RemoveOrder { order_id: order_id@ },
                StateChange::Position { symbol: symbol@, delta: report_delta(side@, filled_qty), price: avg_price.parts() },
            ],
    {
        let mut r: Vec<RiskStateUpdate> = Vec::new();
        if !self.has_risk_state {
            return r;
        }
        r.push(RiskStateUpdate::RemoveOpenOrder { order_id: owned(order_id) });
        let delta = if str_eq_ignore_ascii_case(side, "BUY") {
            filled_qty
        } else {
            filled_qty.neg()
        };
        r.push(RiskStateUpdate::UpdatePosition { symbol: owned(symbol), delta, price: avg_price });
        proof {
            lemma_changes(r@);
            assert(changes(r@) =~= seq![
                StateChange::RemoveOrder { order_id: order_id@ },
                StateChange::Position { symbol: symbol@, delta: report_delta(side@, filled_qty), price: avg_price.parts() },
            ]);
        }
        r
    }

    /// A report that an order was cancelled: the order closes.  Nothing without a
    /// risk state.
    pub fn on_order_canceled(&self, order_id: &str) -> (r: Vec<RiskStateUpdate>)
        ensures
            !self.spec_has_risk_state() ==> r@.len() == 0,
            self.spec_has_risk_state() ==> changes(r@) == seq![StateChange::RemoveOrder { order_id: order_id@ }],
    {
        let mut r: Vec<RiskStateUpdate> = Vec::new();
        if !self.has_risk_state {
            return r;
        }
        r.push(RiskStateUpdate::RemoveOpenOrder { order_id: owned(order_id) });
        proof {
            lemma_changes(r@);
            assert(changes(r@) =~= seq![StateChange::RemoveOrder { order_id: order_id@ }]);
        }
        r
    }

    /// A report that part of an order filled: the position moves by the filled
    /// quantity at the price, and the order stays open.  Nothing without a risk
    /// state.
    pub fn on_order_partially_filled(&self, order_id: &str, symbol: &str, side: &str, filled_qty: Dec, price: Dec) -> (r: Vec<
        RiskStateUpdate,
    >)
        ensures
            !self.spec_has_risk_state() ==> r@.len() == 0,
            self.spec_has_risk_state() ==> changes(r@) == seq![
                StateChange::Position { symbol: symbol@, delta: report_delta(side@, filled_qty), price: price.parts() },
            ],
    {
        let mut r: Vec<RiskStateUpdate> = Vec::new();
        if !self.has_risk_state {
            return r;
        }
        let delta = if str_eq_ignore_ascii_case(side, "BUY") {
            filled_qty
        } else {
            filled_qty.neg()
        };
        r.push(RiskStateUpdate::UpdatePosition { symbol: owned(symbol), delta, price });
        proof {
            lemma_changes(r@);
            assert(changes(r@) =~= seq![
                StateChange::Position { symbol: symbol@, delta: report_delta(side@, filled_qty), price: price.parts() },
            ]);
        }
        r
    }

    /// `apply_execution_fill` where the balance arithmetic can be done; `None`
    /// where it overflows.
    pub fn try_apply_execution_fill(&self, fill: &ExecutionFill, snapshot: Option<&RiskStateSnapshot>) -> (r: Option<Vec<RiskStateUpdate>>)
        ensures
            r is None <==> (self.spec_has_risk_state() && !fill_balance_fits(*fill, opt_snapshot(snapshot))),
            r matches Some(u) ==> (!self.spec_has_risk_state() ==> u@.len() == 0),
            r matches Some(u) ==> (self.spec_has_risk_state() ==> changes(u@) == applied_fill_changes(*fill, opt_snapshot(snapshot))),
    {
        if self.has_risk_state {
            if let Some(s) = snapshot {
                let current_free = s.get_free_balance("USDT");
                let fits = match fill.filled_quantity.checked_mul(&fill.fill_price) {
                    None => false,
                    Some(notional) => {
                        let moved = match fill.side {
                            FillSide::Buy => current_free.checked_sub(&notional),
                            FillSide::Sell => current_free.checked_add(&notional),
                        };
                        match moved {
                            Some(a) => a.checked_sub(&fill.commission).is_some(),
                            None => false,
                        }
                    },
                };
                if !fits {
                    return None;
                }
            }
        }
        Some(self.apply_execution_fill(fill, snapshot))
    }
}

} // verus!
