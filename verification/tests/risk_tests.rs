use trading_engine::decimal::Dec;
use trading_engine::model::order_intent::{OrderIntent, OrderSide};
use trading_engine::risk::engine::{create_default_risk_engine, EngineRule, RiskEngine};
use trading_engine::risk::result::{RiskCheckResult, RiskRejectReason};
use trading_engine::risk::rule::{MaxOpenOrdersRule, MaxPositionRule, RiskContext, RiskRule};
use trading_engine::risk_state::{RiskOpenOrder, RiskPosition, RiskStateSnapshot};

fn d(n: i64) -> Dec {
    Dec::from_i64(n)
}

fn create_intent(symbol: &str, side: OrderSide, quantity: Dec) -> OrderIntent {
    OrderIntent {
        id: 1,
        strategy_id: 2,
        symbol: symbol.to_string(),
        side,
        quantity,
        price: Some(d(50000)),
        confidence: 0.9f64.to_bits(),
        created_at: 0,
    }
}

fn open_order(id: &str, symbol: &str) -> RiskOpenOrder {
    RiskOpenOrder {
        order_id: id.to_string(),
        symbol: symbol.to_string(),
        side: "BUY".to_string(),
        quantity: d(1),
        price: d(50000),
        created_at: 0,
    }
}

fn create_state_with_orders(symbol: &str, count: usize) -> RiskStateSnapshot {
    let mut state = RiskStateSnapshot::default();
    for i in 0..count {
        state.open_orders.push(open_order(&i.to_string(), symbol));
    }
    state
}

fn create_state_with_position(symbol: &str, quantity: Dec) -> RiskStateSnapshot {
    let mut state = RiskStateSnapshot::default();
    state.positions.push(RiskPosition {
        symbol: symbol.to_string(),
        quantity,
        entry_price: d(50000),
        unrealized_pnl: Dec::zero(),
    });
    state
}

// ---- the engine ----

#[test]
fn test_empty_engine_passes() {
    let engine = RiskEngine::new();
    let intent = create_intent("BTCUSDT", OrderSide::Buy, d(1));
    let state = RiskStateSnapshot::default();
    assert!(engine.check(&intent, &state).is_passed());
}

#[test]
fn test_all_rules_pass() {
    let engine = RiskEngine::new()
        .add_rule(EngineRule::MaxPosition(MaxPositionRule::with_max(d(100))))
        .add_rule(EngineRule::MaxOpenOrders(MaxOpenOrdersRule::with_max_per_symbol(10)));
    let intent = create_intent("BTCUSDT", OrderSide::Buy, d(10));
    let state = RiskStateSnapshot::default();
    assert!(engine.check(&intent, &state).is_passed());
}

#[test]
fn test_first_rule_rejects() {
    let engine = RiskEngine::new()
        .add_rule(EngineRule::MaxPosition(MaxPositionRule::with_max(d(5))))
        .add_rule(EngineRule::MaxOpenOrders(MaxOpenOrdersRule::with_max_per_symbol(10)));
    let intent = create_intent("BTCUSDT", OrderSide::Buy, d(10));
    let state = RiskStateSnapshot::default();
    let result = engine.check(&intent, &state);
    assert!(result.is_rejected());
    assert!(matches!(result.reject_reason(), Some(RiskRejectReason::PositionLimitExceeded { .. })));
}

#[test]
fn test_second_rule_rejects() {
    let engine = RiskEngine::new()
        .add_rule(EngineRule::MaxPosition(MaxPositionRule::with_max(d(100))))
        .add_rule(EngineRule::MaxOpenOrders(MaxOpenOrdersRule::with_max_per_symbol(2)));
    let intent = create_intent("BTCUSDT", OrderSide::Buy, d(10));
    let mut state = RiskStateSnapshot::default();
    state.open_orders.push(open_order("1", "BTCUSDT"));
    state.open_orders.push(open_order("2", "BTCUSDT"));
    let result = engine.check(&intent, &state);
    assert!(result.is_rejected());
    assert!(matches!(result.reject_reason(), Some(RiskRejectReason::OpenOrderLimitExceeded { .. })));
}

#[test]
fn test_check_as_result() {
    let engine = RiskEngine::new().add_rule(EngineRule::MaxPosition(MaxPositionRule::with_max(d(100))));
    let intent = create_intent("BTCUSDT", OrderSide::Buy, d(10));
    let state = RiskStateSnapshot::default();
    assert!(engine.check_as_result(&intent, &state).is_ok());
}

#[test]
fn test_default_engine() {
    let engine = create_default_risk_engine();
    assert_eq!(engine.rule_count(), 2);
    let names = engine.rule_names();
    assert!(names.contains(&"max_position"));
    assert!(names.contains(&"max_open_orders"));
}

#[test]
fn test_rule_count() {
    let mut engine = RiskEngine::new();
    assert_eq!(engine.rule_count(), 0);
    engine.push_rule(EngineRule::MaxPosition(MaxPositionRule::with_default()));
    assert_eq!(engine.rule_count(), 1);
    engine.push_rule(EngineRule::MaxOpenOrders(MaxOpenOrdersRule::with_default()));
    assert_eq!(engine.rule_count(), 2);
}

#[test]
fn engine_rejection_text_is_code_then_message() {
    let engine = RiskEngine::new().add_rule(EngineRule::MaxOpenOrders(MaxOpenOrdersRule::with_max_per_symbol(1)));
    let intent = create_intent("BTCUSDT", OrderSide::Buy, d(1));
    let state = create_state_with_orders("BTCUSDT", 1);
    assert_eq!(
        engine.check_as_result(&intent, &state),
        Err("OPEN_ORDER_LIMIT_EXCEEDED: 未完成订单数量超限: 当前=1, 最大允许=1".to_string())
    );
}

#[test]
fn engine_stops_at_first_rejection() {
    // Both rules would reject; the position rule comes first.
    let engine = RiskEngine::new()
        .add_rule(EngineRule::MaxPosition(MaxPositionRule::with_max(d(5))))
        .add_rule(EngineRule::MaxOpenOrders(MaxOpenOrdersRule::with_max_per_symbol(1)));
    let intent = create_intent("BTCUSDT", OrderSide::Buy, d(10));
    let state = create_state_with_orders("BTCUSDT", 3);
    let result = engine.check(&intent, &state);
    assert!(matches!(result.reject_reason(), Some(RiskRejectReason::PositionLimitExceeded { .. })));
}

// ---- results ----

#[test]
fn test_passed_result() {
    let result = RiskCheckResult::passed();
    assert!(result.is_passed());
    assert!(!result.is_rejected());
    assert!(result.reject_reason().is_none());
}

#[test]
fn test_rejected_result() {
    let result = RiskCheckResult::rejected(RiskRejectReason::OpenOrderLimitExceeded { current: 10, max_allowed: 5 });
    assert!(!result.is_passed());
    assert!(result.is_rejected());
    assert!(result.reject_reason().is_some());
}

#[test]
fn test_reject_reason_code() {
    let reason = RiskRejectReason::PositionLimitExceeded { current: d(100), requested: d(50), max_allowed: d(100) };
    assert_eq!(reason.code(), "POSITION_LIMIT_EXCEEDED");
}

#[test]
fn test_into_result() {
    let passed = RiskCheckResult::passed();
    assert!(passed.into_result().is_ok());
    let rejected = RiskCheckResult::rejected(RiskRejectReason::SymbolNotAllowed { symbol: "INVALID".to_string() });
    assert!(rejected.into_result().is_err());
}

#[test]
fn reject_messages() {
    let reason = RiskRejectReason::PositionLimitExceeded { current: d(50), requested: d(60), max_allowed: d(100) };
    assert_eq!(reason.message(), "持仓限制超限: 当前=50, 请求=60, 最大允许=100");
    let reason = RiskRejectReason::CooldownNotExpired { remaining_seconds: 42 };
    assert_eq!(reason.code(), "COOLDOWN_NOT_EXPIRED");
    assert_eq!(reason.message(), "冷却时间未到: 剩余 42 秒");
    let reason = RiskRejectReason::Custom { rule_name: "r".to_string(), message: "m".to_string() };
    assert_eq!(reason.code(), "CUSTOM_REJECT");
    assert_eq!(reason.message(), "[r] m");
    let reason = RiskRejectReason::SymbolNotAllowed { symbol: "DOGEUSDT".to_string() };
    assert_eq!(reason.message(), "交易对不在白名单: DOGEUSDT");
}

// ---- open order limits ----

#[test]
fn max_open_orders_rule_test_pass_when_under_limit() {
    let rule = MaxOpenOrdersRule::with_max_per_symbol(10);
    let intent = create_intent("BTCUSDT", OrderSide::Buy, d(1));
    let state = create_state_with_orders("BTCUSDT", 5);
    let ctx = RiskContext::new(&intent, &state);
    assert!(rule.check(&ctx).is_passed());
}

#[test]
fn test_reject_when_at_limit() {
    let rule = MaxOpenOrdersRule::with_max_per_symbol(5);
    let intent = create_intent("BTCUSDT", OrderSide::Buy, d(1));
    let state = create_state_with_orders("BTCUSDT", 5);
    let ctx = RiskContext::new(&intent, &state);
    let result = rule.check(&ctx);
    assert!(result.is_rejected());
    if let Some(RiskRejectReason::OpenOrderLimitExceeded { current, max_allowed }) = result.reject_reason() {
        assert_eq!(*current, 5);
        assert_eq!(*max_allowed, 5);
    } else {
        panic!("Expected OpenOrderLimitExceeded");
    }
}

#[test]
fn test_pass_different_symbol() {
    let rule = MaxOpenOrdersRule::with_max_per_symbol(5);
    let intent = create_intent("ETHUSDT", OrderSide::Buy, d(1));
    let state = create_state_with_orders("BTCUSDT", 10);
    let ctx = RiskContext::new(&intent, &state);
    assert!(rule.check(&ctx).is_passed());
}

#[test]
fn test_reject_global_limit() {
    let rule = MaxOpenOrdersRule::with_limits(10, 5);
    let intent = create_intent("ETHUSDT", OrderSide::Buy, d(1));
    let state = create_state_with_orders("BTCUSDT", 5);
    let ctx = RiskContext::new(&intent, &state);
    let result = rule.check(&ctx);
    assert!(result.is_rejected());
    if let Some(RiskRejectReason::OpenOrderLimitExceeded { current, max_allowed }) = result.reject_reason() {
        assert_eq!(*current, 5);
        assert_eq!(*max_allowed, 5);
    } else {
        panic!("Expected OpenOrderLimitExceeded");
    }
}

#[test]
fn test_pass_no_orders() {
    let rule = MaxOpenOrdersRule::with_default();
    let intent = create_intent("BTCUSDT", OrderSide::Buy, d(1));
    let state = RiskStateSnapshot::default();
    let ctx = RiskContext::new(&intent, &state);
    assert!(rule.check(&ctx).is_passed());
}

#[test]
fn open_orders_symbol_matching_ignores_case() {
    let rule = MaxOpenOrdersRule::with_max_per_symbol(2);
    let intent = create_intent("btcusdt", OrderSide::Buy, d(1));
    let state = create_state_with_orders("BTCUSDT", 2);
    let ctx = RiskContext::new(&intent, &state);
    assert!(rule.check(&ctx).is_rejected());
}

// ---- position limit ----

#[test]
fn max_position_rule_test_pass_when_under_limit() {
    let rule = MaxPositionRule::with_max(d(100));
    let intent = create_intent("BTCUSDT", OrderSide::Buy, d(10));
    let state = create_state_with_position("BTCUSDT", d(50));
    let ctx = RiskContext::new(&intent, &state);
    assert!(rule.check(&ctx).is_passed());
}

#[test]
fn test_reject_when_over_limit() {
    let rule = MaxPositionRule::with_max(d(100));
    let intent = create_intent("BTCUSDT", OrderSide::Buy, d(60));
    let state = create_state_with_position("BTCUSDT", d(50));
    let ctx = RiskContext::new(&intent, &state);
    let result = rule.check(&ctx);
    assert!(result.is_rejected());
    if let Some(RiskRejectReason::PositionLimitExceeded { current, requested, max_allowed }) = result.reject_reason() {
        assert!(current.value_eq(&d(50)));
        assert!(requested.value_eq(&d(60)));
        assert!(max_allowed.value_eq(&d(100)));
    } else {
        panic!("Expected PositionLimitExceeded");
    }
}

#[test]
fn test_pass_sell_reduces_position() {
    let rule = MaxPositionRule::with_max(d(100));
    let intent = create_intent("BTCUSDT", OrderSide::Sell, d(30));
    let state = create_state_with_position("BTCUSDT", d(90));
    let ctx = RiskContext::new(&intent, &state);
    assert!(rule.check(&ctx).is_passed());
}

#[test]
fn test_reject_short_over_limit() {
    let rule = MaxPositionRule::with_max(d(100));
    let intent = create_intent("BTCUSDT", OrderSide::Sell, d(150));
    let state = create_state_with_position("BTCUSDT", Dec::zero());
    let ctx = RiskContext::new(&intent, &state);
    assert!(rule.check(&ctx).is_rejected());
}

#[test]
fn test_pass_no_existing_position() {
    let rule = MaxPositionRule::with_max(d(100));
    let intent = create_intent("BTCUSDT", OrderSide::Buy, d(50));
    let state = RiskStateSnapshot::default();
    let ctx = RiskContext::new(&intent, &state);
    assert!(rule.check(&ctx).is_passed());
}

#[test]
fn position_exactly_at_limit_passes() {
    let rule = MaxPositionRule::with_max(d(100));
    let intent = create_intent("BTCUSDT", OrderSide::Buy, Dec::new(505, 1));
    let state = create_state_with_position("BTCUSDT", Dec::new(4950, 2));
    let ctx = RiskContext::new(&intent, &state);
    assert!(rule.check(&ctx).is_passed());
    let intent = create_intent("BTCUSDT", OrderSide::Buy, Dec::new(5051, 2));
    let ctx = RiskContext::new(&intent, &state);
    assert!(rule.check(&ctx).is_rejected());
}

#[test]
fn every_reject_reason_has_its_code() {
    let cases: Vec<(RiskRejectReason, &str)> = vec![
        (RiskRejectReason::PositionLimitExceeded { current: d(1), requested: d(2), max_allowed: d(3) }, "POSITION_LIMIT_EXCEEDED"),
        (RiskRejectReason::OpenOrderLimitExceeded { current: 1, max_allowed: 1 }, "OPEN_ORDER_LIMIT_EXCEEDED"),
        (RiskRejectReason::OrderQuantityExceeded { requested: d(2), max_allowed: d(1) }, "ORDER_QTY_EXCEEDED"),
        (RiskRejectReason::OrderQuantityTooSmall { requested: d(1), min_required: d(2) }, "ORDER_QTY_TOO_SMALL"),
        (RiskRejectReason::NotionalValueExceeded { notional: d(2), max_allowed: d(1) }, "NOTIONAL_EXCEEDED"),
        (RiskRejectReason::SymbolNotAllowed { symbol: "X".to_string() }, "SYMBOL_NOT_ALLOWED"),
        (RiskRejectReason::InsufficientBalance { asset: "USDT".to_string(), available: d(1), required: d(2) }, "INSUFFICIENT_BALANCE"),
        (RiskRejectReason::LeverageExceeded { current: d(20), max_allowed: d(10) }, "LEVERAGE_EXCEEDED"),
        (RiskRejectReason::DrawdownExceeded { current: d(2), max_allowed: d(1) }, "DRAWDOWN_EXCEEDED"),
        (RiskRejectReason::CooldownNotExpired { remaining_seconds: 5 }, "COOLDOWN_NOT_EXPIRED"),
        (
            RiskRejectReason::MarketOrderNotionalExceeded { symbol: "BTCUSDT".to_string(), estimated_notional: d(2), max_allowed: d(1) },
            "MARKET_ORDER_NOTIONAL_EXCEEDED",
        ),
        (RiskRejectReason::MarginRatioTooLow { current_ratio: d(1), critical_threshold: d(2) }, "MARGIN_RATIO_TOO_LOW"),
        (RiskRejectReason::Custom { rule_name: "r".to_string(), message: "m".to_string() }, "CUSTOM_REJECT"),
    ];
    for (reason, code) in cases {
        assert_eq!(reason.code(), code);
        let text = RiskCheckResult::rejected(reason.clone()).into_result().unwrap_err();
        assert_eq!(text, format!("{}: {}", code, reason.message()));
    }
    let reason = RiskRejectReason::InsufficientBalance { asset: "USDT".to_string(), available: Dec::new(15, 1), required: d(2) };
    assert_eq!(reason.message(), "余额不足: 资产=USDT, 可用=1.5, 需要=2");
}

#[test]
fn rule_descriptions() {
    assert_eq!(MaxPositionRule::with_default().description(), "检查订单执行后是否会超过最大持仓限制");
    assert_eq!(MaxOpenOrdersRule::with_default().description(), "检查当前未完成订单数量是否超过限制");
    assert_eq!(
        EngineRule::MaxOpenOrders(MaxOpenOrdersRule::with_default()).description(),
        "检查当前未完成订单数量是否超过限制"
    );
}

#[test]
fn engine_try_check_refuses_what_would_overflow() {
    let engine = create_default_risk_engine();
    let huge = Dec::parse("79228162514264337593543950335").unwrap();
    let state = create_state_with_position("BTCUSDT", huge);
    let intent = create_intent("BTCUSDT", OrderSide::Buy, d(1));
    assert!(engine.try_check(&intent, &state).is_none());
    let ctx = RiskContext::new(&intent, &state);
    assert!(!MaxPositionRule::with_default().can_run(&ctx));
    assert!(MaxOpenOrdersRule::with_default().can_run(&ctx));

    let sell = create_intent("BTCUSDT", OrderSide::Sell, d(1));
    match engine.try_check(&sell, &state) {
        Some(RiskCheckResult::Rejected(RiskRejectReason::PositionLimitExceeded { .. })) => {}
        other => panic!("position limit expected, got {:?}", other),
    }
    let calm = RiskStateSnapshot::default();
    assert!(matches!(engine.try_check(&intent, &calm), Some(RiskCheckResult::Passed)));
}

#[test]
fn decimal_display_places_the_point_at_the_scale() {
    assert_eq!(Dec::new(-5, 2).to_string(), "-0.05");
    assert_eq!(Dec::new(0, 3).to_string(), "0.000");
    assert_eq!(Dec::new(0, 0).to_string(), "0");
    assert_eq!(Dec::new(12345, 2).to_string(), "123.45");
    assert_eq!(Dec::new(7, 0).to_string(), "7");
    assert_eq!(Dec::new(-120, 1).to_string(), "-12.0");
}
