use trading_engine::bootstrap::{
    consumer_execution_service, consumer_setup, execution_setup, postgres_settings, risk_service_url, strategy_url, ConsumerConfig,
    ConsumerExecution, ConsumerStrategy, ExecutionVenue,
};
use trading_engine::decimal::Dec;
use trading_engine::model::execution_fill::{ExecutionFill, FillSide, FillType};
use trading_engine::model::order::{OrderSide as StoredSide, OrderStatus, OrderType};
use trading_engine::model::order_intent::{OrderIntent, OrderSide};
use trading_engine::port::exchange_query_port::{AccountBalance, ExchangeOrder, ExchangeOrderStatus, Position};
use trading_engine::port::order_execution_port::ExecutionResult;
use trading_engine::risk::engine::{EngineRule, RiskEngine};
use trading_engine::risk::result::{RiskCheckResult, RiskRejectReason};
use trading_engine::risk::rule::MaxPositionRule;
use trading_engine::risk_state::{RiskBalance, RiskStateSnapshot};
use trading_engine::service::execution_service::{ChainEvent, ChainStage, ExecutionService};
use trading_engine::service::risk_state_initializer::RiskStateInitializer;
use trading_engine::service::state_update::RiskStateUpdate;

fn dec(s: &str) -> Dec {
    Dec::parse(s).unwrap()
}

fn intent(price: Option<&str>) -> OrderIntent {
    OrderIntent {
        id: 11,
        strategy_id: 22,
        symbol: "BTCUSDT".to_string(),
        side: OrderSide::Buy,
        quantity: dec("0.5"),
        price: price.map(dec),
        confidence: 0.8f64.to_bits(),
        created_at: 0,
    }
}

fn ok_result(order_id: &str) -> ExecutionResult {
    ExecutionResult { order_id: order_id.to_string(), symbol: "BTCUSDT".to_string(), success: true, error: None }
}

// ---- reject codes ----

#[test]
fn reject_code_is_the_part_before_the_colon() {
    assert_eq!(ExecutionService::extract_reject_code("POSITION_LIMIT_EXCEEDED: 持仓限制超限: 当前=1"), "POSITION_LIMIT_EXCEEDED");
    assert_eq!(ExecutionService::extract_reject_code("  max position : too big"), "MAX_POSITION");
    assert_eq!(ExecutionService::extract_reject_code("rate limited"), "RATE_LIMITED");
    assert_eq!(ExecutionService::extract_reject_code(": nothing before"), "");
    assert_eq!(ExecutionService::extract_reject_code(""), "");
}

#[test]
fn reject_code_of_an_engine_rejection_is_its_code() {
    let engine = RiskEngine::new().add_rule(EngineRule::MaxPosition(MaxPositionRule::with_max(dec("0.1"))));
    let text = engine.check_as_result(&intent(None), &RiskStateSnapshot::default()).unwrap_err();
    assert_eq!(ExecutionService::extract_reject_code(&text), "POSITION_LIMIT_EXCEEDED");
    let reasons = vec![
        RiskRejectReason::OrderQuantityTooSmall { requested: dec("0.1"), min_required: dec("1") },
        RiskRejectReason::CooldownNotExpired { remaining_seconds: 3 },
        RiskRejectReason::Custom { rule_name: "a: b".to_string(), message: "c: d".to_string() },
    ];
    for reason in reasons {
        let code = reason.code();
        let text = RiskCheckResult::rejected(reason).into_result().unwrap_err();
        assert_eq!(ExecutionService::extract_reject_code(&text), code);
    }
}

// ---- the chain ----

#[test]
fn no_intent_ends_the_chain_successfully() {
    let svc = ExecutionService::with_full_config(true, true, true);
    let step = svc.advance(ChainStage::Evaluating, ChainEvent::Evaluated(Ok(None))).unwrap();
    assert!(matches!(step.stage, ChainStage::Finished(Ok(()))));
    assert!(step.rejected.is_none() && step.failed.is_none() && step.follow_up.is_none());
}

#[test]
fn strategy_error_ends_the_chain_with_it() {
    let svc = ExecutionService::new();
    let step = svc.advance(ChainStage::Evaluating, ChainEvent::Evaluated(Err("down".to_string()))).unwrap();
    assert!(matches!(step.stage, ChainStage::Finished(Err(ref e)) if e == "down"));
}

#[test]
fn rejected_intent_is_recorded_and_not_executed() {
    let svc = ExecutionService::with_full_config(true, false, true);
    let step = svc.advance(ChainStage::Evaluating, ChainEvent::Evaluated(Ok(Some(intent(Some("50000")))))).unwrap();
    assert!(matches!(step.stage, ChainStage::Checking(_)));
    let step = svc.advance(step.stage, ChainEvent::Checked(Err("OPEN_ORDER_LIMIT_EXCEEDED: 太多".to_string()))).unwrap();
    assert!(matches!(step.stage, ChainStage::Finished(Ok(()))));
    let rejected = step.rejected.unwrap();
    assert_eq!(rejected.reject_code, "OPEN_ORDER_LIMIT_EXCEEDED");
    assert_eq!(rejected.reject_reason, "OPEN_ORDER_LIMIT_EXCEEDED: 太多");
    assert_eq!(rejected.strategy_id, 22);
    assert!(step.follow_up.is_none());
}

#[test]
fn rejection_without_audit_records_nothing() {
    let svc = ExecutionService::with_full_config(true, true, false);
    let step = svc.advance(ChainStage::Checking(intent(None)), ChainEvent::Checked(Err("x".to_string()))).unwrap();
    assert!(step.rejected.is_none());
    assert!(matches!(step.stage, ChainStage::Finished(Ok(()))));
}

#[test]
fn execution_error_is_recorded_and_returned() {
    let svc = ExecutionService::with_full_config(true, true, true);
    let step = svc.advance(ChainStage::Executing(intent(None)), ChainEvent::Executed(Err("timeout".to_string()))).unwrap();
    assert!(matches!(step.stage, ChainStage::Finished(Err(ref e)) if e == "timeout"));
    let failed = step.failed.unwrap();
    assert!(!failed.success);
    assert_eq!(failed.error_message.as_deref(), Some("timeout"));
}

#[test]
fn successful_execution_follow_up() {
    let svc = ExecutionService::with_full_config(true, true, true);
    let step = svc.advance(ChainStage::Executing(intent(Some("50000"))), ChainEvent::Executed(Ok(ok_result("ex-1")))).unwrap();
    assert!(matches!(step.stage, ChainStage::Finished(Ok(()))));
    let u = step.follow_up.unwrap();
    let open = u.open_order.unwrap();
    assert_eq!(open.order_id, "ex-1");
    assert_eq!(open.side, "BUY");
    assert!(open.price.value_eq(&dec("50000")));
    let fill = u.fill.unwrap();
    assert_eq!(fill.fill_type, FillType::Full);
    assert!(fill.commission.value_eq(&dec("25")));
    assert_eq!(u.order_time_symbol.as_deref(), Some("BTCUSDT"));
    let audit = u.audit.unwrap();
    assert!(audit.success);
    assert_eq!(audit.exchange_order_id.as_deref(), Some("ex-1"));
    let order = u.order.unwrap();
    assert_eq!(order.order_type, OrderType::Limit);
    assert_eq!(order.side, StoredSide::Buy);
    assert_eq!(order.status, OrderStatus::Filled);
    assert_eq!(order.user_id, 22);
    assert!(u.remove_order_id.is_none());
}

#[test]
fn market_intent_follow_up_without_optional_parts() {
    let svc = ExecutionService::new();
    let u = svc.checked_follow_up(&intent(None), &ok_result("ex-2")).unwrap();
    assert!(u.open_order.is_none());
    assert!(u.audit.is_none());
    assert!(u.order.is_none());
    let fill = u.fill.unwrap();
    assert!(fill.fill_price.is_zero());
    assert!(fill.commission.is_zero());
}

#[test]
fn failed_execution_follow_up() {
    let svc = ExecutionService::with_full_config(true, false, true);
    let result = ExecutionResult { order_id: "ex-3".to_string(), symbol: "BTCUSDT".to_string(), success: false, error: None };
    let u = svc.follow_up(&intent(None), &result);
    assert_eq!(u.remove_order_id.as_deref(), Some("ex-3"));
    assert_eq!(u.audit.unwrap().error_message.as_deref(), Some("Unknown error"));
    assert!(u.fill.is_none() && u.open_order.is_none());
    let result = ExecutionResult { order_id: String::new(), symbol: "BTCUSDT".to_string(), success: false, error: Some("no".to_string()) };
    let u = svc.follow_up(&intent(None), &result);
    assert!(u.remove_order_id.is_none());
    assert_eq!(u.audit.unwrap().error_message.as_deref(), Some("no"));
}

fn snapshot_with_usdt(free: &str, locked: &str) -> RiskStateSnapshot {
    let mut s = RiskStateSnapshot::default();
    s.balances.push(RiskBalance { asset: "usdt".to_string(), free: dec(free), locked: dec(locked) });
    s
}

#[test]
fn buy_fill_takes_amount_and_commission() {
    let svc = ExecutionService::with_full_config(true, false, false);
    let fill = ExecutionService::simulated_fill("o1", "BTCUSDT", FillSide::Buy, dec("0.1"), dec("50000"), dec("5"));
    let snap = snapshot_with_usdt("10000", "7");
    let updates = svc.apply_execution_fill(&fill, Some(&snap));
    assert_eq!(updates.len(), 3);
    match &updates[0] {
        RiskStateUpdate::UpdatePosition { symbol, delta, price } => {
            assert_eq!(symbol, "BTCUSDT");
            assert!(delta.value_eq(&dec("0.1")));
            assert!(price.value_eq(&dec("50000")));
        }
        _ => panic!("position first"),
    }
    match &updates[1] {
        RiskStateUpdate::UpdateBalance { asset, free, locked } => {
            assert_eq!(asset, "USDT");
            assert!(free.value_eq(&dec("4995")));
            assert!(locked.value_eq(&dec("7")));
        }
        _ => panic!("balance second"),
    }
    assert!(matches!(&updates[2], RiskStateUpdate::RemoveOpenOrder { order_id } if order_id == "o1"));
}

#[test]
fn sell_fill_adds_amount_less_commission() {
    let svc = ExecutionService::with_full_config(true, false, false);
    let fill = ExecutionFill::partial("o2".to_string(), "ETHUSDT".to_string(), FillSide::Sell, dec("2"), dec("3000"), dec("2"), dec("5"));
    let snap = RiskStateSnapshot::default();
    let updates = svc.try_apply_execution_fill(&fill, Some(&snap)).unwrap();
    assert_eq!(updates.len(), 2);
    match &updates[1] {
        RiskStateUpdate::UpdateBalance { free, locked, .. } => {
            assert!(free.value_eq(&dec("6000")));
            assert!(locked.is_zero());
        }
        _ => panic!("balance second"),
    }
    assert_eq!(svc.apply_execution_fill(&fill, None).len(), 1);
    assert!(ExecutionService::new().apply_execution_fill(&fill, Some(&snap)).is_empty());
}

#[test]
fn order_reports() {
    let svc = ExecutionService::with_full_config(true, false, false);
    let u = svc.on_order_filled("o", "BTCUSDT", "sell", dec("1"), dec("100"));
    assert!(matches!(&u[0], RiskStateUpdate::RemoveOpenOrder { .. }));
    assert!(matches!(&u[1], RiskStateUpdate::UpdatePosition { delta, .. } if delta.value_eq(&dec("-1"))));
    let u = svc.on_order_partially_filled("o", "BTCUSDT", "Buy", dec("0.5"), dec("100"));
    assert_eq!(u.len(), 1);
    assert!(matches!(&u[0], RiskStateUpdate::UpdatePosition { delta, .. } if delta.value_eq(&dec("0.5"))));
    assert_eq!(svc.on_order_canceled("o").len(), 1);
    assert!(ExecutionService::new().on_order_canceled("o").is_empty());
}

// ---- seeding the risk state ----

#[test]
fn initializer_syncs_what_holds_something() {
    let balances = vec![
        AccountBalance { asset: "USDT".to_string(), free: dec("100"), locked: dec("0") },
        AccountBalance { asset: "BNB".to_string(), free: dec("0"), locked: dec("0") },
        AccountBalance { asset: "BTC".to_string(), free: dec("0"), locked: dec("0.5") },
    ];
    let positions = vec![
        Position {
            symbol: "BTCUSDT".to_string(),
            side: "short".to_string(),
            quantity: dec("2"),
            entry_price: dec("50000"),
            mark_price: dec("50100"),
            unrealized_pnl: dec("-200"),
            leverage: 5,
            margin_type: "cross".to_string(),
        },
        Position {
            symbol: "ETHUSDT".to_string(),
            side: "LONG".to_string(),
            quantity: dec("0"),
            entry_price: dec("3000"),
            mark_price: dec("3000"),
            unrealized_pnl: dec("0"),
            leverage: 1,
            margin_type: "isolated".to_string(),
        },
    ];
    let orders = vec![ExchangeOrder {
        order_id: "9".to_string(),
        client_order_id: None,
        symbol: "BTCUSDT".to_string(),
        side: "BUY".to_string(),
        order_type: "LIMIT".to_string(),
        status: ExchangeOrderStatus::PartiallyFilled,
        price: dec("48000"),
        quantity: dec("1"),
        executed_qty: dec("0.25"),
        avg_price: dec("48000"),
        created_at: 5,
        updated_at: 6,
    }];
    let b = RiskStateInitializer::sync_balances(&balances);
    assert_eq!(b.len(), 2);
    let p = RiskStateInitializer::sync_positions(&positions);
    assert_eq!(p.len(), 1);
    assert!(matches!(&p[0], RiskStateUpdate::UpdatePosition { delta, .. } if delta.value_eq(&dec("-2"))));
    let plan = RiskStateInitializer::initialize(&Ok(balances.clone()), &Ok(positions.clone()), &Ok(orders.clone())).unwrap();
    assert!(plan.outcome.is_ok());
    let all = plan.updates;
    assert_eq!(all.len(), 4);
    match &all[3] {
        RiskStateUpdate::AddOpenOrder { order } => {
            assert!(order.quantity.value_eq(&dec("0.75")));
            assert_eq!(order.created_at, 5);
        }
        _ => panic!("orders last"),
    }
    let none = RiskStateInitializer::initialize(&Err("x".to_string()), &Err("y".to_string()), &Err("z".to_string())).unwrap();
    assert!(none.updates.is_empty());
    assert_eq!(
        none.outcome.unwrap_err(),
        "获取现货余额失败: x; 获取合约持仓失败: y; 获取未完成订单失败: z"
    );
    let partial = RiskStateInitializer::initialize(&Ok(balances), &Err("timeout".to_string()), &Ok(orders)).unwrap();
    assert_eq!(partial.updates.len(), 3);
    assert!(matches!(&partial.updates[2], RiskStateUpdate::AddOpenOrder { .. }));
    assert_eq!(partial.outcome.unwrap_err(), "获取合约持仓失败: timeout");
}

// ---- start-up choices ----

#[test]
fn execution_mode_choice() {
    let s = execution_setup(" Binance ", Some("k".to_string()), Some("s".to_string()), "https://api".to_string()).unwrap();
    assert_eq!(s.venue, ExecutionVenue::Binance);
    let s = execution_setup("futures", Some("k".to_string()), Some("s".to_string()), "u".to_string()).unwrap();
    assert_eq!(s.venue, ExecutionVenue::BinanceFutures);
    assert_eq!(
        execution_setup("paper", None, None, String::new()).unwrap_err(),
        "unsupported TRADING_EXECUTION_MODE=paper (allowed: binance, binance_futures)"
    );
    assert_eq!(execution_setup("binance", None, None, String::new()).unwrap_err(), "BINANCE_API_KEY is required for binance execution");
    assert_eq!(
        execution_setup("binance_futures", Some("k".to_string()), None, String::new()).unwrap_err(),
        "BINANCE_SECRET_KEY is required for binance_futures execution"
    );
    assert_eq!(
        execution_setup("binance", Some("k".to_string()), Some("s".to_string()), "   ".to_string()).unwrap_err(),
        "BINANCE_BASE_URL is required for binance execution"
    );
}

#[test]
fn strategy_and_risk_choices() {
    assert_eq!(strategy_url("REMOTE", Some("http://s".to_string())).unwrap(), "http://s");
    assert_eq!(strategy_url("remote", None).unwrap_err(), "STRATEGY_ENGINE_URL is required for remote strategy");
    assert_eq!(strategy_url("local", None).unwrap_err(), "unsupported TRADING_STRATEGY_MODE=local (allowed: remote)");
    assert_eq!(risk_service_url(None), "http://localhost:8085");
    assert_eq!(risk_service_url(Some("http://r".to_string())), "http://r");
}

#[test]
fn database_settings_defaults() {
    let s = postgres_settings(None, Some("notaport"), None, None, None);
    assert_eq!((s.host.as_str(), s.port, s.user.as_str(), s.password.as_str(), s.dbname.as_str()), ("localhost", 5432, "postgres", "password", "trading_db"));
    let s = postgres_settings(Some("db"), Some("6543"), Some("u"), Some("p"), Some("d"));
    assert_eq!((s.host.as_str(), s.port), ("db", 6543));
    assert_eq!(postgres_settings(None, Some("70000"), None, None, None).port, 5432);
}

#[test]
fn consumer_trading_chain_parts() {
    let config = ConsumerConfig {
        kafka_brokers: "b".to_string(),
        kafka_market_topic: "t".to_string(),
        kafka_consumer_group: "g".to_string(),
        strategy_mode: "remote".to_string(),
        strategy_url: None,
        execution_mode: "binance".to_string(),
        binance_api_key: None,
        binance_secret_key: None,
        binance_base_url: String::new(),
        risk_url: None,
        storage_enabled: true,
    };
    let with_db = consumer_execution_service(&config, true);
    let without_db = consumer_execution_service(&config, false);
    let fill = ExecutionService::simulated_fill("o", "BTCUSDT", FillSide::Buy, dec("1"), dec("1"), dec("0"));
    assert_eq!(with_db.apply_execution_fill(&fill, None).len(), 2);
    assert!(with_db.follow_up(&intent(None), &ok_result("e")).order.is_some());
    assert!(without_db.follow_up(&intent(None), &ok_result("e")).order.is_none());
}

fn some(s: &str) -> Option<String> {
    Some(s.to_string())
}

#[test]
fn plain_consumer_choices() {
    let s = consumer_setup(" Remote ", some("http://strategy"), "BINANCE", some("k"), some("s"), "  https://api  ", None).unwrap();
    assert!(matches!(&s.strategy, ConsumerStrategy::Remote { url } if url == "http://strategy"));
    match &s.execution {
        ConsumerExecution::Binance { api_key, secret_key, base_url } => {
            assert_eq!(api_key, "k");
            assert_eq!(secret_key, "s");
            assert_eq!(base_url, "https://api");
        }
        ConsumerExecution::Noop => panic!("binance expected"),
    }
    assert_eq!(s.risk_url, "http://localhost:8085");
    assert!(s.sync_from_exchange);

    let s = consumer_setup("noop", None, "paper", some("k"), None, "", some("http://risk")).unwrap();
    assert!(matches!(s.strategy, ConsumerStrategy::Noop));
    assert!(matches!(s.execution, ConsumerExecution::Noop));
    assert_eq!(s.risk_url, "http://risk");
    assert!(!s.sync_from_exchange);
}

#[test]
fn plain_consumer_missing_settings() {
    assert_eq!(
        consumer_setup("remote", None, "binance", None, None, "", None).unwrap_err(),
        "STRATEGY_ENGINE_URL is required for remote strategy"
    );
    assert_eq!(
        consumer_setup("noop", None, "binance", None, some("s"), "u", None).unwrap_err(),
        "BINANCE_API_KEY is required for binance execution"
    );
    assert_eq!(
        consumer_setup("noop", None, "binance", some("k"), None, "u", None).unwrap_err(),
        "BINANCE_SECRET_KEY is required for binance execution"
    );
    assert_eq!(
        consumer_setup("noop", None, " binance", some("k"), some("s"), "   ", None).unwrap_err(),
        "BINANCE_BASE_URL is required for binance execution"
    );
}

#[test]
fn plain_consumer_modes_are_trimmed_of_unicode_white_space() {
    let s = consumer_setup("\u{3000}remote\t", some("u"), "\u{a0}binance\n", some("k"), some("s"), "\u{2003}https://api\u{2003}", None).unwrap();
    assert!(matches!(s.strategy, ConsumerStrategy::Remote { .. }));
    assert!(matches!(&s.execution, ConsumerExecution::Binance { base_url, .. } if base_url == "https://api"));
}
