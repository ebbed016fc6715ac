use trading_engine::decimal::Dec;
use trading_engine::model::execution_fill::{ExecutionFill, FillSide, FillType, OrderAccepted};
use trading_engine::risk_state::{RiskBalance, RiskOpenOrder, RiskPosition, RiskStateSnapshot};
use trading_engine::service::fill_processor::FillProcessor;
use trading_engine::service::order_lifecycle_service::{OrderLifecycleConfig, OrderLifecycleService};
use trading_engine::service::risk_state_coordinator::{RebuildAction, RebuildReason, RiskStateCoordinator};
use trading_engine::service::state_update::RiskStateUpdate;

fn dec(s: &str) -> Dec {
    Dec::parse(s).unwrap()
}

/// Applies updates to a snapshot the way an in-memory risk state does.
fn apply(state: &mut RiskStateSnapshot, updates: Vec<RiskStateUpdate>) {
    for u in updates {
        match u {
            RiskStateUpdate::UpdatePosition { symbol, delta, price } => {
                match state.positions.iter_mut().find(|p| p.symbol.eq_ignore_ascii_case(&symbol)) {
                    Some(p) => p.quantity = p.quantity.checked_add(&delta).unwrap(),
                    None => state.positions.push(RiskPosition { symbol, quantity: delta, entry_price: price, unrealized_pnl: Dec::zero() }),
                }
            }
            RiskStateUpdate::AddOpenOrder { order } => state.open_orders.push(order),
            RiskStateUpdate::RemoveOpenOrder { order_id } => state.open_orders.retain(|o| o.order_id != order_id),
            RiskStateUpdate::UpdateBalance { asset, free, locked } => {
                match state.balances.iter_mut().find(|b| b.asset.eq_ignore_ascii_case(&asset)) {
                    Some(b) => {
                        b.free = free;
                        b.locked = locked;
                    }
                    None => state.balances.push(RiskBalance { asset, free, locked }),
                }
            }
        }
    }
}

fn accepted(id: &str, symbol: &str, side: FillSide, qty: &str, price: &str) -> OrderAccepted {
    OrderAccepted::new(id.to_string(), symbol.to_string(), side, "LIMIT", dec(qty), Some(dec(price)))
}

// ---- fill processing ----

#[test]
fn test_order_accepted_adds_to_open_orders() {
    let processor = FillProcessor::new();
    let mut state = RiskStateSnapshot::default();
    apply(&mut state, processor.on_order_accepted(&accepted("order001", "BTCUSDT", FillSide::Buy, "0.5", "50000")));
    assert_eq!(state.open_orders.len(), 1);
    assert_eq!(state.open_orders[0].order_id, "order001");
    assert_eq!(state.open_orders[0].symbol, "BTCUSDT");
    assert_eq!(state.open_orders[0].side, "BUY");
    assert!(state.open_orders[0].quantity.value_eq(&dec("0.5")));
}

#[test]
fn test_partial_fill_updates_position_keeps_open_order() {
    let processor = FillProcessor::new();
    let mut state = RiskStateSnapshot::default();
    apply(&mut state, processor.on_order_accepted(&accepted("order002", "BTCUSDT", FillSide::Buy, "1.0", "50000")));
    let fill = ExecutionFill::partial(
        "order002".to_string(),
        "BTCUSDT".to_string(),
        FillSide::Buy,
        dec("0.3"),
        dec("50000"),
        dec("0.3"),
        dec("1.0"),
    );
    apply(&mut state, processor.on_execution_fill(&fill));
    assert!(state.get_position_qty("BTCUSDT").value_eq(&dec("0.3")));
    assert_eq!(state.open_orders.len(), 1);
    assert_eq!(state.open_orders[0].order_id, "order002");
}

#[test]
fn test_multiple_partial_fills() {
    let processor = FillProcessor::new();
    let mut state = RiskStateSnapshot::default();
    apply(&mut state, processor.on_order_accepted(&accepted("order003", "ETHUSDT", FillSide::Buy, "10.0", "3000")));
    apply(
        &mut state,
        processor.simulate_partial_fill("order003", "ETHUSDT", FillSide::Buy, dec("10.0"), dec("3.0"), dec("3.0"), dec("3000")),
    );
    assert!(state.get_position_qty("ETHUSDT").value_eq(&dec("3.0")));
    assert_eq!(state.open_orders.len(), 1);
    apply(
        &mut state,
        processor.simulate_partial_fill("order003", "ETHUSDT", FillSide::Buy, dec("10.0"), dec("4.0"), dec("7.0"), dec("3010")),
    );
    assert!(state.get_position_qty("ETHUSDT").value_eq(&dec("7.0")));
    assert_eq!(state.open_orders.len(), 1);
}

#[test]
fn test_full_fill_updates_position_removes_open_order() {
    let processor = FillProcessor::new();
    let mut state = RiskStateSnapshot::default();
    apply(&mut state, processor.on_order_accepted(&accepted("order004", "BTCUSDT", FillSide::Buy, "0.5", "50000")));
    let fill = ExecutionFill::full("order004".to_string(), "BTCUSDT".to_string(), FillSide::Buy, dec("0.5"), dec("50000"));
    apply(&mut state, processor.on_execution_fill(&fill));
    assert!(state.get_position_qty("BTCUSDT").value_eq(&dec("0.5")));
    assert_eq!(state.open_orders.len(), 0);
}

#[test]
fn test_partial_then_full_fill() {
    let processor = FillProcessor::new();
    let mut state = RiskStateSnapshot::default();
    apply(&mut state, processor.on_order_accepted(&accepted("order005", "BTCUSDT", FillSide::Sell, "1.0", "55000")));
    let partial = ExecutionFill::partial(
        "order005".to_string(),
        "BTCUSDT".to_string(),
        FillSide::Sell,
        dec("0.6"),
        dec("55000"),
        dec("0.6"),
        dec("1.0"),
    );
    apply(&mut state, processor.on_execution_fill(&partial));
    assert!(state.get_position_qty("BTCUSDT").value_eq(&dec("-0.6")));
    assert_eq!(state.open_orders.len(), 1);
    let full = ExecutionFill { fill_type: FillType::Full, filled_quantity: dec("0.4"), cumulative_quantity: dec("1.0"), ..partial.clone() };
    apply(&mut state, processor.on_execution_fill(&full));
    assert!(state.get_position_qty("BTCUSDT").value_eq(&dec("-1.0")));
    assert_eq!(state.open_orders.len(), 0);
}

#[test]
fn test_cancel_unfilled_removes_open_order() {
    let processor = FillProcessor::new();
    let mut state = RiskStateSnapshot::default();
    apply(&mut state, processor.on_order_accepted(&accepted("order006", "BTCUSDT", FillSide::Buy, "0.5", "45000")));
    assert_eq!(state.open_orders.len(), 1);
    apply(&mut state, processor.simulate_cancel_unfilled("order006", "BTCUSDT", FillSide::Buy, dec("0.5")));
    assert_eq!(state.open_orders.len(), 0);
    assert!(state.get_position_qty("BTCUSDT").value_eq(&dec("0")));
}

#[test]
fn test_cancel_after_partial_fill() {
    let processor = FillProcessor::new();
    let mut state = RiskStateSnapshot::default();
    apply(&mut state, processor.on_order_accepted(&accepted("order007", "BTCUSDT", FillSide::Buy, "1.0", "50000")));
    apply(
        &mut state,
        processor.simulate_partial_fill("order007", "BTCUSDT", FillSide::Buy, dec("1.0"), dec("0.4"), dec("0.4"), dec("50000")),
    );
    assert!(state.get_position_qty("BTCUSDT").value_eq(&dec("0.4")));
    assert_eq!(state.open_orders.len(), 1);
    apply(&mut state, processor.simulate_cancel_partial("order007", "BTCUSDT", FillSide::Buy, dec("1.0"), dec("0.4")));
    assert_eq!(state.open_orders.len(), 0);
    assert!(state.get_position_qty("BTCUSDT").value_eq(&dec("0.4")));
}

#[test]
fn test_simulate_market_order_fill() {
    let processor = FillProcessor::new();
    let mut state = RiskStateSnapshot::default();
    let updates = processor.simulate_market_order_fill("market001", "BTCUSDT", FillSide::Buy, dec("0.1"), dec("52000"));
    assert_eq!(updates.len(), 3);
    apply(&mut state, updates);
    assert!(state.get_position_qty("BTCUSDT").value_eq(&dec("0.1")));
    assert_eq!(state.open_orders.len(), 0);
}

#[test]
fn test_risk_state_readable_after_fills() {
    let processor = FillProcessor::new();
    let mut state = RiskStateSnapshot::default();
    apply(&mut state, vec![RiskStateUpdate::UpdateBalance { asset: "USDT".to_string(), free: dec("10000"), locked: dec("0") }]);
    apply(&mut state, processor.simulate_market_order_fill("order_a", "BTCUSDT", FillSide::Buy, dec("0.1"), dec("50000")));
    apply(&mut state, processor.simulate_market_order_fill("order_b", "ETHUSDT", FillSide::Buy, dec("2.0"), dec("3000")));
    apply(&mut state, processor.on_order_accepted(&accepted("order_c", "BTCUSDT", FillSide::Sell, "0.05", "55000")));
    assert!(state.get_free_balance("USDT").value_eq(&dec("10000")));
    assert!(state.get_position_qty("BTCUSDT").value_eq(&dec("0.1")));
    assert!(state.get_position_qty("ETHUSDT").value_eq(&dec("2.0")));
    assert_eq!(state.open_orders.len(), 1);
    assert_eq!(state.get_open_order_count("BTCUSDT"), 1);
    assert!(state.get_pending_sell_qty("BTCUSDT").value_eq(&dec("0.05")));
}

#[test]
fn accepted_market_order_opens_at_price_zero() {
    let processor = FillProcessor::new();
    let event = OrderAccepted::new("m".to_string(), "BTCUSDT".to_string(), FillSide::Sell, "MARKET", dec("2"), None);
    let updates = processor.on_order_accepted(&event);
    match &updates[0] {
        RiskStateUpdate::AddOpenOrder { order } => {
            assert!(order.price.is_zero());
            assert_eq!(order.side, "SELL");
            assert_eq!(order.created_at, event.accepted_at);
        }
        _ => panic!("expected an open order"),
    }
}

// ---- order time-outs ----

fn open_order(id: &str, symbol: &str, created_at: i64) -> RiskOpenOrder {
    RiskOpenOrder {
        order_id: id.to_string(),
        symbol: symbol.to_string(),
        side: "BUY".to_string(),
        quantity: dec("0.1"),
        price: dec("50000"),
        created_at,
    }
}

#[test]
fn test_config_from_env() {
    let config = OrderLifecycleConfig::default();
    assert_eq!(config.order_ttl_ms, 300_000);
    assert_eq!(config.check_interval_ms, 30_000);
    assert!(config.enabled);
}

#[test]
fn lifecycle_config_from_values() {
    let c = OrderLifecycleConfig::from_env_values(Some("1000"), Some("250"), Some("TRUE"));
    assert_eq!((c.order_ttl_ms, c.check_interval_ms, c.enabled), (1000, 250, true));
    let c = OrderLifecycleConfig::from_env_values(Some("-5"), Some("-5"), Some("0"));
    assert_eq!((c.order_ttl_ms, c.check_interval_ms, c.enabled), (-5, 30_000, false));
    let c = OrderLifecycleConfig::from_env_values(Some("abc"), Some("+7"), Some("1"));
    assert_eq!((c.order_ttl_ms, c.check_interval_ms, c.enabled), (300_000, 7, true));
    let c = OrderLifecycleConfig::from_env_values(Some("99999999999999999999"), None, None);
    assert_eq!((c.order_ttl_ms, c.check_interval_ms, c.enabled), (300_000, 30_000, true));
    let c = OrderLifecycleConfig::from_env_values(Some("-9223372036854775808"), Some("18446744073709551615"), Some("yes"));
    assert_eq!((c.order_ttl_ms, c.check_interval_ms, c.enabled), (i64::MIN, u64::MAX, false));
}

#[test]
fn test_no_expired_orders() {
    let service = OrderLifecycleService::new(OrderLifecycleConfig { order_ttl_ms: 300_000, check_interval_ms: 1000, enabled: true });
    let now = 1_700_000_000_000i64;
    let mut state = RiskStateSnapshot::default();
    state.open_orders.push(open_order("order1", "BTCUSDT", now));
    let expired = service.expired_orders_at(&state, now);
    assert!(expired.is_empty());
}

#[test]
fn test_expired_order_removed() {
    let service = OrderLifecycleService::new(OrderLifecycleConfig { order_ttl_ms: 1000, check_interval_ms: 100, enabled: true });
    let now = 1_700_000_000_000i64;
    let mut state = RiskStateSnapshot::default();
    state.open_orders.push(open_order("expired_order", "BTCUSDT", now - 2000));
    let expired = service.expired_orders_at(&state, now);
    assert_eq!(expired.len(), 1);
    assert_eq!(expired[0].order_id, "expired_order");
    assert_eq!(expired[0].expired_at, now);
    let removals = expired.iter().map(|e| RiskStateUpdate::RemoveOpenOrder { order_id: e.order_id.clone() }).collect();
    apply(&mut state, removals);
    assert!(state.open_orders.is_empty());
}

#[test]
fn test_mixed_orders() {
    let service = OrderLifecycleService::new(OrderLifecycleConfig { order_ttl_ms: 1000, check_interval_ms: 100, enabled: true });
    let now = 1_700_000_000_000i64;
    let mut state = RiskStateSnapshot::default();
    state.open_orders.push(open_order("expired", "BTCUSDT", now - 2000));
    state.open_orders.push(open_order("active", "ETHUSDT", now));
    let expired = service.expired_orders_at(&state, now);
    assert_eq!(expired.len(), 1);
    assert_eq!(expired[0].order_id, "expired");
    let removals = expired.iter().map(|e| RiskStateUpdate::RemoveOpenOrder { order_id: e.order_id.clone() }).collect();
    apply(&mut state, removals);
    assert_eq!(state.open_orders.len(), 1);
    assert_eq!(state.open_orders[0].order_id, "active");
}

#[test]
fn test_disabled_service() {
    let service = OrderLifecycleService::new(OrderLifecycleConfig { order_ttl_ms: 1, check_interval_ms: 100, enabled: false });
    let now = 1_700_000_000_000i64;
    let mut state = RiskStateSnapshot::default();
    state.open_orders.push(open_order("order1", "BTCUSDT", now - 10000));
    assert!(service.expired_orders_at(&state, now).is_empty());
    assert!(service.check_expired_orders(&state).is_empty());
}

#[test]
fn order_exactly_at_ttl_is_not_expired() {
    let service = OrderLifecycleService::new(OrderLifecycleConfig { order_ttl_ms: 1000, check_interval_ms: 100, enabled: true });
    let mut state = RiskStateSnapshot::default();
    state.open_orders.push(open_order("edge", "BTCUSDT", 0));
    assert!(service.expired_orders_at(&state, 1000).is_empty());
    assert_eq!(service.expired_orders_at(&state, 1001).len(), 1);
}

// ---- rebuilding ----

#[test]
fn test_rebuild_reason_display() {
    assert_eq!(RebuildReason::Startup.to_string(), "startup");
    assert_eq!(RebuildReason::WsReconnect.to_string(), "ws_reconnect");
    assert_eq!(RebuildReason::Manual.to_string(), "manual");
}

#[test]
fn test_coordinator_without_exchange() {
    let mut coordinator = RiskStateCoordinator::new(false);
    assert_eq!(coordinator.rebuild_action(), RebuildAction::Skip);
    assert!(coordinator.skip_rebuild().is_ok());
}

#[test]
fn test_coordinator_initialization_flag() {
    let mut coordinator = RiskStateCoordinator::new(false);
    assert!(!coordinator.is_initialized());
    coordinator.skip_rebuild().ok();
    assert!(coordinator.is_initialized());
}

#[test]
fn failed_rebuild_leaves_flag_unchanged() {
    let mut coordinator = RiskStateCoordinator::new(true);
    assert_eq!(coordinator.rebuild_action(), RebuildAction::SyncFromExchange);
    assert_eq!(coordinator.finish_rebuild(Err("boom".to_string())), Err("boom".to_string()));
    assert!(!coordinator.is_initialized());
    assert!(coordinator.finish_rebuild(Ok(())).is_ok());
    assert!(coordinator.is_initialized());
    assert!(coordinator.finish_rebuild(Err("later".to_string())).is_err());
    assert!(coordinator.is_initialized());
}
