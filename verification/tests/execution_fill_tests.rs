use trading_engine::decimal::Dec;
use trading_engine::model::execution_fill::{CancelReason, ExecutionFill, FillSide, OrderAccepted, OrderCanceled};
use trading_engine::model::order::{Order, OrderSide, OrderStatus, OrderType};

fn dec(s: &str) -> Dec {
    Dec::parse(s).unwrap()
}

#[test]
fn test_fill_side_conversion() {
    assert_eq!(FillSide::from_str("BUY"), Some(FillSide::Buy));
    assert_eq!(FillSide::from_str("buy"), Some(FillSide::Buy));
    assert_eq!(FillSide::from_str("SELL"), Some(FillSide::Sell));
    assert_eq!(FillSide::from_str("invalid"), None);

    assert_eq!(FillSide::Buy.as_str(), "BUY");
    assert_eq!(FillSide::Sell.as_str(), "SELL");
}

#[test]
fn test_execution_fill_partial() {
    let fill = ExecutionFill::partial(
        "order123".to_string(),
        "BTCUSDT".to_string(),
        FillSide::Buy,
        dec("0.1"),
        dec("50000"),
        dec("0.1"),
        dec("1.0"),
    );
    assert!(fill.is_partial());
    assert!(!fill.is_full());
    assert!(fill.remaining_quantity().value_eq(&dec("0.9")));
    assert!(fill.position_delta().value_eq(&dec("0.1")));
    assert!(fill.notional().value_eq(&dec("5000")));
}

#[test]
fn test_execution_fill_full() {
    let fill = ExecutionFill::full("order456".to_string(), "ETHUSDT".to_string(), FillSide::Sell, dec("2.0"), dec("3000"));
    assert!(fill.is_full());
    assert!(!fill.is_partial());
    assert!(fill.remaining_quantity().value_eq(&dec("0")));
    assert!(fill.position_delta().value_eq(&dec("-2.0")));
    assert!(fill.notional().value_eq(&dec("6000")));
}

#[test]
fn test_order_canceled() {
    let cancel = OrderCanceled::new(
        "order789".to_string(),
        "BTCUSDT".to_string(),
        FillSide::Buy,
        dec("1.0"),
        dec("0.3"),
        CancelReason::UserRequested,
    );
    assert!(cancel.has_unfilled());
    assert!(cancel.unfilled_quantity().value_eq(&dec("0.7")));
}

#[test]
fn test_order_accepted() {
    let accepted = OrderAccepted::new(
        "order001".to_string(),
        "BTCUSDT".to_string(),
        FillSide::Buy,
        "LIMIT",
        dec("0.5"),
        Some(dec("48000")),
    );
    assert!(accepted.is_limit());
    assert!(!accepted.is_market());
}

#[test]
fn order_accepted_type_is_upper_cased() {
    let accepted = OrderAccepted::new("o".to_string(), "BTCUSDT".to_string(), FillSide::Sell, "market", dec("1"), None);
    assert_eq!(accepted.order_type, "MARKET");
    assert!(accepted.is_market());
}

#[test]
fn canceled_after_complete_fill_has_nothing_unfilled() {
    let cancel = OrderCanceled::new("o".to_string(), "BTCUSDT".to_string(), FillSide::Buy, dec("1.0"), dec("1.0"), CancelReason::Expired);
    assert!(!cancel.has_unfilled());
    assert!(cancel.unfilled_quantity().is_zero());
}

#[test]
fn fill_side_parse_ignores_case_and_round_trips() {
    assert_eq!(FillSide::from_str("Sell"), Some(FillSide::Sell));
    assert_eq!(FillSide::from_str(FillSide::Buy.as_str()), Some(FillSide::Buy));
    assert_eq!(FillSide::from_str(" buy"), None);
}

#[test]
fn order_status_text_round_trips() {
    for s in [
        OrderStatus::Pending,
        OrderStatus::PartiallyFilled,
        OrderStatus::Filled,
        OrderStatus::Cancelled,
        OrderStatus::Rejected,
        OrderStatus::Expired,
    ] {
        assert_eq!(OrderStatus::from_str(s.as_str()), Some(s));
        assert_eq!(OrderStatus::from_str(&s.as_str().to_lowercase()), Some(s));
    }
    assert_eq!(OrderStatus::from_str("PARTIALLY_FILLED"), Some(OrderStatus::PartiallyFilled));
    assert_eq!(OrderStatus::from_str("unknown"), None);
    assert_eq!(OrderSide::Buy.as_str(), "BUY");
    assert_eq!(OrderType::Limit.as_str(), "LIMIT");
    assert_eq!(OrderType::Market.as_str(), "MARKET");
}

#[test]
fn new_order_is_pending_and_unfilled() {
    let order = Order::new(7, Some(8), "BTCUSDT".to_string(), OrderType::Limit, OrderSide::Sell, dec("1.5"), Some(dec("100")));
    assert_eq!(order.status, OrderStatus::Pending);
    assert!(order.filled_quantity.is_zero());
    assert!(order.exchange_order_id.is_none());
    assert_eq!(order.created_at, order.updated_at);
    assert_eq!(order.user_id, 7);
}

#[test]
fn decimal_arithmetic_matches_rust_decimal() {
    assert!(dec("0.1").checked_add(&dec("0.2")).unwrap().value_eq(&dec("0.3")));
    assert_eq!(dec("1.50").checked_mul(&dec("2")).unwrap().to_string(), "3.00");
    assert_eq!(dec("10").checked_div(&dec("4")).unwrap().to_string(), "2.50");
    assert!(dec("1").checked_div(&Dec::zero()).is_none());
    assert!(Dec::parse("abc").is_none());
    assert!(dec("-2").lt(&dec("1")));
    assert!(dec("1.0").value_eq(&dec("1")));
}
