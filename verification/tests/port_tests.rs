use trading_engine::decimal::Dec;
use trading_engine::port::exchange_query_port::ExchangeOrderStatus;
use trading_engine::port::execution_port::{ExecutionCommand, OrderSide, OrderType, TimeInForce};

fn dec(s: &str) -> Dec {
    Dec::parse(s).unwrap()
}

#[test]
fn order_type_binance_names() {
    assert_eq!(OrderType::Market.to_binance_str(), "MARKET");
    assert_eq!(OrderType::Limit.to_binance_str(), "LIMIT");
    assert_eq!(OrderType::StopLossLimit.to_binance_str(), "STOP_LOSS_LIMIT");
    assert_eq!(OrderType::TakeProfitLimit.to_binance_str(), "TAKE_PROFIT_LIMIT");
    assert_eq!(OrderType::StopLossMarket.to_binance_str(), "STOP_LOSS");
    assert_eq!(OrderType::TakeProfitMarket.to_binance_str(), "TAKE_PROFIT");
}

#[test]
fn order_side_parsing() {
    assert_eq!(OrderSide::from_str("buy"), Some(OrderSide::Buy));
    assert_eq!(OrderSide::from_str("  SELL \n"), Some(OrderSide::Sell));
    assert_eq!(OrderSide::from_str("Buy"), Some(OrderSide::Buy));
    assert_eq!(OrderSide::from_str("hold"), None);
    assert_eq!(OrderSide::from_str(""), None);
    assert_eq!(OrderSide::Buy.to_binance_str(), "BUY");
    assert_eq!(OrderSide::Sell.to_binance_str(), "SELL");
    assert_eq!(OrderSide::from_str(OrderSide::Sell.to_binance_str()), Some(OrderSide::Sell));
}

#[test]
fn time_in_force_names() {
    assert_eq!(TimeInForce::GTC.to_binance_str(), "GTC");
    assert_eq!(TimeInForce::IOC.to_binance_str(), "IOC");
    assert_eq!(TimeInForce::FOK.to_binance_str(), "FOK");
}

#[test]
fn execution_command_builders() {
    let m = ExecutionCommand::market("BTCUSDT".to_string(), OrderSide::Buy, dec("0.1"));
    assert_eq!(m.order_type, OrderType::Market);
    assert!(m.price.is_none() && m.stop_price.is_none() && m.time_in_force.is_none() && m.client_order_id.is_none());

    let l = ExecutionCommand::limit("BTCUSDT".to_string(), OrderSide::Sell, dec("0.1"), dec("50000"));
    assert_eq!(l.order_type, OrderType::Limit);
    assert!(l.price.unwrap().value_eq(&dec("50000")));
    assert_eq!(l.time_in_force, Some(TimeInForce::GTC));

    let sl = ExecutionCommand::stop_loss_limit("BTCUSDT".to_string(), OrderSide::Sell, dec("1"), dec("49000"), dec("49500"));
    assert_eq!(sl.order_type, OrderType::StopLossLimit);
    assert!(sl.stop_price.unwrap().value_eq(&dec("49500")));

    let tp = ExecutionCommand::take_profit_limit("BTCUSDT".to_string(), OrderSide::Sell, dec("1"), dec("60000"), dec("59500"));
    assert_eq!(tp.order_type, OrderType::TakeProfitLimit);
    assert_eq!(tp.time_in_force, Some(TimeInForce::GTC));

    let slm = ExecutionCommand::stop_loss_market("BTCUSDT".to_string(), OrderSide::Sell, dec("1"), dec("49000"));
    assert_eq!(slm.order_type, OrderType::StopLossMarket);
    assert!(slm.price.is_none() && slm.time_in_force.is_none());

    let tpm = ExecutionCommand::take_profit_market("BTCUSDT".to_string(), OrderSide::Sell, dec("1"), dec("61000"));
    assert_eq!(tpm.order_type, OrderType::TakeProfitMarket);

    let c = tpm.with_client_order_id("cid-1".to_string()).with_time_in_force(TimeInForce::IOC);
    assert_eq!(c.client_order_id.as_deref(), Some("cid-1"));
    assert_eq!(c.time_in_force, Some(TimeInForce::IOC));
    assert_eq!(c.symbol, "BTCUSDT");
}

#[test]
fn exchange_order_status_parsing() {
    assert_eq!(ExchangeOrderStatus::from_str("NEW"), ExchangeOrderStatus::New);
    assert_eq!(ExchangeOrderStatus::from_str("partially_filled"), ExchangeOrderStatus::PartiallyFilled);
    assert_eq!(ExchangeOrderStatus::from_str("Filled"), ExchangeOrderStatus::Filled);
    assert_eq!(ExchangeOrderStatus::from_str("CANCELED"), ExchangeOrderStatus::Canceled);
    assert_eq!(ExchangeOrderStatus::from_str("rejected"), ExchangeOrderStatus::Rejected);
    assert_eq!(ExchangeOrderStatus::from_str("EXPIRED"), ExchangeOrderStatus::Expired);
    assert_eq!(ExchangeOrderStatus::from_str("PENDING_CANCEL"), ExchangeOrderStatus::New);
    assert_eq!(ExchangeOrderStatus::from_str(""), ExchangeOrderStatus::New);
}
