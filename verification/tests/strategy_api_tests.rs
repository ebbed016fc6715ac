use trading_engine::decimal::Dec;
use trading_engine::strategy_api::backtest::{backtest_from_signals, prepare_backtest, BacktestRequest, SpotStrategyKind};
use trading_engine::strategy_api::config::{read_strategy_type, AppConfig, AppEnvValues, StrategyType};
use trading_engine::strategy_api::dto::{health_response, ApiResponse};
use trading_engine::strategy_api::evaluate::{evaluate_response, Signal, SignalType};
use trading_engine::strategy_api::strategies::{
    creation_response, prepare_strategy, sort_by_creation, strategy_list_by_creation, CreateStrategyRequest, StrategyEntry, StrategyInfoDto,
};

fn dec(s: &str) -> Dec {
    Dec::parse(s).unwrap()
}

#[test]
fn envelopes_and_health() {
    let ok: ApiResponse<u32> = ApiResponse::ok(5);
    assert!(ok.success && ok.data == Some(5) && ok.error.is_none());
    let err: ApiResponse<u32> = ApiResponse::err("bad".to_string());
    assert!(!err.success && err.data.is_none());
    assert_eq!(err.error.as_deref(), Some("bad"));
    let h = health_response();
    assert_eq!((h.status.as_str(), h.service.as_str()), ("healthy", "strategy-engine"));
}

#[test]
fn strategy_type_and_config() {
    assert_eq!(read_strategy_type(Some("MEAN")), StrategyType::MeanReversion);
    assert_eq!(read_strategy_type(Some("Mean_Reversion")), StrategyType::MeanReversion);
    assert_eq!(read_strategy_type(Some("meanreversion")), StrategyType::MeanReversion);
    assert_eq!(read_strategy_type(Some("grid")), StrategyType::Grid);
    assert_eq!(read_strategy_type(Some("other")), StrategyType::Grid);
    assert_eq!(read_strategy_type(None), StrategyType::Grid);
    let env = AppEnvValues {
        kafka_brokers: None,
        kafka_market_topic: Some("ticks".to_string()),
        kafka_signal_topic: None,
        kafka_consumer_group: None,
        strategy_type: Some("mean".to_string()),
        grid_upper: Some("123.5".to_string()),
        grid_lower: Some("junk".to_string()),
        grid_count: Some("7".to_string()),
        grid_quantity: None,
        mean_window: Some("-1".to_string()),
        mean_threshold: None,
        mean_quantity: None,
    };
    let c = AppConfig::from_env_values(&env);
    assert_eq!(c.kafka_brokers, "localhost:9092");
    assert_eq!(c.kafka_market_topic, "ticks");
    assert_eq!(c.kafka_signal_topic, "trading.signals");
    assert_eq!(c.kafka_consumer_group, "strategy-engine");
    assert_eq!(c.strategy_type, StrategyType::MeanReversion);
    assert!(c.grid_config.upper_price.value_eq(&dec("123.5")));
    assert!(c.grid_config.lower_price.value_eq(&dec("90000")));
    assert_eq!(c.grid_config.grid_count, 7);
    assert!(c.grid_config.quantity_per_grid.value_eq(&dec("0.001")));
    assert_eq!(c.mean_reversion_config.window_size, 20);
    assert!(c.mean_reversion_config.threshold_percent.value_eq(&dec("0.02")));
}

fn signal(t: SignalType) -> Signal {
    Signal { id: 1, strategy_id: 2, symbol: "BTCUSDT".to_string(), signal_type: t, price: dec("100"), quantity: dec("0.5"), confidence: 0.7f64.to_bits() }
}

#[test]
fn evaluation_answers() {
    let r = evaluate_response(None);
    assert!(!r.has_intent && r.intent.is_none());
    let r = evaluate_response(Some(signal(SignalType::Hold)));
    assert!(!r.has_intent && r.intent.is_none());
    let r = evaluate_response(Some(signal(SignalType::Sell)));
    let i = r.intent.unwrap();
    assert!(r.has_intent);
    assert_eq!(i.side, "sell");
    assert_eq!(i.order_type, "limit");
    assert!(i.price.unwrap().value_eq(&dec("100")));
    assert_eq!(f64::from_bits(i.confidence), 0.7);
    assert_eq!(evaluate_response(Some(signal(SignalType::Buy))).intent.unwrap().side, "buy");
}

fn create_request() -> CreateStrategyRequest {
    CreateStrategyRequest {
        strategy_type: " Spot_Grid ".to_string(),
        market_type: "SPOT".to_string(),
        symbol: " btcusdt ".to_string(),
        owner_id: Some(9),
        name: None,
        auto_start: None,
    }
}

#[test]
fn strategy_creation_checks() {
    let c = prepare_strategy(&create_request(), true).unwrap();
    assert_eq!(c.strategy_type, "spot_grid");
    assert_eq!(c.symbol, "BTCUSDT");
    assert_eq!(c.name, "spot_grid-BTCUSDT");
    assert!(c.auto_start);
    assert_eq!(c.owner_id, 9);
    assert_eq!(prepare_strategy(&create_request(), false).unwrap_err(), "strategy loader is not initialized");
    let mut r = create_request();
    r.owner_id = None;
    assert_eq!(prepare_strategy(&r, true).unwrap_err(), "owner_id is required");
    let mut r = create_request();
    r.strategy_type = "futures_grid".to_string();
    assert_eq!(prepare_strategy(&r, true).unwrap_err(), "unsupported strategy_type, allowed: spot_grid, spot_mean_reversion");
    let mut r = create_request();
    r.symbol = "   ".to_string();
    assert_eq!(prepare_strategy(&r, true).unwrap_err(), "symbol cannot be empty");
    let mut r = create_request();
    r.market_type = "futures".to_string();
    assert_eq!(prepare_strategy(&r, true).unwrap_err(), "only spot market_type is currently supported");
    let mut r = create_request();
    r.name = Some("  ".to_string());
    r.auto_start = Some(false);
    let c = prepare_strategy(&r, true).unwrap();
    assert_eq!(c.name, "spot_grid-BTCUSDT");
    assert!(!c.auto_start);
    let mut r = create_request();
    r.name = Some("mine".to_string());
    assert_eq!(prepare_strategy(&r, true).unwrap().name, "mine");
}

#[test]
fn strategy_creation_answers() {
    let r = creation_response(Ok(vec![42, 43]));
    assert!(r.success);
    let d = r.data.unwrap();
    assert_eq!((d.instance_id, d.message.as_str()), (42, "strategy created"));
    assert_eq!(creation_response(Ok(vec![])).error.as_deref(), Some("strategy was rejected by config validation"));
    assert_eq!(creation_response(Err("db down".to_string())).error.as_deref(), Some("failed to create strategy: db down"));
    assert_eq!(strategy_list_by_creation(vec![]).total, 0);
}

fn entry(created_at: i64, id: u128) -> StrategyEntry {
    StrategyEntry {
        created_at,
        info: StrategyInfoDto {
            instance_id: id,
            strategy_type: "spot_grid".to_string(),
            market_type: "spot".to_string(),
            symbol: "BTCUSDT".to_string(),
            is_active: true,
        },
    }
}

#[test]
fn listing_is_oldest_first_and_stable() {
    let sorted = sort_by_creation(vec![entry(30, 1), entry(10, 2), entry(30, 3), entry(20, 4), entry(10, 5)]);
    let ids: Vec<u128> = sorted.iter().map(|e| e.info.instance_id).collect();
    assert_eq!(ids, vec![2, 5, 4, 1, 3]);
    let list = strategy_list_by_creation(vec![entry(5, 9), entry(1, 8)]);
    assert_eq!(list.total, 2);
    assert_eq!(list.strategies[0].instance_id, 8);
    assert_eq!(list.strategies[1].instance_id, 9);
}

fn backtest_request(prices: &[&str]) -> BacktestRequest {
    BacktestRequest {
        strategy_type: "spot_grid".to_string(),
        symbol: "btcusdt".to_string(),
        prices: prices.iter().map(|p| dec(p)).collect(),
        quantity: None,
        initial_capital: None,
    }
}

#[test]
fn backtest_request_checks() {
    assert_eq!(prepare_backtest(&backtest_request(&["1"])).unwrap_err(), "prices must contain at least 2 points");
    let mut r = backtest_request(&["1", "2"]);
    r.symbol = " ".to_string();
    assert_eq!(prepare_backtest(&r).unwrap_err(), "symbol cannot be empty");
    let mut r = backtest_request(&["1", "2"]);
    r.quantity = Some(dec("0"));
    assert_eq!(prepare_backtest(&r).unwrap_err(), "quantity must be positive");
    let mut r = backtest_request(&["1", "2"]);
    r.strategy_type = "grid".to_string();
    assert_eq!(prepare_backtest(&r).unwrap_err(), "unsupported strategy_type, allowed: spot_grid, spot_mean_reversion");
    assert_eq!(prepare_backtest(&backtest_request(&["1", "-2"])).unwrap_err(), "all prices must be positive");
    let s = prepare_backtest(&backtest_request(&["1", "2"])).unwrap();
    assert_eq!(s.kind, SpotStrategyKind::SpotGrid);
    assert_eq!(s.symbol, "BTCUSDT");
    assert!(s.quantity.value_eq(&dec("0.001")));
    assert!(s.initial_capital.value_eq(&dec("10000")));
}

#[test]
fn backtest_books_signals() {
    let req = backtest_request(&["100", "110", "120"]);
    let setup = prepare_backtest(&req).unwrap();
    let buy = Signal { id: 1, strategy_id: 1, symbol: "BTCUSDT".to_string(), signal_type: SignalType::Buy, price: dec("100"), quantity: dec("2"), confidence: 0 };
    let sell = Signal { signal_type: SignalType::Sell, price: dec("110"), quantity: dec("1"), ..buy.clone() };
    let hold = Signal { signal_type: SignalType::Hold, ..buy.clone() };
    let r = backtest_from_signals(&setup, &req.prices, &vec![Some(buy), Some(sell), Some(hold)]).unwrap();
    assert_eq!((r.total_ticks, r.buy_signals, r.sell_signals), (3, 1, 1));
    assert!(r.final_cash.value_eq(&dec("9910")));
    assert!(r.final_position.value_eq(&dec("1")));
    assert!(r.final_equity.value_eq(&dec("10030")));
    assert!(r.total_return.value_eq(&dec("0.003")));
    let mut zero_capital = setup.clone();
    zero_capital.initial_capital = Dec::zero();
    let r = backtest_from_signals(&zero_capital, &req.prices, &vec![None, None, None]).unwrap();
    assert!(r.total_return.is_zero() && r.final_equity.is_zero());
}
