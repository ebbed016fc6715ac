//! The strategy engine's configuration, read from environment values.
use crate::decimal::{decimal_from_text, Dec};
use crate::bootstrap::opt_owned;
use crate::service::order_lifecycle_service::parsed_u64;
use crate::text::{eq_ignore_ascii_case, owned, parse_u64, str_eq_ignore_ascii_case};
use vstd::prelude::*;

verus! {

/// The strategy the engine runs.
#[derive(Debug, Clone, Copy, PartialEq, Eq, Structural)]
pub enum StrategyType {
    /// Grid trading.
    Grid,
    /// Mean reversion.
    MeanReversion,
}

/// The strategy a `STRATEGY_TYPE` value names: "mean", "mean_reversion" or
/// "meanreversion" (any ASCII case) name mean reversion; anything else, or no
/// value, means grid.
pub open spec fn strategy_type_from(v: Option<Seq<char>>) -> StrategyType {
    match v {
        Some(t) => if eq_ignore_ascii_case(t, "mean"@) || eq_ignore_ascii_case(t, "mean_reversion"@) || eq_ignore_ascii_case(
            t,
            "meanreversion"@,
        ) {
            StrategyType::MeanReversion
        } else {
            StrategyType::Grid
        },
        None => StrategyType::Grid,
    }
}

/// Reads the strategy type from the value of `STRATEGY_TYPE`.
pub fn read_strategy_type(value: Option<&str>) -> (r: StrategyType)
    ensures
        r == strategy_type_from(match value {
            Some(s) => Some(s@),
            None => None,
        }),
{
    match value {
        Some(v) => if str_eq_ignore_ascii_case(v, "mean") || str_eq_ignore_ascii_case(v, "mean_reversion") || str_eq_ignore_ascii_case(
            v,
            "meanreversion",
        ) {
            StrategyType::MeanReversion
        } else {
            StrategyType::Grid
        },
        None => StrategyType::Grid,
    }
}

/// The grid strategy's parameters.
#[derive(Debug, Clone)]
pub struct GridConfig {
    /// Top of the grid.
    pub upper_price: Dec,
    /// Bottom of the grid.
    pub lower_price: Dec,
    /// Number of grid levels.
    pub grid_count: u32,
    /// Quantity traded per level.
    pub quantity_per_grid: Dec,
}

/// The mean reversion strategy's parameters.
#[derive(Debug, Clone)]
pub struct MeanReversionConfig {
    /// Number of prices averaged.
    pub window_size: usize,
    /// Distance from the mean that triggers a trade.
    pub threshold_percent: Dec,
    /// Quantity traded.
    pub quantity: Dec,
}

/// The engine's configuration.
#[derive(Debug, Clone)]
pub struct AppConfig {
    /// Kafka brokers.
    pub kafka_brokers: String,
    /// Topic of market events.
    pub kafka_market_topic: String,
    /// Topic of signals.
    pub kafka_signal_topic: String,
    /// Consumer group.
    pub kafka_consumer_group: String,
    /// The strategy run.
    pub strategy_type: StrategyType,
    /// Grid parameters.
    pub grid_config: GridConfig,
    /// Mean reversion parameters.
    pub mean_reversion_config: MeanReversionConfig,
}

/// The engine's shared state.
#[derive(Debug, Clone)]
pub struct AppState {
    /// The configuration.
    pub config: AppConfig,
}

/// The values of the environment variables the configuration is read from;
/// `None` for a variable that is not set.
#[derive(Debug, Clone)]
pub struct AppEnvValues {
    /// `KAFKA_BROKERS`.
    pub kafka_brokers: Option<String>,
    /// `KAFKA_MARKET_TOPIC`.
    pub kafka_market_topic: Option<String>,
    /// `KAFKA_SIGNAL_TOPIC`.
    pub kafka_signal_topic: Option<String>,
    /// `KAFKA_CONSUMER_GROUP`.
    pub kafka_consumer_group: Option<String>,
    /// `STRATEGY_TYPE`.
    pub strategy_type: Option<String>,
    /// `STRATEGY_GRID_UPPER`.
    pub grid_upper: Option<String>,
    /// `STRATEGY_GRID_LOWER`.
    pub grid_lower: Option<String>,
    /// `STRATEGY_GRID_COUNT`.
    pub grid_count: Option<String>,
    /// `STRATEGY_GRID_QUANTITY`.
    pub grid_quantity: Option<String>,
    /// `STRATEGY_MEAN_WINDOW`.
    pub mean_window: Option<String>,
    /// `STRATEGY_MEAN_THRESHOLD`.
    pub mean_threshold: Option<String>,
    /// `STRATEGY_MEAN_QUANTITY`.
    pub mean_quantity: Option<String>,
}

/// A decimal read from a value: the value parsed, or `default` when it is not
/// set or does not parse.
pub open spec fn decimal_or(t: Option<Seq<char>>, default: (int, int)) -> (int, int) {
    match t {
        Some(s) => match decimal_from_text(s) {
            Some(v) => v,
            None => default,
        },
        None => default,
    }
}

/// A number read from a value: the value parsed, or `default` when it is not set,
/// does not parse or exceeds `max`.
pub open spec fn number_or(t: Option<Seq<char>>, default: nat, max: nat) -> nat {
    match t {
        Some(s) => match parsed_u64(s) {
            Some(v) => if v <= max {
                v as nat
            } else {
                default
            },
            None => default,
        },
        None => default,
    }
}

/// A text read from a value, or `default` when it is not set.
pub open spec fn text_or(t: Option<Seq<char>>, default: Seq<char>) -> Seq<char> {
    match t {
        Some(s) => s,
        None => default,
    }
}

fn read_text(v: &Option<String>, default: &str) -> (r: String)
    ensures
        r@ == text_or(opt_owned(*v), default@),
{
    match v {
        Some(s) => s.clone(),
        None => owned(default),
    }
}

fn read_decimal(v: &Option<String>, default: Dec) -> (r: Dec)
    ensures
        r.parts() == decimal_or(opt_owned(*v), default.parts()),
{
    match v {
        Some(s) => match Dec::parse(s.as_str()) {
            Some(d) => d,
            None => default,
        },
        None => default,
    }
}

fn read_u32(v: &Option<String>, default: u32) -> (r: u32)
    ensures
        r as nat == number_or(opt_owned(*v), default as nat, u32::MAX as nat),
{
    match v {
        Some(s) => match parse_u64(s.as_str()) {
            Some(n) => if n <= u32::MAX as u64 {
                n as u32
            } else {
                default
            },
            None => default,
        },
        None => default,
    }
}

fn read_usize(v: &Option<String>, default: usize) -> (r: usize)
    ensures
        r as nat == number_or(opt_owned(*v), default as nat, usize::MAX as nat),
{
    match v {
        Some(s) => match parse_u64(s.as_str()) {
            Some(n) => if n as u128 <= usize::MAX as u128 {
                n as usize
            } else {
                default
            },
            None => default,
        },
        None => default,
    }
}

impl AppConfig {
    /// The configuration from the environment values, each with its default:
    /// brokers localhost:9092, topics market-events and trading.signals, group
    /// strategy-engine, grid 90000 to 100000 in 10 levels of 0.001, mean
    /// reversion over 20 prices at 0.02 with 0.001.
    pub fn from_env_values(env: &AppEnvValues) -> (r: Self)
        ensures
            r.kafka_brokers@ == text_or(opt_owned(env.kafka_brokers), "localhost:9092"@),
            r.kafka_market_topic@ == text_or(opt_owned(env.kafka_market_topic), "market-events"@),
            r.kafka_signal_topic@ == text_or(opt_owned(env.kafka_signal_topic), "trading.signals"@),
            r.kafka_consumer_group@ == text_or(opt_owned(env.kafka_consumer_group), "strategy-engine"@),
            r.strategy_type == strategy_type_from(opt_owned(env.strategy_type)),
            r.grid_config.upper_price.parts() == decimal_or(opt_owned(env.grid_upper), (100_000int, 0int)),
            r.grid_config.lower_price.parts() == decimal_or(opt_owned(env.grid_lower), (90_000int, 0int)),
            r.grid_config.grid_count as nat == number_or(opt_owned(env.grid_count), 10, u32::MAX as nat),
            r.grid_config.quantity_per_grid.parts() == decimal_or(opt_owned(env.grid_quantity), (1int, 3int)),
            r.mean_reversion_config.window_size as nat == number_or(opt_owned(env.mean_window), 20, usize::MAX as nat),
            r.mean_reversion_config.threshold_percent.parts() == decimal_or(opt_owned(env.mean_threshold), (2int, 2int)),
            r.mean_reversion_config.quantity.parts() == decimal_or(opt_owned(env.mean_quantity), (1int, 3int)),
    {
        let strategy_type = match &env.strategy_type {
            Some(s) => read_strategy_type(Some(s.as_str())),
            None => read_strategy_type(None),
        };
        AppConfig {
            kafka_brokers: read_text(&env.kafka_brokers, "localhost:9092"),
            kafka_market_topic: read_text(&env.kafka_market_topic, "market-events"),
            kafka_signal_topic: read_text(&env.kafka_signal_topic, "trading.signals"),
            kafka_consumer_group: read_text(&env.kafka_consumer_group, "strategy-engine"),
            strategy_type,
            grid_config: GridConfig {
                upper_price: read_decimal(&env.grid_upper, Dec::new(100_000, 0)),
                lower_price: read_decimal(&env.grid_lower, Dec::new(90_000, 0)),
                grid_count: read_u32(&env.grid_count, 10),
                quantity_per_grid: read_decimal(&env.grid_quantity, Dec::new(1, 3)),
            },
            mean_reversion_config: MeanReversionConfig {
                window_size: read_usize(&env.mean_window, 20),
                threshold_percent: read_decimal(&env.mean_threshold, Dec::new(2, 2)),
                quantity: read_decimal(&env.mean_quantity, Dec::new(1, 3)),
            },
        }
    }
}

} // verus!
