//! Start-up choices: which execution venue and strategy source a configuration
//! names, which risk service to call, where the database is, and which optional
//! parts the trading chain gets.
use crate::service::execution_service::ExecutionService;
use crate::service::order_lifecycle_service::{opt_text, parsed_u64};
use crate::text::{owned, parse_u64, str_eq, to_lowercase, trim, unicode_lowercase, unicode_trim};
use vstd::prelude::*;

verus! {

/// The execution venues a configuration can name.
#[derive(Debug, Clone, Copy, PartialEq, Eq, Structural)]
pub enum ExecutionVenue {
    /// Binance spot.
    Binance,
    /// Binance futures.
    BinanceFutures,
}

/// A mode as it is compared: trimmed and lower-cased.
pub open spec fn mode_key(mode: Seq<char>) -> Seq<char> {
    unicode_lowercase(unicode_trim(mode))
}

/// The venue a mode key names: "binance", or "binance_futures" / "futures".
pub open spec fn venue_of(key: Seq<char>) -> Option<ExecutionVenue> {
    if key == "binance"@ {
        Some(ExecutionVenue::Binance)
    } else if key == "binance_futures"@ || key == "futures"@ {
        Some(ExecutionVenue::BinanceFutures)
    } else {
        None
    }
}

/// The name of a venue in messages.
pub open spec fn venue_name(v: ExecutionVenue) -> Seq<char> {
    match v {
        ExecutionVenue::Binance => "binance"@,
        ExecutionVenue::BinanceFutures => "binance_futures"@,
    }
}

/// What the execution configuration gives: the venue and its credentials and
/// base URL, or the message of the first thing missing.
pub open spec fn execution_choice(
    mode: Seq<char>,
    api_key: Option<Seq<char>>,
    secret_key: Option<Seq<char>>,
    base_url: Seq<char>,
) -> Result<(ExecutionVenue, Seq<char>, Seq<char>, Seq<char>), Seq<char>> {
    match venue_of(mode_key(mode)) {
        None => Err("unsupported TRADING_EXECUTION_MODE="@ + mode_key(mode) + " (allowed: binance, binance_futures)"@),
        Some(v) => match api_key {
            None => Err("BINANCE_API_KEY is required for "@ + venue_name(v) + " execution"@),
            Some(k) => match secret_key {
                None => Err("BINANCE_SECRET_KEY is required for "@ + venue_name(v) + " execution"@),
                Some(s) => if unicode_trim(base_url).len() == 0 {
                    Err("BINANCE_BASE_URL is required for "@ + venue_name(v) + " execution"@)
                } else {
                    Ok((v, k, s, base_url))
                },
            },
        },
    }
}

/// The execution venue to connect to, with its credentials.
#[derive(Debug, Clone)]
pub struct ExecutionSetup {
    /// The venue.
    pub venue: ExecutionVenue,
    /// API key.
    pub api_key: String,
    /// Secret key.
    pub secret_key: String,
    /// Base URL of the venue's API.
    pub base_url: String,
}

/// The view of an optional owned text.
pub open spec fn opt_owned(t: Option<String>) -> Option<Seq<char>> {
    match t {
        Some(s) => Some(s@),
        None => None,
    }
}

/// `a + b + c` as a new text.
fn joined(a: &str, b: &str, c: &str) -> (r: String)
    ensures
        r@ == a@ + b@ + c@,
{
    let mut r = owned(a);
    r.append(b);
    r.append(c);
    r
}

/// The name of a venue in messages.
fn venue_text(v: ExecutionVenue) -> (r: &'static str)
    ensures
        r@ == venue_name(v),
{
    match v {
        ExecutionVenue::Binance => "binance",
        ExecutionVenue::BinanceFutures => "binance_futures",
    }
}

/// Reads the execution mode (`TRADING_EXECUTION_MODE`, trimmed, any case): the
/// venue with its API key, secret key and base URL, or the message of what is
/// unsupported or missing.
pub fn execution_setup(mode: &str, api_key: Option<String>, secret_key: Option<String>, base_url: String) -> (r: Result<
    ExecutionSetup,
    String,
>)
    ensures
        match execution_choice(mode@, opt_owned(api_key), opt_owned(secret_key), base_url@) {
            Ok((v, k, s, u)) => r matches Ok(x) && x.venue == v && x.api_key@ == k && x.secret_key@ == s && x.base_url@ == u,
            Err(m) => r matches Err(e) && e@ == m,
        },
{
    let key = to_lowercase(trim(mode));
    let venue = if str_eq(key.as_str(), "binance") {
        ExecutionVenue::Binance
    } else if str_eq(key.as_str(), "binance_futures") || str_eq(key.as_str(), "futures") {
        ExecutionVenue::BinanceFutures
    } else {
        return Err(joined("unsupported TRADING_EXECUTION_MODE=", key.as_str(), " (allowed: binance, binance_futures)"));
    };
    let name = venue_text(venue);
    let api_key = match api_key {
        Some(k) => k,
        None => {
            return Err(joined("BINANCE_API_KEY is required for ", name, " execution"));
        },
    };
    let secret_key = match secret_key {
        Some(s) => s,
        None => {
            return Err(joined("BINANCE_SECRET_KEY is required for ", name, " execution"));
        },
    };
    if trim(base_url.as_str()).unicode_len() == 0 {
        return Err(joined("BINANCE_BASE_URL is required for ", name, " execution"));
    }
    Ok(ExecutionSetup { venue, api_key, secret_key, base_url })
}

/// What the strategy configuration gives: the remote strategy's URL, or the
/// message of what is unsupported or missing.
pub open spec fn strategy_choice(mode: Seq<char>, url: Option<Seq<char>>) -> Result<Seq<char>, Seq<char>> {
    if mode_key(mode) == "remote"@ {
        match url {
            Some(u) => Ok(u),
            None => Err("STRATEGY_ENGINE_URL is required for remote strategy"@),
        }
    } else {
        Err("unsupported TRADING_STRATEGY_MODE="@ + mode_key(mode) + " (allowed: remote)"@)
    }
}

/// Reads the strategy mode (`TRADING_STRATEGY_MODE`, trimmed, any case): only
/// "remote" is supported, and it needs the strategy engine's URL.
pub fn strategy_url(mode: &str, url: Option<String>) -> (r: Result<String, String>)
    ensures
        match strategy_choice(mode@, opt_owned(url)) {
            Ok(u) => r matches Ok(x) && x@ == u,
            Err(m) => r matches Err(e) && e@ == m,
        },
{
    let key = to_lowercase(trim(mode));
    if str_eq(key.as_str(), "remote") {
        match url {
            Some(u) => Ok(u),
            None => Err(owned("STRATEGY_ENGINE_URL is required for remote strategy")),
        }
    } else {
        Err(joined("unsupported TRADING_STRATEGY_MODE=", key.as_str(), " (allowed: remote)"))
    }
}

/// The risk service's URL: the configured one, `http://localhost:8085` when none
/// is.
pub fn risk_service_url(url: Option<String>) -> (r: String)
    ensures
        r@ == (match url {
            Some(u) => u@,
            None => "http://localhost:8085"@,
        }),
{
    match url {
        Some(u) => u,
        None => owned("http://localhost:8085"),
    }
}

/// Where the plain consumer's strategy signals come from.
#[derive(Debug, Clone)]
pub enum ConsumerStrategy {
    /// The remote strategy engine at this URL.
    Remote { url: String },
    /// No strategy: no signal is ever produced.
    Noop,
}

/// Where the plain consumer's orders go.
#[derive(Debug, Clone)]
pub enum ConsumerExecution {
    /// Binance, with these credentials and this (trimmed) base URL.
    Binance { api_key: String, secret_key: String, base_url: String },
    /// Nowhere: orders are only logged.
    Noop,
}

/// The start-up choices of the plain market event consumer.
#[derive(Debug, Clone)]
pub struct ConsumerSetup {
    /// The strategy source.
    pub strategy: ConsumerStrategy,
    /// The order venue.
    pub execution: ConsumerExecution,
    /// The risk service's URL.
    pub risk_url: String,
    /// Whether the risk state is seeded from the exchange (both keys are set).
    pub sync_from_exchange: bool,
}

/// The first thing the plain consumer's configuration lacks: the strategy
/// engine's URL for a remote strategy, then, for Binance execution, the API key,
/// the secret key and a base URL that is not blank.
pub open spec fn consumer_lack(
    strategy_mode: Seq<char>,
    strategy_url: Option<Seq<char>>,
    execution_mode: Seq<char>,
    api_key: Option<Seq<char>>,
    secret_key: Option<Seq<char>>,
    base_url: Seq<char>,
) -> Option<Seq<char>> {
    if mode_key(strategy_mode) == "remote"@ && strategy_url is None {
        Some("STRATEGY_ENGINE_URL is required for remote strategy"@)
    } else if mode_key(execution_mode) == "binance"@ && api_key is None {
        Some("BINANCE_API_KEY is required for binance execution"@)
    } else if mode_key(execution_mode) == "binance"@ && secret_key is None {
        Some("BINANCE_SECRET_KEY is required for binance execution"@)
    } else if mode_key(execution_mode) == "binance"@ && unicode_trim(base_url).len() == 0 {
        Some("BINANCE_BASE_URL is required for binance execution"@)
    } else {
        None
    }
}

/// The plain market event consumer's start-up choices.  The strategy mode and
/// the execution mode are compared trimmed and in lower case: "remote" takes the
/// strategy engine's URL and any other mode gives no strategy; "binance" takes
/// the API key, the secret key and the trimmed base URL and any other mode gives
/// no venue.  The risk service's URL defaults to `http://localhost:8085`, and the
/// risk state is seeded from the exchange exactly when both keys are set.  The
/// error names the first thing missing.
pub fn consumer_setup(
    strategy_mode: &str,
    strategy_url: Option<String>,
    execution_mode: &str,
    api_key: Option<String>,
    secret_key: Option<String>,
    base_url: &str,
    risk_url: Option<String>,
) -> (r: Result<ConsumerSetup, String>)
    ensures
        r is Err <==> consumer_lack(
            strategy_mode@,
            opt_owned(strategy_url),
            execution_mode@,
            opt_owned(api_key),
            opt_owned(secret_key),
            base_url@,
        ) is Some,
        r matches Err(e) ==> Some(e@) == consumer_lack(
            strategy_mode@,
            opt_owned(strategy_url),
            execution_mode@,
            opt_owned(api_key),
            opt_owned(secret_key),
            base_url@,
        ),
        r matches Ok(s) ==> (if mode_key(strategy_mode@) == "remote"@ {
            s.strategy matches ConsumerStrategy::Remote { url } && Some(url@) == opt_owned(strategy_url)
        } else {
            s.strategy is Noop
        }),
        r matches Ok(s) ==> (if mode_key(execution_mode@) == "binance"@ {
            &&& s.execution matches ConsumerExecution::Binance { api_key: k, secret_key: sk, base_url: u }
            &&& Some(k@) == opt_owned(api_key)
            &&& Some(sk@) == opt_owned(secret_key)
            &&& u@ == unicode_trim(base_url@)
        } else {
            s.execution is Noop
        }),
        r matches Ok(s) ==> s.risk_url@ == (match risk_url {
            Some(u) => u@,
            None => "http://localhost:8085"@,
        }),
        r matches Ok(s) ==> s.sync_from_exchange == (api_key is Some && secret_key is Some),
{
    let sync_from_exchange = api_key.is_some() && secret_key.is_some();
    let strategy_key = to_lowercase(trim(strategy_mode));
    let strategy = if str_eq(strategy_key.as_str(), "remote") {
        match strategy_url {
            Some(url) => ConsumerStrategy::Remote { url },
            None => {
                return Err(owned("STRATEGY_ENGINE_URL is required for remote strategy"));
            },
        }
    } else {
        ConsumerStrategy::Noop
    };
    let risk_url = risk_service_url(risk_url);
    let execution_key = to_lowercase(trim(execution_mode));
    let execution = if str_eq(execution_key.as_str(), "binance") {
        let api_key = match api_key {
            Some(k) => k,
            None => {
                return Err(owned("BINANCE_API_KEY is required for binance execution"));
            },
        };
        let secret_key = match secret_key {
            Some(k) => k,
            None => {
                return Err(owned("BINANCE_SECRET_KEY is required for binance execution"));
            },
        };
        let url = trim(base_url);
        if url.unicode_len() == 0 {
            return Err(owned("BINANCE_BASE_URL is required for binance execution"));
        }
        ConsumerExecution::Binance { api_key, secret_key, base_url: owned(url) }
    } else {
        ConsumerExecution::Noop
    };
    Ok(ConsumerSetup { strategy, execution, risk_url, sync_from_exchange })
}

/// Where the order database is.
#[derive(Debug, Clone)]
pub struct PostgresSettings {
    /// Host (default localhost).
    pub host: String,
    /// Port (default 5432).
    pub port: u16,
    /// User (default postgres).
    pub user: String,
    /// Password (default "password").
    pub password: String,
    /// Database name (default trading_db).
    pub dbname: String,
}

/// A text, or a default when it is not set.
fn text_or(t: Option<&str>, default: &str) -> (r: String)
    ensures
        r@ == (match t {
            Some(s) => s@,
            None => default@,
        }),
{
    match t {
        Some(s) => owned(s),
        None => owned(default),
    }
}

/// The port a text names, as `str::parse::<u16>` reads it; `default` when it is
/// not set or does not parse.
pub open spec fn port_from(t: Option<Seq<char>>, default: u16) -> u16 {
    match t {
        Some(s) => match parsed_u64(s) {
            Some(v) => if v <= 65535 {
                v as u16
            } else {
                default
            },
            None => default,
        },
        None => default,
    }
}

/// The port a value names (read as `str::parse::<u16>` reads it), `default` when
/// the value is not set or does not parse.
pub fn port_or(value: Option<&str>, default: u16) -> (r: u16)
    ensures
        r == port_from(opt_text(value), default),
{
    match value {
        Some(p) => match parse_u64(p) {
            Some(v) => if v <= 65535 {
                v as u16
            } else {
                default
            },
            None => default,
        },
        None => default,
    }
}

/// The database settings from the values of `POSTGRES_HOST`, `POSTGRES_PORT`,
/// `POSTGRES_USER`, `POSTGRES_PASSWORD` and `POSTGRES_DATABASE` (`None` for one
/// that is not set), each with its default.
pub fn postgres_settings(
    host: Option<&str>,
    port: Option<&str>,
    user: Option<&str>,
    password: Option<&str>,
    dbname: Option<&str>,
) -> (r: PostgresSettings)
    ensures
        r.host@ == (match host {
            Some(s) => s@,
            None => "localhost"@,
        }),
        r.port == port_from(opt_text(port), 5432),
        r.user@ == (match user {
            Some(s) => s@,
            None => "postgres"@,
        }),
        r.password@ == (match password {
            Some(s) => s@,
            None => "password"@,
        }),
        r.dbname@ == (match dbname {
            Some(s) => s@,
            None => "trading_db"@,
        }),
{
    PostgresSettings {
        host: text_or(host, "localhost"),
        port: port_or(port, 5432),
        user: text_or(user, "postgres"),
        password: text_or(password, "password"),
        dbname: text_or(dbname, "trading_db"),
    }
}

/// What the market event consumer is built from.
#[derive(Debug, Clone)]
pub struct ConsumerConfig {
    /// Kafka brokers.
    pub kafka_brokers: String,
    /// Topic of market events.
    pub kafka_market_topic: String,
    /// Consumer group.
    pub kafka_consumer_group: String,
    /// Strategy mode.
    pub strategy_mode: String,
    /// Strategy engine URL.
    pub strategy_url: Option<String>,
    /// Execution mode.
    pub execution_mode: String,
    /// Binance API key.
    pub binance_api_key: Option<String>,
    /// Binance secret key.
    pub binance_secret_key: Option<String>,
    /// Binance base URL.
    pub binance_base_url: String,
    /// Risk service URL.
    pub risk_url: Option<String>,
    /// Whether orders are stored.
    pub storage_enabled: bool,
}

/// The trading chain of the consumer: it always has the risk state and the
/// audit trail; it stores orders when storage is enabled and the database
/// answered.
pub fn consumer_execution_service(config: &ConsumerConfig, database_connected: bool) -> (r: ExecutionService)
    ensures
        r.spec_has_risk_state(),
        r.spec_has_audit(),
        r.spec_has_order_repo() == (config.storage_enabled && database_connected),
{
    ExecutionService::with_full_config(true, config.storage_enabled && database_connected, true)
}

} // verus!
