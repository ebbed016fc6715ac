# trading_engine

The domain of a small crypto trading system, verified with Verus: the risk
rules and the engine that runs them, the account snapshot they read, the
decisions that keep that snapshot in step with orders, fills and the exchange,
start-up configuration, and the strategy engine's request checks and
back-test accounting.

Layout:

- `src/decimal.rs` — fixed-point decimals; arithmetic, comparison, parsing and
  display are done by `rust_decimal`, and what they return is stated or named.
- `src/text.rs` — case mapping, trimming, integer parsing and comparisons of
  texts.
- `src/model/` — orders, intents, trades, fills, acceptances, cancellations,
  audit records.
- `src/risk_state.rs` — the account snapshot (balances, positions, open orders).
- `src/risk/` — rejection reasons and results, the rules, the engine.
- `src/port/` — execution commands and what the exchange reports.
- `src/service/` — the decisions of the trading chain, the fill processor, the
  order time-out check, the risk state rebuild and its seeding.
- `src/bootstrap.rs` — start-up choices read from configuration values.
- `src/strategy_api/` — the strategy engine's answers, configuration, strategy
  creation and listing, and back-tests.
- `app/` — the HTTP service, the asynchronous ports and the loops that carry the
  library's decisions out; it is not verified.
- `tests/` — tests of the library on concrete values.
