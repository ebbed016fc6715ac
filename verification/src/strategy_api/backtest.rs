//! Back-testing a spot strategy on a price series: the request is checked, the
//! strategy's signals are booked against a cash and position ledger, and the
//! result summarises the final position, cash, equity and return.
use crate::decimal::{decimal_from_text, exact_difference, exact_sum, fits_mantissa, max_scale, opt_parts, decimal_difference, decimal_product, decimal_quotient, decimal_sum, lemma_compare_zero, spec_zero, Dec};
use crate::strategy_api::evaluate::{Signal, SignalType};
use crate::strategy_api::strategies::{symbol_key, type_key};
use crate::text::{owned, str_eq, to_ascii_lowercase, to_uppercase, trim, unicode_trim};
use vstd::prelude::*;

verus! {

/// The spot strategies that can be back-tested.
#[derive(Debug, Clone, Copy, PartialEq, Eq, Structural)]
pub enum SpotStrategyKind {
    /// "spot_grid".
    SpotGrid,
    /// "spot_mean_reversion".
    SpotMeanReversion,
}

/// One strategy parameter as the request's JSON gave it: its text when it is a
/// string, its number when it is an unsigned integer, and the decimal of its
/// floating-point value when it has one that a decimal can hold.
#[derive(Debug, Clone)]
pub struct ParamValue {
    /// The string, when the value is one.
    pub text: Option<String>,
    /// The unsigned integer, when the value is one.
    pub unsigned: Option<u64>,
    /// The decimal of the value's floating-point reading, when there is one.
    pub float_decimal: Option<Dec>,
}

/// The parameters a back-tested strategy may be given (each absent when the
/// request does not name it).
#[derive(Debug, Clone)]
pub struct StrategyParams {
    /// `upper_price`.
    pub upper_price: Option<ParamValue>,
    /// `lower_price`.
    pub lower_price: Option<ParamValue>,
    /// `grid_count`.
    pub grid_count: Option<ParamValue>,
    /// `quantity_per_grid`.
    pub quantity_per_grid: Option<ParamValue>,
    /// `window_size`.
    pub window_size: Option<ParamValue>,
    /// `period`, read when `window_size` is absent.
    pub period: Option<ParamValue>,
    /// `threshold_percent`.
    pub threshold_percent: Option<ParamValue>,
    /// `std_dev_multiplier`, read when `threshold_percent` gives no decimal.
    pub std_dev_multiplier: Option<ParamValue>,
    /// `quantity`.
    pub quantity: Option<ParamValue>,
}

/// The spot grid strategy's parameters.
#[derive(Debug, Clone)]
pub struct SpotGridConfig {
    /// Top of the grid.
    pub upper_price: Dec,
    /// Bottom of the grid.
    pub lower_price: Dec,
    /// Number of grid levels.
    pub grid_count: u32,
    /// Quantity per level.
    pub quantity_per_grid: Dec,
}

/// The spot mean reversion strategy's parameters.
#[derive(Debug, Clone)]
pub struct SpotMeanReversionConfig {
    /// Number of prices averaged.
    pub window_size: usize,
    /// Distance from the mean that triggers a trade.
    pub threshold_percent: Dec,
    /// Quantity traded.
    pub quantity: Dec,
}

/// The decimal a parameter gives: its string parsed, or else its floating-point
/// value's decimal.
pub open spec fn param_decimal(v: Option<ParamValue>) -> Option<(int, int)> {
    match v {
        None => None,
        Some(p) => {
            let from_text = match p.text {
                Some(t) => decimal_from_text(t@),
                None => None,
            };
            match from_text {
                Some(d) => Some(d),
                None => match p.float_decimal {
                    Some(f) => Some(f.parts()),
                    None => None,
                },
            }
        },
    }
}

/// The unsigned integer a parameter gives.
pub open spec fn param_unsigned(v: Option<ParamValue>) -> Option<u64> {
    match v {
        Some(p) => p.unsigned,
        None => None,
    }
}

/// The decimal a parameter gives, `default` when it gives none.
pub open spec fn decimal_param_or(v: Option<ParamValue>, default: (int, int)) -> (int, int) {
    match param_decimal(v) {
        Some(d) => d,
        None => default,
    }
}

/// Reads a decimal parameter: its string parsed, or else its floating-point
/// value's decimal.
pub fn read_decimal(value: &Option<ParamValue>) -> (r: Option<Dec>)
    ensures
        opt_parts(r) == param_decimal(*value),
{
    match value {
        None => None,
        Some(p) => {
            let from_text = match &p.text {
                Some(t) => Dec::parse(t.as_str()),
                None => None,
            };
            match from_text {
                Some(d) => Some(d),
                None => p.float_decimal,
            }
        },
    }
}

/// The grid parameters: upper price (default 50000), lower price (default
/// 40000), level count (the integer cut to 32 bits, default 10), quantity per
/// level (default `quantity`).
pub fn parse_spot_grid_config(params: &StrategyParams, quantity: Dec) -> (r: SpotGridConfig)
    ensures
        r.upper_price.parts() == decimal_param_or(params.upper_price, (50_000, 0)),
        r.lower_price.parts() == decimal_param_or(params.lower_price, (40_000, 0)),
        r.grid_count == (match param_unsigned(params.grid_count) {
            Some(n) => n as u32,
            None => 10u32,
        }),
        r.quantity_per_grid.parts() == decimal_param_or(params.quantity_per_grid, quantity.parts()),
{
    let upper_price = match read_decimal(&params.upper_price) {
        Some(d) => d,
        None => Dec::new(50_000, 0),
    };
    let lower_price = match read_decimal(&params.lower_price) {
        Some(d) => d,
        None => Dec::new(40_000, 0),
    };
    let grid_count: u32 = match &params.grid_count {
        Some(p) => match p.unsigned {
            Some(n) => #[verifier::truncate] (n as u32),
            None => 10,
        },
        None => 10,
    };
    let quantity_per_grid = match read_decimal(&params.quantity_per_grid) {
        Some(d) => d,
        None => quantity,
    };
    SpotGridConfig { upper_price, lower_price, grid_count, quantity_per_grid }
}

/// The mean reversion parameters: window (`window_size`, else `period`, cut to
/// the machine word, default 20), threshold (`threshold_percent`, else
/// `std_dev_multiplier`, default 0.02), quantity (default `quantity`).
pub fn parse_spot_mean_config(params: &StrategyParams, quantity: Dec) -> (r: SpotMeanReversionConfig)
    ensures
        r.window_size == (match (if params.window_size is Some { params.window_size } else { params.period }) {
            Some(p) => match p.unsigned {
                Some(n) => n as usize,
                None => 20usize,
            },
            None => 20usize,
        }),
        r.threshold_percent.parts() == (match param_decimal(params.threshold_percent) {
            Some(d) => d,
            None => decimal_param_or(params.std_dev_multiplier, (2, 2)),
        }),
        r.quantity.parts() == decimal_param_or(params.quantity, quantity.parts()),
{
    let window_param = if params.window_size.is_some() {
        &params.window_size
    } else {
        &params.period
    };
    let window_size: usize = match window_param {
        Some(p) => match p.unsigned {
            Some(n) => #[verifier::truncate] (n as usize),
            None => 20,
        },
        None => 20,
    };
    let threshold_percent = match read_decimal(&params.threshold_percent) {
        Some(d) => d,
        None => match read_decimal(&params.std_dev_multiplier) {
            Some(d) => d,
            None => Dec::new(2, 2),
        },
    };
    let quantity = match read_decimal(&params.quantity) {
        Some(d) => d,
        None => quantity,
    };
    SpotMeanReversionConfig { window_size, threshold_percent, quantity }
}

/// A back-test request (the strategy's own parameters travel separately).
#[derive(Debug, Clone)]
pub struct BacktestRequest {
    /// Strategy type.
    pub strategy_type: String,
    /// Trading pair.
    pub symbol: String,
    /// The price series, one tick each.
    pub prices: Vec<Dec>,
    /// Quantity per trade (default 0.001).
    pub quantity: Option<Dec>,
    /// Starting cash (default 10000).
    pub initial_capital: Option<Dec>,
}

/// A checked back-test request.
#[derive(Debug, Clone)]
pub struct BacktestSetup {
    /// The strategy.
    pub kind: SpotStrategyKind,
    /// Strategy type, trimmed and lower-cased.
    pub strategy_type: String,
    /// Trading pair, trimmed and upper-cased.
    pub symbol: String,
    /// Quantity per trade.
    pub quantity: Dec,
    /// Starting cash.
    pub initial_capital: Dec,
}

/// The quantity of a request, 0.001 when none is given.
pub open spec fn quantity_of(req: BacktestRequest) -> (int, int) {
    match req.quantity {
        Some(q) => q.parts(),
        None => (1, 3),
    }
}

/// The starting cash of a request, 10000 when none is given.
pub open spec fn capital_of(req: BacktestRequest) -> (int, int) {
    match req.initial_capital {
        Some(c) => c.parts(),
        None => (10_000, 0),
    }
}

/// The message of a refused back-test, checked in order: fewer than two prices,
/// an empty pair, a quantity not above zero, an unsupported strategy, a price not
/// above zero; `None` when the request is accepted.
pub open spec fn backtest_refusal(req: BacktestRequest) -> Option<Seq<char>> {
    if req.prices@.len() < 2 {
        Some("prices must contain at least 2 points"@)
    } else if unicode_trim(req.symbol@).len() == 0 {
        Some("symbol cannot be empty"@)
    } else if quantity_of(req).0 <= 0 {
        Some("quantity must be positive"@)
    } else if type_key(req.strategy_type@) != "spot_grid"@ && type_key(req.strategy_type@) != "spot_mean_reversion"@ {
        Some("unsupported strategy_type, allowed: spot_grid, spot_mean_reversion"@)
    } else if exists|i: int| 0 <= i < req.prices@.len() && #[trigger] req.prices@[i].parts().0 <= 0 {
        Some("all prices must be positive"@)
    } else {
        None
    }
}

/// Checks a back-test request: the setup, or the message of the first problem.
pub fn prepare_backtest(req: &BacktestRequest) -> (r: Result<BacktestSetup, String>)
    ensures
        match backtest_refusal(*req) {
            Some(m) => r matches Err(e) && e@ == m,
            None => r matches Ok(s) && {
                &&& s.kind == (if type_key(req.strategy_type@) == "spot_grid"@ {
                    SpotStrategyKind::SpotGrid
                } else {
                    SpotStrategyKind::SpotMeanReversion
                })
                &&& s.strategy_type@ == type_key(req.strategy_type@)
                &&& s.symbol@ == symbol_key(req.symbol@)
                &&& s.quantity.parts() == quantity_of(*req)
                &&& s.initial_capital.parts() == capital_of(*req)
            },
        },
{
    if req.prices.len() < 2 {
        return Err(owned("prices must contain at least 2 points"));
    }
    let symbol = to_uppercase(trim(req.symbol.as_str()));
    if symbol.as_str().unicode_len() == 0 {
        return Err(owned("symbol cannot be empty"));
    }
    let strategy_type = to_ascii_lowercase(trim(req.strategy_type.as_str()));
    let quantity = match req.quantity {
        Some(q) => q,
        None => Dec::new(1, 3),
    };
    let zero = Dec::zero();
    proof {
        lemma_compare_zero(quantity);
    }
    if !quantity.gt(&zero) {
        return Err(owned("quantity must be positive"));
    }
    let kind = if str_eq(strategy_type.as_str(), "spot_grid") {
        SpotStrategyKind::SpotGrid
    } else if str_eq(strategy_type.as_str(), "spot_mean_reversion") {
        SpotStrategyKind::SpotMeanReversion
    } else {
        return Err(owned("unsupported strategy_type, allowed: spot_grid, spot_mean_reversion"));
    };
    let mut i: usize = 0;
    while i < req.prices.len()
        invariant
            i <= req.prices@.len(),
            zero == spec_zero(),
            req.prices@.len() >= 2,
            unicode_trim(req.symbol@).len() > 0,
            quantity_of(*req).0 > 0,
            type_key(req.strategy_type@) == "spot_grid"@ || type_key(req.strategy_type@) == "spot_mean_reversion"@,
            forall|j: int| 0 <= j < i ==> #[trigger] req.prices@[j].parts().0 > 0,
        decreases req.prices@.len() - i,
    {
        proof {
            lemma_compare_zero(req.prices@[i as int]);
        }
        if !req.prices[i].gt(&zero) {
            assert(req.prices@[i as int].parts().0 <= 0);
            return Err(owned("all prices must be positive"));
        }
        i = i + 1;
    }
    let initial_capital = match req.initial_capital {
        Some(c) => c,
        None => Dec::new(10_000, 0),
    };
    Ok(BacktestSetup { kind, strategy_type, symbol, quantity, initial_capital })
}

/// The books of a back-test, as (mantissa, scale) pairs and counts.
pub struct LedgerView {
    /// Cash.
    pub cash: (int, int),
    /// Position.
    pub position: (int, int),
    /// Buy signals booked.
    pub buys: nat,
    /// Sell signals booked.
    pub sells: nat,
}

/// The books after one signal: its amount (price times quantity) is computed
/// first; a buy pays the amount and adds the quantity, a sell receives the amount
/// and removes the quantity, a hold changes nothing; `None` where an operation
/// overflows.
pub open spec fn book_signal(l: LedgerView, s: Signal) -> Option<LedgerView> {
    match decimal_product(s.price.parts().0, s.price.parts().1, s.quantity.parts().0, s.quantity.parts().1) {
        None => None,
        Some(n) => match s.signal_type {
            SignalType::Buy => match decimal_difference(l.cash.0, l.cash.1, n.0, n.1) {
                Some(c) => match decimal_sum(l.position.0, l.position.1, s.quantity.parts().0, s.quantity.parts().1) {
                    Some(p) => Some(LedgerView { cash: c, position: p, buys: l.buys + 1, sells: l.sells }),
                    None => None,
                },
                None => None,
            },
            SignalType::Sell => match decimal_sum(l.cash.0, l.cash.1, n.0, n.1) {
                Some(c) => match decimal_difference(l.position.0, l.position.1, s.quantity.parts().0, s.quantity.parts().1) {
                    Some(p) => Some(LedgerView { cash: c, position: p, buys: l.buys, sells: l.sells + 1 }),
                    None => None,
                },
                None => None,
            },
            SignalType::Hold => Some(l),
        },
    }
}

/// What booking a signal does to the books: a buy adds its quantity to the
/// position (never replaces it) and pays its amount, price times quantity, out
/// of cash; a sell removes its quantity from the position and receives its
/// amount; each counts one signal of its kind and leaves the other count; a hold
/// leaves the books as they are.
pub proof fn law_signal_moves_books(l: LedgerView, s: Signal)
    ensures
        book_signal(l, s) matches Some(m) ==> ({
            let q = s.quantity.parts();
            let amount = decimal_product(s.price.parts().0, s.price.parts().1, q.0, q.1);
            let n = amount->0;
            match s.signal_type {
                SignalType::Buy => {
                    &&& Some(m.position) == decimal_sum(l.position.0, l.position.1, q.0, q.1)
                    &&& amount is Some
                    &&& Some(m.cash) == decimal_difference(l.cash.0, l.cash.1, n.0, n.1)
                    &&& m.buys == l.buys + 1
                    &&& m.sells == l.sells
                },
                SignalType::Sell => {
                    &&& Some(m.position) == decimal_difference(l.position.0, l.position.1, q.0, q.1)
                    &&& amount is Some
                    &&& Some(m.cash) == decimal_sum(l.cash.0, l.cash.1, n.0, n.1)
                    &&& m.buys == l.buys
                    &&& m.sells == l.sells + 1
                },
                SignalType::Hold => m == l,
            }
        }),
{
}

/// The books after the signals of each tick in order (a tick may give none).
pub open spec fn book_signals(l: LedgerView, signals: Seq<Option<Signal>>) -> Option<LedgerView>
    decreases signals.len(),
{
    if signals.len() == 0 {
        Some(l)
    } else {
        match book_signals(l, signals.drop_last()) {
            None => None,
            Some(m) => match signals.last() {
                None => Some(m),
                Some(s) => book_signal(m, s),
            },
        }
    }
}

/// The cash and position books of a back-test.
#[derive(Debug, Clone)]
pub struct BacktestLedger {
    /// Cash.
    pub cash: Dec,
    /// Position.
    pub position: Dec,
    /// Buy signals booked.
    pub buy_signals: usize,
    /// Sell signals booked.
    pub sell_signals: usize,
}

impl BacktestLedger {
    /// The books as (mantissa, scale) pairs and counts.
    pub open spec fn books(self) -> LedgerView {
        LedgerView {
            cash: self.cash.parts(),
            position: self.position.parts(),
            buys: self.buy_signals as nat,
            sells: self.sell_signals as nat,
        }
    }

    /// Books that start with `initial_capital` in cash and nothing else.
    pub fn new(initial_capital: Dec) -> (r: Self)
        ensures
            r.books() == (LedgerView { cash: initial_capital.parts(), position: (0, 0), buys: 0, sells: 0 }),
    {
        BacktestLedger { cash: initial_capital, position: Dec::zero(), buy_signals: 0, sell_signals: 0 }
    }

    /// Books one signal (see `book_signal`).
    pub fn record(&mut self, s: &Signal)
        requires
            book_signal(old(self).books(), *s) is Some,
            old(self).buy_signals < usize::MAX,
            old(self).sell_signals < usize::MAX,
        ensures
            Some(final(self).books()) == book_signal(old(self).books(), *s),
            s.signal_type == SignalType::Buy && fits_mantissa(exact_sum(old(self).position, s.quantity)) ==> final(self).position.has_value(
                exact_sum(old(self).position, s.quantity),
                max_scale(old(self).position, s.quantity),
            ),
            s.signal_type == SignalType::Sell && fits_mantissa(exact_difference(old(self).position, s.quantity))
                ==> final(self).position.has_value(
                exact_difference(old(self).position, s.quantity),
                max_scale(old(self).position, s.quantity),
            ),
            s.signal_type == SignalType::Hold ==> final(self).position == old(self).position && final(self).cash == old(self).cash,
    {
        let notional = s.price.mul(&s.quantity);
        match s.signal_type {
            SignalType::Buy => {
                self.buy_signals = self.buy_signals + 1;
                self.cash = self.cash.sub(&notional);
                self.position = self.position.add(&s.quantity);
            },
            SignalType::Sell => {
                self.sell_signals = self.sell_signals + 1;
                self.cash = self.cash.add(&notional);
                self.position = self.position.sub(&s.quantity);
            },
            SignalType::Hold => {},
        }
    }

    /// Books one signal where that can be done; `false`, with the books
    /// unchanged, where an operation overflows.
    pub fn try_record(&mut self, s: &Signal) -> (r: bool)
        requires
            old(self).buy_signals < usize::MAX,
            old(self).sell_signals < usize::MAX,
        ensures
            r == book_signal(old(self).books(), *s) is Some,
            r ==> Some(final(self).books()) == book_signal(old(self).books(), *s),
            !r ==> final(self).books() == old(self).books(),
    {
        let fits = match s.price.checked_mul(&s.quantity) {
            None => false,
            Some(n) => match s.signal_type {
                SignalType::Buy => self.cash.checked_sub(&n).is_some() && self.position.checked_add(&s.quantity).is_some(),
                SignalType::Sell => self.cash.checked_add(&n).is_some() && self.position.checked_sub(&s.quantity).is_some(),
                SignalType::Hold => true,
            },
        };
        if fits {
            self.record(s);
        }
        fits
    }
}

/// The result of a back-test.
#[derive(Debug, Clone)]
pub struct BacktestResponse {
    /// Strategy type.
    pub strategy_type: String,
    /// Trading pair.
    pub symbol: String,
    /// Number of prices.
    pub total_ticks: usize,
    /// Buy signals booked.
    pub buy_signals: usize,
    /// Sell signals booked.
    pub sell_signals: usize,
    /// Final position.
    pub final_position: Dec,
    /// Final cash.
    pub final_cash: Dec,
    /// Cash plus the position valued at the last price.
    pub final_equity: Dec,
    /// (Equity - starting cash) / starting cash; zero with no starting cash.
    pub total_return: Dec,
}

/// The final equity and return: equity is cash plus position times the last
/// price; the return is (equity - capital) / capital, zero when the capital is
/// zero; `None` where an operation overflows.
pub open spec fn final_figures(l: LedgerView, last_price: (int, int), capital: (int, int)) -> Option<((int, int), (int, int))> {
    match decimal_product(l.position.0, l.position.1, last_price.0, last_price.1) {
        None => None,
        Some(v) => match decimal_sum(l.cash.0, l.cash.1, v.0, v.1) {
            None => None,
            Some(e) => if capital.0 == 0 {
                Some((e, (0, 0)))
            } else {
                match decimal_difference(e.0, e.1, capital.0, capital.1) {
                    None => None,
                    Some(g) => match decimal_quotient(g.0, g.1, capital.0, capital.1) {
                        None => None,
                        Some(t) => Some((e, t)),
                    },
                }
            },
        },
    }
}

/// The final figures: the equity is the cash plus the position valued at the
/// last price (position times price); with no starting capital the return is
/// zero, otherwise it is the gain (equity minus capital) divided by the capital.
pub proof fn law_final_figures(l: LedgerView, last_price: (int, int), capital: (int, int))
    ensures
        final_figures(l, last_price, capital) matches Some(f) ==> ({
            let value = decimal_product(l.position.0, l.position.1, last_price.0, last_price.1);
            let v = value->0;
            let equity = f.0;
            let gain = decimal_difference(equity.0, equity.1, capital.0, capital.1);
            let g = gain->0;
            &&& value is Some
            &&& Some(f.0) == decimal_sum(l.cash.0, l.cash.1, v.0, v.1)
            &&& capital.0 == 0 ==> f.1 == (0int, 0int)
            &&& capital.0 != 0 ==> gain is Some && Some(f.1) == decimal_quotient(g.0, g.1, capital.0, capital.1)
        }),
{
}

/// `r` summarises the back-test `setup` over `ticks` prices with final books
/// `l` and figures `f`.
pub open spec fn summarises(r: BacktestResponse, setup: BacktestSetup, ticks: nat, l: LedgerView, f: ((int, int), (int, int))) -> bool {
    &&& r.strategy_type@ == setup.strategy_type@
    &&& r.symbol@ == setup.symbol@
    &&& r.total_ticks == ticks
    &&& r.buy_signals == l.buys
    &&& r.sell_signals == l.sells
    &&& r.final_position.parts() == l.position
    &&& r.final_cash.parts() == l.cash
    &&& r.final_equity.parts() == f.0
    &&& r.total_return.parts() == f.1
}

/// The result of a back-test from its setup, its prices (two or more) and the
/// strategy's signal at each tick: the signals are booked in order from the
/// starting cash, and the equity is taken at the last price.  `None` where an
/// operation overflows.
pub fn backtest_from_signals(setup: &BacktestSetup, prices: &Vec<Dec>, signals: &Vec<Option<Signal>>) -> (r: Option<
    BacktestResponse,
>)
    requires
        prices@.len() >= 1,
    ensures
        r is Some <==> (book_signals(
            LedgerView { cash: setup.initial_capital.parts(), position: (0, 0), buys: 0, sells: 0 },
            signals@,
        ) matches Some(l) && final_figures(l, prices@.last().parts(), setup.initial_capital.parts()) is Some),
        r matches Some(res) ==> (book_signals(
            LedgerView { cash: setup.initial_capital.parts(), position: (0, 0), buys: 0, sells: 0 },
            signals@,
        ) matches Some(l) && final_figures(l, prices@.last().parts(), setup.initial_capital.parts()) matches Some(f)
            && summarises(res, *setup, prices@.len(), l, f)),
{
    let mut ledger = BacktestLedger::new(setup.initial_capital);
    let ghost start = ledger.books();
    let mut i: usize = 0;
    while i < signals.len()
        invariant
            i <= signals@.len(),
            start == (LedgerView { cash: setup.initial_capital.parts(), position: (0, 0), buys: 0, sells: 0 }),
            ledger.buy_signals + ledger.sell_signals <= i,
            book_signals(start, signals@.take(i as int)) == Some(ledger.books()),
        decreases signals@.len() - i,
    {
        assert(signals@.take(i + 1).drop_last() =~= signals@.take(i as int));
        assert(signals@.take(i + 1).last() == signals@[i as int]);
        if let Some(s) = &signals[i] {
            if !ledger.try_record(s) {
                proof {
                    assert(book_signals(start, signals@.take(i + 1)) is None);
                    lemma_booking_fails_from(start, signals@, i + 1);
                }
                return None;
            }
        }
        i = i + 1;
    }
    assert(signals@.take(i as int) =~= signals@);
    let last_price = prices[prices.len() - 1];
    let capital = setup.initial_capital;
    let valued = match ledger.position.checked_mul(&last_price) {
        Some(v) => v,
        None => {
            return None;
        },
    };
    let equity = match ledger.cash.checked_add(&valued) {
        Some(e) => e,
        None => {
            return None;
        },
    };
    let total_return = if capital.is_zero() {
        Dec::zero()
    } else {
        let gain = match equity.checked_sub(&capital) {
            Some(g) => g,
            None => {
                return None;
            },
        };
        match gain.checked_div(&capital) {
            Some(t) => t,
            None => {
                return None;
            },
        }
    };
    Some(BacktestResponse {
        strategy_type: setup.strategy_type.clone(),
        symbol: setup.symbol.clone(),
        total_ticks: prices.len(),
        buy_signals: ledger.buy_signals,
        sell_signals: ledger.sell_signals,
        final_position: ledger.position,
        final_cash: ledger.cash,
        final_equity: equity,
        total_return,
    })
}

/// Once booking a prefix of the signals fails, booking all of them fails.
proof fn lemma_booking_fails_from(l: LedgerView, signals: Seq<Option<Signal>>, k: int)
    requires
        0 <= k <= signals.len(),
        book_signals(l, signals.take(k)) is None,
    ensures
        book_signals(l, signals) is None,
    decreases signals.len() - k,
{
    if k < signals.len() {
        assert(signals.take(k + 1).drop_last() =~= signals.take(k));
        lemma_booking_fails_from(l, signals, k + 1);
    } else {
        assert(signals.take(k) =~= signals);
    }
}

} // verus!
