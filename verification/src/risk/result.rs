//! The structured outcome of a risk check.
use crate::decimal::{decimal_text, Dec};
use crate::text::{decimal_digits, u64_text};
use vstd::prelude::*;
use vstd::string::*;

verus! {

/// Why a risk check rejected an intent.
#[derive(Debug, Clone)]
pub enum RiskRejectReason {
    /// The position would exceed its limit.
    PositionLimitExceeded {
        /// Current position.
        current: Dec,
        /// Requested quantity.
        requested: Dec,
        /// Largest allowed position.
        max_allowed: Dec,
    },
    /// Too many open orders.
    OpenOrderLimitExceeded {
        /// Current number of open orders.
        current: usize,
        /// Largest allowed number.
        max_allowed: usize,
    },
    /// The order quantity is too large.
    OrderQuantityExceeded {
        /// Requested quantity.
        requested: Dec,
        /// Largest allowed quantity.
        max_allowed: Dec,
    },
    /// The order quantity is too small.
    OrderQuantityTooSmall {
        /// Requested quantity.
        requested: Dec,
        /// Smallest allowed quantity.
        min_required: Dec,
    },
    /// The notional value is too large.
    NotionalValueExceeded {
        /// Notional value.
        notional: Dec,
        /// Largest allowed value.
        max_allowed: Dec,
    },
    /// The trading pair is not allowed.
    SymbolNotAllowed {
        /// The pair.
        symbol: String,
    },
    /// Not enough balance.
    InsufficientBalance {
        /// Asset.
        asset: String,
        /// Available amount.
        available: Dec,
        /// Required amount.
        required: Dec,
    },
    /// Leverage too high.
    LeverageExceeded {
        /// Current leverage.
        current: Dec,
        /// Largest allowed leverage.
        max_allowed: Dec,
    },
    /// Drawdown too large.
    DrawdownExceeded {
        /// Current drawdown.
        current: Dec,
        /// Largest allowed drawdown.
        max_allowed: Dec,
    },
    /// A cool-down has not yet expired.
    CooldownNotExpired {
        /// Seconds left.
        remaining_seconds: u64,
    },
    /// The estimated notional of a market order is too large.
    MarketOrderNotionalExceeded {
        /// The pair.
        symbol: String,
        /// Estimated notional.
        estimated_notional: Dec,
        /// Largest allowed notional.
        max_allowed: Dec,
    },
    /// The margin ratio is below the critical threshold: no new positions.
    MarginRatioTooLow {
        /// Current margin ratio.
        current_ratio: Dec,
        /// Critical threshold.
        critical_threshold: Dec,
    },
    /// A rejection by some other rule.
    Custom {
        /// The rule's name.
        rule_name: String,
        /// The message.
        message: String,
    },
}

/// The displayed text of a decimal.
pub open spec fn dt(d: Dec) -> Seq<char> {
    decimal_text(d.parts().0, d.parts().1)
}

impl RiskRejectReason {
    /// The code of each kind of rejection.
    pub open spec fn spec_code(self) -> Seq<char> {
        match self {
            RiskRejectReason::PositionLimitExceeded { .. } => "POSITION_LIMIT_EXCEEDED"@,
            RiskRejectReason::OpenOrderLimitExceeded { .. } => "OPEN_ORDER_LIMIT_EXCEEDED"@,
            RiskRejectReason::OrderQuantityExceeded { .. } => "ORDER_QTY_EXCEEDED"@,
            RiskRejectReason::OrderQuantityTooSmall { .. } => "ORDER_QTY_TOO_SMALL"@,
            RiskRejectReason::NotionalValueExceeded { .. } => "NOTIONAL_EXCEEDED"@,
            RiskRejectReason::SymbolNotAllowed { .. } => "SYMBOL_NOT_ALLOWED"@,
            RiskRejectReason::InsufficientBalance { .. } => "INSUFFICIENT_BALANCE"@,
            RiskRejectReason::LeverageExceeded { .. } => "LEVERAGE_EXCEEDED"@,
            RiskRejectReason::DrawdownExceeded { .. } => "DRAWDOWN_EXCEEDED"@,
            RiskRejectReason::CooldownNotExpired { .. } => "COOLDOWN_NOT_EXPIRED"@,
            RiskRejectReason::MarketOrderNotionalExceeded { .. } => "MARKET_ORDER_NOTIONAL_EXCEEDED"@,
            RiskRejectReason::MarginRatioTooLow { .. } => "MARGIN_RATIO_TOO_LOW"@,
            RiskRejectReason::Custom { .. } => "CUSTOM_REJECT"@,
        }
    }

    /// The human-readable message of each kind of rejection.
    pub open spec fn spec_message(self) -> Seq<char> {
        match self {
            RiskRejectReason::PositionLimitExceeded { current, requested, max_allowed } =>
                "持仓限制超限: 当前="@ + dt(current) + ", 请求="@ + dt(requested) + ", 最大允许="@ + dt(max_allowed),
            RiskRejectReason::OpenOrderLimitExceeded { current, max_allowed } =>
                "未完成订单数量超限: 当前="@ + decimal_digits(current as nat) + ", 最大允许="@ + decimal_digits(max_allowed as nat),
            RiskRejectReason::OrderQuantityExceeded { requested, max_allowed } =>
                "单笔订单数量超限: 请求="@ + dt(requested) + ", 最大允许="@ + dt(max_allowed),
            RiskRejectReason::OrderQuantityTooSmall { requested, min_required } =>
                "单笔订单数量过小: 请求="@ + dt(requested) + ", 最小要求="@ + dt(min_required),
            RiskRejectReason::NotionalValueExceeded { notional, max_allowed } =>
                "名义价值超限: 名义价值="@ + dt(notional) + ", 最大允许="@ + dt(max_allowed),
            RiskRejectReason::SymbolNotAllowed { symbol } => "交易对不在白名单: "@ + symbol@,
            RiskRejectReason::InsufficientBalance { asset, available, required } =>
                "余额不足: 资产="@ + asset@ + ", 可用="@ + dt(available) + ", 需要="@ + dt(required),
            RiskRejectReason::LeverageExceeded { current, max_allowed } =>
                "杠杆超限: 当前="@ + dt(current) + ", 最大允许="@ + dt(max_allowed),
            RiskRejectReason::DrawdownExceeded { current, max_allowed } =>
                "回撤超限: 当前="@ + dt(current) + ", 最大允许="@ + dt(max_allowed),
            RiskRejectReason::CooldownNotExpired { remaining_seconds } =>
                "冷却时间未到: 剩余 "@ + decimal_digits(remaining_seconds as nat) + " 秒"@,
            RiskRejectReason::MarketOrderNotionalExceeded { symbol, estimated_notional, max_allowed } =>
                "市价单估算名义金额超限: 交易对="@ + symbol@ + ", 估算金额="@ + dt(estimated_notional) + ", 最大允许="@ + dt(max_allowed),
            RiskRejectReason::MarginRatioTooLow { current_ratio, critical_threshold } =>
                "保证金率过低，禁止开仓: 当前="@ + dt(current_ratio) + ", 临界阈值="@ + dt(critical_threshold),
            RiskRejectReason::Custom { rule_name, message } => "["@ + rule_name@ + "] "@ + message@,
        }
    }

    /// The code of this rejection (for logs and monitoring).
    pub fn code(&self) -> (r: &'static str)
        ensures
            r@ == self.spec_code(),
    {
        match self {
            RiskRejectReason::PositionLimitExceeded { .. } => "POSITION_LIMIT_EXCEEDED",
            RiskRejectReason::OpenOrderLimitExceeded { .. } => "OPEN_ORDER_LIMIT_EXCEEDED",
            RiskRejectReason::OrderQuantityExceeded { .. } => "ORDER_QTY_EXCEEDED",
            RiskRejectReason::OrderQuantityTooSmall { .. } => "ORDER_QTY_TOO_SMALL",
            RiskRejectReason::NotionalValueExceeded { .. } => "NOTIONAL_EXCEEDED",
            RiskRejectReason::SymbolNotAllowed { .. } => "SYMBOL_NOT_ALLOWED",
            RiskRejectReason::InsufficientBalance { .. } => "INSUFFICIENT_BALANCE",
            RiskRejectReason::LeverageExceeded { .. } => "LEVERAGE_EXCEEDED",
            RiskRejectReason::DrawdownExceeded { .. } => "DRAWDOWN_EXCEEDED",
            RiskRejectReason::CooldownNotExpired { .. } => "COOLDOWN_NOT_EXPIRED",
            RiskRejectReason::MarketOrderNotionalExceeded { .. } => "MARKET_ORDER_NOTIONAL_EXCEEDED",
            RiskRejectReason::MarginRatioTooLow { .. } => "MARGIN_RATIO_TOO_LOW",
            RiskRejectReason::Custom { .. } => "CUSTOM_REJECT",
        }
    }

    /// The human-readable message of this rejection.
    pub fn message(&self) -> (r: String)
        ensures
            r@ == self.spec_message(),
    {
        match self {
            RiskRejectReason::PositionLimitExceeded { current, requested, max_allowed } => {
                let mut s = String::from_str("持仓限制超限: 当前=");
                s.append(current.to_string().as_str());
                s.append(", 请求=");
                s.append(requested.to_string().as_str());
                s.append(", 最大允许=");
                s.append(max_allowed.to_string().as_str());
                s
            },
            RiskRejectReason::OpenOrderLimitExceeded { current, max_allowed } => {
                let mut s = String::from_str("未完成订单数量超限: 当前=");
                s.append(u64_text(*current as u64).as_str());
                s.append(", 最大允许=");
                s.append(u64_text(*max_allowed as u64).as_str());
                s
            },
            RiskRejectReason::OrderQuantityExceeded { requested, max_allowed } => {
                let mut s = String::from_str("单笔订单数量超限: 请求=");
                s.append(requested.to_string().as_str());
                s.append(", 最大允许=");
                s.append(max_allowed.to_string().as_str());
                s
            },
            RiskRejectReason::OrderQuantityTooSmall { requested, min_required } => {
                let mut s = String::from_str("单笔订单数量过小: 请求=");
                s.append(requested.to_string().as_str());
                s.append(", 最小要求=");
                s.append(min_required.to_string().as_str());
                s
            },
            RiskRejectReason::NotionalValueExceeded { notional, max_allowed } => {
                let mut s = String::from_str("名义价值超限: 名义价值=");
                s.append(notional.to_string().as_str());
                s.append(", 最大允许=");
                s.append(max_allowed.to_string().as_str());
                s
            },
            RiskRejectReason::SymbolNotAllowed { symbol } => {
                let mut s = String::from_str("交易对不在白名单: ");
                s.append(symbol.as_str());
                s
            },
            RiskRejectReason::InsufficientBalance { asset, available, required } => {
                let mut s = String::from_str("余额不足: 资产=");
                s.append(asset.as_str());
                s.append(", 可用=");
                s.append(available.to_string().as_str());
                s.append(", 需要=");
                s.append(required.to_string().as_str());
                s
            },
            RiskRejectReason::LeverageExceeded { current, max_allowed } => {
                let mut s = String::from_str("杠杆超限: 当前=");
                s.append(current.to_string().as_str());
                s.append(", 最大允许=");
                s.append(max_allowed.to_string().as_str());
                s
            },
            RiskRejectReason::DrawdownExceeded { current, max_allowed } => {
                let mut s = String::from_str("回撤超限: 当前=");
                s.append(current.to_string().as_str());
                s.append(", 最大允许=");
                s.append(max_allowed.to_string().as_str());
                s
            },
            RiskRejectReason::CooldownNotExpired { remaining_seconds } => {
                let mut s = String::from_str("冷却时间未到: 剩余 ");
                s.append(u64_text(*remaining_seconds).as_str());
                s.append(" 秒");
                s
            },
            RiskRejectReason::MarketOrderNotionalExceeded { symbol, estimated_notional, max_allowed } => {
                let mut s = String::from_str("市价单估算名义金额超限: 交易对=");
                s.append(symbol.as_str());
                s.append(", 估算金额=");
                s.append(estimated_notional.to_string().as_str());
                s.append(", 最大允许=");
                s.append(max_allowed.to_string().as_str());
                s
            },
            RiskRejectReason::MarginRatioTooLow { current_ratio, critical_threshold } => {
                let mut s = String::from_str("保证金率过低，禁止开仓: 当前=");
                s.append(current_ratio.to_string().as_str());
                s.append(", 临界阈值=");
                s.append(critical_threshold.to_string().as_str());
                s
            },
            RiskRejectReason::Custom { rule_name, message } => {
                let mut s = String::from_str("[");
                s.append(rule_name.as_str());
                s.append("] ");
                s.append(message.as_str());
                s
            },
        }
    }
}

/// The outcome of a risk check: passed, or rejected with a reason.
#[derive(Debug, Clone)]
pub enum RiskCheckResult {
    /// Passed.
    Passed,
    /// Rejected.
    Rejected(RiskRejectReason),
}

/// The error text of a rejection: its code, ": ", its message.
pub open spec fn rejection_text(reason: RiskRejectReason) -> Seq<char> {
    reason.spec_code() + ": "@ + reason.spec_message()
}

impl RiskCheckResult {
    /// A passed result.
    pub fn passed() -> (r: Self)
        ensures
            r is Passed,
    {
        RiskCheckResult::Passed
    }

    /// A rejection with `reason`.
    pub fn rejected(reason: RiskRejectReason) -> (r: Self)
        ensures
            r == RiskCheckResult::Rejected(reason),
    {
        RiskCheckResult::Rejected(reason)
    }

    /// Whether the check passed.
    pub fn is_passed(&self) -> (r: bool)
        ensures
            r == (*self is Passed),
    {
        match self {
            RiskCheckResult::Passed => true,
            RiskCheckResult::Rejected(_) => false,
        }
    }

    /// Whether the check rejected.
    pub fn is_rejected(&self) -> (r: bool)
        ensures
            r == (*self is Rejected),
    {
        match self {
            RiskCheckResult::Passed => false,
            RiskCheckResult::Rejected(_) => true,
        }
    }

    /// The reason of a rejection, `None` when the check passed.
    pub fn reject_reason(&self) -> (r: Option<&RiskRejectReason>)
        ensures
            match *self {
                RiskCheckResult::Passed => r is None,
                RiskCheckResult::Rejected(reason) => r == Some(&reason),
            },
    {
        match self {
            RiskCheckResult::Rejected(reason) => Some(reason),
            RiskCheckResult::Passed => None,
        }
    }

    /// `Ok(())` when passed; when rejected, an error reading "code: message".
    pub fn into_result(self) -> (r: Result<(), String>)
        ensures
            match self {
                RiskCheckResult::Passed => r is Ok,
                RiskCheckResult::Rejected(reason) => r matches Err(e) && e@ == rejection_text(reason),
            },
    {
        match self {
            RiskCheckResult::Passed => Ok(()),
            RiskCheckResult::Rejected(reason) => {
                let mut e = String::from_str(reason.code());
                e.append(": ");
                e.append(reason.message().as_str());
                Err(e)
            },
        }
    }
}

/// A result either passed or was rejected, never both; it carries a reason exactly
/// when it was rejected.
pub proof fn lemma_passed_xor_rejected(r: RiskCheckResult)
    ensures
        (r is Passed) != (r is Rejected),
{
}

} // verus!
