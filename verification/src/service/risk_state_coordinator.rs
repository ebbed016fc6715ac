//! The one place that rebuilds the risk state: at start-up, after the exchange
//! stream reconnects, or on demand.  A rebuild syncs from the exchange when an
//! exchange query port is configured and is skipped otherwise; the state counts
//! as initialized once a rebuild has succeeded.
use crate::text::owned;
use vstd::prelude::*;

verus! {

/// Why the risk state is rebuilt.
#[derive(Debug, Clone, Copy, PartialEq, Eq, Structural)]
pub enum RebuildReason {
    /// The service started.
    Startup,
    /// The exchange stream reconnected.
    WsReconnect,
    /// Someone asked for it.
    Manual,
}

impl RebuildReason {
    /// The text of each reason.
    pub open spec fn spec_text(self) -> Seq<char> {
        match self {
            RebuildReason::Startup => "startup"@,
            RebuildReason::WsReconnect => "ws_reconnect"@,
            RebuildReason::Manual => "manual"@,
        }
    }

    /// The reason as text.
    pub fn as_str(&self) -> (r: &'static str)
        ensures
            r@ == self.spec_text(),
    {
        match self {
            RebuildReason::Startup => "startup",
            RebuildReason::WsReconnect => "ws_reconnect",
            RebuildReason::Manual => "manual",
        }
    }

    /// The reason as an owned text (what it displays as).
    pub fn to_string(&self) -> (r: String)
        ensures
            r@ == self.spec_text(),
    {
        owned(self.as_str())
    }
}

/// What a rebuild does.
#[derive(Debug, Clone, Copy, PartialEq, Eq, Structural)]
pub enum RebuildAction {
    /// Sync balances, positions and open orders from the exchange.
    SyncFromExchange,
    /// Nothing to sync from: no exchange query port is configured.
    Skip,
}

/// Tracks whether the risk state has been rebuilt, and decides what a rebuild
/// does.
#[derive(Debug)]
pub struct RiskStateCoordinator {
    has_exchange_query: bool,
    initialized: bool,
}

impl RiskStateCoordinator {
    /// Whether an exchange query port is configured.
    pub closed spec fn spec_has_exchange_query(self) -> bool {
        self.has_exchange_query
    }

    /// Whether a rebuild has succeeded.
    pub closed spec fn spec_initialized(self) -> bool {
        self.initialized
    }

    /// A coordinator, not yet initialized.
    pub fn new(has_exchange_query: bool) -> (r: Self)
        ensures
            r.spec_has_exchange_query() == has_exchange_query,
            !r.spec_initialized(),
    {
        RiskStateCoordinator { has_exchange_query, initialized: false }
    }

    /// Whether a rebuild has succeeded.
    pub fn is_initialized(&self) -> (r: bool)
        ensures
            r == self.spec_initialized(),
    {
        self.initialized
    }

    /// What a rebuild does: sync from the exchange when a query port is
    /// configured, skip otherwise.
    pub fn rebuild_action(&self) -> (r: RebuildAction)
        ensures
            r == (if self.spec_has_exchange_query() {
                RebuildAction::SyncFromExchange
            } else {
                RebuildAction::Skip
            }),
    {
        if self.has_exchange_query {
            RebuildAction::SyncFromExchange
        } else {
            RebuildAction::Skip
        }
    }

    /// Records how a rebuild ended and returns that outcome: a rebuild that
    /// succeeded (a skipped one included) marks the state initialized; a failed
    /// one changes nothing.
    pub fn finish_rebuild(&mut self, outcome: Result<(), String>) -> (r: Result<(), String>)
        ensures
            r == outcome,
            final(self).spec_has_exchange_query() == old(self).spec_has_exchange_query(),
            final(self).spec_initialized() == (old(self).spec_initialized() || outcome is Ok),
    {
        if outcome.is_ok() {
            self.initialized = true;
        }
        outcome
    }

    /// A rebuild with nothing to sync from: it succeeds.
    pub fn skip_rebuild(&mut self) -> (r: Result<(), String>)
        ensures
            r is Ok,
            final(self).spec_has_exchange_query() == old(self).spec_has_exchange_query(),
            final(self).spec_initialized(),
    {
        self.finish_rebuild(Ok(()))
    }
}

} // verus!
