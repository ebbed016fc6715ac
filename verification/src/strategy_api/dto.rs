//! The response envelope and the health answer.
use crate::text::owned;
use vstd::prelude::*;

verus! {

/// The envelope of every answer: the data on success, the error otherwise.
#[derive(Debug, Clone)]
pub struct ApiResponse<T> {
    /// Whether the request succeeded.
    pub success: bool,
    /// The answer, on success.
    pub data: Option<T>,
    /// What went wrong, on failure.
    pub error: Option<String>,
}

impl<T> ApiResponse<T> {
    /// A successful answer carrying `data`.
    pub fn ok(data: T) -> (r: Self)
        ensures
            r.success,
            r.data == Some(data),
            r.error is None,
    {
        ApiResponse { success: true, data: Some(data), error: None }
    }

    /// A failed answer carrying the message `msg`.
    pub fn err(msg: String) -> (r: Self)
        ensures
            !r.success,
            r.data is None,
            r.error matches Some(e) && e@ == msg@,
    {
        ApiResponse { success: false, data: None, error: Some(msg) }
    }
}

/// The health answer.
#[derive(Debug, Clone)]
pub struct HealthResponse {
    /// "healthy".
    pub status: String,
    /// The service name.
    pub service: String,
}

/// The health answer of the strategy engine: healthy.
pub fn health_response() -> (r: HealthResponse)
    ensures
        r.status@ == "healthy"@,
        r.service@ == "strategy-engine"@,
{
    HealthResponse { status: owned("healthy"), service: owned("strategy-engine") }
}

} // verus!
