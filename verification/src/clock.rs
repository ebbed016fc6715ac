//! The wall clock and fresh identifiers.
use vstd::prelude::*;

verus! {

/// Calls `uuid::Uuid::new_v4` and returns the identifier as its 128-bit number.
/// The identifier is random: nothing is promised of it.
#[verifier::external_body]
pub(crate) fn new_id() -> u128 {
    uuid::Uuid::new_v4().as_u128()
}

/// Calls `chrono::Utc::now` and returns its `timestamp_millis`.  The time is read
/// from the machine: nothing is promised of it.
#[verifier::external_body]
pub(crate) fn now_millis() -> i64 {
    chrono::Utc::now().timestamp_millis()
}

} // verus!
