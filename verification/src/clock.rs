//! Readings of the wall clock. A clock reading promises nothing about its
//! value, so every function that computes with a time takes the reading as an
//! argument and is verified for every value of it.

use vstd::prelude::*;

verus! {

/// Milliseconds since the Unix epoch.
///
/// Relies on `std::time::SystemTime::now`; a clock before the epoch reads as 0
/// instead of failing.
#[verifier::external_body]
pub fn now_millis() -> u64 {
    std::time::SystemTime::now().duration_since(std::time::UNIX_EPOCH).map(
        |d| d.as_millis() as u64,
    ).unwrap_or(0)
}

/// Seconds since the Unix epoch.
///
/// Relies on `chrono::Utc::now`.
#[verifier::external_body]
pub fn now_epoch_seconds() -> i64 {
    chrono::Utc::now().timestamp()
}

/// The current instant written in RFC 3339 form, for outbound timestamps.
///
/// Relies on `chrono::Utc::now` and `chrono::DateTime::to_rfc3339`.
#[verifier::external_body]
pub fn now_rfc3339() -> String {
    chrono::Utc::now().to_rfc3339()
}

} // verus!
