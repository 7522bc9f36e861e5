//! The current time, as the engine reads it.
use vstd::prelude::*;

verus! {

/// Relies on `chrono::Utc::now` and `DateTime::timestamp`: the seconds since
/// the Unix epoch at the time of the call.
#[verifier::external_body]
pub(crate) fn now_seconds() -> (r: i64) {
    chrono::Utc::now().timestamp()
}

/// Relies on `chrono::Utc::now`, `DateTime::date_naive` and
/// `Datelike::num_days_from_ce`: today's day number in UTC.
#[verifier::external_body]
pub(crate) fn today() -> (r: i32) {
    chrono::Datelike::num_days_from_ce(&chrono::Utc::now().date_naive())
}

} // verus!
