//! Access to the clocks, and reading RFC 3339 timestamps. Nothing is
//! promised of the clock readings: they depend on when the call is made.
use vstd::prelude::*;

verus! {

#[verifier::external_type_specification]
#[verifier::external_body]
pub struct ExInstant(std::time::Instant);

/// `std::time::Instant::now`: the current monotonic instant.
#[verifier::external_body]
pub(crate) fn instant_now() -> (r: std::time::Instant) {
    std::time::Instant::now()
}

/// `std::time::Instant::elapsed`, in whole milliseconds: the time since the
/// instant.
#[verifier::external_body]
pub(crate) fn elapsed_millis(since: &std::time::Instant) -> (r: u128) {
    since.elapsed().as_millis()
}

/// `chrono::Local::now().timestamp_millis()`: the wall-clock time in
/// milliseconds since the Unix epoch.
#[verifier::external_body]
pub(crate) fn now_millis() -> (r: i64) {
    chrono::Local::now().timestamp_millis()
}

/// The instant an RFC 3339 timestamp names, in milliseconds since the Unix
/// epoch, as `chrono::DateTime::parse_from_rfc3339` reads it (`None` when it
/// does not parse).
pub uninterp spec fn rfc3339_millis(text: Seq<char>) -> Option<i64>;

/// Calls `chrono::DateTime::parse_from_rfc3339` and
/// `DateTime::timestamp_millis`. Claims only that the result is the one
/// named `rfc3339_millis`; the grammar is chrono's.
#[verifier::external_body]
pub(crate) fn parse_rfc3339_millis(text: &str) -> (r: Option<i64>)
    ensures
        r == rfc3339_millis(text@),
{
    match chrono::DateTime::parse_from_rfc3339(text) {
        Ok(dt) => Some(dt.timestamp_millis()),
        Err(_) => None,
    }
}

} // verus!
