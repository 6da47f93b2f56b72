//! Timestamps, relied on from the `chrono` crate.
//!
//! Expiry instants are modeled as whole seconds since the Unix epoch.
//! Parsing a timestamp text is a pure function of the text and gets a
//! name; the current time is not, so nothing is claimed of it and every
//! caller is verified for every value the clock may return.

use vstd::prelude::*;

verus! {

/// What parsing a timestamp text as a UTC datetime yields, in whole
/// seconds since the Unix epoch: the result of chrono's `FromStr` for
/// `DateTime<Utc>` (an RFC 3339-like parse) composed with
/// `DateTime::timestamp`. Depends on the characters alone.
pub uninterp spec fn datetime_seconds(s: Seq<char>) -> Option<int>;

/// Relies on chrono's `FromStr` for `DateTime<Utc>` and on
/// `DateTime::timestamp`: parses a timestamp text to whole seconds
/// since the epoch, or `None` when the text does not parse.
#[verifier::external_body]
pub(crate) fn parse_datetime_seconds(s: &str) -> (r: Option<i64>)
    ensures
        r is Some <==> datetime_seconds(s@) is Some,
        r matches Some(t) ==> datetime_seconds(s@) == Some(t as int),
{
    s.parse::<chrono::DateTime<chrono::Utc>>().ok().map(|d| d.timestamp())
}

/// Relies on chrono's `From<SystemTime>` for `DateTime<Utc>` and on
/// `DateTime::timestamp`: the current time in whole seconds since the
/// epoch, negative for an instant before it (this conversion, unlike
/// `Utc::now`, does not panic on a pre-epoch clock). The clock may
/// return anything, so no contract is stated; callers take the value
/// as an argument and hold for every outcome.
#[verifier::external_body]
pub(crate) fn now_seconds() -> i64 {
    chrono::DateTime::<chrono::Utc>::from(std::time::SystemTime::now()).timestamp()
}

} // verus!
