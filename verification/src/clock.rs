//! The two readings of the system clock, both made by `chrono`, and what
//! `chrono` makes of a start time. Nothing here is proved: each contract
//! states what the crate's documentation and source show.

use vstd::prelude::*;

verus! {

/// The error of `chrono`'s parsers.
#[verifier::external_type_specification]
#[verifier::external_body]
pub struct ExChronoParseError(chrono::ParseError);

/// Whether `chrono::DateTime::parse_from_rfc3339` takes `text` as a date
/// and time. The parser reads nothing but its argument, so this is a
/// property of the text alone.
pub uninterp spec fn rfc3339_accepts(text: Seq<char>) -> bool;

/// Gets the current time on the system in readable format: the local date
/// and time to the second, as `YYYY-MM-DDTHH:MM:SS`.
///
/// Calls `chrono::Local::now` and formats what it gives with
/// `chrono::DateTime::format`, with a format that is fixed here and valid.
/// Nothing is claimed of the result, which changes from call to call.
#[verifier::external_body]
pub fn get_timestamp() -> String {
    chrono::Local::now().format("%Y-%m-%dT%H:%M:%S").to_string()
}

/// The whole seconds that have passed since `start_time`, a date and time
/// in the form of RFC 3339: negative where it lies ahead.
///
/// Calls `chrono::DateTime::parse_from_rfc3339` on `start_time`, and where
/// that succeeds `chrono::Utc::now`, `chrono::DateTime::signed_duration_since`
/// and `chrono::TimeDelta::num_seconds`. The contract claims one thing: the
/// call fails exactly on the texts that the parser refuses. The number of
/// seconds depends on the clock, and nothing is claimed of it. `Utc::now`
/// panics where the system clock stands before the year 1970.
#[verifier::external_body]
pub(crate) fn seconds_since(start_time: &str) -> (r: Result<i64, chrono::ParseError>)
    ensures
        r is Ok <==> rfc3339_accepts(start_time@),
{
    let start = chrono::DateTime::parse_from_rfc3339(start_time)?;
    let now = chrono::Utc::now();
    Ok(now.signed_duration_since(start.with_timezone(&chrono::Utc)).num_seconds())
}

} // verus!
