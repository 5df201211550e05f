//! Rendering of Unix timestamps as UTC date-times, done by `chrono`.

use vstd::prelude::*;
use chrono::TimeZone;

verus! {

/// The earliest Unix timestamp that has a UTC date-time:
/// midnight of 1 January of the year -262143.
pub const MIN_TIMESTAMP: i64 = -8_334_601_228_800;

/// The latest Unix timestamp that has a UTC date-time:
/// the last second of the year 262142.
pub const MAX_TIMESTAMP: i64 = 8_210_266_876_799;

/// Whether `secs` seconds since the epoch fall on a representable date.
pub open spec fn timestamp_representable(secs: int) -> bool {
    MIN_TIMESTAMP <= secs <= MAX_TIMESTAMP
}

/// The RFC 3339 text, with whole seconds and the suffix `Z`, of the UTC
/// date-time that lies `secs` seconds after the Unix epoch.
pub uninterp spec fn rfc3339_utc(secs: int) -> Seq<char>;

/// `chrono::TimeZone::timestamp_opt` on `Utc` with no nanoseconds, then
/// `chrono::DateTime::to_rfc3339_opts` with `SecondsFormat::Secs` and `Z` in
/// place of `+00:00`. The first gives a date-time exactly where the day of
/// `secs` lies in the years -262143 to 262142, and in UTC never an ambiguous
/// one; the second writes it out, and its text depends on the moment alone.
#[verifier::external_body]
pub(crate) fn utc_rfc3339(secs: i64) -> (text: Option<String>)
    ensures
        text is Some <==> timestamp_representable(secs as int),
        text matches Some(t) ==> t@ == rfc3339_utc(secs as int),
{
    match chrono::Utc.timestamp_opt(secs, 0) {
        chrono::LocalResult::Single(moment) => Some(
            moment.to_rfc3339_opts(chrono::SecondsFormat::Secs, true),
        ),
        _ => None,
    }
}

} // verus!
