//! Points in time, held as milliseconds since the Unix epoch in UTC, and the
//! few things that chrono computes on them.

use vstd::prelude::*;

verus! {

/// The first millisecond that chrono's `DateTime<Utc>` can represent
/// (`DateTime::<Utc>::MIN_UTC`, January 1, 262144 BCE, 00:00:00.000).
pub const MIN_UTC_MILLIS: i64 = -8_334_601_228_800_000i64;

/// The last millisecond that chrono's `DateTime<Utc>` can represent
/// (`DateTime::<Utc>::MAX_UTC`, December 31 of the year 262142, 23:59:59.999).
pub const MAX_UTC_MILLIS: i64 = 8_210_266_876_799_999i64;

/// Milliseconds in a day.
pub const MILLIS_PER_DAY: i64 = 86_400_000i64;

/// Whether `ms` milliseconds after the epoch is a point that a `DateTime<Utc>` can hold.
pub open spec fn utc_representable(ms: int) -> bool {
    MIN_UTC_MILLIS <= ms <= MAX_UTC_MILLIS
}

/// The text that `Display` of chrono's `DateTime<Utc>` writes for the point
/// `ms` milliseconds after the epoch (such as `2024-05-01 12:30:00.250 UTC`).
pub uninterp spec fn utc_text(ms: int) -> Seq<char>;

/// The current time, from chrono's `Utc::now`, truncated to whole milliseconds.
/// The clock is read, so two calls may give different values; chrono panics
/// rather than return a time before the epoch, and any time it returns lies in
/// the range that `DateTime<Utc>` represents.
#[verifier::external_body]
pub fn now_millis() -> (t: i64)
    ensures
        0 <= t,
        utc_representable(t as int),
{
    chrono::Utc::now().timestamp_millis()
}

/// The point `days` whole days before `now`, through chrono:
/// `DateTime::from_timestamp_millis`, `checked_sub_signed` of `TimeDelta::days`
/// and `timestamp_millis`. chrono gives `None` exactly when the start or the
/// result lies outside the range of `DateTime<Utc>`; a day is 86 400 000 ms.
#[verifier::external_body]
pub fn days_before(now: i64, days: u32) -> (r: Option<i64>)
    ensures
        r == (if utc_representable(now as int) && utc_representable(
            now - days * MILLIS_PER_DAY,
        ) {
            Some((now - days * MILLIS_PER_DAY) as i64)
        } else {
            None
        }),
{
    let start = chrono::DateTime::from_timestamp_millis(now)?;
    let earlier = start.checked_sub_signed(chrono::TimeDelta::days(days as i64))?;
    Some(earlier.timestamp_millis())
}

/// The `Display` text of chrono's `DateTime<Utc>` for the point `ms`
/// milliseconds after the epoch; `None` where `DateTime::from_timestamp_millis`
/// refuses the value. What the text holds is named, not stated.
#[verifier::external_body]
pub fn utc_display(ms: i64) -> (r: Option<String>)
    ensures
        r is Some <==> utc_representable(ms as int),
        r matches Some(text) ==> text@ == utc_text(ms as int),
{
    match chrono::DateTime::from_timestamp_millis(ms) {
        Some(t) => Some(t.to_string()),
        None => None,
    }
}


/// The length, in nanoseconds, that duration-string's `DurationString::from_string`
/// reads from `text` (such as `1h30m`), or `None` where it refuses the text.
pub uninterp spec fn parsed_duration_nanos(text: Seq<char>) -> Option<u128>;

/// Reads a duration such as `10m` or `1d12h` through duration-string's
/// `DurationString::from_string`, as a number of nanoseconds.
#[verifier::external_body]
pub fn parse_duration(text: &str) -> (r: Option<u128>)
    ensures
        r == parsed_duration_nanos(text@),
{
    match duration_string::DurationString::from_string(text.to_string()) {
        Ok(d) => Some(std::time::Duration::from(d).as_nanos()),
        Err(_) => None,
    }
}

} // verus!
