//! The wall clock and the calendar, read through chrono.
use vstd::prelude::*;

verus! {

/// Whether `s` has the shape of chrono's RFC 3339 text for a UTC moment:
/// at least the date, the `T`, the time and the offset (25 characters),
/// ending in the offset `+00:00`.
pub open spec fn is_utc_rfc3339(s: Seq<char>) -> bool {
    &&& s.len() >= 25
    &&& s.subrange(s.len() - 6, s.len() as int) == "+00:00"@
}

/// Calls `chrono::Utc::now()` and renders it with `DateTime::to_rfc3339`.
/// The moment depends on the call; what holds of every moment is the
/// text's shape: four or more year digits, the month, day, `T`, hours,
/// minutes and seconds (perhaps a fraction), then the UTC offset written
/// `+00:00`. Which moment it names is left unsaid.
#[verifier::external_body]
pub(crate) fn now_rfc3339() -> (s: String)
    ensures
        is_utc_rfc3339(s@),
{
    chrono::Utc::now().to_rfc3339()
}

/// The month and day ("Mar 07") of the UTC date `timestamp` seconds after
/// the Unix epoch, or nothing when chrono cannot represent that moment.
pub uninterp spec fn month_day(timestamp: int) -> Option<Seq<char>>;

/// Calls `chrono::DateTime::<Utc>::from_timestamp(timestamp, 0)` and
/// renders the date with `format("%b %d")`; nothing when `from_timestamp`
/// gives nothing (a moment outside chrono's calendar).
#[verifier::external_body]
pub(crate) fn month_day_of(timestamp: i64) -> (r: Option<String>)
    ensures
        match r {
            Some(t) => month_day(timestamp as int) == Some(t@),
            None => month_day(timestamp as int) is None,
        },
{
    match chrono::DateTime::<chrono::Utc>::from_timestamp(timestamp, 0) {
        Some(d) => Some(d.format("%b %d").to_string()),
        None => None,
    }
}

/// Calls `chrono::Utc::now()` and renders today's date with
/// `format("%b %d")`. The result depends on the moment of the call, so
/// nothing is stated of it.
#[verifier::external_body]
pub(crate) fn today_month_day() -> (s: String) {
    chrono::Utc::now().format("%b %d").to_string()
}

} // verus!
