//! The two places where the library touches the calendar: reading the
//! current time, and rendering a timestamp as a calendar date.

use vstd::prelude::*;

verus! {

/// Relies on chrono's `Utc::now` and `timestamp_millis`: the current wall
/// clock in milliseconds since the Unix epoch.  Nothing is promised of the
/// value; every caller states what holds whatever reading came back.
#[verifier::external_body]
pub(crate) fn now_millis() -> i64 {
    chrono::Utc::now().timestamp_millis()
}

/// The `YYYY-MM-DD` label of a millisecond timestamp.  The label is a
/// function of the timestamp alone.
pub uninterp spec fn date_label_of(ts: i64) -> Seq<char>;

/// Relies on chrono's `DateTime::from_timestamp_millis` and its `%Y-%m-%d`
/// formatting: both depend on the millisecond value alone (UTC, no locale).
/// The few values outside chrono's representable range (beyond roughly
/// 262,000 years from the common era) fall back to the epoch date.
#[verifier::external_body]
pub(crate) fn format_date(ts: i64) -> (r: String)
    ensures
        r@ == date_label_of(ts),
{
    chrono::DateTime::<chrono::Utc>::from_timestamp_millis(ts)
        .unwrap_or(chrono::DateTime::<chrono::Utc>::UNIX_EPOCH)
        .format("%Y-%m-%d")
        .to_string()
}

} // verus!
