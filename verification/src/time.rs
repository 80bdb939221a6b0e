//! UTC instants carried by the API, and their rendering through chrono.

use vstd::prelude::*;
use crate::cli::output::LOG_TIME_PATTERN;
use crate::tui::view::TAB_TIME_PATTERN;

verus! {

/// A UTC instant: whole seconds since the Unix epoch plus the nanoseconds
/// within that second, as the API's `createdOn`-style fields carry it.
#[derive(Debug, Clone, Copy, PartialEq, Eq, Structural)]
pub struct Timestamp {
    pub secs: i64,
    pub nanos: u32,
}

/// What chrono renders for the instant `(secs, nanos)` with the
/// strftime-style `pattern` (`DateTime::<Utc>::from_timestamp`, then
/// `format`), or `None` when chrono cannot represent the instant.
pub uninterp spec fn chrono_formatted(secs: i64, nanos: u32, pattern: Seq<char>) -> Option<Seq<char>>;

/// What chrono's `Display` of `DateTime<Utc>` renders for the instant
/// `(secs, nanos)`, or `None` when chrono cannot represent the instant.
pub uninterp spec fn chrono_displayed(secs: i64, nanos: u32) -> Option<Seq<char>>;

/// The two timestamp patterns the library formats with; both are valid
/// strftime patterns, so formatting with them cannot fail.
pub open spec fn known_pattern(pattern: Seq<char>) -> bool {
    pattern == LOG_TIME_PATTERN@ || pattern == TAB_TIME_PATTERN@
}

/// `ts` rendered with `pattern`; empty when the instant is out of chrono's
/// range.
pub open spec fn formatted_text(ts: Timestamp, pattern: Seq<char>) -> Seq<char> {
    match chrono_formatted(ts.secs, ts.nanos, pattern) {
        Some(t) => t,
        None => Seq::empty(),
    }
}

/// `ts` as chrono displays it; empty when the instant is out of chrono's
/// range.
pub open spec fn displayed_text(ts: Timestamp) -> Seq<char> {
    match chrono_displayed(ts.secs, ts.nanos) {
        Some(t) => t,
        None => Seq::empty(),
    }
}

/// chrono's `DateTime::<Utc>::from_timestamp(secs, nanos)`, then
/// `format(pattern)` written out as text. The contract names the result: a
/// function of the instant and the pattern alone. It is called only with a
/// [`known_pattern`]: with an invalid pattern chrono reports a formatting
/// error and writing it out panics.
#[verifier::external_body]
fn chrono_format(ts: Timestamp, pattern: &str) -> (r: Option<String>)
    requires
        known_pattern(pattern@),
    ensures
        r.deep_view() == chrono_formatted(ts.secs, ts.nanos, pattern@),
{
    match chrono::DateTime::from_timestamp(ts.secs, ts.nanos) {
        Some(dt) => Some(dt.format(pattern).to_string()),
        None => None,
    }
}

/// chrono's `DateTime::<Utc>::from_timestamp(secs, nanos)`, then its
/// `Display` (e.g. `2026-04-30 12:00:00 UTC`). The contract names the
/// result: a function of the instant alone.
#[verifier::external_body]
fn chrono_display(ts: Timestamp) -> (r: Option<String>)
    ensures
        r.deep_view() == chrono_displayed(ts.secs, ts.nanos),
{
    match chrono::DateTime::from_timestamp(ts.secs, ts.nanos) {
        Some(dt) => Some(dt.to_string()),
        None => None,
    }
}

/// Renders `ts` with one of the library's timestamp patterns (see
/// [`formatted_text`]).
pub(crate) fn format_utc(ts: Timestamp, pattern: &str) -> (r: String)
    requires
        known_pattern(pattern@),
    ensures
        r@ == formatted_text(ts, pattern@),
{
    match chrono_format(ts, pattern) {
        Some(t) => t,
        None => String::new(),
    }
}

/// Renders `ts` as chrono displays it (see [`displayed_text`]).
pub(crate) fn display_utc(ts: Timestamp) -> (r: String)
    ensures
        r@ == displayed_text(ts),
{
    match chrono_display(ts) {
        Some(t) => t,
        None => String::new(),
    }
}

} // verus!
