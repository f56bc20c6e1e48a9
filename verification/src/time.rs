//! Instants and spans of time, counted in whole seconds.
//!
//! An instant is a number of seconds since the Unix epoch and a span is a
//! signed number of seconds; both are held in an `i64`.

use std::fmt::Write;
use vstd::prelude::*;
use crate::text::text_of;

verus! {

/// Seconds in one day.
pub const SECONDS_PER_DAY: i64 = 86_400;

/// The number of whole days in a span of `span` seconds, rounded towards
/// zero: a span of less than a day in either direction counts as no day.
pub open spec fn whole_days(span: int) -> int {
    if span >= 0 {
        span / 86_400
    } else {
        -((-span) / 86_400)
    }
}

/// The span of `days` days, in seconds.
pub open spec fn days_span(days: int) -> int {
    days * 86_400
}

/// Whole days of a span that was computed in 128 bits, such as the
/// difference of two instants.
pub fn whole_days_wide(span: i128) -> (days: i64)
    requires
        -0x4_0000_0000_0000_0000 <= span <= 0x4_0000_0000_0000_0000,
    ensures
        days == whole_days(span as int),
{
    let days: i128 = span / 86_400;
    days as i64
}

/// Whole days of a span, rounded towards zero.
pub fn num_days(span: i64) -> (days: i64)
    ensures
        days == whole_days(span as int),
{
    span / SECONDS_PER_DAY
}

/// The span of `days` days in seconds, or `None` when that many seconds do
/// not fit in an `i64`.
pub fn from_days(days: i64) -> (span: Option<i64>)
    ensures
        span == if i64::MIN <= days_span(days as int) <= i64::MAX {
            Some(days_span(days as int) as i64)
        } else {
            None::<i64>
        },
{
    days.checked_mul(SECONDS_PER_DAY)
}

/// Whole days are never further from zero than the span itself, and keep
/// its sign.
pub proof fn lemma_whole_days_bounds(span: int)
    ensures
        span >= 0 ==> 0 <= whole_days(span) <= span,
        span <= 0 ==> span <= whole_days(span) <= 0,
        whole_days(span) * 86_400 <= span < (whole_days(span) + 1) * 86_400 || span < 0,
        span < 0 ==> (whole_days(span) - 1) * 86_400 < span <= whole_days(span) * 86_400,
{
}

/// The instant `secs` as an RFC 3339 date and time in UTC with whole
/// seconds and the zone written as `Z`, as chrono writes it; `None` for an
/// instant that chrono cannot represent.
pub uninterp spec fn rfc3339_text(secs: i64) -> Option<Seq<char>>;

/// The instant `secs` in UTC the way chrono displays a date and time;
/// `None` for an instant that chrono cannot represent.
pub uninterp spec fn display_text(secs: i64) -> Option<Seq<char>>;

/// The instant `secs` in UTC, formatted by chrono after the `strftime`
/// pattern `pattern`; `None` for an instant that chrono cannot represent
/// and for a pattern that it cannot format.
pub uninterp spec fn formatted_text(secs: i64, pattern: Seq<char>) -> Option<Seq<char>>;

/// Calls `chrono::DateTime::from_timestamp` and, on the date and time it
/// gives, `to_rfc3339_opts` with whole seconds and `Z` for UTC. The result
/// depends on `secs` alone; its text is not stated here but named.
#[verifier::external_body]
pub(crate) fn rfc3339(secs: i64) -> (text: Option<String>)
    ensures
        text_of(&text) == rfc3339_text(secs),
{
    match chrono::DateTime::from_timestamp(secs, 0) {
        Some(instant) => Some(instant.to_rfc3339_opts(chrono::SecondsFormat::Secs, true)),
        None => None,
    }
}

/// Calls `chrono::DateTime::from_timestamp` and writes the date and time it
/// gives through its `Display` implementation. The result depends on `secs`
/// alone; its text is not stated here but named.
#[verifier::external_body]
pub(crate) fn display(secs: i64) -> (text: Option<String>)
    ensures
        text_of(&text) == display_text(secs),
{
    match chrono::DateTime::from_timestamp(secs, 0) {
        Some(instant) => Some(instant.to_string()),
        None => None,
    }
}

/// Calls `chrono::DateTime::from_timestamp` and writes what `format` gives
/// for `pattern`. The result depends on `secs` and `pattern` alone; its
/// text is not stated here but named.
#[verifier::external_body]
pub(crate) fn formatted(secs: i64, pattern: &str) -> (text: Option<String>)
    ensures
        text_of(&text) == formatted_text(secs, pattern@),
{
    let mut text = String::new();
    match chrono::DateTime::from_timestamp(secs, 0) {
        Some(instant) => match write!(text, "{}", instant.format(pattern)) {
            Ok(()) => Some(text),
            Err(_) => None,
        },
        None => None,
    }
}

} // verus!
