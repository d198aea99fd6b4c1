//! Timestamps as plain numbers, and the one call that reads them from text.

use chrono::{Datelike, NaiveDateTime, Timelike};
use vstd::prelude::*;

verus! {

/// A calendar date and a time of day, without a time zone.
///
/// The fields are the ones `chrono::NaiveDateTime` reports of itself: a
/// leap second is `second == 59` with `nanosecond` at or above
/// 1 000 000 000.
#[derive(Clone, Copy, Debug, PartialEq, Eq, Structural)]
pub struct Timestamp {
    pub year: i32,
    pub month: u32,
    pub day: u32,
    pub hour: u32,
    pub minute: u32,
    pub second: u32,
    pub nanosecond: u32,
}

/// The result of `chrono::NaiveDateTime::parse_from_str` on `text` under
/// the strftime pattern `format`: the date and time read, or `None` where
/// chrono reports a parse error.
pub uninterp spec fn naive_date_time_parsed(text: Seq<char>, format: Seq<char>) -> Option<
    Timestamp,
>;

/// Calls `chrono::NaiveDateTime::parse_from_str(text, format)`.
///
/// Trusted: the result is the named value `naive_date_time_parsed`, that is,
/// the call depends on its two arguments alone. A parsed value is handed out
/// field by field; a parse error becomes `None`.
#[verifier::external_body]
pub(crate) fn parse_naive_date_time(text: &str, format: &str) -> (parsed: Option<Timestamp>)
    ensures
        parsed == naive_date_time_parsed(text@, format@),
{
    match NaiveDateTime::parse_from_str(text, format) {
        Ok(t) => Some(
            Timestamp {
                year: t.year(),
                month: t.month(),
                day: t.day(),
                hour: t.hour(),
                minute: t.minute(),
                second: t.second(),
                nanosecond: t.nanosecond(),
            },
        ),
        Err(_) => None,
    }
}

} // verus!
