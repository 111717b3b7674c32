//! The time at which a request was answered, as it is shown.

use std::fmt::Write;
use vstd::prelude::*;

verus! {

/// What `chrono` writes for a time and a pattern: the text of the UTC time that
/// lies `unix_seconds` after the start of 1970, formatted by `pattern`; `None`
/// where `chrono` cannot hold the time or refuses the pattern.
pub uninterp spec fn utc_format(unix_seconds: i64, pattern: Seq<char>) -> Option<Seq<char>>;

/// Calls `chrono::DateTime::from_timestamp`, which gives no time for seconds out
/// of its range, and `format` on the time. The text is written with `write!`,
/// which reports a refused pattern as an error where `to_string` would abort.
#[verifier::external_body]
fn format_utc(unix_seconds: i64, pattern: &str) -> (text: Option<String>)
    ensures
        text.deep_view() == utc_format(unix_seconds, pattern@),
{
    let time = chrono::DateTime::from_timestamp(unix_seconds, 0)?;
    let mut text = String::new();
    match write!(text, "{}", time.format(pattern)) {
        Ok(()) => Some(text),
        Err(_) => None,
    }
}

/// The pattern of a timestamp: day, month and year, then hour and minute.
pub open spec fn pattern() -> Seq<char> {
    "%d/%m/%Y %H:%M"@
}

/// The timestamp that is shown for a formatted time: the text, or nothing where
/// the time could not be formatted.
pub open spec fn shown(formatted: Option<Seq<char>>) -> Seq<char> {
    match formatted {
        Some(text) => text,
        None => Seq::empty(),
    }
}

/// Computes [`shown`].
pub fn shown_timestamp(formatted: Option<String>) -> (timestamp: String)
    ensures
        timestamp@ == shown(formatted.deep_view()),
{
    match formatted {
        Some(text) => text,
        None => String::new(),
    }
}

/// The timestamp of the UTC time `unix_seconds` after the start of 1970, in the
/// form `DD/MM/YYYY HH:MM`.
pub fn timestamp(unix_seconds: i64) -> (timestamp: String)
    ensures
        timestamp@ == shown(utc_format(unix_seconds, pattern())),
{
    shown_timestamp(format_utc(unix_seconds, "%d/%m/%Y %H:%M"))
}

} // verus!
