//! Pattern matching and time parsing for the account data export, through the
//! `regex` and `chrono` crates.
use vstd::prelude::*;

verus! {

/// What `regex::Regex::new(pattern)` then `captures(text)` gives: `None` when
/// the pattern does not compile or does not match, otherwise the text of each
/// capture group in order (group 0 the whole match), `None` for a group that
/// took no part.
pub uninterp spec fn regex_captures(pattern: Seq<char>, text: Seq<char>) -> Option<Seq<Option<Seq<char>>>>;

/// What `text.parse::<chrono::DateTime<chrono::Utc>>()` gives, as milliseconds
/// since the Unix epoch (a relaxed RFC 3339 form, "2024-01-02 03:04:05 UTC" among
/// them); `None` when it does not parse.
pub uninterp spec fn utc_millis(text: Seq<char>) -> Option<i64>;

/// What `chrono::NaiveDateTime::parse_from_str(text, format)` gives, read as UTC,
/// as milliseconds since the Unix epoch; `None` when it does not parse.
pub uninterp spec fn naive_utc_millis(text: Seq<char>, format: Seq<char>) -> Option<i64>;

/// The contents of capture groups.
pub open spec fn groups_view(g: Option<Vec<Option<String>>>) -> Option<Seq<Option<Seq<char>>>> {
    match g {
        Some(v) => Some(v@.map_values(|o: Option<String>| match o {
            Some(s) => Some(s@),
            None => None,
        })),
        None => None,
    }
}

/// Matches `text` against `pattern` with `regex::Regex` (see `regex_captures`).
#[verifier::external_body]
pub(crate) fn captures(pattern: &str, text: &str) -> (res: Option<Vec<Option<String>>>)
    ensures
        groups_view(res) == regex_captures(pattern@, text@),
{
    let re = regex::Regex::new(pattern).ok()?;
    let caps = re.captures(text)?;
    Some(caps.iter().map(|m| m.map(|m| m.as_str().to_string())).collect())
}

/// Parses a UTC time with `chrono` (see `utc_millis`).
#[verifier::external_body]
pub(crate) fn parse_utc_millis(text: &str) -> (res: Option<i64>)
    ensures
        res == utc_millis(text@),
{
    text.parse::<chrono::DateTime<chrono::Utc>>().ok().map(|d| d.timestamp_millis())
}

/// Parses a time of the given layout with `chrono`, read as UTC (see
/// `naive_utc_millis`).
#[verifier::external_body]
pub(crate) fn parse_naive_utc_millis(text: &str, format: &str) -> (res: Option<i64>)
    ensures
        res == naive_utc_millis(text@, format@),
{
    chrono::NaiveDateTime::parse_from_str(text, format).ok().map(|d| d.and_utc().timestamp_millis())
}

/// The time a text names, or `now` when it names none.
pub open spec fn to_date_spec(text: Seq<char>, now: i64) -> i64 {
    match utc_millis(text) {
        Some(t) => t,
        None => now,
    }
}

/// The time a text names (see `to_date_spec`).
pub fn to_date(text: &str, now: i64) -> (res: i64)
    ensures
        res == to_date_spec(text@, now),
{
    match parse_utc_millis(text) {
        Some(t) => t,
        None => now,
    }
}

} // verus!
