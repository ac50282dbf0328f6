//! The textual form of a plugin's modification time, `"<weekday>, <day> <month> <year> <HH:MM:SS> <zone>"`.
use chrono::{DateTime, NaiveDateTime};
use vstd::prelude::*;

use crate::catalog::{CatalogError, ErrorKind};

verus! {

/// The strftime pattern of the catalog's modification times.
pub const MTIME_FORMAT: &'static str = "%a, %d %b %Y %H:%M:%S %Z";

/// An absolute UTC instant, in whole seconds since the Unix epoch.
#[derive(Clone, Copy, Debug, PartialEq, Eq, Structural)]
pub struct Timestamp {
    pub secs: i64,
}

impl Timestamp {
    pub fn from_secs(secs: i64) -> (r: Timestamp)
        ensures
            r.secs == secs,
    {
        Timestamp { secs }
    }

    /// Strictly earlier than `other`.
    pub fn is_before(&self, other: &Timestamp) -> (r: bool)
        ensures
            r == (self.secs < other.secs),
    {
        self.secs < other.secs
    }
}

#[verifier::external_type_specification]
#[verifier::external_body]
pub struct ExParseError(chrono::format::ParseError);

/// What chrono's `NaiveDateTime::parse_from_str(text, fmt)` yields, read as UTC seconds.
pub uninterp spec fn parsed_utc_seconds(text: Seq<char>, fmt: Seq<char>) -> Option<i64>;

/// What chrono's `DateTime::<Utc>::from_timestamp(secs, 0)` formatted with `fmt` yields.
pub uninterp spec fn formatted_utc(secs: i64, fmt: Seq<char>) -> Option<Seq<char>>;

/// Relies on chrono's `NaiveDateTime::parse_from_str`, whose result depends on `text` and
/// `fmt` alone; the naive value is taken as UTC (`and_utc().timestamp()`).
#[verifier::external_body]
fn parse_utc_seconds(text: &str, fmt: &str) -> (r: Result<i64, chrono::format::ParseError>)
    ensures
        match r {
            Ok(secs) => parsed_utc_seconds(text@, fmt@) == Some(secs),
            Err(_) => parsed_utc_seconds(text@, fmt@) is None,
        },
{
    match NaiveDateTime::parse_from_str(text, fmt) {
        Ok(dt) => Ok(dt.and_utc().timestamp()),
        Err(e) => Err(e),
    }
}

/// Relies on chrono's `DateTime::from_timestamp(secs, 0)` (`None` out of chrono's range) and
/// `DateTime::format(fmt)`, whose text depends on `secs` and `fmt` alone. Only the catalog's
/// pattern is admitted: writing a pattern with an invalid directive fails, and `to_string`
/// then panics.
#[verifier::external_body]
fn format_utc_seconds(secs: i64, fmt: &str) -> (r: Option<String>)
    requires
        fmt@ == MTIME_FORMAT@,
    ensures
        match r {
            Some(s) => formatted_utc(secs, fmt@) == Some(s@),
            None => formatted_utc(secs, fmt@) is None,
        },
{
    match DateTime::from_timestamp(secs, 0) {
        Some(dt) => Some(dt.format(fmt).to_string()),
        None => None,
    }
}

/// The modification time written in the catalog's textual form; `None` where the instant
/// lies outside the calendar range that the text can express.
pub fn serialize(date: Timestamp) -> (r: Option<String>)
    ensures
        match r {
            Some(s) => formatted_utc(date.secs, MTIME_FORMAT@) == Some(s@),
            None => formatted_utc(date.secs, MTIME_FORMAT@) is None,
        },
{
    format_utc_seconds(date.secs, MTIME_FORMAT)
}

/// Reads a modification time in the catalog's textual form. Text that does not parse is a
/// decode error, never a default instant.
pub fn deserialize(text: &str) -> (r: Result<Timestamp, CatalogError>)
    ensures
        match parsed_utc_seconds(text@, MTIME_FORMAT@) {
            Some(secs) => r == Ok::<Timestamp, CatalogError>(Timestamp { secs }),
            None => r == Err::<Timestamp, CatalogError>(CatalogError::Fetch(ErrorKind::Decode)),
        },
{
    match parse_utc_seconds(text, MTIME_FORMAT) {
        Ok(secs) => Ok(Timestamp { secs }),
        Err(_) => Err(CatalogError::Fetch(ErrorKind::Decode)),
    }
}

} // verus!
