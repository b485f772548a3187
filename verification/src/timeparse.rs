//! Parsing the caller's `YYYY-MM-DD HH:MM:SS` window bounds, interpreted as
//! UTC, into store-native nanoseconds.

use vstd::prelude::*;

verus! {

/// The accepted textual form of a window bound.
pub const DATETIME_FORMAT: &'static str = "%Y-%m-%d %H:%M:%S";

/// Nanoseconds per second.
pub const NANOS_PER_SECOND: i64 = 1_000_000_000;

/// The seconds since the Unix epoch that a text denotes under a strftime
/// format, treated as a UTC wall-clock reading; nothing when the text does
/// not match the format or denotes no real instant.  A pure function of the
/// two texts.
pub uninterp spec fn parsed_epoch_seconds(s: Seq<char>, fmt: Seq<char>) -> Option<int>;

/// Relies on chrono's `NaiveDateTime::parse_from_str`, `and_utc` and
/// `DateTime::timestamp`: parsing a text against a strftime format and
/// reading the result as non-leap seconds since the Unix epoch in UTC.  All
/// three depend on their arguments alone.
#[verifier::external_body]
fn datetime_epoch_seconds(s: &str, fmt: &str) -> (r: Option<i64>)
    ensures
        match r {
            Some(sec) => parsed_epoch_seconds(s@, fmt@) == Some(sec as int),
            None => parsed_epoch_seconds(s@, fmt@) is None,
        },
{
    match chrono::NaiveDateTime::parse_from_str(s, fmt) {
        Ok(dt) => Some(dt.and_utc().timestamp()),
        Err(_) => None,
    }
}

/// Why a window bound was rejected.
#[derive(Clone, Copy, PartialEq, Eq, Structural, Debug)]
pub enum TimeParseError {
    /// The text does not match `YYYY-MM-DD HH:MM:SS` or denotes no instant.
    Unparseable,
    /// The instant lies outside what signed 64-bit nanoseconds can carry.
    OutOfRange,
}

/// Parses a window bound into nanoseconds since the Unix epoch.
///
/// Succeeds exactly on texts that denote an instant under the accepted
/// format whose nanosecond reading fits a signed 64-bit integer, and then
/// returns precisely that reading.
pub fn parse_datetime_ns(s: &str) -> (r: Result<i64, TimeParseError>)
    ensures
        match r {
            Ok(ns) => parsed_epoch_seconds(s@, DATETIME_FORMAT@) matches Some(sec) && ns == sec * (
            NANOS_PER_SECOND as int),
            Err(TimeParseError::Unparseable) => parsed_epoch_seconds(s@, DATETIME_FORMAT@)
                is None,
            Err(TimeParseError::OutOfRange) => parsed_epoch_seconds(s@, DATETIME_FORMAT@)
                matches Some(sec) && !(i64::MIN <= sec * (NANOS_PER_SECOND as int) <= i64::MAX),
        },
{
    match datetime_epoch_seconds(s, DATETIME_FORMAT) {
        None => Err(TimeParseError::Unparseable),
        Some(sec) => match sec.checked_mul(NANOS_PER_SECOND) {
            Some(ns) => Ok(ns),
            None => Err(TimeParseError::OutOfRange),
        },
    }
}

} // verus!
