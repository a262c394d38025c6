//! Feed timestamp handling: a publish-date string is read as RFC 3339 when it
//! holds a literal 'Z' designator, as RFC 2822 otherwise, and either way
//! yields epoch seconds. Epoch seconds are also rendered back as a
//! human-readable UTC time for diagnostic messages.

use vstd::prelude::*;

use crate::text::contains_char;

verus! {

/// The epoch seconds that RFC 3339 parsing yields for `s`, or nothing where
/// `s` is not a valid RFC 3339 date-time.
pub uninterp spec fn rfc3339_epoch(s: Seq<char>) -> Option<int>;

/// The epoch seconds that RFC 2822 parsing yields for `s`, or nothing where
/// `s` is not a valid RFC 2822 date-time.
pub uninterp spec fn rfc2822_epoch(s: Seq<char>) -> Option<int>;

/// The "%Y-%m-%d %H:%M:%S" UTC rendering of an epoch second count.
pub uninterp spec fn utc_display(t: int) -> Seq<char>;

/// Relies on chrono's `DateTime::parse_from_rfc3339` and `timestamp`: the
/// epoch seconds of an RFC 3339 date-time string, a function of the string
/// alone.
#[verifier::external_body]
fn parse_rfc3339(s: &str) -> (r: Option<i64>)
    ensures
        r is Some <==> rfc3339_epoch(s@) is Some,
        r matches Some(t) ==> rfc3339_epoch(s@) == Some(t as int),
{
    match chrono::DateTime::parse_from_rfc3339(s) {
        Ok(d) => Some(d.timestamp()),
        Err(_) => None,
    }
}

/// Relies on chrono's `DateTime::parse_from_rfc2822` and `timestamp`: the
/// epoch seconds of an RFC 2822 date-time string, a function of the string
/// alone.
#[verifier::external_body]
fn parse_rfc2822(s: &str) -> (r: Option<i64>)
    ensures
        r is Some <==> rfc2822_epoch(s@) is Some,
        r matches Some(t) ==> rfc2822_epoch(s@) == Some(t as int),
{
    match chrono::DateTime::parse_from_rfc2822(s) {
        Ok(d) => Some(d.timestamp()),
        Err(_) => None,
    }
}

/// Relies on chrono's `DateTime::from_timestamp` and its "%Y-%m-%d %H:%M:%S"
/// formatting: a deterministic UTC rendering of epoch seconds. An epoch count
/// outside chrono's representable range renders as the empty string.
#[verifier::external_body]
pub(crate) fn format_utc(t: i64) -> (r: String)
    ensures
        r@ == utc_display(t as int),
{
    match chrono::DateTime::from_timestamp(t, 0) {
        Some(d) => d.format("%Y-%m-%d %H:%M:%S").to_string(),
        None => String::new(),
    }
}

/// The epoch seconds of a feed publish-date string: strings holding a 'Z'
/// are read as RFC 3339, all others as RFC 2822.
pub open spec fn feed_date_epoch(s: Seq<char>) -> Option<int> {
    if s.contains('Z') {
        rfc3339_epoch(s)
    } else {
        rfc2822_epoch(s)
    }
}

/// Parses a feed publish-date string, dispatching on the presence of a 'Z'
/// designator.
pub fn parse_feed_date(s: &str) -> (r: Option<i64>)
    ensures
        r is Some <==> feed_date_epoch(s@) is Some,
        r matches Some(t) ==> feed_date_epoch(s@) == Some(t as int),
{
    if contains_char(s, 'Z') {
        parse_rfc3339(s)
    } else {
        parse_rfc2822(s)
    }
}

} // verus!
