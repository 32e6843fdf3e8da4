//! Message timestamps: milliseconds since the Unix epoch, within the dates that `chrono` holds.
use chrono::TimeZone;
use vstd::prelude::*;
use crate::irc::prefix::opt_view;
use crate::client::{decimal, lemma_decimal_parses, lemma_decimal_reads_back};
use crate::strings::{parse_i64, parse_signed};

verus! {

/// The earliest timestamp that `chrono` takes: January 1 of the year -262143, in milliseconds.
pub const MIN_TIMESTAMP_MS: i64 = -8334601228800000;

/// The latest timestamp that `chrono` takes: the last millisecond of December 31 of the
/// year 262142.
pub const MAX_TIMESTAMP_MS: i64 = 8210266876799999;

/// A timestamp in milliseconds, checked by `chrono`.
///
/// This is `chrono::Utc.timestamp_millis_opt(ms).single()`, read back with
/// `DateTime::timestamp_millis`: `chrono` gives a date exactly for the milliseconds within
/// the years it can hold (from `MIN_TIMESTAMP_MS` to `MAX_TIMESTAMP_MS`), and the date
/// gives the same milliseconds back.
#[verifier::external_body]
fn utc_timestamp_millis(ms: i64) -> (r: Option<i64>)
    ensures
        r is Some <==> MIN_TIMESTAMP_MS <= ms <= MAX_TIMESTAMP_MS,
        r matches Some(x) ==> x == ms,
{
    match chrono::Utc.timestamp_millis_opt(ms).single() {
        Some(date) => Some(date.timestamp_millis()),
        None => None,
    }
}

/// The timestamp that an optional tag value gives: a signed number of milliseconds
/// within the dates that `chrono` holds.
pub open spec fn timestamp_value(o: Option<Seq<char>>) -> Option<i64> {
    match o {
        Some(s) => match parse_signed(s, i64::MIN as int, i64::MAX as int) {
            Some(ms) => if MIN_TIMESTAMP_MS <= ms <= MAX_TIMESTAMP_MS {
                Some(ms as i64)
            } else {
                None
            },
            None => None,
        },
        None => None,
    }
}

/// Reads a timestamp in milliseconds from a tag value.
pub fn parse_timestamp(s: &str) -> (r: Option<i64>)
    ensures
        r == timestamp_value(Some(s@)),
{
    match parse_i64(s) {
        Some(ms) => utc_timestamp_millis(ms),
        None => None,
    }
}

/// Reads a timestamp in milliseconds from an optional tag value.
pub fn parse_opt_timestamp(o: Option<&str>) -> (r: Option<i64>)
    ensures
        r == timestamp_value(opt_view(o)),
{
    match o {
        Some(s) => parse_timestamp(s),
        None => None,
    }
}

/// A timestamp written as the decimal digits of a number of milliseconds within the dates
/// that `chrono` holds reads back as that number.
pub proof fn lemma_timestamp_decimal(n: nat)
    requires
        n <= MAX_TIMESTAMP_MS,
    ensures
        timestamp_value(Some(decimal(n))) == Some(n as i64),
{
    lemma_decimal_reads_back(n);
    lemma_decimal_parses(n, i64::MAX as int);
    assert(crate::strings::is_digit(decimal(n)[0]));
}

} // verus!
