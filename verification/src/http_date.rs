//! HTTP dates: the instants that an `Expires` header and the cache's expiry
//! marker carry. The dates are hyper's; parsing, formatting and comparing
//! them is left to it.

use reqwest::hyper_011::header::HttpDate;
use std::str::FromStr;
use std::time::{Duration, UNIX_EPOCH};
use vstd::prelude::*;

verus! {

/// hyper's `HttpDate`, taken as it is: a date whose inside only hyper reads.
#[verifier::external_type_specification]
#[verifier::external_body]
pub struct ExHttpDate(HttpDate);

/// Nanoseconds in a second.
pub const NANOS_PER_SECOND: u64 = 1_000_000_000;

/// The last second of the year 9999, counted from the Unix epoch: the latest
/// instant that an HTTP date, with its four-digit year, can show.
pub const LAST_HTTP_SECOND: u64 = 253_402_300_799;

/// The instant of a date, in nanoseconds since the Unix epoch (negative
/// before it): what hyper goes by when it orders two dates.
pub uninterp spec fn http_date_nanos(date: HttpDate) -> int;

/// The date that hyper reads out of `text`, if it reads one.
pub uninterp spec fn http_date_parsed(text: Seq<char>) -> Option<HttpDate>;

/// The date that hyper makes of the instant `secs` seconds after the epoch.
pub uninterp spec fn http_date_of_secs(secs: int) -> HttpDate;

/// The text that hyper writes for a date.
pub uninterp spec fn http_date_text(date: HttpDate) -> Seq<char>;

/// Calls hyper's `HttpDate::from_str`. Taken on trust: the date read is a
/// function of the text alone, and there is none where hyper refuses the
/// text.
#[verifier::external_body]
pub(crate) fn parse_http_date(text: &str) -> (date: Option<HttpDate>)
    ensures
        date == http_date_parsed(text@),
{
    HttpDate::from_str(text).ok()
}

/// Calls hyper's `HttpDate::from` on the `SystemTime` that lies `secs` whole
/// seconds after the epoch. Taken on trust: the date is a function of
/// `secs` alone, and its instant is `secs` seconds, to the nanosecond.
/// Instants past the year 9999 are left out.
#[verifier::external_body]
pub(crate) fn http_date_at(secs: u64) -> (date: HttpDate)
    requires
        secs <= LAST_HTTP_SECOND,
    ensures
        date == http_date_of_secs(secs as int),
        http_date_nanos(date) == secs * NANOS_PER_SECOND,
{
    HttpDate::from(UNIX_EPOCH + Duration::from_secs(secs))
}

/// Calls `<` on two of hyper's `HttpDate`. Taken on trust: hyper orders
/// dates by their instants.
#[verifier::external_body]
pub(crate) fn http_date_before(earlier: &HttpDate, later: &HttpDate) -> (before: bool)
    ensures
        before == (http_date_nanos(*earlier) < http_date_nanos(*later)),
{
    earlier < later
}

/// Formats a date with hyper's `Display` for `HttpDate`. Taken on trust: the
/// text is a function of the date alone.
#[verifier::external_body]
pub(crate) fn http_date_to_string(date: &HttpDate) -> (text: String)
    ensures
        text@ == http_date_text(*date),
{
    format!("{}", date)
}

/// Whether `date` lies strictly after the instant `now` seconds past the
/// epoch. A clock reading past the year 9999 has no date after it.
pub open spec fn is_after(date: HttpDate, now: int) -> bool {
    now <= LAST_HTTP_SECOND && now * NANOS_PER_SECOND < http_date_nanos(date)
}

/// Tells whether `date` is still ahead of a clock that reads `now` seconds
/// since the epoch.
pub fn date_is_after(date: &HttpDate, now: u64) -> (after: bool)
    ensures
        after == is_after(*date, now as int),
{
    if now > LAST_HTTP_SECOND {
        return false;
    }
    let present = http_date_at(now);
    http_date_before(&present, date)
}

} // verus!
