//! Until when a fetched index may be served from the cache: the policy that
//! turns a response's `Expires` and `Cache-Control` headers into one date,
//! and the reading of that date back from the expiry marker.

use crate::http_date::{
    date_is_after, http_date_at, http_date_nanos, http_date_of_secs, http_date_parsed,
    http_date_text, http_date_to_string, is_after, parse_http_date, LAST_HTTP_SECOND,
    NANOS_PER_SECOND,
};
use crate::index::NodeIndex;
use reqwest::hyper_011::header::{CacheControl, Expires, Header, HttpDate, Raw};
use vstd::prelude::*;

verus! {

/// Lifetime, in seconds, of an index whose response names none: four hours.
pub const DEFAULT_MAX_AGE: u32 = 14_400;

/// A directive of a `Cache-Control` header, as far as the cache minds it.
#[derive(Clone, Copy, Debug, PartialEq, Eq, Structural)]
pub enum CacheDirective {
    /// `max-age`, in seconds.
    MaxAge(u32),
    /// Any other directive.
    Other,
}

/// What the registry answered, as far as a resolution reads it.
#[derive(Debug, PartialEq, Eq)]
pub struct Response {
    /// The body, as text.
    pub body: String,
    /// The body read as an index, if it is one.
    pub index: Option<NodeIndex>,
    /// The values of the `Expires` header, one for each line of it.
    pub expires: Vec<Vec<u8>>,
    /// The values of the `Cache-Control` header, one for each line of it.
    pub cache_control: Vec<Vec<u8>>,
}

/// The directives that hyper reads out of the lines of a `Cache-Control`
/// header, in their order, if it reads the header at all.
pub uninterp spec fn cache_control_directives(lines: Seq<Seq<u8>>) -> Option<Seq<CacheDirective>>;

/// The date that hyper reads out of the lines of an `Expires` header, if it
/// reads one.
pub uninterp spec fn expires_header_date(lines: Seq<Seq<u8>>) -> Option<HttpDate>;

/// Calls hyper's `CacheControl::parse_header` on the lines. Taken on trust:
/// what is read is a function of the lines alone. Each directive that hyper
/// read comes back in its place, a `max-age` with its seconds and any other
/// as `Other`; no lines, or lines that hyper refuses, give none.
#[verifier::external_body]
pub(crate) fn parse_cache_control(lines: &Vec<Vec<u8>>) -> (directives: Option<Vec<CacheDirective>>)
    ensures
        match directives {
            Some(list) => cache_control_directives(lines.deep_view()) == Some(list@),
            None => cache_control_directives(lines.deep_view()).is_none(),
        },
{
    CacheControl::parse_header(&Raw::from(lines.clone())).ok().map(
        |control| {
            control.0.into_iter().map(
                |directive| match directive {
                    reqwest::hyper_011::header::CacheDirective::MaxAge(secs) => {
                        CacheDirective::MaxAge(secs)
                    },
                    _ => CacheDirective::Other,
                },
            ).collect()
        },
    )
}

/// Calls hyper's `Expires::parse_header` on the lines. Taken on trust: the
/// date is a function of the lines alone; no lines, or lines that hyper
/// refuses, give none.
#[verifier::external_body]
pub(crate) fn parse_expires(lines: &Vec<Vec<u8>>) -> (date: Option<HttpDate>)
    ensures
        date == expires_header_date(lines.deep_view()),
{
    Expires::parse_header(&Raw::from(lines.clone())).ok().map(|expires| expires.0)
}

/// The seconds of the first `max-age` among `directives`, or the default
/// where there is none. Later `max-age` directives are not looked at.
pub open spec fn first_max_age(directives: Seq<CacheDirective>) -> u32
    decreases directives.len(),
{
    if directives.len() == 0 {
        DEFAULT_MAX_AGE
    } else {
        match directives[0] {
            CacheDirective::MaxAge(secs) => secs,
            CacheDirective::Other => first_max_age(directives.drop_first()),
        }
    }
}

/// The `max-age` that the lines of a `Cache-Control` header grant.
pub open spec fn max_age_of(lines: Seq<Seq<u8>>) -> u32 {
    match cache_control_directives(lines) {
        Some(directives) => first_max_age(directives),
        None => DEFAULT_MAX_AGE,
    }
}

/// `first_max_age` is the seconds of a `max-age` with none before it, and
/// the default just when there is no `max-age` at all.
pub proof fn first_max_age_is_earliest(directives: Seq<CacheDirective>)
    ensures
        (exists|i: int|
            0 <= i < directives.len() && #[trigger] directives[i] == CacheDirective::MaxAge(
                first_max_age(directives),
            ) && forall|j: int| 0 <= j < i ==> #[trigger] directives[j] == CacheDirective::Other)
            || (first_max_age(directives) == DEFAULT_MAX_AGE && forall|j: int|
            0 <= j < directives.len() ==> #[trigger] directives[j] == CacheDirective::Other),
    decreases directives.len(),
{
    if directives.len() > 0 {
        match directives[0] {
            CacheDirective::MaxAge(secs) => {
                assert(directives[0] == CacheDirective::MaxAge(first_max_age(directives)));
            },
            CacheDirective::Other => {
                let rest = directives.drop_first();
                first_max_age_is_earliest(rest);
                assert(forall|j: int| 0 <= j < rest.len() ==> rest[j] == directives[j + 1]);
                if exists|i: int|
                    0 <= i < rest.len() && #[trigger] rest[i] == CacheDirective::MaxAge(
                        first_max_age(rest),
                    ) && forall|j: int| 0 <= j < i ==> #[trigger] rest[j] == CacheDirective::Other {
                    let k = choose|i: int|
                        0 <= i < rest.len() && #[trigger] rest[i] == CacheDirective::MaxAge(
                            first_max_age(rest),
                        ) && forall|j: int|
                            0 <= j < i ==> #[trigger] rest[j] == CacheDirective::Other;
                    assert(directives[k + 1] == CacheDirective::MaxAge(first_max_age(directives)));
                    assert forall|j: int| 0 <= j < k + 1 implies #[trigger] directives[j]
                        == CacheDirective::Other by {
                        if j > 0 {
                            assert(rest[j - 1] == CacheDirective::Other);
                        }
                    }
                } else {
                    assert forall|j: int| 0 <= j < directives.len() implies #[trigger] directives[j]
                        == CacheDirective::Other by {
                        if j > 0 {
                            assert(rest[j - 1] == CacheDirective::Other);
                        }
                    }
                }
            },
        }
    }
}

/// Finds the first `max-age` among the directives and returns its seconds;
/// without one, returns the default of four hours.
pub fn max_age_among(directives: &Vec<CacheDirective>) -> (secs: u32)
    ensures
        secs == first_max_age(directives@),
{
    let mut i: usize = 0;
    assert(directives@.skip(0) == directives@);
    while i < directives.len()
        invariant
            i <= directives.len(),
            first_max_age(directives@) == first_max_age(directives@.skip(i as int)),
        decreases directives.len() - i,
    {
        let ghost rest = directives@.skip(i as int);
        assert(rest[0] == directives@[i as int]);
        assert(rest.drop_first() == directives@.skip(i + 1));
        match directives[i] {
            CacheDirective::MaxAge(secs) => {
                return secs;
            },
            CacheDirective::Other => {},
        }
        i += 1;
    }
    DEFAULT_MAX_AGE
}

/// Get the cache max-age of an HTTP response: the first `max-age` of its
/// `Cache-Control` header, or four hours.
pub fn max_age(response: &Response) -> (secs: u32)
    ensures
        secs == max_age_of(response.cache_control.deep_view()),
{
    match parse_cache_control(&response.cache_control) {
        Some(directives) => max_age_among(&directives),
        None => DEFAULT_MAX_AGE,
    }
}

/// The date until which a response fetched at `now` may be used: the date of
/// its `Expires` header, whatever `max-age` says; without one, `max_age`
/// seconds after `now`. There is no such date where that instant lies past
/// the last one that an HTTP date can show.
pub open spec fn valid_until_of(expires: Option<HttpDate>, max_age: u32, now: int) -> Option<
    HttpDate,
> {
    match expires {
        Some(date) => Some(date),
        None => if now + max_age <= LAST_HTTP_SECOND {
            Some(http_date_of_secs(now + max_age))
        } else {
            None
        },
    }
}

/// Computes the date until which a response fetched at `now` (seconds since
/// the epoch) may be used. A date that comes of `max-age` lies `max_age`
/// seconds after `now`: strictly after it unless `max_age` is zero.
pub fn valid_until(expires: Option<HttpDate>, max_age: u32, now: u64) -> (until: Option<HttpDate>)
    ensures
        until == valid_until_of(expires, max_age, now as int),
        expires.is_none() ==> (match until {
            Some(date) => http_date_nanos(date) == (now + max_age) * NANOS_PER_SECOND && (max_age
                > 0 ==> is_after(date, now as int)),
            None => now + max_age > LAST_HTTP_SECOND,
        }),
{
    match expires {
        Some(date) => Some(date),
        None => {
            if now > LAST_HTTP_SECOND || max_age as u64 > LAST_HTTP_SECOND - now {
                None
            } else {
                let date = http_date_at(now + max_age as u64);
                assert(max_age > 0 ==> now * NANOS_PER_SECOND < (now + max_age) * NANOS_PER_SECOND)
                    by (nonlinear_arith);
                Some(date)
            }
        },
    }
}

/// The date until which `response`, fetched at `now`, may be used.
pub open spec fn expiry_of(response: Response, now: int) -> Option<HttpDate> {
    valid_until_of(
        expires_header_date(response.expires.deep_view()),
        max_age_of(response.cache_control.deep_view()),
        now,
    )
}

/// Whether the expiry of `response` comes of a lifetime above zero: it has
/// no `Expires` date, and the `max-age` that holds for it is not zero.
pub open spec fn lives_on(response: Response) -> bool {
    expires_header_date(response.expires.deep_view()).is_none() && max_age_of(
        response.cache_control.deep_view(),
    ) > 0
}

/// Reads the response's headers and computes the date until which it may be
/// used. Where that date comes of a lifetime above zero, it lies strictly
/// after `now`.
pub fn expiry(response: &Response, now: u64) -> (until: Option<HttpDate>)
    ensures
        until == expiry_of(*response, now as int),
        lives_on(*response) ==> (match until {
            Some(date) => is_after(date, now as int),
            None => true,
        }),
{
    let expires = parse_expires(&response.expires);
    let secs = max_age(response);
    valid_until(expires, secs, now)
}

/// What the expiry marker says of the cache at a given time.
#[derive(Clone, Copy, Debug, PartialEq, Eq, Structural)]
pub enum Freshness {
    /// The marker holds a date that is still ahead.
    Fresh,
    /// The marker holds a date that has come or gone.
    Expired,
    /// The marker holds no HTTP date.
    Malformed,
}

/// What a marker with the text `marker` says at the time `now`.
pub open spec fn freshness_of(marker: Seq<char>, now: int) -> Freshness {
    match http_date_parsed(marker) {
        Some(date) => if is_after(date, now) {
            Freshness::Fresh
        } else {
            Freshness::Expired
        },
        None => Freshness::Malformed,
    }
}

/// Reads the expiry marker and compares its date with the clock, which
/// reads `now` seconds since the epoch.
pub fn judge_marker(marker: &str, now: u64) -> (freshness: Freshness)
    ensures
        freshness == freshness_of(marker@, now as int),
{
    match parse_http_date(marker) {
        Some(date) => {
            if date_is_after(&date, now) {
                Freshness::Fresh
            } else {
                Freshness::Expired
            }
        },
        None => Freshness::Malformed,
    }
}

/// The text of the expiry marker for a cache that is valid until `until`.
pub fn expiry_marker(until: &HttpDate) -> (marker: String)
    ensures
        marker@ == http_date_text(*until),
{
    http_date_to_string(until)
}

} // verus!
