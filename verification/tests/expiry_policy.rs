use node_resolve::expiry::{
    expiry, expiry_marker, judge_marker, max_age, max_age_among, valid_until, CacheDirective,
    Freshness, Response,
};
use reqwest::hyper_011::header::HttpDate;
use std::str::FromStr;

/// Sun, 06 Nov 1994 08:49:37 GMT, in seconds since the epoch.
const NOV_6: u64 = 784_111_777;

/// The last second of the year 9999.
const LAST: u64 = 253_402_300_799;

fn response(expires: &[&str], cache_control: &[&str]) -> Response {
    Response {
        body: "[]".to_string(),
        index: None,
        expires: expires.iter().map(|line| line.as_bytes().to_vec()).collect(),
        cache_control: cache_control.iter().map(|line| line.as_bytes().to_vec()).collect(),
    }
}

fn marker_for(response: &Response, now: u64) -> Option<String> {
    expiry(response, now).map(|until| expiry_marker(&until))
}

#[test]
fn max_age_defaults_to_four_hours() {
    assert_eq!(max_age(&response(&[], &[])), 4 * 60 * 60);
    assert_eq!(max_age_among(&vec![]), 14_400);
}

#[test]
fn max_age_reads_the_directive() {
    assert_eq!(max_age(&response(&[], &["max-age=60"])), 60);
    assert_eq!(max_age(&response(&[], &["public, max-age=31536000"])), 31_536_000);
    assert_eq!(max_age(&response(&[], &["max-age=\"75\""])), 75);
    assert_eq!(max_age(&response(&[], &["max-age=0"])), 0);
}

#[test]
fn max_age_honours_the_first_directive_only() {
    assert_eq!(max_age(&response(&[], &["max-age=60, max-age=30"])), 60);
    assert_eq!(max_age(&response(&[], &["no-cache", "max-age=10", "max-age=20"])), 10);
    assert_eq!(
        max_age_among(&vec![
            CacheDirective::Other,
            CacheDirective::MaxAge(60),
            CacheDirective::MaxAge(30),
        ]),
        60
    );
}

#[test]
fn max_age_passes_over_other_directives() {
    assert_eq!(max_age(&response(&[], &["no-cache, private"])), 14_400);
    assert_eq!(max_age(&response(&[], &["s-maxage=99, max-stale=5"])), 14_400);
    assert_eq!(max_age(&response(&[], &["no-store, must-revalidate", "max-age=7"])), 7);
    assert_eq!(max_age_among(&vec![CacheDirective::Other, CacheDirective::Other]), 14_400);
    assert_eq!(max_age_among(&vec![CacheDirective::MaxAge(0)]), 0);
}

#[test]
fn max_age_of_an_unreadable_header_is_the_default() {
    let mut broken = response(&[], &[]);
    broken.cache_control = vec![vec![0xff, 0xfe, b'=', b'1']];
    assert_eq!(max_age(&broken), 14_400);
}

#[test]
fn expiry_from_max_age_is_that_long_after_now() {
    assert_eq!(
        marker_for(&response(&[], &["max-age=60"]), NOV_6),
        Some("Sun, 06 Nov 1994 08:50:37 GMT".to_string())
    );
    assert_eq!(
        marker_for(&response(&[], &["max-age=60"]), 1_556_712_000),
        Some("Wed, 01 May 2019 12:01:00 GMT".to_string())
    );
}

#[test]
fn expiry_without_headers_is_four_hours_after_now() {
    assert_eq!(
        marker_for(&response(&[], &[]), NOV_6),
        Some("Sun, 06 Nov 1994 12:49:37 GMT".to_string())
    );
}

#[test]
fn expires_wins_over_max_age() {
    assert_eq!(
        marker_for(&response(&["Thu, 01 Dec 1994 16:00:00 GMT"], &["max-age=60"]), NOV_6),
        Some("Thu, 01 Dec 1994 16:00:00 GMT".to_string())
    );
    let until = expiry(&response(&["Thu, 01 Dec 1994 16:00:00 GMT"], &["max-age=60"]), NOV_6);
    assert_eq!(until, Some(HttpDate::from_str("Thu, 01 Dec 1994 16:00:00 GMT").unwrap()));
}

#[test]
fn expires_in_an_older_format_is_written_in_the_preferred_one() {
    assert_eq!(
        marker_for(&response(&["Sunday, 06-Nov-94 08:49:37 GMT"], &[]), 12),
        Some("Sun, 06 Nov 1994 08:49:37 GMT".to_string())
    );
}

#[test]
fn expires_that_is_no_date_gives_way_to_max_age() {
    assert_eq!(
        marker_for(&response(&["tomorrow"], &["max-age=60"]), NOV_6),
        Some("Sun, 06 Nov 1994 08:50:37 GMT".to_string())
    );
    assert_eq!(
        marker_for(&response(&["0"], &[]), NOV_6),
        Some("Sun, 06 Nov 1994 12:49:37 GMT".to_string())
    );
}

#[test]
fn expires_on_two_lines_gives_way_to_max_age() {
    let twice = response(
        &["Thu, 01 Dec 1994 16:00:00 GMT", "Thu, 01 Dec 1994 16:00:00 GMT"],
        &["max-age=60"],
    );
    assert_eq!(marker_for(&twice, NOV_6), Some("Sun, 06 Nov 1994 08:50:37 GMT".to_string()));
}

#[test]
fn valid_until_takes_the_given_date() {
    let given = HttpDate::from_str("Thu, 01 Dec 1994 16:00:00 GMT").unwrap();
    assert_eq!(valid_until(Some(given), 60, NOV_6), Some(given));
    assert_eq!(valid_until(Some(given), 0, LAST), Some(given));
}

#[test]
fn valid_until_adds_the_lifetime() {
    let until = valid_until(None, 60, NOV_6).unwrap();
    assert_eq!(expiry_marker(&until), "Sun, 06 Nov 1994 08:50:37 GMT");
    let until = valid_until(None, u32::MAX, 0).unwrap();
    assert_eq!(expiry_marker(&until), "Sun, 07 Feb 2106 06:28:15 GMT");
    let until = valid_until(None, 0, NOV_6).unwrap();
    assert_eq!(expiry_marker(&until), "Sun, 06 Nov 1994 08:49:37 GMT");
}

#[test]
fn valid_until_ends_with_the_year_9999() {
    let until = valid_until(None, 0, LAST).unwrap();
    assert_eq!(expiry_marker(&until), "Fri, 31 Dec 9999 23:59:59 GMT");
    let until = valid_until(None, 59, LAST - 59).unwrap();
    assert_eq!(expiry_marker(&until), "Fri, 31 Dec 9999 23:59:59 GMT");
    assert_eq!(valid_until(None, 1, LAST), None);
    assert_eq!(valid_until(None, 60, LAST - 59), None);
    assert_eq!(valid_until(None, 0, LAST + 1), None);
    assert_eq!(valid_until(None, u32::MAX, u64::MAX), None);
}

#[test]
fn marker_with_a_date_ahead_is_fresh() {
    assert_eq!(judge_marker("Sun, 06 Nov 1994 08:49:37 GMT", NOV_6 - 1), Freshness::Fresh);
    assert_eq!(judge_marker("Sun, 06 Nov 1994 08:49:37 GMT", 0), Freshness::Fresh);
    assert_eq!(judge_marker("Fri, 31 Dec 9999 23:59:59 GMT", LAST - 1), Freshness::Fresh);
}

#[test]
fn marker_with_a_date_that_has_come_is_expired() {
    assert_eq!(judge_marker("Sun, 06 Nov 1994 08:49:37 GMT", NOV_6), Freshness::Expired);
    assert_eq!(judge_marker("Sun, 06 Nov 1994 08:49:37 GMT", NOV_6 + 1), Freshness::Expired);
    assert_eq!(judge_marker("Thu, 01 Jan 1970 00:00:00 GMT", 0), Freshness::Expired);
    assert_eq!(judge_marker("Wed, 31 Dec 1969 23:59:59 GMT", 0), Freshness::Expired);
}

#[test]
fn marker_is_expired_for_a_clock_past_the_year_9999() {
    assert_eq!(judge_marker("Fri, 31 Dec 9999 23:59:59 GMT", LAST), Freshness::Expired);
    assert_eq!(judge_marker("Fri, 31 Dec 9999 23:59:60 GMT", LAST + 1), Freshness::Expired);
    assert_eq!(judge_marker("Fri, 31 Dec 9999 23:59:59 GMT", u64::MAX), Freshness::Expired);
}

#[test]
fn marker_in_the_older_formats_is_read() {
    assert_eq!(judge_marker("Sunday, 06-Nov-94 08:49:37 GMT", NOV_6 - 1), Freshness::Fresh);
    assert_eq!(judge_marker("Sun Nov  6 08:49:37 1994", NOV_6 - 1), Freshness::Fresh);
    assert_eq!(judge_marker("Sun Nov  6 08:49:37 1994", NOV_6), Freshness::Expired);
}

#[test]
fn marker_that_is_cut_short_or_garbled_is_malformed() {
    assert_eq!(judge_marker("", NOV_6), Freshness::Malformed);
    assert_eq!(judge_marker("Sun, 06 Nov 19", NOV_6), Freshness::Malformed);
    assert_eq!(judge_marker("Sun, 06 Nov 1994 08:49", NOV_6), Freshness::Malformed);
    assert_eq!(judge_marker("784111777", NOV_6), Freshness::Malformed);
    assert_eq!(judge_marker("this-is-no-date", 0), Freshness::Malformed);
    assert_eq!(judge_marker("\u{0}\u{fffd}\u{1f}", 0), Freshness::Malformed);
}

#[test]
fn marker_that_was_written_is_read_back() {
    let until = valid_until(None, 60, 1_556_712_000).unwrap();
    let marker = expiry_marker(&until);
    assert_eq!(judge_marker(&marker, 1_556_712_000), Freshness::Fresh);
    assert_eq!(judge_marker(&marker, 1_556_712_059), Freshness::Fresh);
    assert_eq!(judge_marker(&marker, 1_556_712_060), Freshness::Expired);
}
