//! Points in time and spans of time, counted in whole seconds.

use vstd::prelude::*;
use chrono::TimeZone;
use crate::text::{i64_to_decimal, signed_decimal_text};

verus! {

/// The margin by which a token is refreshed ahead of its expiry.
pub const REFRESH_MARGIN_SECS: i64 = 300;

/// How long a task waits after a failure before it tries again.
pub const BACKOFF_SECS: u64 = 15;

/// How long the poller waits between two looks at the schedule.
pub const POLL_INTERVAL_SECS: u64 = 15;

/// How long a call may take before the transport gives it up.
pub const REQUEST_TIMEOUT_SECS: u64 = 30;

/// The seconds of one day.
pub const SECS_PER_DAY: i64 = 86400;

/// The days ahead of now for which the schedule is asked.
pub const SCHEDULE_WINDOW_DAYS: i64 = 31;

/// Seconds to sleep until `margin` seconds before `expires_at`, never negative.
pub open spec fn spec_sleep_secs(expires_at: int, now: int, margin: int) -> int {
    let left = expires_at - now - margin;
    if 0 < left <= i64::MAX {
        left
    } else {
        0
    }
}

/// How long the refresh task sleeps before it refreshes: the time left until
/// `margin` seconds before the expiry, or zero where that moment has passed.
pub fn sleep_secs(expires_at: i64, now: i64, margin: i64) -> (secs: u64)
    ensures
        secs == spec_sleep_secs(expires_at as int, now as int, margin as int),
{
    let wide: i128 = expires_at as i128 - now as i128 - margin as i128;
    if 0 < wide && wide <= i64::MAX as i128 {
        wide as u64
    } else {
        0
    }
}

/// `a` divided by the positive `b`, rounded towards zero.
pub open spec fn div_to_zero(a: int, b: int) -> int {
    if a >= 0 {
        a / b
    } else {
        -((-a) / b)
    }
}

/// What is left of `a` when the positive `b` is taken out of it as often as
/// `div_to_zero` says; it has the sign of `a`.
pub open spec fn rem_to_zero(a: int, b: int) -> int {
    a - b * div_to_zero(a, b)
}

/// Divides `a` by `b`, rounding towards zero.
pub fn div_rem_to_zero(a: i64, b: i64) -> (qr: (i64, i64))
    requires
        b > 0,
    ensures
        qr.0 == div_to_zero(a as int, b as int),
        qr.1 == rem_to_zero(a as int, b as int),
{
    if a >= 0 {
        let q = a / b;
        assert(0 <= b * q <= a) by (nonlinear_arith)
            requires
                q == a / b,
                b > 0,
                a >= 0,
        ;
        (q, a - b * q)
    } else {
        let wide: i128 = -(a as i128);
        let q = wide / (b as i128);
        assert(0 <= q <= wide && wide - b < b * q <= wide) by (nonlinear_arith)
            requires
                q == wide / (b as i128),
                b > 0,
                wide > 0,
        ;
        assert(b * (-q) == -(b * q)) by (nonlinear_arith);
        ((-q) as i64, (a as i128 + (b as i128) * q) as i64)
    }
}

/// The whole days from `from` to `to`, rounded towards zero; negative where
/// `to` is the earlier.
pub fn days_between(from: i64, to: i64) -> (days: i64)
    ensures
        days == div_to_zero(to - from, SECS_PER_DAY as int),
{
    let wide: i128 = to as i128 - from as i128;
    if wide >= 0 {
        (wide / 86400) as i64
    } else {
        (-((-wide) / 86400)) as i64
    }
}

/// The end of the window for which the schedule is asked at `now`; `None`
/// where it lies past what 64 bits count.
pub fn window_end(now: i64) -> (end: Option<i64>)
    ensures
        match end {
            Some(e) => e == now + SCHEDULE_WINDOW_DAYS * SECS_PER_DAY,
            None => now + SCHEDULE_WINDOW_DAYS * SECS_PER_DAY > i64::MAX,
        },
{
    now.checked_add(31 * 86400)
}

/// A span of `seconds` in words: its whole days, then the hours, minutes
/// and seconds beyond them, each with the sign of the span.
pub open spec fn time_delta_text(seconds: int) -> Seq<char> {
    signed_decimal_text(div_to_zero(seconds, 86400)) + " days, "@ + signed_decimal_text(
        rem_to_zero(div_to_zero(seconds, 3600), 24),
    ) + " hours, "@ + signed_decimal_text(rem_to_zero(div_to_zero(seconds, 60), 60))
        + " minutes, "@ + signed_decimal_text(rem_to_zero(seconds, 60)) + " seconds"@
}

/// Writes a span of `seconds` in words.
pub fn readable_time_delta(seconds: i64) -> (text: String)
    ensures
        text@ == time_delta_text(seconds as int),
{
    let days = div_rem_to_zero(seconds, 86400).0;
    let hours = div_rem_to_zero(div_rem_to_zero(seconds, 3600).0, 24).1;
    let minutes = div_rem_to_zero(div_rem_to_zero(seconds, 60).0, 60).1;
    let secs = div_rem_to_zero(seconds, 60).1;
    let mut text = i64_to_decimal(days);
    text.append(" days, ");
    text.append(i64_to_decimal(hours).as_str());
    text.append(" hours, ");
    text.append(i64_to_decimal(minutes).as_str());
    text.append(" minutes, ");
    text.append(i64_to_decimal(secs).as_str());
    text.append(" seconds");
    text
}

/// The point in time `secs` as the service is told it: the date and the
/// time of day in UTC; `None` for a point that no calendar date stands for.
pub uninterp spec fn utc_text(secs: int) -> Option<Seq<char>>;

/// Writes a point in time with `chrono`: `DateTime::from_timestamp` with no
/// fraction of a second, then the `Display` of `DateTime<Utc>`. The
/// contract names the text and says no more of it.
#[verifier::external_body]
fn format_utc(secs: i64) -> (text: Option<String>)
    ensures
        match text {
            Some(t) => utc_text(secs as int) == Some(t@),
            None => utc_text(secs as int) is None,
        },
{
    chrono::DateTime::<chrono::Utc>::from_timestamp(secs, 0).map(|date| date.to_string())
}

/// The point in time, in seconds since the epoch, that `text` names as a
/// date and a time of day on Warsaw's clocks; `None` where the text is no
/// such date, or where Warsaw's clocks showed it never or twice.
pub uninterp spec fn warsaw_seconds(text: Seq<char>) -> Option<int>;

/// Reads a date of the schedule with `chrono` and `chrono-tz`:
/// `NaiveDateTime::parse_from_str` with the form `%Y-%m-%dT%H:%M:%S`, then
/// `Europe::Warsaw.from_local_datetime`, of which only a single point in
/// time counts, then `DateTime::timestamp`. The contract names the point in
/// time and says no more of it.
#[verifier::external_body]
pub fn date_from_string(timestamp: &str) -> (secs: Option<i64>)
    ensures
        match secs {
            Some(s) => warsaw_seconds(timestamp@) == Some(s as int),
            None => warsaw_seconds(timestamp@) is None,
        },
{
    chrono::NaiveDateTime::parse_from_str(timestamp, "%Y-%m-%dT%H:%M:%S")
        .ok()
        .and_then(|naive| chrono_tz::Europe::Warsaw.from_local_datetime(&naive).single())
        .map(|local| local.timestamp())
}

/// A date of the schedule written for a reader, the time of day first and
/// marked up; `None` where the text is no date with a time of day.
pub uninterp spec fn readable_date(text: Seq<char>) -> Option<Seq<char>>;

/// Rewrites a date of the schedule with `chrono`:
/// `NaiveDateTime::parse_from_str` with the form `%Y-%m-%dT%H:%M:%S`, then
/// `NaiveDateTime::format` with the time of day in bold and underlined
/// before the day, month and year. The contract names the text and says no
/// more of it.
#[verifier::external_body]
fn format_readable(timestamp: &str) -> (text: Option<String>)
    ensures
        match text {
            Some(t) => readable_date(timestamp@) == Some(t@),
            None => readable_date(timestamp@) is None,
        },
{
    chrono::NaiveDateTime::parse_from_str(timestamp, "%Y-%m-%dT%H:%M:%S")
        .ok()
        .map(|date| date.format("<u><b>%H:%M</b></u>%e-%m-%Y").to_string())
}

/// A date of the schedule written for a reader; a text that is no date is
/// handed back as it is.
pub fn readable_date_from_string(timestamp: String) -> (text: String)
    ensures
        match readable_date(timestamp@) {
            Some(written) => text@ == written,
            None => text == timestamp,
        },
{
    match format_readable(timestamp.as_str()) {
        Some(written) => written,
        None => timestamp,
    }
}

/// The whole days from `now` to the date `date` of the schedule, rounded
/// towards zero; `None` where `date` names no point in time.
pub fn days_until(date: &str, now: i64) -> (days: Option<i64>)
    ensures
        match warsaw_seconds(date@) {
            Some(at) => days matches Some(d) && d == div_to_zero(at - now, SECS_PER_DAY as int),
            None => days is None,
        },
{
    match date_from_string(date) {
        Some(at) => Some(days_between(now, at)),
        None => None,
    }
}

/// The window for which the schedule is asked at `now`, as the two texts
/// that the service is told: `now`, and the same time of day 31 days on.
/// `None` where either has no calendar date.
pub fn schedule_window(now: i64) -> (window: Option<(String, String)>)
    ensures
        match (utc_text(now as int), utc_text(now + SCHEDULE_WINDOW_DAYS * SECS_PER_DAY)) {
            (Some(start), Some(end)) => if now + SCHEDULE_WINDOW_DAYS * SECS_PER_DAY <= i64::MAX {
                window matches Some(w) && w.0@ == start && w.1@ == end
            } else {
                window is None
            },
            _ => window is None,
        },
{
    let end = match window_end(now) {
        Some(end) => end,
        None => {
            return None;
        },
    };
    match (format_utc(now), format_utc(end)) {
        (Some(start_text), Some(end_text)) => Some((start_text, end_text)),
        _ => None,
    }
}

} // verus!
