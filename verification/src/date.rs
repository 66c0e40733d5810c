use vstd::prelude::*;
use crate::error::{RmxError, ErrorView};

verus! {

pub const DATE_FORMAT: &'static str = "%Y-%m-%d";
pub const DATE_TIME_FORMAT: &'static str = "%Y-%m-%d %H:%M";
pub const DATE_TIME_LONG_FORMAT: &'static str = "%Y-%m-%d %H:%M:%S";
pub const DATE_TIME_FULL_FORMAT: &'static str = "%Y-%m-%d %H:%M:%S%.f";
pub const DATE_TIME_FULL_FORMAT_TZ: &'static str = "%Y-%m-%dT%H:%M:%S%.fZ";

/// The seconds in a day.
pub const SECONDS_PER_DAY: i64 = 86400;

/// A moment in UTC: whole seconds since the Unix epoch and the nanoseconds
/// past them.
#[derive(Debug, Clone, Copy, PartialEq, Eq, PartialOrd, Ord, Hash)]
pub struct UtcDateTime {
    pub seconds: i64,
    pub nanos: u32,
}

/// What `chrono::NaiveDateTime::parse_from_str(value, format)` gives: the
/// moment read, as seconds and nanoseconds since the epoch taken in UTC, or
/// the text of the error.
pub uninterp spec fn naive_datetime_parse(value: Seq<char>, format: Seq<char>) -> Result<(i64, u32), Seq<char>>;

/// What `chrono::NaiveDate::parse_from_str(value, format)` gives: the
/// seconds since the epoch of the midnight of the day read, in UTC, or the
/// text of the error.
pub uninterp spec fn naive_date_parse(value: Seq<char>, format: Seq<char>) -> Result<i64, Seq<char>>;

/// The view of a parse with the text of its error.
pub open spec fn view_parse<T>(r: Result<T, String>) -> Result<T, Seq<char>> {
    match r {
        Ok(v) => Ok(v),
        Err(m) => Err(m@),
    }
}

/// Parses a date and time with `NaiveDateTime::parse_from_str`; the
/// contract claims only that the result is what the name
/// `naive_datetime_parse` gives for the value and the format.
#[verifier::external_body]
fn parse_datetime_with(value: &str, format: &str) -> (r: Result<(i64, u32), String>)
    ensures
        view_parse(r) == naive_datetime_parse(value@, format@),
{
    match chrono::NaiveDateTime::parse_from_str(value, format) {
        Ok(d) => Ok((d.and_utc().timestamp(), d.and_utc().timestamp_subsec_nanos())),
        Err(e) => Err(e.to_string()),
    }
}

/// Parses a date with `NaiveDate::parse_from_str` and takes its midnight;
/// the contract claims only that the result is what the name
/// `naive_date_parse` gives for the value and the format.
#[verifier::external_body]
fn parse_date_with(value: &str, format: &str) -> (r: Result<i64, String>)
    ensures
        view_parse(r) == naive_date_parse(value@, format@),
{
    match chrono::NaiveDate::parse_from_str(value, format) {
        Ok(d) => Ok(d.and_time(chrono::NaiveTime::MIN).and_utc().timestamp()),
        Err(e) => Err(e.to_string()),
    }
}

/// The moment read, or chrono's error carried by its text.
pub open spec fn moment_or_error(p: Result<(i64, u32), Seq<char>>) -> Result<UtcDateTime, ErrorView> {
    match p {
        Ok((s, n)) => Ok(UtcDateTime { seconds: s, nanos: n }),
        Err(m) => Err(ErrorView::External(m)),
    }
}

/// The moment that `value` names in the first of these forms that reads
/// it: "%Y-%m-%d %H:%M", "%Y-%m-%d %H:%M:%S", "%Y-%m-%d %H:%M:%S%.f",
/// "%Y-%m-%dT%H:%M:%S%.fZ", and a bare date, which stands for its midnight;
/// when none does, the error of reading the bare date.
pub open spec fn spec_parse_date_any(value: Seq<char>) -> Result<UtcDateTime, ErrorView> {
    if naive_datetime_parse(value, DATE_TIME_FORMAT@) is Ok {
        moment_or_error(naive_datetime_parse(value, DATE_TIME_FORMAT@))
    } else if naive_datetime_parse(value, DATE_TIME_LONG_FORMAT@) is Ok {
        moment_or_error(naive_datetime_parse(value, DATE_TIME_LONG_FORMAT@))
    } else if naive_datetime_parse(value, DATE_TIME_FULL_FORMAT@) is Ok {
        moment_or_error(naive_datetime_parse(value, DATE_TIME_FULL_FORMAT@))
    } else if naive_datetime_parse(value, DATE_TIME_FULL_FORMAT_TZ@) is Ok {
        moment_or_error(naive_datetime_parse(value, DATE_TIME_FULL_FORMAT_TZ@))
    } else {
        match naive_date_parse(value, DATE_FORMAT@) {
            Ok(s) => Ok(UtcDateTime { seconds: s, nanos: 0 }),
            Err(m) => Err(ErrorView::External(m)),
        }
    }
}

pub open spec fn view_moment(r: Result<UtcDateTime, RmxError>) -> Result<UtcDateTime, ErrorView> {
    match r {
        Ok(d) => Ok(d),
        Err(e) => Err(e@),
    }
}

/// Reads a moment in any of the supported forms (see `spec_parse_date_any`).
pub fn parse_date_any(value: &str) -> (r: Result<UtcDateTime, RmxError>)
    ensures
        view_moment(r) == spec_parse_date_any(value@),
{
    match parse_datetime_with(value, DATE_TIME_FORMAT) {
        Ok((s, n)) => return Ok(UtcDateTime { seconds: s, nanos: n }),
        Err(_) => {},
    }
    match parse_datetime_with(value, DATE_TIME_LONG_FORMAT) {
        Ok((s, n)) => return Ok(UtcDateTime { seconds: s, nanos: n }),
        Err(_) => {},
    }
    match parse_datetime_with(value, DATE_TIME_FULL_FORMAT) {
        Ok((s, n)) => return Ok(UtcDateTime { seconds: s, nanos: n }),
        Err(_) => {},
    }
    match parse_datetime_with(value, DATE_TIME_FULL_FORMAT_TZ) {
        Ok((s, n)) => return Ok(UtcDateTime { seconds: s, nanos: n }),
        Err(_) => {},
    }
    match parse_date_with(value, DATE_FORMAT) {
        Ok(s) => Ok(UtcDateTime { seconds: s, nanos: 0 }),
        Err(m) => Err(RmxError::External(m)),
    }
}

fn lift_moment(p: Result<(i64, u32), String>) -> (r: Result<UtcDateTime, RmxError>)
    ensures
        view_moment(r) == moment_or_error(view_parse(p)),
{
    match p {
        Ok((s, n)) => Ok(UtcDateTime { seconds: s, nanos: n }),
        Err(m) => Err(RmxError::External(m)),
    }
}

/// Reads a moment in the form "%Y-%m-%d %H:%M:%S".
pub fn parse_date(value: &str) -> (r: Result<UtcDateTime, RmxError>)
    ensures
        view_moment(r) == moment_or_error(naive_datetime_parse(value@, DATE_TIME_LONG_FORMAT@)),
{
    lift_moment(parse_datetime_with(value, DATE_TIME_LONG_FORMAT))
}

/// Reads a moment in the form "%Y-%m-%dT%H:%M:%S%.fZ".
pub fn parse_date_ftz(value: &str) -> (r: Result<UtcDateTime, RmxError>)
    ensures
        view_moment(r) == moment_or_error(naive_datetime_parse(value@, DATE_TIME_FULL_FORMAT_TZ@)),
{
    lift_moment(parse_datetime_with(value, DATE_TIME_FULL_FORMAT_TZ))
}

/// Midnight of the day of the moment `now` (seconds since the epoch).
pub open spec fn spec_midnight(now: int) -> int {
    now - now % (SECONDS_PER_DAY as int)
}

/// Midnight of a midnight is itself, and every moment lies in the day
/// that starts at its midnight.
pub proof fn law_midnight(now: int)
    ensures
        spec_midnight(spec_midnight(now)) == spec_midnight(now),
        spec_midnight(now) <= now < spec_midnight(now) + SECONDS_PER_DAY,
        spec_midnight(now) % (SECONDS_PER_DAY as int) == 0,
{
    let d = SECONDS_PER_DAY as int;
    let m = spec_midnight(now);
    assert(m % d == 0) by (nonlinear_arith)
        requires
            m == now - now % d,
            d == 86400,
    ;
    assert(m - m % d == m);
}

/// Midnight (UTC) of the day of the moment `now`, given in seconds since
/// the epoch.
pub fn utc_today(now: i64) -> (r: UtcDateTime)
    requires
        now >= i64::MIN + SECONDS_PER_DAY,
    ensures
        r.nanos == 0,
        r.seconds % SECONDS_PER_DAY == 0,
        r.seconds <= now < r.seconds + SECONDS_PER_DAY,
        r.seconds == spec_midnight(now as int),
{
    let rem = now % SECONDS_PER_DAY;
    let rem = if rem < 0 { rem + SECONDS_PER_DAY } else { rem };
    UtcDateTime { seconds: now - rem, nanos: 0 }
}

} // verus!
