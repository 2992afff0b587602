//! The compact date-time encoding of the picture source (`YYYYMMDD` with an
//! optional `HHMM`), and instants as whole seconds since the Unix epoch.

use vstd::prelude::*;
use vstd::arithmetic::div_mod::lemma_mod_multiples_vanish;

verus! {

/// Hour of the day (UTC) at which a new daily picture becomes valid.
pub const DEFAULT_HOUR: u32 = 7;

pub const SECONDS_PER_MINUTE: i64 = 60;

pub const SECONDS_PER_HOUR: i64 = 3600;

pub const SECONDS_PER_DAY: i64 = 86400;

/// 0000-01-01T00:00:00Z, the first instant whose year has four digits.
pub const MIN_INSTANT: i64 = -62167219200;

/// 9999-12-31T23:59:59Z, the last instant whose year has four digits.
pub const MAX_INSTANT: i64 = 253402300799;

/// An instant of the years 0000 to 9999, the ones the date encoding can name.
pub open spec fn is_instant(t: int) -> bool {
    MIN_INSTANT <= t <= MAX_INSTANT
}

pub open spec fn is_leap_year(y: int) -> bool {
    (y % 4 == 0 && y % 100 != 0) || y % 400 == 0
}

pub open spec fn days_in_month(y: int, m: int) -> int {
    if m == 2 {
        if is_leap_year(y) { 29 } else { 28 }
    } else if m == 4 || m == 6 || m == 9 || m == 11 {
        30
    } else {
        31
    }
}

/// A day of the proleptic Gregorian calendar.
pub open spec fn is_valid_date(y: int, m: int, d: int) -> bool {
    1 <= m <= 12 && 1 <= d <= days_in_month(y, m)
}

/// Leap years among 1..=y (negative for y < 0, so that year 0 counts as leap).
pub open spec fn leap_years_through(y: int) -> int {
    y / 4 - y / 100 + y / 400
}

/// Days from 1970-01-01 to January 1st of year `y`.
pub open spec fn days_before_year(y: int) -> int {
    365 * (y - 1970) + leap_years_through(y - 1) - leap_years_through(1969)
}

/// Days from January 1st to the first day of month `m` of year `y`.
pub open spec fn days_before_month(y: int, m: int) -> int {
    let common: int = if m == 1 {
        0
    } else if m == 2 {
        31
    } else if m == 3 {
        59
    } else if m == 4 {
        90
    } else if m == 5 {
        120
    } else if m == 6 {
        151
    } else if m == 7 {
        181
    } else if m == 8 {
        212
    } else if m == 9 {
        243
    } else if m == 10 {
        273
    } else if m == 11 {
        304
    } else {
        334
    };
    if m > 2 && is_leap_year(y) { common + 1 } else { common }
}

/// Seconds from 1970-01-01T00:00:00Z to the given UTC date and time.
pub open spec fn unix_seconds(y: int, m: int, d: int, h: int, mi: int) -> int {
    (days_before_year(y) + days_before_month(y, m) + d - 1) * 86400 + h * 3600 + mi * 60
}

pub open spec fn is_digit(c: char) -> bool {
    '0' <= c <= '9'
}

pub open spec fn all_digits(s: Seq<char>) -> bool {
    forall|i: int| 0 <= i < s.len() ==> #[trigger] is_digit(s[i])
}

/// The number that a string of decimal digits writes.
pub open spec fn number_of(s: Seq<char>) -> int
    decreases s.len(),
{
    if s.len() == 0 {
        0
    } else {
        number_of(s.drop_last()) * 10 + (s.last() as int - '0' as int)
    }
}

/// The group of `len` characters starting at `start`.
pub open spec fn group(s: Seq<char>, start: int, len: int) -> Seq<char> {
    s.subrange(start, start + len)
}

pub open spec fn year_of(s: Seq<char>) -> int {
    number_of(group(s, 0, 4))
}

pub open spec fn month_of(s: Seq<char>) -> int {
    number_of(group(s, 4, 2))
}

pub open spec fn day_of(s: Seq<char>) -> int {
    number_of(group(s, 6, 2))
}

/// The mandatory `YYYYMMDD` part is present, numeric and a calendar date.
pub open spec fn has_valid_date(s: Seq<char>) -> bool {
    &&& s.len() >= 8
    &&& all_digits(group(s, 0, 4))
    &&& all_digits(group(s, 4, 2))
    &&& all_digits(group(s, 6, 2))
    &&& is_valid_date(year_of(s), month_of(s), day_of(s))
}

/// The date is followed by exactly four digits that write a time of day.
pub open spec fn has_explicit_time(s: Seq<char>) -> bool {
    &&& s.len() == 12
    &&& all_digits(group(s, 8, 2))
    &&& all_digits(group(s, 10, 2))
    &&& number_of(group(s, 8, 2)) < 24
    &&& number_of(group(s, 10, 2)) < 60
}

/// The instant an encoded date-time names; 07:00 where no valid time follows the date.
pub open spec fn decoded_instant(s: Seq<char>) -> int {
    let h = if has_explicit_time(s) { number_of(group(s, 8, 2)) } else { DEFAULT_HOUR as int };
    let mi = if has_explicit_time(s) { number_of(group(s, 10, 2)) } else { 0 };
    unix_seconds(year_of(s), month_of(s), day_of(s), h, mi)
}

/// The encoded date-time was too short, not numeric, or not a calendar date.
#[derive(Debug, Clone, Copy, PartialEq, Eq, Structural)]
pub struct MalformedDate;

/// Relies on chrono's `NaiveDate::from_ymd_opt`, `NaiveDate::and_hms_opt` and
/// `DateTime::timestamp`: a calendar date and a time of day exist exactly when
/// the month has that day and the hour and minute are below 24 and 60, and the
/// timestamp counts the non-leap seconds since 1970-01-01T00:00:00Z.
#[verifier::external_body]
fn utc_timestamp(y: u32, m: u32, d: u32, h: u32, mi: u32) -> (r: Option<i64>)
    requires
        y <= 9999,
    ensures
        r is Some <==> (is_valid_date(y as int, m as int, d as int) && h < 24 && mi < 60),
        r is Some ==> r->0 == unix_seconds(y as int, m as int, d as int, h as int, mi as int),
{
    chrono::NaiveDate::from_ymd_opt(y as i32, m, d)
        .and_then(|date| date.and_hms_opt(h, mi, 0))
        .map(|datetime| datetime.and_utc().timestamp())
}

/// Reads the `len` decimal digits of `s` that start at character `start`.
fn read_number(s: &str, start: usize, len: usize) -> (r: Option<u32>)
    requires
        start + len <= s@.len(),
        start + len <= 12,
        len <= 4,
    ensures
        r is Some <==> all_digits(group(s@, start as int, len as int)),
        r is Some ==> r->0 == number_of(group(s@, start as int, len as int)),
        r is Some ==> r->0 < 10000,
{
    let mut value: u32 = 0;
    let mut bound: u32 = 1;
    let mut i: usize = start;
    while i < start + len
        invariant
            start <= i <= start + len,
            start + len <= s@.len(),
            start + len <= 12,
            len <= 4,
            bound <= 10000,
            value < bound,
            i - start <= 4,
            bound as int == pow10((i - start) as nat),
            all_digits(s@.subrange(start as int, i as int)),
            value == number_of(s@.subrange(start as int, i as int)),
        decreases start + len - i,
    {
        let c = s.get_char(i);
        if c < '0' || c > '9' {
            assert(!is_digit(group(s@, start as int, len as int)[i - start]));
            return None;
        }
        let ghost prev = s@.subrange(start as int, i as int);
        let ghost next = s@.subrange(start as int, i + 1);
        assert(next.drop_last() =~= prev);
        assert(next.last() == c);
        proof {
            lemma_pow10_small((i - start) as nat);
        }
        value = value * 10 + (c as u32 - '0' as u32);
        bound = bound * 10;
        i = i + 1;
        assert forall|k: int| 0 <= k < next.len() implies #[trigger] is_digit(next[k]) by {
            if k < prev.len() {
                assert(next[k] == prev[k]);
            }
        }
    }
    Some(value)
}

pub open spec fn pow10(n: nat) -> int
    decreases n,
{
    if n == 0 { 1 } else { 10 * pow10((n - 1) as nat) }
}

proof fn lemma_pow10_small(n: nat)
    requires
        n < 4,
    ensures
        pow10(n) * 10 <= 10000,
        pow10(n + 1) == pow10(n) * 10,
{
    reveal_with_fuel(pow10, 5);
}

/// Decodes `YYYYMMDD` optionally followed by `HHMM` into seconds since the
/// Unix epoch, read as UTC. Without a valid four-digit time the picture's
/// default hour 07:00 is used.
pub fn parse_bing_date(s: &str) -> (r: Result<i64, MalformedDate>)
    ensures
        r is Ok <==> has_valid_date(s@),
        r is Ok ==> r->Ok_0 == decoded_instant(s@),
{
    let n = s.unicode_len();
    if n < 8 {
        return Err(MalformedDate);
    }
    let year = match read_number(s, 0, 4) {
        Some(v) => v,
        None => return Err(MalformedDate),
    };
    let month = match read_number(s, 4, 2) {
        Some(v) => v,
        None => return Err(MalformedDate),
    };
    let day = match read_number(s, 6, 2) {
        Some(v) => v,
        None => return Err(MalformedDate),
    };
    let mut hour: u32 = DEFAULT_HOUR;
    let mut minute: u32 = 0;
    if n == 12 {
        let h = read_number(s, 8, 2);
        let mi = read_number(s, 10, 2);
        if let (Some(hv), Some(mv)) = (h, mi) {
            if hv < 24 && mv < 60 {
                hour = hv;
                minute = mv;
            }
        }
    }
    match utc_timestamp(year, month, day, hour, minute) {
        Some(t) => Ok(t),
        None => Err(MalformedDate),
    }
}

/// Seconds since UTC midnight of the day that holds `t`.
pub open spec fn second_of_day(t: int) -> int {
    t % 86400
}

/// The first 07:00 UTC strictly after `now`: today's 07:00 before seven
/// o'clock, else tomorrow's.
pub open spec fn next_default_hour(now: int) -> int {
    let midnight = now - second_of_day(now);
    if second_of_day(now) >= DEFAULT_HOUR * 3600 {
        midnight + 86400 + DEFAULT_HOUR * 3600
    } else {
        midnight + DEFAULT_HOUR * 3600
    }
}

/// The instant of the next 07:00 UTC boundary: today's if `now` is before
/// seven o'clock, tomorrow's otherwise.
pub fn predict_next_poll_time(now: i64) -> (r: i64)
    requires
        is_instant(now as int),
    ensures
        r == next_default_hour(now as int),
        now < r <= now + SECONDS_PER_DAY,
        second_of_day(r as int) == DEFAULT_HOUR * 3600,
{
    let shifted: u64 = (now - MIN_INSTANT) as u64;
    let sec: i64 = (shifted % 86400) as i64;
    proof {
        lemma_mod_multiples_vanish(719528, now as int, 86400);
        assert(now - MIN_INSTANT == 86400 * 719528 + now);
        assert(second_of_day(now as int) == sec);
    }
    let midnight: i64 = now - sec;
    let r: i64 = if sec >= DEFAULT_HOUR as i64 * SECONDS_PER_HOUR {
        midnight + SECONDS_PER_DAY + DEFAULT_HOUR as i64 * SECONDS_PER_HOUR
    } else {
        midnight + DEFAULT_HOUR as i64 * SECONDS_PER_HOUR
    };
    proof {
        lemma_mod_multiples_vanish((midnight / 86400) as int, 25200, 86400);
        lemma_mod_multiples_vanish((midnight / 86400 + 1) as int, 25200, 86400);
        assert(midnight == 86400 * (midnight / 86400)) by {
            vstd::arithmetic::div_mod::lemma_fundamental_div_mod(now as int, 86400);
        }
    }
    r
}

/// The instant `t` if it is one of the years 0000 to 9999 that is at least a
/// day past their start, so that the day before it is one too.
pub fn instant_in_range(t: i64) -> (r: Option<i64>)
    ensures
        r == (if MIN_INSTANT + SECONDS_PER_DAY <= t <= MAX_INSTANT {
            Some(t)
        } else {
            None::<i64>
        }),
        r matches Some(u) ==> is_instant(u as int) && is_instant(u - SECONDS_PER_DAY),
{
    if MIN_INSTANT + SECONDS_PER_DAY <= t && t <= MAX_INSTANT {
        Some(t)
    } else {
        None
    }
}

pub open spec fn digit_char(d: int) -> char {
    if d == 0 {
        '0'
    } else if d == 1 {
        '1'
    } else if d == 2 {
        '2'
    } else if d == 3 {
        '3'
    } else if d == 4 {
        '4'
    } else if d == 5 {
        '5'
    } else if d == 6 {
        '6'
    } else if d == 7 {
        '7'
    } else if d == 8 {
        '8'
    } else {
        '9'
    }
}

/// The last `width` decimal digits of `n`, zero-padded.
pub open spec fn padded_digits(n: int, width: nat) -> Seq<char>
    decreases width,
{
    if width == 0 {
        Seq::empty()
    } else {
        padded_digits(n / 10, (width - 1) as nat).push(digit_char(n % 10))
    }
}

/// A date written `YYYYMMDD`.
pub open spec fn date_digits_of(y: int, m: int, d: int) -> Seq<char> {
    padded_digits(y, 4) + padded_digits(m, 2) + padded_digits(d, 2)
}

/// `s` is the `YYYYMMDD` of the UTC day, of the years 0000 to 9999, that holds `t`.
pub open spec fn is_day_digits(t: int, s: Seq<char>) -> bool {
    exists|y: int, m: int, d: int|
        0 <= y <= 9999 && is_valid_date(y, m, d) && unix_seconds(y, m, d, 0, 0) <= t
            < unix_seconds(y, m, d, 0, 0) + 86400 && s == #[trigger] date_digits_of(y, m, d)
}

/// Relies on chrono's `DateTime::from_timestamp` and its `%Y%m%d` formatting:
/// the UTC calendar day of a timestamp, as a four-digit year, a two-digit
/// month and a two-digit day, each zero-padded. Every instant of the years
/// 0000 to 9999 is in chrono's range.
#[verifier::external_body]
pub(crate) fn date_digits(t: i64) -> (r: String)
    requires
        is_instant(t as int),
    ensures
        is_day_digits(t as int, r@),
{
    chrono::DateTime::from_timestamp(t, 0).map(|d| d.format("%Y%m%d").to_string()).unwrap_or_default()
}

} // verus!
