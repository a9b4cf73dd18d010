use vstd::prelude::*;
use std::time::{Duration, Instant};
use chrono::Datelike;

verus! {

#[verifier::external_type_specification]
#[verifier::external_body]
pub struct ExInstant(Instant);

/// `Instant::now`: a reading of the monotonic clock.
#[verifier::external_body]
fn instant_now() -> Instant {
    Instant::now()
}

/// `Instant::elapsed`: the time since an earlier reading.
#[verifier::external_body]
fn instant_elapsed(origin: &Instant) -> Duration {
    origin.elapsed()
}

/// `Duration::as_millis`: the whole milliseconds of a duration.
#[verifier::external_body]
fn duration_millis(d: &Duration) -> u128 {
    d.as_millis()
}

/// The milliseconds since the Unix epoch that chrono's `DateTime<Utc>`
/// reaches: from January 1 of year -262143 to the last millisecond of
/// December 31 of year 262142.
pub open spec fn chrono_millis_in_range(ms: int) -> bool {
    -8334601228800000 <= ms <= 8210266876799999
}

/// `chrono::Utc::now`, read as milliseconds since the Unix epoch
/// (`timestamp_millis`). A `DateTime` never leaves chrono's range, and
/// `Utc::now` only returns for a system clock at or after the epoch.
#[verifier::external_body]
pub(crate) fn utc_now_millis() -> (r: i64)
    ensures
        chrono_millis_in_range(r as int),
        r >= 0,
{
    chrono::Utc::now().timestamp_millis()
}

/// A monotonic clock that reads whole milliseconds since it was started.
pub struct Clock {
    origin: Instant,
}

impl Clock {
    pub fn start() -> (c: Clock) {
        Clock { origin: instant_now() }
    }

    /// The milliseconds elapsed since the clock was started, saturating at `u64::MAX`.
    pub fn now_millis(&self) -> u64 {
        let d = instant_elapsed(&self.origin);
        let ms = duration_millis(&d);
        if ms > 18446744073709551615u128 {
            u64::MAX
        } else {
            ms as u64
        }
    }
}

/// The time from `earlier` to `later`, or zero where `later` is not after it
/// (`Instant::duration_since` saturates the same way).
pub open spec fn elapsed_since(later: u64, earlier: u64) -> nat {
    if later >= earlier { (later - earlier) as nat } else { 0 }
}

pub fn elapsed_ms(later: u64, earlier: u64) -> (r: u64)
    ensures
        r == elapsed_since(later, earlier),
{
    if later >= earlier { later - earlier } else { 0 }
}

} // verus!

verus! {

/// Leap years of the proleptic Gregorian calendar.
pub open spec fn is_leap_year(year: int) -> bool {
    year % 4 == 0 && (year % 100 != 0 || year % 400 == 0)
}

/// The number of days in `year`.
pub open spec fn year_length(year: int) -> int {
    if is_leap_year(year) { 366 } else { 365 }
}

/// The number of days in a month (1 to 12) of `year`.
pub open spec fn month_length(year: int, month: int) -> int {
    if month == 2 {
        if is_leap_year(year) { 29 } else { 28 }
    } else if month == 4 || month == 6 || month == 9 || month == 11 {
        30
    } else {
        31
    }
}

/// The days of `year` before the first of `month` (1 to 12).
pub open spec fn days_before_month(year: int, month: int) -> int {
    let common: int = if month <= 1 { 0 } else if month == 2 { 31 } else if month == 3 { 59 } else if month == 4 {
        90
    } else if month == 5 { 120 } else if month == 6 { 151 } else if month == 7 { 181 } else if month == 8 {
        212
    } else if month == 9 { 243 } else if month == 10 { 273 } else if month == 11 { 304 } else { 334 };
    if month > 2 && is_leap_year(year) { common + 1 } else { common }
}

/// The days before January 1 of `year`, counted from January 1 of year 1.
pub open spec fn days_before_year(year: int) -> int {
    let p = year - 1;
    365 * p + p / 4 - p / 100 + p / 400
}

/// The day number of a calendar date in the proleptic Gregorian calendar,
/// counting January 1 of year 1 as day 1 (chrono's `num_days_from_ce`), or
/// `None` for a date that does not exist or lies outside chrono's years.
pub open spec fn ce_day_number(year: int, month: int, day: int) -> Option<int> {
    if chrono_year_in_range(year) && 1 <= month <= 12 && 1 <= day <= month_length(year, month) {
        Some(days_before_year(year) + days_before_month(year, month) + day)
    } else {
        None
    }
}

/// Whether the day numbered `n` lies in `year`.
pub open spec fn day_in_year(year: int, n: int) -> bool {
    days_before_year(year) < n <= days_before_year(year) + year_length(year)
}

/// The year that holds the day numbered `n`.
pub open spec fn year_of_day(n: int) -> int {
    choose|y: int| #[trigger] day_in_year(y, n)
}

/// The month (1 to 12) of `year` that holds its `ordinal`-th day.
pub open spec fn month_of_ordinal(year: int, ordinal: int) -> int {
    choose|m: int|
        1 <= m <= 12 && #[trigger] days_before_month(year, m) < ordinal <= days_before_month(year, m)
            + month_length(year, m)
}

/// The calendar date (year, month, day) of the day numbered `n`.
pub open spec fn date_of_day(n: int) -> (int, int, int) {
    let y = year_of_day(n);
    let ordinal = n - days_before_year(y);
    let m = month_of_ordinal(y, ordinal);
    (y, m, ordinal - days_before_month(y, m))
}

/// The number of the UTC day that holds the time `ms` milliseconds after
/// the Unix epoch (January 1, 1970 is day 719163).
pub open spec fn day_of_millis(ms: int) -> int {
    ms / 86400000 + 719163
}

/// A year is as long as the gap between its first day and the next year's.
pub proof fn lemma_year_length(year: int)
    ensures
        days_before_year(year + 1) == days_before_year(year) + year_length(year),
{
    lemma_floor_step(year, 4);
    lemma_floor_step(year, 100);
    lemma_floor_step(year, 400);
    let a = year / 4 - (year - 1) / 4;
    let b = year / 100 - (year - 1) / 100;
    let c = year / 400 - (year - 1) / 400;
    assert(days_before_year(year + 1) == days_before_year(year) + 365 + a - b + c);
    assert(a - b + c == (if is_leap_year(year) { 1int } else { 0int })) by {
        vstd::arithmetic::div_mod::lemma_mod_mod(year, 4, 25);
        vstd::arithmetic::div_mod::lemma_mod_mod(year, 100, 4);
        assert(year % 400 == 0 ==> year % 100 == 0);
        assert(year % 100 == 0 ==> year % 4 == 0);
    }
}

/// `y / k` grows by one exactly where `k` divides `y`.
pub proof fn lemma_floor_step(y: int, k: int)
    requires
        k > 0,
    ensures
        y / k - (y - 1) / k == (if y % k == 0 { 1int } else { 0int }),
{
    vstd::arithmetic::div_mod::lemma_fundamental_div_mod(y, k);
    vstd::arithmetic::div_mod::lemma_fundamental_div_mod(y - 1, k);
    let q1 = y / k;
    let q0 = (y - 1) / k;
    let r1 = y % k;
    let r0 = (y - 1) % k;
    assert(0 <= r1 < k && 0 <= r0 < k);
    assert(k * (q1 - q0) == 1 + r0 - r1) by (nonlinear_arith)
        requires
            y == k * q1 + r1,
            y - 1 == k * q0 + r0,
    ;
    assert(0 <= q1 - q0 <= 1) by (nonlinear_arith)
        requires
            k * (q1 - q0) == 1 + r0 - r1,
            0 <= r1 < k,
            0 <= r0 < k,
            k > 0,
    ;
    if r1 == 0 {
        assert(q1 - q0 == 1) by (nonlinear_arith)
            requires
                k * (q1 - q0) == 1 + r0,
                0 <= r0 < k,
                0 <= q1 - q0 <= 1,
                k > 0,
        ;
    } else {
        assert(q1 - q0 == 0) by (nonlinear_arith)
            requires
                k * (q1 - q0) == 1 + r0 - r1,
                0 <= r0 < k,
                0 < r1 < k,
                0 <= q1 - q0 <= 1,
                k > 0,
        ;
    }
}

/// The earliest and latest years that chrono's dates reach.
pub open spec fn chrono_year_in_range(year: int) -> bool {
    -262143 <= year <= 262142
}

/// chrono's `NaiveDate::from_ymd_opt(year, month, day)`, as a day number
/// (`num_days_from_ce`): `None` exactly where the date does not exist or its
/// year lies outside chrono's range.
#[verifier::external_body]
pub(crate) fn day_number(year: i32, month: u32, day: u32) -> (r: Option<i32>)
    ensures
        match r {
            Some(n) => ce_day_number(year as int, month as int, day as int) == Some(n as int),
            None => ce_day_number(year as int, month as int, day as int) is None,
        },
{
    match chrono::NaiveDate::from_ymd_opt(year, month, day) {
        Some(d) => Some(d.num_days_from_ce()),
        None => None,
    }
}

/// Today's date in UTC (`chrono::Utc::now().date_naive()`): its year, its
/// weekday counted from Monday as 0, and its day number (`num_days_from_ce`),
/// which is a day of that year; January 1 of year 1 was a Monday, and the
/// clock is at or after January 1, 1970 (day 719163).
#[verifier::external_body]
pub(crate) fn utc_today() -> (r: (i32, u32, i32))
    ensures
        chrono_year_in_range(r.0 as int),
        r.1 < 7,
        day_in_year(r.0 as int, r.2 as int),
        r.1 == (r.2 - 1) % 7,
        r.2 >= 719163,
{
    let d = chrono::Utc::now().date_naive();
    (d.year(), d.weekday().num_days_from_monday(), d.num_days_from_ce())
}

} // verus!
