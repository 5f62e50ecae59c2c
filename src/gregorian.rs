//! Gregorian calendar arithmetic: leap years, day of year, weekday and the
//! conversion of a Unix timestamp into a calendar date.
use vstd::prelude::*;

verus! {

/// Quotient of `a / b` rounded toward zero, as Rust's integer division does.
pub open spec fn trunc_div(a: int, b: int) -> int {
    if a >= 0 {
        a / b
    } else {
        -((-a) / b)
    }
}

/// Remainder that goes with `trunc_div`, as Rust's `%` gives it.
pub open spec fn trunc_rem(a: int, b: int) -> int {
    a - b * trunc_div(a, b)
}

/// The Gregorian leap-year rule.
pub open spec fn is_leap(year: int) -> bool {
    (year % 4 == 0 && year % 100 != 0) || year % 400 == 0
}

/// Number of days in a Gregorian year.
pub open spec fn year_len(year: int) -> int {
    if is_leap(year) {
        366
    } else {
        365
    }
}

/// Number of days of month `month` (1 to 12) of a Gregorian year.
pub open spec fn month_len(year: int, month: int) -> int {
    if month == 2 {
        if is_leap(year) {
            29
        } else {
            28
        }
    } else if month == 4 || month == 6 || month == 9 || month == 11 {
        30
    } else {
        31
    }
}

/// A well-formed Gregorian date.
pub open spec fn valid_date(year: int, month: int, day: int) -> bool {
    1 <= month <= 12 && 1 <= day <= month_len(year, month)
}

/// Days of the months of `year` that come before `month`.
pub open spec fn days_before_month(year: int, month: int) -> int
    decreases month,
{
    if month <= 1 {
        0
    } else {
        days_before_month(year, month - 1) + month_len(year, month - 1)
    }
}

/// Position of a date within its year, counting 1 January as day 1.
pub open spec fn day_of_year_spec(year: int, month: int, day: int) -> int {
    days_before_month(year, month) + day
}

/// Days of the years from 1970 up to, but not including, `year`.
pub open spec fn days_before_year(year: int) -> int
    decreases year - 1970,
{
    if year <= 1970 {
        0
    } else {
        days_before_year(year - 1) + year_len(year - 1)
    }
}

/// Number of days from 1970-01-01 to the given date.
pub open spec fn days_since_epoch(year: int, month: int, day: int) -> int {
    days_before_year(year) + day_of_year_spec(year, month, day) - 1
}

/// The weekday (0 = Sunday) that Zeller's congruence gives, with January and
/// February counted as months 13 and 14 of the year before, Rust's rounding
/// toward zero, and the result shifted by six so that Sunday comes out as 0.
pub open spec fn weekday_spec(year: int, month: int, day: int) -> int {
    let y = if month < 3 { year - 1 } else { year };
    let m = if month < 3 { month + 12 } else { month };
    let k = trunc_rem(y, 100);
    let j = trunc_div(y, 100);
    let h = trunc_rem(
        day + trunc_div(13 * (m + 1), 5) + k + trunc_div(k, 4) + trunc_div(j, 4) - 2 * j,
        7,
    );
    (h + 6) % 7
}

/// Year 400 years later follows the same leap rule.
pub proof fn lemma_leap_period(year: int)
    ensures
        is_leap(year) == is_leap(year + 400),
{
    assert((year + 400) % 4 == year % 4);
    assert((year + 400) % 100 == year % 100);
    assert((year + 400) % 400 == year % 400);
}

/// Whether `year` is a Gregorian leap year.
pub fn is_gregorian_leap_year(year: i32) -> (r: bool)
    ensures
        r == is_leap(year as int),
{
    (year % 4 == 0 && year % 100 != 0) || (year % 400 == 0)
}

/// Number of days of `month` (1 to 12) in `year`.
pub fn gregorian_month_days(year: i32, month: i32) -> (r: i32)
    requires
        1 <= month <= 12,
    ensures
        r == month_len(year as int, month as int),
{
    if month == 2 {
        if is_gregorian_leap_year(year) {
            29
        } else {
            28
        }
    } else if month == 4 || month == 6 || month == 9 || month == 11 {
        30
    } else {
        31
    }
}

proof fn lemma_days_before_month_bounds(year: int, month: int)
    requires
        1 <= month <= 13,
    ensures
        0 <= days_before_month(year, month) <= 31 * (month - 1),
        month == 13 ==> days_before_month(year, month) == year_len(year),
    decreases month,
{
    if month > 1 {
        lemma_days_before_month_bounds(year, month - 1);
    }
    if month == 13 {
        reveal_with_fuel(days_before_month, 13);
    }
}

/// A valid date lies within the first 366 days of its year.
pub proof fn lemma_day_of_year_bounds(year: int, month: int, day: int)
    requires
        valid_date(year, month, day),
    ensures
        1 <= day_of_year_spec(year, month, day) <= year_len(year),
{
    lemma_days_before_month_bounds(year, month);
    lemma_days_before_month_bounds(year, 13);
    lemma_days_before_month_monotone(year, month, 13);
}

proof fn lemma_days_before_month_monotone(year: int, a: int, b: int)
    requires
        1 <= a <= b <= 13,
    ensures
        days_before_month(year, a) + (if a < b { month_len(year, a) } else { 0 })
            <= days_before_month(year, b),
    decreases b - a,
{
    if a < b {
        lemma_days_before_month_monotone(year, a + 1, b);
    }
}

/// Day of the year of a valid date, 1 January being day 1.
pub fn day_of_year(year: i32, month: i32, day: i32) -> (r: i32)
    requires
        valid_date(year as int, month as int, day as int),
    ensures
        r == day_of_year_spec(year as int, month as int, day as int),
{
    let mut total: i32 = day;
    let mut m: i32 = 1;
    while m < month
        invariant
            1 <= m <= month <= 12,
            1 <= day <= 31,
            total == days_before_month(year as int, m as int) + day,
        decreases month - m,
    {
        proof {
            lemma_days_before_month_bounds(year as int, m as int);
        }
        total = total + gregorian_month_days(year, m);
        m = m + 1;
    }
    total
}

/// The weekday of a date, 0 standing for Sunday and 6 for Saturday, by
/// Zeller's congruence.
pub fn calculate_weekday(year: i32, month: i32, day: i32) -> (r: i32)
    ensures
        r == weekday_spec(year as int, month as int, day as int),
        0 <= r <= 6,
{
    let mut y: i64 = year as i64;
    let mut m: i64 = month as i64;
    if m < 3 {
        m = m + 12;
        y = y - 1;
    }
    let k: i64 = y % 100;
    let j: i64 = y / 100;
    let h: i64 = (day as i64 + (13 * (m + 1)) / 5 + k + k / 4 + j / 4 - 2 * j) % 7;
    ((h + 6) % 7) as i32
}

proof fn lemma_days_before_year_grows(year: int)
    requires
        year >= 1970,
    ensures
        days_before_year(year) >= 365 * (year - 1970),
    decreases year - 1970,
{
    if year > 1970 {
        lemma_days_before_year_grows(year - 1);
    }
}

/// The Gregorian date `(year, month, day)` of the day that holds the Unix
/// timestamp `timestamp`, found by walking forward from 1970 a year, then a
/// month, at a time.
pub fn timestamp_to_gregorian(timestamp: i64) -> (r: (i32, i32, i32))
    requires
        0 <= timestamp,
        timestamp / 86400 <= i32::MAX,
    ensures
        r.0 >= 1970,
        valid_date(r.0 as int, r.1 as int, r.2 as int),
        days_since_epoch(r.0 as int, r.1 as int, r.2 as int) == timestamp / 86400,
{
    let total: i64 = timestamp / 86400;
    let mut days: i64 = total;
    let mut year: i32 = 1970;
    loop
        invariant
            1970 <= year,
            0 <= days <= total <= i32::MAX,
            days_before_year(year as int) + days == total,
        ensures
            days < year_len(year as int),
        decreases days,
    {
        let days_in_year: i64 = if is_gregorian_leap_year(year) {
            366
        } else {
            365
        };
        if days < days_in_year {
            break;
        }
        proof {
            lemma_days_before_year_grows(year as int + 1);
        }
        days = days - days_in_year;
        year = year + 1;
    }
    let mut month: i32 = 1;
    proof {
        lemma_days_before_month_bounds(year as int, 13);
    }
    while month < 12
        invariant
            1 <= month <= 12,
            days_before_month(year as int, 13) == year_len(year as int),
            0 <= days,
            days_before_month(year as int, month as int) + days < year_len(year as int),
            days_before_year(year as int) + days_before_month(year as int, month as int) + days
                == total,
        ensures
            days < month_len(year as int, month as int),
        decreases 12 - month,
    {
        let md: i64 = gregorian_month_days(year, month) as i64;
        if days < md {
            break;
        }
        days = days - md;
        month = month + 1;
    }
    (year, month, (days + 1) as i32)
}

/// Leap years among the years 1 to `n` by the Gregorian rule.
pub open spec fn leap_count(n: int) -> int {
    n / 4 - n / 100 + n / 400
}

/// Days from 1 March to the first day of month `m`, where 13 and 14 stand
/// for January and February of the next year.
pub open spec fn days_from_march(m: int) -> int {
    if m == 3 {
        0
    } else if m == 4 {
        31
    } else if m == 5 {
        61
    } else if m == 6 {
        92
    } else if m == 7 {
        122
    } else if m == 8 {
        153
    } else if m == 9 {
        184
    } else if m == 10 {
        214
    } else if m == 11 {
        245
    } else if m == 12 {
        275
    } else if m == 13 {
        306
    } else {
        337
    }
}

proof fn lemma_div_step(n: int, d: int)
    requires
        d > 0,
    ensures
        n / d - (n - 1) / d == if n % d == 0 {
            1int
        } else {
            0int
        },
{
    let q = (n - 1) / d;
    let r = (n - 1) % d;
    vstd::arithmetic::div_mod::lemma_fundamental_div_mod(n - 1, d);
    if r == d - 1 {
        assert((q + 1) * d == d * q + d) by (nonlinear_arith);
        vstd::arithmetic::div_mod::lemma_fundamental_div_mod_converse(n, d, q + 1, 0);
    } else {
        vstd::arithmetic::div_mod::lemma_fundamental_div_mod_converse(n, d, q, r + 1);
    }
}

proof fn lemma_leap_count_step(n: int)
    ensures
        leap_count(n) - leap_count(n - 1) == year_len(n) - 365,
{
    lemma_div_step(n, 4);
    lemma_div_step(n, 100);
    lemma_div_step(n, 400);
}

proof fn lemma_days_before_year_closed(y: int)
    requires
        y >= 1970,
    ensures
        days_before_year(y) == 365 * (y - 1970) + leap_count(y - 1) - leap_count(1969),
    decreases y - 1970,
{
    if y > 1970 {
        lemma_days_before_year_closed(y - 1);
        lemma_leap_count_step(y - 1);
    }
}

proof fn lemma_days_before_month_from_march(y: int, m: int)
    requires
        1 <= m <= 12,
    ensures
        m >= 3 ==> days_before_month(y, m) == 59 + (year_len(y) - 365) + days_from_march(m),
        m < 3 ==> days_before_month(y, m) == days_from_march(m + 12) + 59 - 365,
{
    reveal_with_fuel(days_before_month, 13);
}

/// The weekday given by Zeller's congruence is that of the day count from
/// 1970-01-01, a Thursday: for every valid date from 1970 on, the weekday
/// is `(days since 1970-01-01 + 4) % 7`.
pub proof fn lemma_weekday_counts_days(y: int, m: int, d: int)
    requires
        y >= 1970,
        valid_date(y, m, d),
    ensures
        weekday_spec(y, m, d) == (days_since_epoch(y, m, d) + 4) % 7,
{
    let yy = if m < 3 { y - 1 } else { y };
    let mm = if m < 3 { m + 12 } else { m };
    let j = yy / 100;
    let k = yy % 100;
    vstd::arithmetic::div_mod::lemma_fundamental_div_mod(yy, 100);
    vstd::arithmetic::div_mod::lemma_fundamental_div_mod(k, 4);
    vstd::arithmetic::div_mod::lemma_fundamental_div_mod(j, 4);
    vstd::arithmetic::div_mod::lemma_fundamental_div_mod_converse(yy, 4, 25 * j + k / 4, k % 4);
    vstd::arithmetic::div_mod::lemma_fundamental_div_mod_converse(
        yy,
        400,
        j / 4,
        100 * (j % 4) + k,
    );
    assert(leap_count(yy) == 24 * j + k / 4 + j / 4);
    lemma_days_before_year_closed(y);
    lemma_days_before_month_from_march(y, m);
    if m < 3 {
        lemma_leap_count_step(y - 1);
    }
    assert(leap_count(1969) == 477);
    let dse = days_since_epoch(y, m, d);
    assert(dse == 365 * (yy - 1970) + leap_count(yy) - 477 + 58 + days_from_march(mm) + d);
    let f = (13 * (mm + 1)) / 5;
    let t = (f - days_from_march(mm) + 4) / 7;
    assert(f - days_from_march(mm) + 4 == 7 * t);
    let z = d + f + k + k / 4 + j / 4 - 2 * j;
    let w = t - 52 * k - 5218 * j + 102781;
    assert(z + 2 - dse == 7 * w);
    let h = trunc_rem(z, 7);
    assert(weekday_spec(y, m, d) == (h + 6) % 7);
    let q = trunc_div(z, 7);
    let a = dse + 4;
    vstd::arithmetic::div_mod::lemma_fundamental_div_mod(a, 7);
    assert(h + 6 == 7 * (a / 7 + w - q) + a % 7);
    vstd::arithmetic::div_mod::lemma_fundamental_div_mod_converse(h + 6, 7, a / 7 + w - q, a % 7);
}

} // verus!
