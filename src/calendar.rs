//! Conversion of Gregorian dates into dates of the Bangla calendar as
//! Bangladesh fixes it: 1 Boishakh falls on the 104th day of the Gregorian
//! year, or on the 105th when the year before was a leap year.
use vstd::prelude::*;
use crate::gregorian::{
    calculate_weekday, day_of_year, days_since_epoch, day_of_year_spec, is_gregorian_leap_year,
    is_leap, timestamp_to_gregorian, valid_date, weekday_spec, year_len,
};

verus! {

/// First day of the Bangla year, as a day of the Gregorian year, when the
/// Gregorian year before was not a leap year.
pub const BOISHAKH_START: i32 = 104;

/// First day of the Bangla year, as a day of the Gregorian year, when the
/// Gregorian year before was a leap year.
pub const BOISHAKH_START_AFTER_LEAP: i32 = 105;

/// The offset of Bangladesh time from UTC, in seconds.
pub const BANGLADESH_UTC_OFFSET: i64 = 21600;

/// The correction taken off Bangladesh time before the current date is
/// read, in seconds; with it the day changes at 23:00 UTC.
pub const CLOCK_CORRECTION: i64 = 18000;

/// A date of the Bangla calendar. `month` (0 = Boishakh) and `weekday`
/// (0 = Sunday) are zero-based indexes into the name tables.
#[derive(Debug, Clone, Copy, PartialEq, Eq, Structural)]
pub struct BanglaDate {
    pub day: i32,
    pub month: i32,
    pub year: i32,
    pub weekday: i32,
}

/// Why a Gregorian date was not converted.
#[derive(Debug, Clone, Copy, PartialEq, Eq, Structural)]
pub enum DateError {
    /// The month or the day is out of range, or the Bangla year would not
    /// fit in an `i32`.
    InvalidDate,
}

/// Number of days of Bangla month `month` in Bangla year `year`: 31 for the
/// first five months, 30 for the others, except Falgun (month 10), which has
/// 31 days when `year + 594` is a Gregorian leap year.
pub open spec fn bangla_month_len(month: int, year: int) -> int {
    if month < 5 {
        31
    } else if month == 10 {
        if is_leap(year + 594) {
            31
        } else {
            30
        }
    } else {
        30
    }
}

/// Days of the first `n` months of Bangla year `year`.
pub open spec fn bangla_months_total(year: int, n: int) -> int
    decreases n,
{
    if n <= 0 {
        0
    } else {
        bangla_months_total(year, n - 1) + bangla_month_len(n - 1, year)
    }
}

impl BanglaDate {
    /// The month is one of the twelve, the weekday one of the seven, and the
    /// day lies within the month.
    pub open spec fn wf(self) -> bool {
        0 <= self.month <= 11 && 0 <= self.weekday <= 6 && 1 <= self.day <= bangla_month_len(
            self.month as int,
            self.year as int,
        )
    }
}

/// Day of the Gregorian year `gy` on which 1 Boishakh falls.
pub open spec fn boishakh_start(gy: int) -> int {
    if is_leap(gy - 1) {
        BOISHAKH_START_AFTER_LEAP as int
    } else {
        BOISHAKH_START as int
    }
}

/// The Bangla year in which a Gregorian date falls.
pub open spec fn bangla_year_of(gy: int, gm: int, gd: int) -> int {
    if day_of_year_spec(gy, gm, gd) >= boishakh_start(gy) {
        gy - 593
    } else {
        gy - 594
    }
}

/// Position of a Gregorian date within its Bangla year, 1 Boishakh being
/// day 1.
pub open spec fn day_in_bangla_year(gy: int, gm: int, gd: int) -> int {
    let doy = day_of_year_spec(gy, gm, gd);
    if doy >= boishakh_start(gy) {
        doy - boishakh_start(gy) + 1
    } else {
        (year_len(gy - 1) - boishakh_start(gy) + 1) + doy
    }
}

/// Month and day reached by walking the months of Bangla year `year` from
/// month `month` on, taking off each month's length while `rest` does not
/// fit in it. A count that outlasts the year comes back as month 12, with
/// what is left over: it runs on into the next year.
pub open spec fn locate_in_year(rest: int, month: int, year: int) -> (int, int)
    decreases 12 - month,
{
    if month >= 12 {
        (12, rest)
    } else if rest <= bangla_month_len(month, year) {
        (month, rest)
    } else {
        locate_in_year(rest - bangla_month_len(month, year), month + 1, year)
    }
}

/// The Bangla date of a Gregorian date. A day counted past the last day of
/// its Bangla year belongs to Boishakh of the next year.
pub open spec fn to_bangla_spec(gy: int, gm: int, gd: int) -> BanglaDate {
    let year = bangla_year_of(gy, gm, gd);
    let found = locate_in_year(day_in_bangla_year(gy, gm, gd), 0, year);
    if found.0 >= 12 {
        BanglaDate {
            day: found.1 as i32,
            month: 0,
            year: (year + 1) as i32,
            weekday: weekday_spec(gy, gm, gd) as i32,
        }
    } else {
        BanglaDate {
            day: found.1 as i32,
            month: found.0 as i32,
            year: year as i32,
            weekday: weekday_spec(gy, gm, gd) as i32,
        }
    }
}

/// The twelve months of a Bangla year have 366 days when `year + 594` is a
/// Gregorian leap year, else 365.
pub proof fn lemma_bangla_year_length(year: int)
    ensures
        bangla_months_total(year, 12) == if is_leap(year + 594) {
            366int
        } else {
            365int
        },
{
    reveal_with_fuel(bangla_months_total, 13);
}

/// Falgun has 31 days exactly when `year + 594` is a Gregorian leap year,
/// and 30 otherwise.
pub proof fn lemma_falgun_length(year: int)
    ensures
        (bangla_month_len(10, year) == 31) == is_leap(year + 594),
        bangla_month_len(10, year) == 30 || bangla_month_len(10, year) == 31,
{
}

/// Number of days of Bangla month `month` (0 = Boishakh) in Bangla year
/// `year`.
pub fn get_bangla_month_days(month: i32, year: i32) -> (r: i32)
    ensures
        r == bangla_month_len(month as int, year as int),
{
    if month < 5 {
        31
    } else if month == 10 {
        let gregorian_year: i64 = year as i64 + 594;
        if (gregorian_year % 4 == 0 && gregorian_year % 100 != 0) || (gregorian_year % 400 == 0) {
            31
        } else {
            30
        }
    } else {
        30
    }
}

/// The Bangla date of a valid Gregorian date.
pub fn calculate_bangla_date_bd(gregorian_year: i32, gregorian_month: i32, gregorian_day: i32) -> (r:
    BanglaDate)
    requires
        valid_date(gregorian_year as int, gregorian_month as int, gregorian_day as int),
        gregorian_year >= i32::MIN + 594,
    ensures
        r == to_bangla_spec(gregorian_year as int, gregorian_month as int, gregorian_day as int),
        r.wf(),
{
    let ghost gy = gregorian_year as int;
    let ghost gm = gregorian_month as int;
    let ghost gd = gregorian_day as int;
    let prev_leap = is_gregorian_leap_year(gregorian_year - 1);
    let doy = day_of_year(gregorian_year, gregorian_month, gregorian_day);
    proof {
        crate::gregorian::lemma_day_of_year_bounds(gy, gm, gd);
    }
    let boishakh_start = if prev_leap {
        BOISHAKH_START_AFTER_LEAP
    } else {
        BOISHAKH_START
    };
    let bangla_year: i32;
    let day_in_year: i32;
    if doy >= boishakh_start {
        bangla_year = gregorian_year - 593;
        day_in_year = doy - boishakh_start + 1;
    } else {
        bangla_year = gregorian_year - 594;
        let prev_year_days: i32 = if prev_leap {
            366
        } else {
            365
        };
        day_in_year = (prev_year_days - boishakh_start + 1) + doy;
    }
    proof {
        lemma_bangla_year_length(bangla_year as int);
    }
    let mut remaining: i32 = day_in_year;
    let mut m: i32 = 0;
    while m < 12
        invariant_except_break
            0 <= m <= 12,
            day_in_year <= 366,
            bangla_months_total(bangla_year as int, 12) >= 365,
            1 <= remaining,
            remaining == day_in_year - bangla_months_total(bangla_year as int, m as int),
            locate_in_year(day_in_year as int, 0, bangla_year as int) == locate_in_year(
                remaining as int,
                m as int,
                bangla_year as int,
            ),
        ensures
            0 <= m <= 12,
            m < 12 ==> 1 <= remaining <= bangla_month_len(m as int, bangla_year as int),
            m == 12 ==> remaining == 1,
            locate_in_year(day_in_year as int, 0, bangla_year as int) == (m as int, remaining as int),
        decreases 12 - m,
    {
        let month_days = get_bangla_month_days(m, bangla_year);
        if remaining <= month_days {
            break;
        }
        remaining = remaining - month_days;
        m = m + 1;
    }
    let weekday = calculate_weekday(gregorian_year, gregorian_month, gregorian_day);
    if m == 12 {
        // The count ran past the last day of the year: 1 Boishakh of the next.
        BanglaDate { day: remaining, month: 0, year: bangla_year + 1, weekday }
    } else {
        BanglaDate { day: remaining, month: m, year: bangla_year, weekday }
    }
}

/// The Bangla date of a Gregorian date, or `InvalidDate` when the month is
/// not 1 to 12, the day does not lie in the month, or the Bangla year would
/// not fit in an `i32`.
pub fn to_bangla_checked(gregorian_year: i32, gregorian_month: i32, gregorian_day: i32) -> (r:
    Result<BanglaDate, DateError>)
    ensures
        valid_date(gregorian_year as int, gregorian_month as int, gregorian_day as int)
            && gregorian_year >= i32::MIN + 594 ==> r == Ok::<BanglaDate, DateError>(
            to_bangla_spec(gregorian_year as int, gregorian_month as int, gregorian_day as int),
        ),
        !(valid_date(gregorian_year as int, gregorian_month as int, gregorian_day as int)
            && gregorian_year >= i32::MIN + 594) ==> r == Err::<BanglaDate, DateError>(
            DateError::InvalidDate,
        ),
{
    if gregorian_month < 1 || gregorian_month > 12 || gregorian_year < i32::MIN + 594 {
        return Err(DateError::InvalidDate);
    }
    let days = crate::gregorian::gregorian_month_days(gregorian_year, gregorian_month);
    if gregorian_day < 1 || gregorian_day > days {
        return Err(DateError::InvalidDate);
    }
    Ok(calculate_bangla_date_bd(gregorian_year, gregorian_month, gregorian_day))
}

/// `date` is the Bangla date of the day that holds the Unix time `t`
/// (seconds since 1970-01-01 00:00 on the clock that is read).
pub open spec fn is_bangla_date_at(date: BanglaDate, t: int) -> bool {
    exists|y: int, m: int, d: int|
        y >= 1970 && valid_date(y, m, d) && days_since_epoch(y, m, d) == t / 86400 && date
            == #[trigger] to_bangla_spec(y, m, d)
}

/// The Bangla date of the day that holds the Unix time `timestamp`, read on
/// a clock `utc_offset_seconds` ahead of UTC.
pub fn bangla_date_at_timestamp(timestamp: i64, utc_offset_seconds: i64) -> (r: BanglaDate)
    requires
        0 <= timestamp + utc_offset_seconds,
        (timestamp + utc_offset_seconds) / 86400 <= i32::MAX,
    ensures
        r.wf(),
        is_bangla_date_at(r, timestamp + utc_offset_seconds),
{
    let (year, month, day) = timestamp_to_gregorian(timestamp + utc_offset_seconds);
    let r = calculate_bangla_date_bd(year, month, day);
    assert(to_bangla_spec(year as int, month as int, day as int) == r);
    r
}

/// Relies on std::time::SystemTime::now: the current time as whole seconds
/// since the Unix epoch, or `None` when the clock reads before the epoch.
#[verifier::external_body]
fn unix_time_now() -> (r: Option<u64>) {
    match std::time::SystemTime::now().duration_since(std::time::UNIX_EPOCH) {
        Ok(elapsed) => Some(elapsed.as_secs()),
        Err(_) => None,
    }
}

/// The Bangla date for a clock reading of `secs` whole seconds since the
/// Unix epoch: the reading is moved to Bangladesh time (`+6 h`), less
/// `CLOCK_CORRECTION` (`-5 h`), so the day changes at 23:00 UTC. `None` when
/// there is no reading, or when it lies past the years an `i32` holds.
pub fn bangla_date_from_clock(secs: Option<u64>) -> (r: Option<BanglaDate>)
    ensures
        match secs {
            Some(s) => if s <= (i32::MAX as u64) * 86400 {
                r matches Some(date) && date.wf() && is_bangla_date_at(
                    date,
                    s + BANGLADESH_UTC_OFFSET - CLOCK_CORRECTION,
                )
            } else {
                r is None
            },
            None => r is None,
        },
{
    match secs {
        Some(secs) => {
            if secs > (i32::MAX as u64) * 86400 {
                None
            } else {
                let now = secs as i64;
                let bd_timestamp = now + BANGLADESH_UTC_OFFSET;
                let adjusted_timestamp = bd_timestamp - CLOCK_CORRECTION;
                Some(bangla_date_at_timestamp(adjusted_timestamp, 0))
            }
        },
        None => None,
    }
}

/// The Bangla date now, as `bangla_date_from_clock` gives it for the system
/// clock's reading; `None` when the clock reads before the Unix epoch or
/// past the years an `i32` holds.
pub fn get_current_bangla_date() -> (r: Option<BanglaDate>)
    ensures
        r matches Some(date) ==> date.wf() && exists|t: int|
            t >= BANGLADESH_UTC_OFFSET - CLOCK_CORRECTION && #[trigger] is_bangla_date_at(date, t),
{
    bangla_date_from_clock(unix_time_now())
}

} // verus!
