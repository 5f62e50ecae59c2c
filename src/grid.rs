//! Facts for drawing a month of the Bangla calendar as a grid of seven
//! columns, Sunday first, and the cursor of the month on view.
use vstd::prelude::*;
use crate::calendar::{bangla_month_len, get_bangla_month_days};

verus! {

/// Bangla year of the anchor date: 1 Boishakh 1432 fell on Monday,
/// 14 April 2025.
pub const ANCHOR_YEAR: i32 = 1432;

/// Weekday of 1 Boishakh of `ANCHOR_YEAR` (1 = Monday).
pub const ANCHOR_WEEKDAY: i64 = 1;

/// Position of month `month` of year `year` in a count of months.
pub open spec fn month_index(month: int, year: int) -> int {
    12 * year + month
}

/// Number of days from 1 Boishakh of `ANCHOR_YEAR` to the first day of month
/// `month` (0 to 11) of Bangla year `year`; negative before the anchor.
pub open spec fn days_from_anchor(month: int, year: int) -> int
    decreases (if month_index(month, year) >= month_index(0, ANCHOR_YEAR as int) {
        month_index(month, year) - month_index(0, ANCHOR_YEAR as int)
    } else {
        month_index(0, ANCHOR_YEAR as int) - month_index(month, year)
    }),
{
    if month < 0 || month > 11 {
        0
    } else if month_index(month, year) == month_index(0, ANCHOR_YEAR as int) {
        0
    } else if month_index(month, year) > month_index(0, ANCHOR_YEAR as int) {
        if month == 0 {
            days_from_anchor(11, year - 1) + bangla_month_len(11, year - 1)
        } else {
            days_from_anchor(month - 1, year) + bangla_month_len(month - 1, year)
        }
    } else {
        if month == 11 {
            days_from_anchor(0, year + 1) - bangla_month_len(month, year)
        } else {
            days_from_anchor(month + 1, year) - bangla_month_len(month, year)
        }
    }
}

/// Weekday (0 = Sunday) of the first day of month `month` of Bangla year
/// `year`.
pub open spec fn first_weekday_spec(month: int, year: int) -> int {
    (ANCHOR_WEEKDAY + days_from_anchor(month, year)) % 7
}

/// The day shown in the cell at `row` and `col` of the grid of a month,
/// or `None` for a blank cell.
pub open spec fn grid_cell_day(row: int, col: int, month: int, year: int) -> Option<i32> {
    let day = row * 7 + col - first_weekday_spec(month, year) + 1;
    if 1 <= day <= bangla_month_len(month, year) {
        Some(day as i32)
    } else {
        None
    }
}

proof fn lemma_month_len_bounds(month: int, year: int)
    ensures
        30 <= bangla_month_len(month, year) <= 31,
{
}

/// Weekday (0 = Sunday) of the first day of Bangla month `month`
/// (0 = Boishakh) of year `year`, counted month by month from the anchor.
pub fn get_first_day_weekday(month: i32, year: i32) -> (r: i32)
    requires
        0 <= month <= 11,
    ensures
        r == first_weekday_spec(month as int, year as int),
        0 <= r <= 6,
{
    let ref_year: i32 = ANCHOR_YEAR;
    let ref_month: i32 = 0;
    let mut total_days: i64 = 0;
    if year > ref_year || (year == ref_year && month > ref_month) {
        let mut y: i32 = ref_year;
        let mut m: i32 = ref_month;
        while y < year || (y == year && m < month)
            invariant
                0 <= m <= 11,
                0 <= month <= 11,
                month_index(m as int, y as int) <= month_index(month as int, year as int),
                month_index(m as int, y as int) >= month_index(0, ANCHOR_YEAR as int),
                total_days == days_from_anchor(m as int, y as int),
                0 <= total_days <= 31 * (month_index(m as int, y as int) - month_index(
                    0,
                    ANCHOR_YEAR as int,
                )),
            decreases month_index(month as int, year as int) - month_index(m as int, y as int),
        {
            proof {
                lemma_month_len_bounds(m as int, y as int);
            }
            total_days = total_days + get_bangla_month_days(m, y) as i64;
            m = m + 1;
            if m > 11 {
                m = 0;
                y = y + 1;
            }
        }
    } else if year < ref_year || (year == ref_year && month < ref_month) {
        let mut y: i32 = ref_year;
        let mut m: i32 = ref_month;
        while y > year || (y == year && m > month)
            invariant
                0 <= m <= 11,
                0 <= month <= 11,
                month_index(m as int, y as int) >= month_index(month as int, year as int),
                month_index(m as int, y as int) <= month_index(0, ANCHOR_YEAR as int),
                total_days == days_from_anchor(m as int, y as int),
                0 >= total_days >= -31 * (month_index(0, ANCHOR_YEAR as int) - month_index(
                    m as int,
                    y as int,
                )),
            decreases month_index(m as int, y as int) - month_index(month as int, year as int),
        {
            m = m - 1;
            if m < 0 {
                m = 11;
                y = y - 1;
            }
            proof {
                lemma_month_len_bounds(m as int, y as int);
            }
            total_days = total_days - get_bangla_month_days(m, y) as i64;
        }
    }
    ((ANCHOR_WEEKDAY + total_days % 7 + 7) % 7) as i32
}

/// The day shown in the cell at `row` and `col` of the grid of month `month`
/// of Bangla year `year`, or `None` where the cell is blank: before the
/// first day, or past the last.
pub fn day_at_grid_cell(row: i32, col: i32, month: i32, year: i32) -> (r: Option<i32>)
    requires
        0 <= month <= 11,
    ensures
        r == grid_cell_day(row as int, col as int, month as int, year as int),
{
    let first_weekday = get_first_day_weekday(month, year);
    let day: i64 = row as i64 * 7 + col as i64 - first_weekday as i64 + 1;
    let days_in_month = get_bangla_month_days(month, year);
    if day >= 1 && day <= days_in_month as i64 {
        Some(day as i32)
    } else {
        None
    }
}

/// Height of the title band of the calendar window, in pixels.
pub const CAL_HEADER_HEIGHT: i32 = 60;

/// Height of the band with the previous and next buttons, in pixels.
pub const CAL_NAV_HEIGHT: i32 = 40;

/// Height of the row of weekday names, in pixels.
pub const CAL_WEEKDAY_HEIGHT: i32 = 30;

/// Height of a row of the day grid, in pixels.
pub const CAL_CELL_SIZE: i32 = 40;

/// Margin on the left and right of the grid, in pixels.
pub const CAL_PADDING: i32 = 12;

/// Top of the day grid: below the title, the buttons, the weekday names and
/// the separator line, with five pixels of space on each side of the names.
pub open spec fn grid_top() -> int {
    CAL_HEADER_HEIGHT + CAL_NAV_HEIGHT + 5 + CAL_WEEKDAY_HEIGHT + 5
}

/// The day shown at point (`x`, `y`) of a calendar window `width` pixels
/// wide, or `None` where no day is shown there.
pub open spec fn day_at_point_spec(x: int, y: int, width: int, month: int, year: int) -> Option<
    i32,
> {
    let cell_width = (width - 2 * CAL_PADDING) / 7;
    let col = crate::gregorian::trunc_div(x - CAL_PADDING, cell_width);
    let row = (y - grid_top()) / (CAL_CELL_SIZE as int);
    if y < grid_top() || col < 0 || col >= 7 {
        None
    } else {
        grid_cell_day(row, col, month, year)
    }
}

/// The day under the point (`x`, `y`) of the month grid of month `month` of
/// Bangla year `year`, in a calendar window `width` pixels wide.
pub fn get_day_at_point(x: i32, y: i32, width: i32, month: i32, year: i32) -> (r: Option<i32>)
    requires
        0 <= month <= 11,
        y >= grid_top() ==> width - 2 * CAL_PADDING >= 7,
    ensures
        r == day_at_point_spec(x as int, y as int, width as int, month as int, year as int),
{
    let weekday_y = CAL_HEADER_HEIGHT + CAL_NAV_HEIGHT + 5;
    let sep_y = weekday_y + CAL_WEEKDAY_HEIGHT;
    let grid_y = sep_y + 5;
    if y < grid_y {
        return None;
    }
    let cell_width = (width - CAL_PADDING * 2) / 7;
    let col: i64 = (x as i64 - CAL_PADDING as i64) / cell_width as i64;
    let row: i32 = (y - grid_y) / CAL_CELL_SIZE;
    if col < 0 || col >= 7 {
        return None;
    }
    day_at_grid_cell(row, col as i32, month, year)
}

/// Row and column of the cell that shows day `day` of month `month` of
/// Bangla year `year`: the days fill the grid row by row, the first day in
/// the column of its weekday.
pub open spec fn cell_of_day_spec(day: int, month: int, year: int) -> (int, int) {
    let index = day - 1 + first_weekday_spec(month, year);
    (index / 7, index % 7)
}

/// The cell, as (row, column), that shows day `day` of month `month` of
/// Bangla year `year`.
pub fn grid_cell_of_day(day: i32, month: i32, year: i32) -> (r: (i32, i32))
    requires
        0 <= month <= 11,
        1 <= day <= bangla_month_len(month as int, year as int),
    ensures
        r == (cell_of_day_spec(day as int, month as int, year as int).0 as i32, cell_of_day_spec(
            day as int,
            month as int,
            year as int,
        ).1 as i32),
        0 <= r.0 <= 5,
        0 <= r.1 <= 6,
{
    let index = day - 1 + get_first_day_weekday(month, year);
    (index / 7, index % 7)
}

/// Each day of a month is shown in exactly the cell that the grid places it
/// in: the cell of a day shows that day.
pub proof fn lemma_cell_of_day_shows_day(day: int, month: int, year: int)
    requires
        0 <= month <= 11,
        1 <= day <= bangla_month_len(month, year),
    ensures
        grid_cell_day(cell_of_day_spec(day, month, year).0, cell_of_day_spec(day, month, year).1, month, year)
            == Some(day as i32),
{
    let index = day - 1 + first_weekday_spec(month, year);
    assert(index == 7 * (index / 7) + index % 7);
}

/// The cells of the first row before the weekday of the first day are blank,
/// and so is every cell whose day would come after the month's last day.
pub proof fn lemma_blank_cells(row: int, col: int, month: int, year: int)
    requires
        0 <= month <= 11,
        (row == 0 && col < first_weekday_spec(month, year)) || row * 7 + col
            - first_weekday_spec(month, year) + 1 > bangla_month_len(month, year),
    ensures
        grid_cell_day(row, col, month, year) == None::<i32>,
{
}

/// The month on view in a calendar, and the day under the pointer, if any.
#[derive(Debug, Clone, Copy, PartialEq, Eq, Structural)]
pub struct CalendarViewCursor {
    pub view_month: i32,
    pub view_year: i32,
    pub hover_day: Option<i32>,
}

impl CalendarViewCursor {
    /// The month is one of the twelve.
    pub open spec fn wf(self) -> bool {
        0 <= self.view_month <= 11
    }

    /// The cursor one month later.
    pub open spec fn advanced(self) -> CalendarViewCursor {
        if self.view_month + 1 > 11 {
            CalendarViewCursor { view_month: 0, view_year: (self.view_year + 1) as i32, ..self }
        } else {
            CalendarViewCursor { view_month: (self.view_month + 1) as i32, ..self }
        }
    }

    /// The cursor one month earlier.
    pub open spec fn retreated(self) -> CalendarViewCursor {
        if self.view_month - 1 < 0 {
            CalendarViewCursor { view_month: 11, view_year: (self.view_year - 1) as i32, ..self }
        } else {
            CalendarViewCursor { view_month: (self.view_month - 1) as i32, ..self }
        }
    }

    /// A cursor on month `month` of Bangla year `year`, with no day under
    /// the pointer.
    pub fn new(month: i32, year: i32) -> (r: CalendarViewCursor)
        requires
            0 <= month <= 11,
        ensures
            r.wf(),
            r == (CalendarViewCursor { view_month: month, view_year: year, hover_day: None }),
    {
        CalendarViewCursor { view_month: month, view_year: year, hover_day: None }
    }

    /// Moves on to the next month, into the next year after Choitro.
    pub fn advance(self) -> (r: CalendarViewCursor)
        requires
            self.wf(),
            self.view_month == 11 ==> self.view_year < i32::MAX,
        ensures
            r.wf(),
            r == self.advanced(),
    {
        let mut month = self.view_month;
        let mut year = self.view_year;
        month = month + 1;
        if month > 11 {
            month = 0;
            year = year + 1;
        }
        CalendarViewCursor { view_month: month, view_year: year, hover_day: self.hover_day }
    }

    /// Moves back to the previous month, into the year before from Boishakh.
    pub fn retreat(self) -> (r: CalendarViewCursor)
        requires
            self.wf(),
            self.view_month == 0 ==> self.view_year > i32::MIN,
        ensures
            r.wf(),
            r == self.retreated(),
    {
        let mut month = self.view_month;
        let mut year = self.view_year;
        month = month - 1;
        if month < 0 {
            month = 11;
            year = year - 1;
        }
        CalendarViewCursor { view_month: month, view_year: year, hover_day: self.hover_day }
    }

    /// Records the day under the pointer, or none.
    pub fn set_hover(self, day: Option<i32>) -> (r: CalendarViewCursor)
        ensures
            r == (CalendarViewCursor { hover_day: day, ..self }),
    {
        CalendarViewCursor { view_month: self.view_month, view_year: self.view_year, hover_day: day }
    }

    /// The day shown in the cell at `row` and `col` of the month on view.
    pub fn day_at_cell(&self, row: i32, col: i32) -> (r: Option<i32>)
        requires
            self.wf(),
        ensures
            r == grid_cell_day(row as int, col as int, self.view_month as int, self.view_year as int),
    {
        day_at_grid_cell(row, col, self.view_month, self.view_year)
    }
}

/// Moving a cursor a month forward and then back leaves it as it was.
pub proof fn lemma_advance_then_retreat(c: CalendarViewCursor)
    requires
        c.wf(),
        c.view_month == 11 ==> c.view_year < i32::MAX,
    ensures
        c.advanced().retreated() == c,
{
}

/// Moving a cursor a month back and then forward leaves it as it was.
pub proof fn lemma_retreat_then_advance(c: CalendarViewCursor)
    requires
        c.wf(),
        c.view_month == 0 ==> c.view_year > i32::MIN,
    ensures
        c.retreated().advanced() == c,
{
}

} // verus!
