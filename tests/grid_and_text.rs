use bangla_calendar::calendar::BanglaDate;
use bangla_calendar::grid::{
    day_at_grid_cell, get_day_at_point, get_first_day_weekday, grid_cell_of_day,
    CalendarViewCursor,
};
use bangla_calendar::text::{
    calculate_widget_width, month_name, ordinal_name, season_name, to_bangla_number, weekday_name,
};

fn date(day: i32, month: i32, year: i32, weekday: i32) -> BanglaDate {
    BanglaDate { day, month, year, weekday }
}

#[test]
fn boishakh_1432_starts_on_monday() {
    assert_eq!(get_first_day_weekday(0, 1432), 1);
}

#[test]
fn first_weekdays_around_the_anchor() {
    assert_eq!(get_first_day_weekday(1, 1432), 4);
    assert_eq!(get_first_day_weekday(8, 1432), 1);
    assert_eq!(get_first_day_weekday(0, 1433), 2);
    assert_eq!(get_first_day_weekday(11, 1431), 6);
    assert_eq!(get_first_day_weekday(10, 1430), 2);
    assert_eq!(get_first_day_weekday(0, 1431), 0);
}

#[test]
fn leading_cells_are_blank() {
    for (month, year) in [(0, 1432), (8, 1432), (11, 1431), (3, 1500)] {
        let first = get_first_day_weekday(month, year);
        for col in 0..first {
            assert_eq!(day_at_grid_cell(0, col, month, year), None);
        }
        assert_eq!(day_at_grid_cell(0, first, month, year), Some(1));
    }
}

#[test]
fn trailing_cells_are_blank() {
    // Boishakh 1432: starts on Monday, 31 days, so day 31 is at row 4, col 3.
    assert_eq!(day_at_grid_cell(4, 3, 0, 1432), Some(31));
    assert_eq!(day_at_grid_cell(4, 4, 0, 1432), None);
    assert_eq!(day_at_grid_cell(5, 0, 0, 1432), None);
    assert_eq!(day_at_grid_cell(2, 2, 0, 1432), Some(16));
}

#[test]
fn point_to_day() {
    // 320 pixels wide: cells 42 pixels wide, grid from y = 140.
    assert_eq!(get_day_at_point(60, 139, 320, 0, 1432), None);
    // Above the grid no width is needed.
    assert_eq!(get_day_at_point(60, 100, 0, 0, 1432), None);
    assert_eq!(get_day_at_point(60, 141, 320, 0, 1432), Some(1));
    assert_eq!(get_day_at_point(20, 141, 320, 0, 1432), None);
    assert_eq!(get_day_at_point(20, 181, 320, 0, 1432), Some(7));
    assert_eq!(get_day_at_point(320, 181, 320, 0, 1432), None);
    assert_eq!(get_day_at_point(12 + 42 * 3, 140 + 40 * 4, 320, 0, 1432), Some(31));
}

#[test]
fn cursor_advance_and_retreat_round_trip() {
    for month in 0..12 {
        let c = CalendarViewCursor::new(month, 1432);
        assert_eq!(c.advance().retreat(), c);
        assert_eq!(c.retreat().advance(), c);
    }
    let hovered = CalendarViewCursor::new(11, 1431).set_hover(Some(5));
    assert_eq!(hovered.advance().retreat(), hovered);
}

#[test]
fn cursor_rolls_over_years() {
    let c = CalendarViewCursor::new(11, 1431).advance();
    assert_eq!((c.view_month, c.view_year), (0, 1432));
    let c = CalendarViewCursor::new(0, 1432).retreat();
    assert_eq!((c.view_month, c.view_year), (11, 1431));
    let c = CalendarViewCursor::new(4, 1432).advance();
    assert_eq!((c.view_month, c.view_year, c.hover_day), (5, 1432, None));
    assert_eq!(CalendarViewCursor::new(0, 1432).day_at_cell(0, 1), Some(1));
}

#[test]
fn bangla_numerals() {
    assert_eq!(to_bangla_number(1432), "১৪৩২");
    assert_eq!(to_bangla_number(0), "০");
    assert_eq!(to_bangla_number(7), "৭");
    assert_eq!(to_bangla_number(1234567890), "১২৩৪৫৬৭৮৯০");
    assert_eq!(to_bangla_number(-15), "-১৫");
    assert_eq!(to_bangla_number(i32::MIN), "-২১৪৭৪৮৩৬৪৮");
    assert_eq!(date(1, 0, 1432, 1).get_year_bangla(), "১৪৩২");
}

#[test]
fn ordinals() {
    assert_eq!(date(1, 0, 1432, 1).get_ordinal(), "১লা");
    assert_eq!(date(2, 0, 1432, 1).get_ordinal(), "২রা");
    assert_eq!(date(4, 0, 1432, 1).get_ordinal(), "৪ঠা");
    assert_eq!(date(18, 0, 1432, 1).get_ordinal(), "১৮ই");
    assert_eq!(date(19, 0, 1432, 1).get_ordinal(), "১৯শে");
    assert_eq!(date(31, 0, 1432, 1).get_ordinal(), "৩১শে");
    assert_eq!(date(0, 0, 1432, 1).get_ordinal(), "?");
    assert_eq!(date(32, 0, 1432, 1).get_ordinal(), "?");
}

#[test]
fn month_season_and_weekday_names() {
    assert_eq!(date(1, 0, 1432, 0).get_month_name(), "বৈশাখ");
    assert_eq!(date(1, 10, 1432, 0).get_month_name(), "ফাল্গুন");
    assert_eq!(date(1, 11, 1432, 0).get_month_name(), "চৈত্র");
    assert_eq!(date(1, 12, 1432, 0).get_month_name(), "?");
    assert_eq!(date(1, -1, 1432, 0).get_month_name(), "?");
    assert_eq!(date(1, 0, 1432, 0).get_season(), "গ্রীষ্ম");
    assert_eq!(date(1, 5, 1432, 0).get_season(), "শরৎ");
    assert_eq!(date(1, 9, 1432, 0).get_season(), "শীত");
    assert_eq!(date(1, 12, 1432, 0).get_season(), "?");
    assert_eq!(date(1, 0, 1432, 0).get_weekday_name(), "রবিবার");
    assert_eq!(date(1, 0, 1432, 4).get_weekday_name(), "বৃহস্পতিবার");
    assert_eq!(date(1, 0, 1432, 6).get_weekday_name(), "শনিবার");
    assert_eq!(date(1, 0, 1432, 7).get_weekday_name(), "?");
}

#[test]
fn display_lines() {
    let d = date(6, 7, 1432, 6);
    assert_eq!(d.format_line1(), "৬ই অগ্রহায়ণ,");
    assert_eq!(d.format_line2(), "১৪৩২ বঙ্গাব্দ");
    assert_eq!(d.format_line3(), "শনিবার, হেমন্তকাল");
    let odd = date(40, 15, -3, 9);
    assert_eq!(odd.format_line1(), "? ?,");
    assert_eq!(odd.format_line2(), "-৩ বঙ্গাব্দ");
    assert_eq!(odd.format_line3(), "?, ?কাল");
}

#[test]
fn widget_width_follows_the_longest_line() {
    assert_eq!(calculate_widget_width(&date(6, 8, 1432, 0)), 14 * 11 + 16);
    assert_eq!(calculate_widget_width(&date(31, 7, 1432, 4)), 22 * 11 + 16);
    assert_eq!(calculate_widget_width(&date(40, 15, -3, 9)), 11 * 11 + 16);
    assert_eq!(calculate_widget_width(&date(40, 15, 0, 9)), 120 + 16);
}

#[test]
fn name_lookups_by_index() {
    assert_eq!(month_name(8), "পৌষ");
    assert_eq!(season_name(10), "বসন্ত");
    assert_eq!(weekday_name(1), "সোমবার");
    assert_eq!(ordinal_name(3), "৩রা");
    assert_eq!(month_name(12), "?");
    assert_eq!(ordinal_name(0), "?");
}

#[test]
fn days_are_laid_out_row_by_row() {
    assert_eq!(grid_cell_of_day(1, 0, 1432), (0, 1));
    assert_eq!(grid_cell_of_day(6, 0, 1432), (0, 6));
    assert_eq!(grid_cell_of_day(7, 0, 1432), (1, 0));
    assert_eq!(grid_cell_of_day(31, 0, 1432), (4, 3));
    assert_eq!(grid_cell_of_day(30, 11, 1431), (5, 0));
    for (month, year) in [(0, 1432), (11, 1431), (10, 1430), (6, 1450)] {
        for day in 1..=bangla_calendar::calendar::get_bangla_month_days(month, year) {
            let (row, col) = grid_cell_of_day(day, month, year);
            assert_eq!(day_at_grid_cell(row, col, month, year), Some(day));
        }
    }
}
