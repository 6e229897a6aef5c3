use time_tracking::bar_chart::BarStyle;
use time_tracking::calendar::{calendar_mark, date_at, month_length, month_offset, populated_scan_range, MonthError};
use time_tracking::date::{Date, Weekday};
use time_tracking::layout::Rect;

fn date(y: i32, m: u8, d: u8) -> Date {
    Date::from_calendar_date(y, m, d).unwrap()
}

const AREA: Rect = Rect { x: 0, y: 0, width: 24, height: 12 };

#[test]
fn the_first_column_is_sunday() {
    let active = date(2025, 6, 11);
    let first_hit = (AREA.y..AREA.y + AREA.height)
        .flat_map(|y| (AREA.x..AREA.x + AREA.width).map(move |x| (x, y)))
        .find_map(|(x, y)| date_at(active, AREA, x, y))
        .expect("some cell resolves to a date");
    assert_eq!(first_hit.weekday(), Weekday::Sunday);
    assert_eq!(first_hit, date(2025, 6, 1));
}

#[test]
fn clicks_outside_the_day_grid_resolve_to_nothing() {
    let active = date(2025, 6, 11);
    assert_eq!(date_at(active, AREA, 5, AREA.y), None);
    assert_eq!(date_at(active, AREA, 200, 200), None);
}

#[test]
fn each_day_cell_is_its_first_column() {
    let active = date(2025, 6, 11);
    // Grid rows start at y = 3; weekday i starts at x = 2 + 3 * i.
    assert_eq!(date_at(active, AREA, 2, 3), Some(date(2025, 6, 1)));
    assert_eq!(date_at(active, AREA, 3, 3), None, "the second column of a day is no hit");
    assert_eq!(date_at(active, AREA, 5, 4), Some(date(2025, 6, 9)));
    // June 2025 takes five rows; the sixth would start in July.
    assert_eq!(date_at(active, AREA, 2, 8), None);
}

#[test]
fn surrounding_months_days_are_clickable() {
    let active = date(2025, 7, 11);
    // July 2025 starts on a Tuesday: the first row begins on June 29.
    assert_eq!(date_at(active, AREA, 2, 3), Some(date(2025, 6, 29)));
}

#[test]
fn a_month_offset_gives_the_first_of_that_month() {
    assert_eq!(month_offset(date(2024, 5, 1), 0), Ok(date(2024, 5, 1)));
    assert_eq!(month_offset(date(2024, 5, 1), 1), Ok(date(2024, 6, 1)));
    assert_eq!(month_offset(date(2024, 5, 1), -1), Ok(date(2024, 4, 1)));
    assert_eq!(month_offset(date(2024, 3, 31), 1), Ok(date(2024, 4, 1)));
    assert_eq!(month_offset(date(2024, 3, 31), -1), Ok(date(2024, 2, 1)));
    assert_eq!(month_offset(date(2024, 5, 17), 14), Ok(date(2025, 7, 1)));
}

#[test]
fn a_month_offset_crosses_the_year_boundary() {
    assert_eq!(month_offset(date(2025, 12, 1), 1), Ok(date(2026, 1, 1)));
    assert_eq!(month_offset(date(2025, 1, 1), -1), Ok(date(2024, 12, 1)));
    assert_eq!(month_offset(date(2025, 1, 1), -13), Ok(date(2023, 12, 1)));
}

#[test]
fn a_month_offset_past_the_calendar_is_refused() {
    assert_eq!(month_offset(date(9999, 12, 1), 1), Err(MonthError::YearOutOfRange));
    assert_eq!(month_offset(date(-9999, 1, 1), -1), Err(MonthError::YearOutOfRange));
}

#[test]
fn months_have_their_lengths() {
    assert_eq!(month_length(2024, 2), 29);
    assert_eq!(month_length(2023, 2), 28);
    assert_eq!(month_length(1900, 2), 28);
    assert_eq!(month_length(2000, 2), 29);
    assert_eq!(month_length(2024, 4), 30);
    assert_eq!(month_length(2024, 12), 31);
}

#[test]
fn the_scan_covers_the_months_around_the_date() {
    assert_eq!(populated_scan_range(date(2025, 6, 15)), Ok((date(2025, 5, 1), date(2025, 7, 31))));
    assert_eq!(populated_scan_range(date(2024, 2, 29)), Ok((date(2024, 1, 1), date(2024, 3, 31))));
    // Around January the month before is December of the year before.
    assert_eq!(populated_scan_range(date(2025, 1, 15)), Ok((date(2024, 12, 1), date(2025, 2, 28))));
    assert_eq!(populated_scan_range(date(2025, 12, 15)), Ok((date(2025, 11, 1), date(2026, 1, 31))));
}

#[test]
fn the_active_date_is_marked_over_having_data() {
    let populated = vec![date(2025, 6, 9), date(2025, 6, 11)];
    assert_eq!(calendar_mark(date(2025, 6, 11), date(2025, 6, 11), &populated), Some(BarStyle::Active));
    assert_eq!(calendar_mark(date(2025, 6, 9), date(2025, 6, 11), &populated), Some(BarStyle::Populated));
    assert_eq!(calendar_mark(date(2025, 6, 10), date(2025, 6, 11), &populated), None);
}

#[test]
fn days_of_a_month_are_consecutive_julian_days() {
    let first = date(2024, 2, 1).julian_day();
    assert_eq!(date(2024, 2, 29).julian_day(), first + 28);
    assert_eq!(date(2023, 12, 31).julian_day(), date(2023, 12, 1).julian_day() + 30);
}

#[test]
fn each_month_starts_where_the_last_one_ended() {
    for (y, m, next) in [(2024, 2, (2024, 3)), (2023, 2, (2023, 3)), (2000, 2, (2000, 3)), (1900, 2, (1900, 3)), (2025, 12, (2026, 1)), (2025, 4, (2025, 5))] {
        let gap = date(next.0, next.1, 1).julian_day() - date(y, m, 1).julian_day();
        assert_eq!(gap, month_length(y, m) as i32, "{}-{}", y, m);
    }
}

#[test]
fn calendar_dates_round_trip_through_julian_days() {
    let d = date(1970, 1, 1);
    assert_eq!(d.julian_day(), 2440588);
    assert_eq!(Date::from_julian_day(2440588).unwrap().to_calendar_date(), (1970, 1, 1));
    assert_eq!(date(2024, 2, 29).to_calendar_date(), (2024, 2, 29));
    assert!(Date::from_calendar_date(2023, 2, 29).is_none());
    assert!(Date::from_calendar_date(2025, 13, 1).is_none());
}
