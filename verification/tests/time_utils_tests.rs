use time_tracking::date::{Date, Weekday};
use time_tracking::time_utils::{format_day_with_date, format_pane_title, get_week_dates, parse_weekday, WeekdayExt};

fn date(y: i32, m: u8, d: u8) -> Date {
    Date::from_calendar_date(y, m, d).unwrap()
}

#[test]
fn test_parse_weekday_full_names() {
    assert_eq!(parse_weekday("Monday").unwrap(), Weekday::Monday);
    assert_eq!(parse_weekday("Tuesday").unwrap(), Weekday::Tuesday);
    assert_eq!(parse_weekday("Wednesday").unwrap(), Weekday::Wednesday);
    assert_eq!(parse_weekday("Thursday").unwrap(), Weekday::Thursday);
    assert_eq!(parse_weekday("Friday").unwrap(), Weekday::Friday);
    assert_eq!(parse_weekday("Saturday").unwrap(), Weekday::Saturday);
    assert_eq!(parse_weekday("Sunday").unwrap(), Weekday::Sunday);
}

#[test]
fn test_parse_weekday_short_names() {
    assert_eq!(parse_weekday("Mon").unwrap(), Weekday::Monday);
    assert_eq!(parse_weekday("Tue").unwrap(), Weekday::Tuesday);
    assert_eq!(parse_weekday("Wed").unwrap(), Weekday::Wednesday);
    assert_eq!(parse_weekday("Thu").unwrap(), Weekday::Thursday);
    assert_eq!(parse_weekday("Fri").unwrap(), Weekday::Friday);
    assert_eq!(parse_weekday("Sat").unwrap(), Weekday::Saturday);
    assert_eq!(parse_weekday("Sun").unwrap(), Weekday::Sunday);
}

#[test]
fn test_parse_weekday_case_insensitive() {
    assert_eq!(parse_weekday("monday").unwrap(), Weekday::Monday);
    assert_eq!(parse_weekday("TUESDAY").unwrap(), Weekday::Tuesday);
    assert_eq!(parse_weekday("WeDnEsDaY").unwrap(), Weekday::Wednesday);
    assert_eq!(parse_weekday("thu").unwrap(), Weekday::Thursday);
    assert_eq!(parse_weekday("FRI").unwrap(), Weekday::Friday);
}

#[test]
fn test_parse_weekday_invalid() {
    assert!(parse_weekday("Invalid").is_err());
    assert!(parse_weekday("").is_err());
    assert!(parse_weekday("Moonday").is_err());
    assert!(parse_weekday("123").is_err());

    let error = parse_weekday("Invalid").unwrap_err();
    let error_msg = error.message();
    assert!(error_msg.contains("Invalid weekday: 'Invalid'"));
    assert!(error_msg.contains("Valid options are:"));
}

#[test]
fn test_get_week_dates_monday_start() {
    let d = date(2023, 10, 11);
    let week_dates = get_week_dates(&d, Weekday::Monday);

    assert_eq!(week_dates.len(), 7);
    assert_eq!(week_dates[0], date(2023, 10, 9));
    assert_eq!(week_dates[1], date(2023, 10, 10));
    assert_eq!(week_dates[2], date(2023, 10, 11));
    assert_eq!(week_dates[6], date(2023, 10, 15));

    assert_eq!(week_dates[0].weekday(), Weekday::Monday);
    assert_eq!(week_dates[6].weekday(), Weekday::Sunday);
}

#[test]
fn test_get_week_dates_saturday_start() {
    let d = date(2023, 10, 11);
    let week_dates = get_week_dates(&d, Weekday::Saturday);

    assert_eq!(week_dates.len(), 7);
    assert_eq!(week_dates[0], date(2023, 10, 7));
    assert_eq!(week_dates[4], date(2023, 10, 11));
    assert_eq!(week_dates[6], date(2023, 10, 13));

    assert_eq!(week_dates[0].weekday(), Weekday::Saturday);
    assert_eq!(week_dates[6].weekday(), Weekday::Friday);
}

#[test]
fn test_get_week_dates_sunday_start() {
    let d = date(2023, 10, 9);
    let week_dates = get_week_dates(&d, Weekday::Sunday);

    assert_eq!(week_dates.len(), 7);
    assert_eq!(week_dates[0], date(2023, 10, 8));
    assert_eq!(week_dates[1], date(2023, 10, 9));
    assert_eq!(week_dates[6], date(2023, 10, 14));

    assert_eq!(week_dates[0].weekday(), Weekday::Sunday);
    assert_eq!(week_dates[6].weekday(), Weekday::Saturday);
}

#[test]
fn test_get_week_dates_same_day_as_week_start() {
    let saturday = date(2023, 10, 7);
    let week_dates = get_week_dates(&saturday, Weekday::Saturday);

    assert_eq!(week_dates.len(), 7);
    assert_eq!(week_dates[0], saturday);
    assert_eq!(week_dates[6], date(2023, 10, 13));
}

#[test]
fn test_get_week_dates_end_of_month() {
    let d = date(2023, 10, 31);
    let week_dates = get_week_dates(&d, Weekday::Monday);

    assert_eq!(week_dates.len(), 7);
    assert_eq!(week_dates[0], date(2023, 10, 30));
    assert_eq!(week_dates[1], d);
    assert_eq!(week_dates[6], date(2023, 11, 5));
}

#[test]
fn test_get_week_dates_year_boundary() {
    let d = date(2023, 12, 31);
    let week_dates = get_week_dates(&d, Weekday::Monday);

    assert_eq!(week_dates.len(), 7);
    assert_eq!(week_dates[0], date(2023, 12, 25));
    assert_eq!(week_dates[6], d);
}

#[test]
fn test_format_day_with_date() {
    assert_eq!(format_day_with_date(&date(2023, 10, 9)), "Monday 2023-10-09");
    assert_eq!(format_day_with_date(&date(2023, 10, 10)), "Tuesday 2023-10-10");
    assert_eq!(format_day_with_date(&date(2023, 10, 11)), "Wednesday 2023-10-11");
    assert_eq!(format_day_with_date(&date(2023, 10, 12)), "Thursday 2023-10-12");
    assert_eq!(format_day_with_date(&date(2023, 10, 13)), "Friday 2023-10-13");
    assert_eq!(format_day_with_date(&date(2023, 10, 14)), "Saturday 2023-10-14");
    assert_eq!(format_day_with_date(&date(2023, 10, 15)), "Sunday 2023-10-15");
}

#[test]
fn test_format_day_with_date_different_years() {
    assert_eq!(format_day_with_date(&date(2022, 1, 1)), "Saturday 2022-01-01");
    assert_eq!(format_day_with_date(&date(2024, 12, 25)), "Wednesday 2024-12-25");
}

#[test]
fn test_format_day_with_date_leap_year() {
    assert_eq!(format_day_with_date(&date(2024, 2, 29)), "Thursday 2024-02-29");
}

#[test]
fn weekday_short_names_are_three_letters() {
    assert_eq!(Weekday::Monday.short_name(), "Mon");
    assert_eq!(Weekday::Sunday.short_name(), "Sun");
    assert_eq!(Weekday::Thursday.short_name(), "Thu");
}

#[test]
fn every_week_holds_its_date_and_runs_seven_consecutive_days() {
    for start in [
        Weekday::Monday,
        Weekday::Tuesday,
        Weekday::Wednesday,
        Weekday::Thursday,
        Weekday::Friday,
        Weekday::Saturday,
        Weekday::Sunday,
    ] {
        let d = date(2024, 2, 29);
        let week = get_week_dates(&d, start);
        assert_eq!(week[0].weekday(), start);
        assert!(week.contains(&d));
        for i in 1..7 {
            assert_eq!(week[i].julian_day(), week[i - 1].julian_day() + 1);
        }
    }
}

#[test]
fn the_pane_title_shows_the_short_weekday_and_the_date() {
    assert_eq!(format_pane_title(&date(2026, 8, 27)), "Thu 2026-08-27");
    assert_eq!(format_pane_title(&date(2025, 6, 7)), "Sat 2025-06-07");
}
