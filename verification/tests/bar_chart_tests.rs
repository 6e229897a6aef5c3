use time_tracking::bar_chart::{
    bar_tenths, bar_values, calculate_bar_dimensions, chart_ceiling, goal_marker_row, minutes_for, style_for,
    total_weekly_minutes, week_max_minutes, BarStyle, BarValue,
};
use time_tracking::config::DEFAULT_DAILY_TARGET_TENTHS;
use time_tracking::date::Date;

fn date(y: i32, m: u8, d: u8) -> Date {
    Date::from_calendar_date(y, m, d).unwrap()
}

fn week() -> [Date; 7] {
    [
        date(2026, 8, 22),
        date(2026, 8, 23),
        date(2026, 8, 24),
        date(2026, 8, 25),
        date(2026, 8, 26),
        date(2026, 8, 27),
        date(2026, 8, 28),
    ]
}

#[test]
fn bar_values_come_from_the_passed_week_not_the_global_config() {
    let data = vec![(date(2026, 8, 24), 480u32), (date(2026, 8, 23), 3u32)];
    let w = week();
    assert_eq!(bar_tenths(minutes_for(Some(&data), w[2])), 80, "8h in tenths of an hour");
    assert_eq!(minutes_for(Some(&data), w[2]), 480);
    assert_eq!(bar_tenths(minutes_for(Some(&data), w[0])), 0, "a day with no data is a zero bar");
    assert_eq!(bar_tenths(minutes_for(Some(&data), w[1])), 0, "3 minutes floors to a zero-height bar");
    assert_eq!(minutes_for(Some(&data), w[1]), 3, "but the raw minutes survive the floor");
}

#[test]
fn a_few_tracked_minutes_still_style_as_populated() {
    assert_eq!(style_for(date(2026, 8, 23), date(2026, 8, 24), 3), BarStyle::Populated);
    assert_ne!(style_for(date(2026, 8, 23), date(2026, 8, 24), 3), BarStyle::Inactive);
    assert_eq!(style_for(date(2026, 8, 24), date(2026, 8, 24), 0), BarStyle::Active);
    assert_eq!(style_for(date(2026, 8, 25), date(2026, 8, 24), 0), BarStyle::Inactive);
}

#[test]
fn ceiling_is_the_target_when_the_week_is_light() {
    assert_eq!(chart_ceiling(180, 80), 80);
}

#[test]
fn ceiling_grows_past_the_target_for_a_long_day() {
    assert_eq!(chart_ceiling(630, 80), 110);
}

#[test]
fn a_day_exactly_on_an_hour_is_not_over_rounded() {
    assert_eq!(chart_ceiling(660, 80), 110);
}

#[test]
fn ceiling_never_clips_the_tallest_bar() {
    for minutes in [0u32, 1, 59, 60, 480, 601, 1439] {
        let ceiling = chart_ceiling(minutes, 80);
        let bar = u64::from(minutes) * 10 / 60;
        assert!(bar <= ceiling, "{minutes}min bar {bar} exceeds ceiling {ceiling}");
    }
}

#[test]
fn ceiling_is_independent_of_terminal_height() {
    assert_eq!(chart_ceiling(480, 80), chart_ceiling(480, 80));
    assert_eq!(chart_ceiling(0, DEFAULT_DAILY_TARGET_TENTHS), 80, "8h default");
}

#[test]
fn a_custom_target_moves_the_ceiling() {
    assert_eq!(chart_ceiling(180, 60), 60);
}

#[test]
fn set_daily_target_hours_changes_the_ceiling() {
    assert_eq!(chart_ceiling(0, 80), 80);
    assert_eq!(chart_ceiling(0, 60), 60);
}

#[test]
fn a_tiny_target_is_floored_at_an_hour() {
    assert_eq!(chart_ceiling(0, 2), 10);
}

#[test]
fn goal_marker_never_lands_on_the_day_labels_row() {
    let ceiling = chart_ceiling(1439, 10);
    let (y, height) = (0u16, 6u16);
    let label_row = y + height - 1;
    let row = goal_marker_row(y, height, ceiling, 10).expect("a 6-row inner area has room");
    assert!(row < label_row, "goal marker at row {row} must stay above row {label_row}");
}

#[test]
fn an_area_without_bar_rows_has_no_goal_line() {
    assert_eq!(goal_marker_row(3, 1, 80, 80), None);
    assert_eq!(goal_marker_row(3, 0, 80, 80), None);
}

#[test]
fn the_goal_line_sits_at_the_targets_share_of_the_bars() {
    // 11 rows of bars, target 8h of a 10h ceiling: 8 rows filled.
    assert_eq!(goal_marker_row(2, 12, 100, 80), Some(2 + 11 - 8));
}

#[test]
fn the_tallest_day_and_the_total_come_from_the_week() {
    let data = vec![(date(2026, 8, 24), 480u32), (date(2026, 8, 23), 30u32), (date(2026, 9, 1), 900u32)];
    assert_eq!(week_max_minutes(Some(&data), &week()), 480);
    assert_eq!(week_max_minutes(None, &week()), 0);
    assert_eq!(total_weekly_minutes(Some(&data)), 1410);
    assert_eq!(total_weekly_minutes(None), 0);
}

#[test]
fn bars_are_at_least_three_columns_wide() {
    assert_eq!(calculate_bar_dimensions(80), (10, 1));
    assert_eq!(calculate_bar_dimensions(10), (3, 1));
    assert_eq!(calculate_bar_dimensions(0), (3, 1));
}

#[test]
fn the_seven_bars_follow_the_week() {
    let data = vec![(date(2026, 8, 24), 480u32), (date(2026, 8, 23), 3u32)];
    let w = week();
    let values = bar_values(Some(&data), &w);
    assert_eq!(values.len(), 7);
    assert_eq!(values[2], BarValue { date: w[2], tenths: 80, minutes: 480 });
    assert_eq!(values[1], BarValue { date: w[1], tenths: 0, minutes: 3 });
    assert_eq!(values[0], BarValue { date: w[0], tenths: 0, minutes: 0 });
    assert!(bar_values(None, &w).iter().all(|b| b.minutes == 0 && b.tenths == 0));
}
