use time_tracking::config::Config;
use time_tracking::data_svc::{
    day_file_date, day_file_name, existing_dates, get_file_path, has_data, parse_request_date, populated_dates, summarize_week,
    weekly_data, DataDir, DayLoad, ParseOpts, ParseSettings,
};
use time_tracking::date::Date;
use time_tracking::day::{ProjectEntry, TimeTrackingData};
use time_tracking::formatters::PlainDisplayFormatter;
use time_tracking::report::weekly_report;

fn date(y: i32, m: u8, d: u8) -> Date {
    Date::from_calendar_date(y, m, d).unwrap()
}

fn project(name: &str, minutes: u32, notes: &[&str]) -> ProjectEntry {
    ProjectEntry {
        name: name.to_string(),
        total_minutes: minutes,
        notes: notes.iter().map(|n| n.to_string()).collect(),
    }
}

fn day(projects: Vec<ProjectEntry>, dead: u32, warnings: &[&str]) -> TimeTrackingData {
    TimeTrackingData {
        start_time: None,
        end_time: None,
        total_minutes: projects.iter().map(|p| p.total_minutes).sum(),
        dead_time_minutes: dead,
        warnings: warnings.iter().map(|w| w.to_string()).collect(),
        projects,
    }
}

fn loaded(d: Date, data: TimeTrackingData) -> DayLoad {
    (d, Some("content".to_string()), Some(data))
}

#[test]
fn weekly_projects_sort_by_minutes_desc_then_name_asc() {
    // The parse of "8-10 zulu\n10-12 alpha\n1-4 beta\n": zulu and alpha tie
    // at 120 minutes; beta is larger.
    let days = vec![loaded(
        date(2026, 8, 24),
        day(vec![project("zulu", 120, &[]), project("alpha", 120, &[]), project("beta", 180, &[])], 0, &[]),
    )];
    let s = summarize_week(days);
    let names: Vec<&str> = s.projects.iter().map(|p| p.name.as_str()).collect();
    assert_eq!(names, vec!["beta", "alpha", "zulu"], "minutes desc, then name asc");
}

#[test]
fn weekly_tie_ordering_is_deterministic() {
    let days = vec![loaded(date(2026, 8, 24), day(vec![project("b", 60, &[]), project("a", 60, &[]), project("c", 60, &[])], 0, &[]))];
    let names: Vec<String> = summarize_week(days).projects.into_iter().map(|p| p.name).collect();
    assert_eq!(names, vec!["a", "b", "c"]);
}

#[test]
fn weekly_summary_keeps_missing_days_and_orders_notes_by_day() {
    let days = vec![
        loaded(date(2026, 8, 24), day(vec![project("admin", 60, &["first"])], 10, &[])),
        (date(2026, 8, 25), None, None),
        loaded(date(2026, 8, 26), day(vec![project("admin", 30, &["second"])], 5, &[])),
    ];
    let s = summarize_week(days);
    assert_eq!(s.total_minutes, 90);
    assert_eq!(s.dead_time_minutes, 15);
    assert_eq!(s.days.len(), 3);
    assert_eq!(s.days[1], (date(2026, 8, 25), String::new(), None));
    assert_eq!(
        s.projects[0].notes,
        vec!["Monday 2026-08-24: first".to_string(), "Wednesday 2026-08-26: second".to_string()]
    );
    assert_eq!(s.per_day, vec![(date(2026, 8, 24), 60), (date(2026, 8, 25), 0), (date(2026, 8, 26), 30)]);
}

#[test]
fn get_weekly_data_is_a_projection_of_the_summary() {
    let days = vec![loaded(date(2026, 8, 24), day(vec![project("admin", 120, &[])], 0, &[]))];
    let s = summarize_week(days);
    assert_eq!(weekly_data(&s), &vec![(date(2026, 8, 24), 120)]);
    let sum: u32 = s.per_day.iter().map(|(_, m)| m).sum();
    assert_eq!(sum, s.total_minutes);
}

#[test]
fn warnings_carry_their_day_but_heading_warnings_are_dropped() {
    let days = vec![loaded(
        date(2026, 8, 24),
        day(vec![], 0, &["Error parsing time range '#'", "Error parsing time range 'x-y'"]),
    )];
    let s = summarize_week(days);
    assert_eq!(s.warnings, vec!["Monday 2026-08-24: Error parsing time range 'x-y'".to_string()]);
}

#[test]
fn weekly_summary_includes_warnings_section() {
    let days = vec![loaded(date(2026, 8, 24), day(vec![project("admin", 60, &[])], 0, &["Error parsing time range 'x-y'"]))];
    let s = summarize_week(days);
    let text = weekly_report(&PlainDisplayFormatter, &date(2026, 8, 22), &date(2026, 8, 28), &s);
    assert!(text.contains("Error parsing time range 'x-y'"), "got:\n{text}");
    assert!(text.contains("Monday 2026-08-24"), "got:\n{text}");
}

#[test]
fn missing_day_still_renders_no_file_found() {
    let days = vec![(date(2026, 8, 25), None, None)];
    let s = summarize_week(days);
    let text = weekly_report(&PlainDisplayFormatter, &date(2026, 8, 22), &date(2026, 8, 28), &s);
    assert!(text.contains("No time tracking file found"), "got:\n{text}");
}

#[test]
fn day_files_are_named_by_their_date() {
    assert_eq!(day_file_name(&date(2026, 8, 24)), "2026-08-24.md");
    assert_eq!(get_file_path("/data", &date(2026, 8, 24)), "/data/2026-08-24.md");
    assert_eq!(day_file_date("2026-08-24.md"), Some(date(2026, 8, 24)));
    assert_eq!(day_file_date("2026-08-24.txt"), None);
    assert_eq!(day_file_date("README.md"), None);
    assert_eq!(day_file_date("template.md"), None);
    assert_eq!(day_file_date("2026-08-24.md.swp"), None);
    assert_eq!(day_file_date("2026-02-30.md"), None);
}

#[test]
fn existing_dates_keeps_to_the_requested_range() {
    let names: Vec<String> = ["2026-08-26.md", "notes.txt", "2026-08-20.md", "2026-08-24.md", "2026-09-01.md"]
        .iter()
        .map(|s| s.to_string())
        .collect();
    assert_eq!(
        existing_dates(&names, date(2026, 8, 22), date(2026, 8, 31)),
        vec![date(2026, 8, 24), date(2026, 8, 26)]
    );
}

#[test]
fn existing_dates_of_an_empty_directory_is_empty() {
    assert!(existing_dates(&vec![], date(2026, 8, 1), date(2026, 8, 31)).is_empty());
}

#[test]
fn an_existing_but_empty_file_is_not_populated() {
    assert!(!has_data(None));
    assert!(!has_data(Some(&day(vec![], 0, &[]))));
    assert!(!has_data(Some(&day(vec![project("admin", 0, &[])], 0, &[]))));
    assert!(has_data(Some(&day(vec![project("admin", 15, &[])], 0, &[]))));
}

#[test]
fn injected_settings_bound_the_entries() {
    let config = Config { prefix: Some("```timetracking".into()), suffix: Some("```".into()), ..Config::default() };
    let from_config = ParseSettings::from_config(&config);
    assert_eq!(from_config.prefix.as_deref(), Some("```timetracking"));
    assert_eq!(from_config.suffix.as_deref(), Some("```"));
    let fixed = ParseOpts::Fixed(ParseSettings { prefix: Some("<<".into()), suffix: None, template_file: None });
    assert_eq!(fixed.prefix(&config), Some("<<"));
    assert_eq!(fixed.suffix(&config), None);
    assert_eq!(ParseOpts::FromConfig.prefix(&config), Some("```timetracking"));
}

#[test]
fn a_fixed_data_directory_is_used_as_given() {
    let config = Config { data_directory: Some("/from/config".to_string()), ..Config::default() };
    assert_eq!(DataDir::Fixed("/tmp/days".into()).resolve(&config), Ok("/tmp/days".to_string()));
}

#[test]
fn the_configured_data_directory_is_honoured() {
    let config = Config { data_directory: Some("/from/config".to_string()), ..Config::default() };
    assert_eq!(DataDir::FromConfig.resolve(&config), Ok("/from/config".to_string()));
}

#[test]
fn without_a_configured_directory_the_home_default_is_used() {
    let config = Config { data_directory: None, ..Config::default() };
    assert!(DataDir::FromConfig.resolve(&config).unwrap().ends_with(".time-tracking"));
}

#[test]
fn the_weekly_projects_account_for_every_booked_minute() {
    let days = vec![
        loaded(date(2026, 8, 24), day(vec![project("zeta", 60, &[]), project("alpha", 45, &[])], 0, &[])),
        (date(2026, 8, 25), None, None),
        loaded(date(2026, 8, 26), day(vec![project("alpha", 30, &[]), project("gamma", 15, &[])], 5, &[])),
    ];
    let s = summarize_week(days);
    let booked: u32 = s.projects.iter().map(|p| p.total_minutes).sum();
    assert_eq!(booked, 60 + 45 + 30 + 15);
    assert_eq!(booked, s.total_minutes);
}

#[test]
fn request_dates_read_as_a_signed_four_digit_year_and_two_digit_fields() {
    assert_eq!(parse_request_date("2024-02-29"), Some(date(2024, 2, 29)));
    assert_eq!(parse_request_date("+2024-01-05"), Some(date(2024, 1, 5)));
    assert_eq!(parse_request_date("-0001-12-31"), Some(date(-1, 12, 31)));
    assert_eq!(parse_request_date("2023-02-29"), None);
    assert_eq!(parse_request_date("2024-13-01"), None);
    assert_eq!(parse_request_date("2024-00-10"), None);
    assert_eq!(parse_request_date("2024-01-00"), None);
    assert_eq!(parse_request_date("2024-1-05"), None);
    assert_eq!(parse_request_date("2024-01-05x"), None);
    assert_eq!(parse_request_date(" 2024-01-05"), None);
    assert_eq!(parse_request_date("12024-01-01"), None);
    assert_eq!(parse_request_date("2024/01/05"), None);
}

#[test]
fn populated_dates_are_the_days_with_projects_and_minutes() {
    let mut no_minutes = day(vec![project("admin", 0, &[])], 0, &[]);
    no_minutes.total_minutes = 0;
    let days = vec![
        (date(2026, 8, 22), Some(day(vec![project("admin", 60, &[])], 0, &[]))),
        (date(2026, 8, 23), None),
        (date(2026, 8, 24), Some(day(vec![], 0, &[]))),
        (date(2026, 8, 25), Some(no_minutes)),
        (date(2026, 8, 26), Some(day(vec![project("code", 5, &[])], 0, &[]))),
    ];
    assert_eq!(populated_dates(&days), vec![date(2026, 8, 22), date(2026, 8, 26)]);
    assert_eq!(populated_dates(&Vec::new()), Vec::<Date>::new());
}
