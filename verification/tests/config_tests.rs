use time_tracking::clock::{resolve_requested_date, today, Moment};
use time_tracking::config::{
    apply_arg_overrides, config_path_in, default_port, synthetic_args, write_config_comments, Args,
    Config, Formatter,
};
use time_tracking::date::Date;
use time_tracking::file_utils::DirError;

fn date(y: i32, m: u8, d: u8) -> Date {
    Date::from_calendar_date(y, m, d).unwrap()
}

fn create_test_config() -> Config {
    Config {
        formatter: Some(Formatter::Default),
        week_start_day: Some("Monday".to_string()),
        data_directory: Some("/test/data".to_string()),
        template_file: Some("/test/template.md".to_string()),
        prefix: None,
        suffix: None,
        ..Config::default()
    }
}

fn create_empty_config() -> Config {
    Config {
        formatter: Some(Formatter::Default),
        week_start_day: None,
        data_directory: None,
        template_file: None,
        prefix: None,
        suffix: None,
        ..Config::default()
    }
}

#[test]
fn test_default_config() {
    let config = Config::default();
    assert_eq!(config.week_start_day, Some("Saturday".to_string()));
    assert_eq!(config.data_directory, None);
    assert_eq!(config.template_file, None);
    // The daily target is kept in tenths of an hour: eight hours.
    assert_eq!(config.daily_target_tenths, Some(80));
}

#[test]
fn test_mouse_defaults_to_true() {
    let config = Config::default();
    assert_eq!(config.mouse, Some(true));
}

#[test]
fn default_config_does_not_resolve_the_home_directory() {
    let config = Config::default();
    assert!(config.data_directory.is_none());
}

#[test]
fn test_get_week_start_day_with_value() {
    assert_eq!(create_test_config().get_week_start_day(), "Monday");
}

#[test]
fn test_get_week_start_day_with_none() {
    assert_eq!(create_empty_config().get_week_start_day(), "Saturday");
}

#[test]
fn test_get_data_directory_with_value() {
    assert_eq!(create_test_config().get_data_directory(), Some("/test/data"));
}

#[test]
fn test_get_data_directory_with_none() {
    assert_eq!(create_empty_config().get_data_directory(), None);
}

#[test]
fn test_get_template_file_with_value() {
    assert_eq!(create_test_config().get_template_file(), Some("/test/template.md"));
}

#[test]
fn test_get_template_file_with_none() {
    assert_eq!(create_empty_config().get_template_file(), None);
}

#[test]
fn test_config_clone() {
    let config1 = create_test_config();
    let config2 = config1.clone();
    assert_eq!(config1.week_start_day, config2.week_start_day);
    assert_eq!(config1.data_directory, config2.data_directory);
    assert_eq!(config1.template_file, config2.template_file);
}

#[test]
fn test_week_start_day_fallback_behavior() {
    let config = Config {
        week_start_day: None,
        data_directory: Some("/data".to_string()),
        template_file: Some("/template.md".to_string()),
        ..Config::default()
    };
    assert_eq!(config.get_week_start_day(), "Saturday");

    let config = Config {
        week_start_day: Some("".to_string()),
        data_directory: None,
        template_file: None,
        ..Config::default()
    };
    assert_eq!(config.get_week_start_day(), "");
}

#[test]
fn config_load_without_date_args_defaults_to_today() {
    let n = now_at_noon();
    let (config, unparsed) = Config::with_args(Config::default(), &synthetic_args(), &n);
    assert_eq!(config.date, n.date);
    assert_eq!(unparsed, None);
}

#[test]
fn config_load_date_literal_today_resolves_to_todays_date() {
    let n = now_at_noon();
    let (resolved, _) = resolve_requested_date(Some("today".to_string()), &n);
    assert_eq!(resolved, n.date);
}

#[test]
fn config_load_date_explicit_yyyy_mm_dd_resolves_to_that_date() {
    let (resolved, _) = resolve_requested_date(Some("2024-03-15".to_string()), &now_at_noon());
    assert_eq!(resolved, date(2024, 3, 15));
}

#[test]
fn config_load_date_relative_phrase_resolves_relative_to_today() {
    let n = now_at_noon();
    let (resolved, _) = resolve_requested_date(Some("yesterday".to_string()), &n);
    assert_eq!(resolved, n.date.previous_day().unwrap());
}

#[test]
fn an_unreadable_date_falls_back_to_today_and_says_so() {
    let n = now_at_noon();
    let (resolved, unparsed) = resolve_requested_date(Some("not a date".to_string()), &n);
    assert_eq!(resolved, n.date);
    assert_eq!(unparsed, Some("not a date".to_string()));
}

#[test]
fn config_load_arg_overrides_take_precedence_over_config_file_values() {
    let mut config = Config {
        week_start_day: Some("Sunday".to_string()),
        data_directory: Some("/from/config/file".to_string()),
        template_file: Some("/from/config/file/template.md".to_string()),
        formatter: Some(Formatter::Markdown),
        ..Config::default()
    };

    let args = Args {
        stdin: true,
        week: true,
        week_start_day: Some("Monday".to_string()),
        data_directory: Some("/from/args".to_string()),
        template_file: Some("/from/args/template.md".to_string()),
        formatter: Some(Formatter::Plain),
        noedit: true,
        serve: true,
        tui: true,
        port: Some(9999),
        ..synthetic_args()
    };

    apply_arg_overrides(&mut config, &args);

    assert_eq!(config.week_start_day, Some("Monday".to_string()));
    assert_eq!(config.data_directory, Some("/from/args".to_string()));
    assert_eq!(config.template_file, Some("/from/args/template.md".to_string()));
    assert_eq!(config.formatter, Some(Formatter::Plain));
    assert!(config.stdin);
    assert!(config.week);
    assert!(config.noedit);
    assert_eq!(config.serve, Some(true));
    assert_eq!(config.tui, Some(true));
    assert_eq!(config.port, Some(9999));
}

#[test]
fn arguments_left_out_change_nothing() {
    let mut config = create_test_config();
    apply_arg_overrides(&mut config, &synthetic_args());
    assert_eq!(config.week_start_day, Some("Monday".to_string()));
    assert_eq!(config.data_directory, Some("/test/data".to_string()));
    assert_eq!(config.formatter, Some(Formatter::Default));
    assert!(!config.stdin);
    assert_eq!(config.port, Some(3000));
}

#[test]
fn the_default_port_is_3000() {
    assert_eq!(default_port(), Some(3000));
}

#[test]
fn the_configured_formatter_is_built() {
    let config = Config { formatter: Some(Formatter::Plain), ..Config::default() };
    assert_eq!(config.get_formatter().formatter().name(), "plain");
    let config = Config { formatter: None, ..Config::default() };
    assert_eq!(config.get_formatter().formatter().name(), "default");
}

#[test]
fn the_config_file_lives_in_the_config_directory() {
    assert_eq!(
        config_path_in(Some("/home/ann/.config".into()), None).unwrap(),
        "/home/ann/.config/time-tracking-cli/config.toml"
    );
    assert_eq!(
        config_path_in(None, Some("/home/ann".into())).unwrap(),
        "/home/ann/.config/time-tracking-cli/config.toml"
    );
    assert_eq!(config_path_in(None, None), Err(DirError::NoConfigHome));
}

#[test]
fn the_config_comments_document_the_optional_keys() {
    let text = write_config_comments();
    assert!(text.starts_with("\n# Optional template file"));
    assert!(text.contains("#prefix = \"```timetracking\"\n"));
    assert!(text.contains("#daily_target_hours = 8.0\n"));
    assert!(text.ends_with("#mouse = true\n"));
}

/// Noon today, UTC: a moment to read relative dates against.
fn now_at_noon() -> Moment {
    Moment { date: today(), hour: 12, minute: 0, second: 0, nanosecond: 0, offset_seconds: 0 }
}
