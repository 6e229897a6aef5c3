use time_tracking::config::{Config, Formatter};
use time_tracking::date::Weekday;
use time_tracking::theme::{Preset, ThemeEnv};
use time_tracking::tui_context::{ContextError, TuiContext};

fn truecolor() -> ThemeEnv {
    ThemeEnv { no_color: false, colorterm: Some("truecolor".to_string()) }
}

#[test]
fn from_config_carries_the_directory_and_parse_markers() {
    let config = Config {
        week_start_day: Some("Monday".to_string()),
        data_directory: Some("/test/data".to_string()),
        prefix: Some("```timetracking".to_string()),
        suffix: Some("```".to_string()),
        template_file: Some("/test/template.md".to_string()),
        ..Config::default()
    };

    let ctx = TuiContext::from_config(&config, &truecolor()).expect("context from config");

    assert_eq!(ctx.week_start_day, Weekday::Monday);
    assert_eq!(ctx.data_dir, "/test/data");
    let settings = ctx.parse_settings();
    assert_eq!(settings.prefix, Some("```timetracking".to_string()));
    assert_eq!(settings.suffix, Some("```".to_string()));
    assert_eq!(settings.template_file, Some("/test/template.md".to_string()));
}

#[test]
fn from_config_reads_the_configured_daily_target() {
    let config = Config { daily_target_tenths: Some(65), ..Config::default() };
    let ctx = TuiContext::from_config(&config, &truecolor()).expect("context from config");
    assert_eq!(ctx.daily_target_tenths, 65);
}

#[test]
fn from_config_falls_back_to_the_default_daily_target() {
    let config = Config { daily_target_tenths: None, ..Config::default() };
    let ctx = TuiContext::from_config(&config, &truecolor()).expect("context from config");
    assert_eq!(ctx.daily_target_tenths, 80);
}

#[test]
fn an_unknown_week_start_is_refused() {
    let config = Config { week_start_day: Some("Moonday".to_string()), ..Config::default() };
    match TuiContext::from_config(&config, &truecolor()) {
        Err(ContextError::WeekStart(e)) => assert_eq!(e.input, "Moonday"),
        other => panic!("expected a week-start error, got {other:?}"),
    }
}

#[test]
fn the_formatter_and_theme_follow_the_config() {
    let config = Config {
        formatter: None,
        theme: Some("light".to_string()),
        data_directory: Some("/d".to_string()),
        ..Config::default()
    };
    let ctx = TuiContext::from_config(&config, &truecolor()).unwrap();
    assert_eq!(ctx.formatter, Formatter::Default);
    assert_eq!(ctx.theme.preset, Preset::Light);
    let ctx = TuiContext::from_config(&config, &ThemeEnv { no_color: true, colorterm: None }).unwrap();
    assert_eq!(ctx.theme.preset, Preset::Colourless);
}
