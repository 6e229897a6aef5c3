use time_tracking::cli::{ignored_stdin_flags, plan_run, Launch, RunPlan};
use time_tracking::config::Config;
use time_tracking::date::Weekday;

fn stdin_config() -> Config {
    Config { stdin: true, ..Config::default() }
}

#[test]
fn a_plain_stdin_run_reports_nothing_ignored() {
    assert!(ignored_stdin_flags(&stdin_config()).is_empty());
}

#[test]
fn stdin_names_the_mode_flags_it_drops() {
    let config = Config { serve: Some(true), week: true, ..stdin_config() };
    let ignored = ignored_stdin_flags(&config);
    assert!(ignored.contains(&"--serve"), "{ignored:?}");
    assert!(ignored.contains(&"--week"), "{ignored:?}");
}

#[test]
fn stdin_names_a_dropped_tui_flag() {
    let config = Config { tui: Some(true), ..stdin_config() };
    assert_eq!(ignored_stdin_flags(&config), vec!["--tui"]);
}

#[test]
fn flags_that_are_off_are_not_reported() {
    let config = Config { serve: Some(false), week: false, ..stdin_config() };
    assert!(ignored_stdin_flags(&config).is_empty());
}

#[test]
fn stdin_takes_precedence_over_everything() {
    let config = Config { serve: Some(true), week: true, tui: Some(true), ..stdin_config() };
    assert_eq!(
        plan_run(&config).unwrap(),
        RunPlan::Stdin { ignored: vec!["--serve", "--week", "--tui"] }
    );
}

#[test]
fn a_day_view_without_noedit_opens_the_editor_first() {
    let config = Config { noedit: false, ..Config::default() };
    assert_eq!(
        plan_run(&config).unwrap(),
        RunPlan::Run { week_start: Weekday::Saturday, serve_port: None, launch: Launch::DayReport { noedit: false } }
    );
}

#[test]
fn tui_only_launch_starts_no_webserver() {
    let config = Config { tui: Some(true), ..Config::default() };
    match plan_run(&config).unwrap() {
        RunPlan::Run { serve_port, launch, .. } => {
            assert_eq!(serve_port, None);
            assert_eq!(launch, Launch::Tui);
        }
        other => panic!("unexpected plan {other:?}"),
    }
}

#[test]
fn serving_needs_a_port() {
    let config = Config { serve: Some(true), port: Some(8080), week: true, ..Config::default() };
    assert_eq!(
        plan_run(&config).unwrap(),
        RunPlan::Run { week_start: Weekday::Saturday, serve_port: Some(8080), launch: Launch::WeekReport }
    );
    let config = Config { serve: Some(true), port: None, ..Config::default() };
    match plan_run(&config).unwrap() {
        RunPlan::Run { serve_port, .. } => assert_eq!(serve_port, None),
        other => panic!("unexpected plan {other:?}"),
    }
}

#[test]
fn an_unknown_week_start_stops_the_run() {
    let config = Config { week_start_day: Some("Caturday".to_string()), ..Config::default() };
    let err = plan_run(&config).unwrap_err();
    assert!(err.message().contains("Invalid weekday: 'Caturday'"));
}
