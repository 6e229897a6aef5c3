use time_tracking::app::{Action, App, DayPane, LoadRequest};
use time_tracking::config::Formatter;
use time_tracking::data_svc::{WeeklyProject, WeeklySummary};
use time_tracking::date::{Date, Weekday};
use time_tracking::day::{ClockTime, ProjectEntry, TimeTrackingData};
use time_tracking::event::{AppEvent, LoadPayload, Reload};
use time_tracking::keymap::{KeyCode, KeyEvent, KeyModifiers};
use time_tracking::mode::{Mode, Overlay};
use time_tracking::theme::{Preset, ThemeChoice};
use time_tracking::tui_context::TuiContext;

fn date(y: i32, m: u8, d: u8) -> Date {
    Date::from_calendar_date(y, m, d).expect("a valid date")
}

fn test_context() -> TuiContext {
    TuiContext {
        week_start_day: Weekday::Saturday,
        data_dir: "/tmp/ttcli-test".to_string(),
        daily_target_tenths: 80,
        formatter: Formatter::Plain,
        prefix: None,
        suffix: None,
        template_file: None,
        theme: ThemeChoice { preset: Preset::Colourless, ansi16: false },
    }
}

fn key(c: char) -> KeyEvent {
    KeyEvent::new(KeyCode::Char(c), KeyModifiers::none())
}

fn plain(code: KeyCode) -> KeyEvent {
    KeyEvent::new(code, KeyModifiers::none())
}

fn project(name: &str, minutes: u32, notes: &[&str]) -> ProjectEntry {
    ProjectEntry {
        name: name.to_string(),
        total_minutes: minutes,
        notes: notes.iter().map(|n| n.to_string()).collect(),
    }
}

fn fixture_day() -> TimeTrackingData {
    TimeTrackingData {
        total_minutes: 480,
        dead_time_minutes: 0,
        projects: vec![
            project("admin", 90, &["standup", "inbox triage"]),
            project("client-bd", 240, &["discovery call", "proposal draft"]),
            project("internal", 150, &["code review", "release notes"]),
        ],
        warnings: Vec::new(),
        start_time: Some(ClockTime { hour: 9, minute: 0 }),
        end_time: Some(ClockTime { hour: 5, minute: 0 }),
    }
}

fn fixture_date() -> Date {
    date(2025, 6, 11)
}

fn week_project(name: &str, minutes: u32, notes: &[&str]) -> WeeklyProject {
    WeeklyProject {
        name: name.to_string(),
        total_minutes: minutes,
        notes: notes.iter().map(|n| n.to_string()).collect(),
    }
}

fn fixture_week_summary() -> WeeklySummary {
    WeeklySummary {
        total_minutes: 2010,
        dead_time_minutes: 45,
        projects: vec![
            week_project(
                "client-bd",
                1080,
                &["Mon 2025-06-09: discovery call", "Wed 2025-06-11: proposal draft"],
            ),
            week_project("internal", 570, &["Tue 2025-06-10: code review"]),
            week_project("admin", 360, &["Mon 2025-06-09: inbox triage"]),
        ],
        warnings: Vec::new(),
        per_day: Vec::new(),
        days: Vec::new(),
    }
}

/// A day view with three projects, opened on a fixed date.
fn day_app() -> App {
    App::new(test_context(), date(2026, 8, 24)).with_data(fixture_day())
}

/// The week pane, opened on the fixture date with the fixture rollup.
fn week_app() -> App {
    let mut app = App::new(test_context(), fixture_date()).with_weekly_summary(fixture_week_summary());
    app.mode = Mode::Week;
    app
}

/// Feed what a key or an event handed back round the loop until nothing
/// is left queued; a load that would start is not run.
fn drain(app: &mut App, action: Action) -> Action {
    let mut action = action;
    while let Action::Queue(event) = action {
        action = app.handle_app_event(event);
    }
    action
}

fn press(app: &mut App, k: KeyEvent) -> Action {
    let action = app.handle_key_events(k);
    drain(app, action)
}

fn selection(app: &App) -> Option<usize> {
    app.project_list_widget.as_ref().and_then(|w| w.selected_item())
}

#[test]
fn overlay_swallows_keys_the_mode_would_otherwise_handle() {
    let mut app = day_app();
    app.overlay = Some(Overlay::Help);

    press(&mut app, key('l'));
    press(&mut app, key('j'));

    assert_eq!(app.active_date, date(2026, 8, 24));
    assert_eq!(selection(&app), Some(0), "j must not move the list hidden behind the popup");
}

#[test]
fn the_same_keys_work_with_no_overlay_open() {
    let mut app = day_app();

    press(&mut app, key('l'));
    press(&mut app, key('j'));

    assert_eq!(app.active_date, date(2026, 8, 25));
    assert_eq!(selection(&app), Some(1));
}

#[test]
fn esc_closes_the_overlay_instead_of_quitting() {
    let mut app = App::new(test_context(), fixture_date());
    app.overlay = Some(Overlay::Help);

    press(&mut app, plain(KeyCode::Esc));

    assert!(app.overlay.is_none(), "Esc should close the overlay");
    assert!(app.running, "Esc must not quit while an overlay is open");
}

#[test]
fn q_closes_the_overlay_instead_of_quitting() {
    let mut app = App::new(test_context(), fixture_date());
    app.overlay = Some(Overlay::Help);

    press(&mut app, key('q'));

    assert!(app.overlay.is_none());
    assert!(app.running);
}

#[test]
fn esc_quits_when_no_overlay_is_open() {
    let mut app = App::new(test_context(), fixture_date());
    press(&mut app, plain(KeyCode::Esc));
    assert!(!app.running);
}

#[test]
fn ctrl_c_quits_even_with_an_overlay_open() {
    let mut app = App::new(test_context(), fixture_date());
    app.overlay = Some(Overlay::Help);

    press(&mut app, KeyEvent::new(KeyCode::Char('c'), KeyModifiers::control()));

    assert!(!app.running);
}

#[test]
fn question_mark_toggles_the_help_overlay() {
    let mut app = App::new(test_context(), fixture_date());

    press(&mut app, key('?'));
    assert_eq!(app.overlay, Some(Overlay::Help));

    press(&mut app, key('?'));
    assert_eq!(app.overlay, None);
}

#[test]
fn f_toggles_the_zoomed_week_mode() {
    let mut app = day_app();
    assert_eq!(app.mode, Mode::Day);

    press(&mut app, key('f'));
    assert_eq!(app.mode, Mode::ZoomedWeek);

    press(&mut app, key('f'));
    assert_eq!(app.mode, Mode::Day);
}

#[test]
fn the_project_list_only_sees_keys_in_day_mode() {
    let mut app = day_app();
    app.mode = Mode::ZoomedWeek;

    press(&mut app, key('j'));

    assert_eq!(selection(&app), Some(0));
}

#[test]
fn w_toggles_between_day_and_week_mode() {
    let mut app = App::new(test_context(), fixture_date()).with_data(fixture_day());
    assert_eq!(app.mode, Mode::Day);

    press(&mut app, key('w'));
    assert_eq!(app.mode, Mode::Week);

    press(&mut app, key('w'));
    assert_eq!(app.mode, Mode::Day);
}

#[test]
fn a_key_typed_straight_after_w_resolves_in_the_new_mode() {
    let mut app = App::new(test_context(), fixture_date())
        .with_data(fixture_day())
        .with_weekly_summary(fixture_week_summary());

    let after_w = app.handle_key_events(key('w'));
    let after_j = app.handle_key_events(key('j'));
    drain(&mut app, after_w);
    drain(&mut app, after_j);

    assert_eq!(app.mode, Mode::Week);
    assert_eq!(app.week_list.selected(), Some(1), "j must move the rollup's selection");
    assert_eq!(selection(&app), Some(0), "and must not move the day's hidden list");
}

#[test]
fn j_k_g_and_capital_g_move_the_weekly_selection() {
    let mut app = week_app();
    // The selection materialises when the pane is first drawn, on the
    // biggest project.
    app.week_list.clamp(3);
    assert_eq!(app.week_list.selected(), Some(0));

    app.handle_key_events(key('j'));
    assert_eq!(app.week_list.selected(), Some(1));

    app.handle_key_events(key('G'));
    assert_eq!(app.week_list.selected(), Some(2));

    app.handle_key_events(key('k'));
    assert_eq!(app.week_list.selected(), Some(1));

    app.handle_key_events(key('g'));
    assert_eq!(app.week_list.selected(), Some(0));
}

#[test]
fn the_day_lists_selection_is_untouched_by_the_rollups_keys() {
    let mut app = App::new(test_context(), fixture_date())
        .with_data(fixture_day())
        .with_weekly_summary(fixture_week_summary());
    app.mode = Mode::Week;

    press(&mut app, key('G'));

    assert_eq!(app.week_list.selected(), Some(2));
    assert_eq!(selection(&app), Some(0));
}

#[test]
fn enter_in_week_mode_yanks_that_projects_week_notes() {
    let mut app = week_app();
    match app.handle_key_events(plain(KeyCode::Enter)) {
        Action::Copy(payload, Some(_)) => {
            assert!(payload.contains("client-bd"), "the selected (first) project is yanked:\n{payload}");
            assert!(payload.contains("discovery call"), "with its week's notes:\n{payload}");
            assert!(payload.contains("18.00"), "and its hours:\n{payload}");
        },
        other => panic!("Enter must emit a copy intent, got {other:?}"),
    }
}

#[test]
fn enter_yanks_whichever_project_is_selected() {
    let mut app = week_app();
    app.handle_key_events(key('j'));
    match app.handle_key_events(plain(KeyCode::Enter)) {
        Action::Copy(payload, Some(message)) => {
            assert!(payload.contains("internal"), "got:\n{payload}");
            assert!(!payload.contains("client-bd"), "got:\n{payload}");
            assert!(message.contains("9.50"), "got: {message}");
        },
        other => panic!("Enter must emit a copy intent, got {other:?}"),
    }
}

#[test]
fn enter_on_a_stale_week_copies_nothing() {
    let mut app = week_app();
    press(&mut app, KeyEvent::new(KeyCode::Char('L'), KeyModifiers::shift()));
    assert!(app.week_is_stale());

    let action = app.handle_key_events(plain(KeyCode::Enter));
    assert_eq!(action, Action::Nothing, "a stale week must not be copied");
}

#[test]
fn enter_in_the_day_view_copies_the_selected_projects_notes() {
    let mut app = day_app();
    app.handle_key_events(key('j'));
    match app.handle_key_events(plain(KeyCode::Enter)) {
        Action::Copy(payload, None) => assert_eq!(payload, "- discovery call\n- proposal draft"),
        other => panic!("Enter must copy the notes, got {other:?}"),
    }
}

#[test]
fn moving_a_date_asks_for_a_navigation_reload() {
    let mut app = day_app();
    let generation = app.generation;
    let action = app.handle_key_events(key('l'));
    assert_eq!(action, Action::Queue(AppEvent::NextDate));
    let action = app.handle_app_event(AppEvent::NextDate);
    assert_eq!(action, Action::Queue(AppEvent::ReloadFromDisk(Reload::Navigation)));
    assert_eq!(app.active_date, date(2026, 8, 25));
    let action = app.handle_app_event(AppEvent::ReloadFromDisk(Reload::Navigation));
    assert_eq!(app.generation, generation + 1);
    assert!(app.loading);
    match action {
        Action::Load(LoadRequest { generation: g, date: d, week, reload }) => {
            assert_eq!(g, generation + 1);
            assert_eq!(d, date(2026, 8, 25));
            assert_eq!(week[0], date(2026, 8, 22), "weeks start on Saturday here");
            assert_eq!(week[6], date(2026, 8, 28));
            assert_eq!(reload, Reload::Navigation);
        },
        other => panic!("expected a load, got {other:?}"),
    }
}

#[test]
fn next_then_previous_day_returns_to_the_same_date() {
    let mut app = day_app();
    let start = app.active_date;
    let weeks = app.week_dates;
    app.handle_app_event(AppEvent::NextDate);
    app.handle_app_event(AppEvent::PreviousDate);
    assert_eq!(app.active_date, start);
    assert_eq!(app.week_dates, weeks);
}

#[test]
fn a_week_forward_and_back_returns_to_the_same_date() {
    let mut app = day_app();
    app.handle_app_event(AppEvent::NextWeek);
    assert_eq!(app.active_date, date(2026, 8, 31));
    app.handle_app_event(AppEvent::PreviousWeek);
    assert_eq!(app.active_date, date(2026, 8, 24));
}

#[test]
fn a_month_forward_clamps_to_the_shorter_months_last_day() {
    let mut app = App::new(test_context(), date(2025, 1, 31));
    app.handle_app_event(AppEvent::NextMonth);
    assert_eq!(app.active_date, date(2025, 2, 28));
    app.handle_app_event(AppEvent::PreviousMonth);
    assert_eq!(app.active_date, date(2025, 1, 28));
}

#[test]
fn a_month_across_the_year_boundary_moves_the_year_too() {
    let mut app = App::new(test_context(), date(2024, 12, 15));
    app.handle_app_event(AppEvent::NextMonth);
    assert_eq!(app.active_date, date(2025, 1, 15));
    app.handle_app_event(AppEvent::PreviousMonth);
    assert_eq!(app.active_date, date(2024, 12, 15));
}

fn payload_for(d: Date) -> Box<LoadPayload> {
    Box::new(LoadPayload {
        date: d,
        day: Some(fixture_day()),
        raw: Some("9-5 admin\n".to_string()),
        populated: vec![d],
        weekly: vec![(d, 480)],
        weekly_summary: fixture_week_summary(),
    })
}

#[test]
fn the_latest_load_is_applied_whole() {
    let mut app = App::new(test_context(), fixture_date());
    app.handle_app_event(AppEvent::ReloadFromDisk(Reload::Rescan));
    let g = app.generation;
    app.handle_app_event(AppEvent::DataLoaded(g, payload_for(fixture_date())));

    assert!(!app.loading);
    assert_eq!(selection(&app), Some(0));
    assert_eq!(app.raw_content, Some("9-5 admin\n".to_string()));
    assert_eq!(app.populated_dates, vec![fixture_date()]);
    assert_eq!(app.weekly_data, vec![(fixture_date(), 480)]);
    assert!(app.weekly_summary.is_some());
    assert_eq!(app.summary_week_start, Some(date(2025, 6, 7)));
    assert!(!app.week_is_stale());
}

#[test]
fn a_superseded_load_is_dropped() {
    let mut app = App::new(test_context(), fixture_date());
    app.handle_app_event(AppEvent::ReloadFromDisk(Reload::Rescan));
    let first = app.generation;
    app.handle_app_event(AppEvent::ReloadFromDisk(Reload::Navigation));

    app.handle_app_event(AppEvent::DataLoaded(first, payload_for(fixture_date())));

    assert!(app.loading, "the newer load is still in flight");
    assert!(app.data.is_none());
    assert!(app.weekly_summary.is_none());

    app.handle_app_event(AppEvent::LoadFailed(first, "late".to_string()));
    assert_eq!(app.status, None, "a failure of a superseded load is dropped too");
}

#[test]
fn a_failed_load_reports_its_message() {
    let mut app = App::new(test_context(), fixture_date());
    app.handle_app_event(AppEvent::ReloadFromDisk(Reload::Rescan));
    let g = app.generation;
    app.handle_app_event(AppEvent::LoadFailed(g, "disk on fire".to_string()));
    assert!(!app.loading);
    assert_eq!(app.status, Some("disk on fire".to_string()));
}

#[test]
fn a_day_without_projects_leaves_no_list() {
    let empty = TimeTrackingData {
        total_minutes: 0,
        dead_time_minutes: 0,
        projects: Vec::new(),
        warnings: Vec::new(),
        start_time: None,
        end_time: None,
    };
    let app = App::new(test_context(), fixture_date()).with_data(empty);
    assert!(app.data.is_none());
    assert!(app.project_list_widget.is_none());
}

#[test]
fn edit_asks_for_the_active_dates_file() {
    let mut app = day_app();
    assert_eq!(app.handle_key_events(key('e')), Action::Queue(AppEvent::Edit));
    assert_eq!(app.handle_app_event(AppEvent::Edit), Action::Edit(date(2026, 8, 24)));
}

#[test]
fn the_raw_pane_scrolls_within_its_text() {
    let mut app = App::new(test_context(), fixture_date());
    app.raw_content = Some("a\nb\nc\nd\ne".to_string());
    app.raw_visible_lines = 3;
    app.mode = Mode::RawFile;

    press(&mut app, key('j'));
    press(&mut app, key('j'));
    press(&mut app, key('j'));
    assert_eq!(app.raw_scroll, 2, "five lines in a three-line pane scroll at most two");

    press(&mut app, key('k'));
    press(&mut app, key('k'));
    press(&mut app, key('k'));
    assert_eq!(app.raw_scroll, 0);
}

#[test]
fn a_raw_file_read_for_another_date_is_dropped() {
    let mut app = App::new(test_context(), fixture_date());
    let g = app.generation;
    app.handle_app_event(AppEvent::RawFileLoaded(g, date(2025, 6, 12), Some("x".to_string())));
    assert_eq!(app.raw_content, None);
    app.handle_app_event(AppEvent::RawFileLoaded(g, fixture_date(), Some("x".to_string())));
    assert_eq!(app.raw_content, Some("x".to_string()));
}

#[test]
fn the_date_prompt_opens_empty() {
    let mut app = App::new(test_context(), fixture_date());
    app.handle_app_event(AppEvent::OpenDatePrompt);
    assert_eq!(app.overlay, Some(Overlay::DatePrompt(String::new())));
}

#[test]
fn the_day_pane_never_shows_another_dates_list() {
    let mut app = App::new(test_context(), fixture_date());
    assert_eq!(app.day_pane(), DayPane::Loading, "nothing loaded yet");

    app.handle_app_event(AppEvent::ReloadFromDisk(Reload::Rescan));
    let g = app.generation;
    app.handle_app_event(AppEvent::DataLoaded(g, payload_for(fixture_date())));
    assert_eq!(app.day_pane(), DayPane::Projects);

    app.handle_app_event(AppEvent::NextDate);
    assert_eq!(app.day_pane(), DayPane::Loading, "the list belongs to the previous date");
}

#[test]
fn a_loaded_day_without_projects_shows_the_empty_pane() {
    let mut app = App::new(test_context(), fixture_date());
    app.handle_app_event(AppEvent::ReloadFromDisk(Reload::Rescan));
    let g = app.generation;
    let mut payload = payload_for(fixture_date());
    payload.day = None;
    app.handle_app_event(AppEvent::DataLoaded(g, payload));
    assert_eq!(app.day_pane(), DayPane::Empty);
}

#[test]
fn the_chart_draws_no_bars_for_a_stale_week() {
    let mut app = App::new(test_context(), fixture_date());
    assert!(app.chart_data().is_none(), "nothing loaded");

    app.handle_app_event(AppEvent::ReloadFromDisk(Reload::Rescan));
    let g = app.generation;
    app.handle_app_event(AppEvent::DataLoaded(g, payload_for(fixture_date())));
    assert_eq!(app.chart_data(), Some(&vec![(fixture_date(), 480)]));

    app.handle_app_event(AppEvent::NextWeek);
    assert!(app.week_is_stale());
    assert!(app.chart_data().is_none(), "last week's minutes must not be drawn");
}

#[test]
fn d_opens_an_empty_date_prompt() {
    let mut app = day_app();
    press(&mut app, key('d'));
    assert_eq!(app.overlay, Some(Overlay::DatePrompt(String::new())));
}
