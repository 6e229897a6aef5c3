use time_tracking::data_svc::WeeklyProject;
use time_tracking::event::AppEvent;
use time_tracking::mode::Handled;
use time_tracking::week_list::{copy_intent, project_row, WeekListState};
use unicode_width::UnicodeWidthStr;

fn week_project(name: &str, total_minutes: u32, notes: &[&str]) -> WeeklyProject {
    WeeklyProject {
        name: name.to_string(),
        total_minutes,
        notes: notes.iter().map(|n| n.to_string()).collect(),
    }
}

fn fixture_projects() -> Vec<WeeklyProject> {
    vec![
        week_project("client-bd", 1080, &["Monday 2026-08-24: sprint planning"]),
        week_project("admin", 240, &[]),
        week_project("review", 60, &[]),
    ]
}

#[test]
fn a_selection_past_the_end_of_a_shorter_week_falls_back_to_the_first_row() {
    let mut state = WeekListState::default();
    let projects = fixture_projects();

    state.apply(&AppEvent::LastWeekProject, &projects);
    assert_eq!(state.selected(), Some(2));

    state.apply(&AppEvent::NextWeekProject, &projects[..1]);
    assert_eq!(state.selected(), Some(0));
}

#[test]
fn an_empty_week_selects_nothing_and_copies_nothing() {
    let mut state = WeekListState::default();
    assert_eq!(state.apply(&AppEvent::NextWeekProject, &[]), Handled::Consumed);
    assert_eq!(state.selected(), None);
    assert_eq!(state.apply(&AppEvent::CopyWeekProject, &[]), Handled::Consumed);
}

#[test]
fn an_event_the_pane_does_not_own_falls_through() {
    let mut state = WeekListState::default();
    assert_eq!(state.apply(&AppEvent::Quit, &fixture_projects()), Handled::Ignored);
}

#[test]
fn the_selection_wraps_at_both_ends() {
    let mut state = WeekListState::default();
    let projects = fixture_projects();

    state.apply(&AppEvent::PreviousWeekProject, &projects);
    assert_eq!(state.selected(), Some(2), "up from the top wraps to the end");

    state.apply(&AppEvent::NextWeekProject, &projects);
    assert_eq!(state.selected(), Some(0), "and down from the end wraps back");
}

#[test]
fn a_row_right_aligns_its_hours_against_the_pane_width() {
    let project = week_project("client-bd", 1080, &[]);
    let row = project_row(&project, 40);
    assert_eq!(row.width(), 40, "got: {row:?}");
    assert!(row.starts_with(" client-bd"), "got: {row:?}");
    assert!(row.ends_with("18:00 (18.00 hrs)"), "got: {row:?}");
}

#[test]
fn a_row_narrower_than_its_content_still_renders() {
    let project = week_project("a-very-long-project-code", 1080, &[]);
    let row = project_row(&project, 4);
    assert!(row.contains("a-very-long-project-code"), "got: {row:?}");
    assert!(row.contains("18:00"), "got: {row:?}");
}

#[test]
fn enter_yanks_the_selected_projects_week_with_its_hours() {
    let mut state = WeekListState::default();
    let projects = fixture_projects();
    let handled = state.apply(&AppEvent::CopyWeekProject, &projects);
    assert_eq!(
        handled,
        Handled::Emit(AppEvent::CopyToClipboard(
            "client-bd - 18:00 (18.00 hrs)\n- Monday 2026-08-24: sprint planning".to_string(),
            "Copied 18.00 hours for client-bd".to_string(),
        ))
    );
}

#[test]
fn copying_nothing_selected_is_still_consumed() {
    assert_eq!(copy_intent(None), Handled::Consumed);
}

#[test]
fn first_and_last_jump_to_the_ends() {
    let mut state = WeekListState::default();
    let projects = fixture_projects();
    state.apply(&AppEvent::LastWeekProject, &projects);
    assert_eq!(state.selected(), Some(2));
    state.apply(&AppEvent::FirstWeekProject, &projects);
    assert_eq!(state.selected(), Some(0));
}

#[test]
fn a_week_with_no_dead_time_says_none_rather_than_dropping_the_line() {
    let (working, dead, flagged) = time_tracking::week_list::week_header_lines(1080, 0);
    assert_eq!(working, "Working Time: 18.00 hours");
    assert_eq!(dead, "Dead Time: None");
    assert!(!flagged);
    let (_, dead, flagged) = time_tracking::week_list::week_header_lines(1080, 45);
    assert_eq!(dead, "Dead Time: 0:45 (0.75 hours)");
    assert!(flagged);
}
