use time_tracking::day::{ClockTime, ProjectEntry, TimeTrackingData};
use time_tracking::event::AppEvent;
use time_tracking::mode::Handled;
use time_tracking::project_list::{pad_display_width, take_within_width, wrap_note, ProjectListWidget};
use unicode_width::UnicodeWidthStr;

fn fixture_day() -> TimeTrackingData {
    TimeTrackingData {
        start_time: Some(ClockTime { hour: 9, minute: 0 }),
        end_time: Some(ClockTime { hour: 5, minute: 0 }),
        total_minutes: 420,
        dead_time_minutes: 60,
        warnings: vec!["Error parsing time range 'x-y'".to_string()],
        projects: vec![
            ProjectEntry { name: "admin".into(), total_minutes: 60, notes: vec!["email".into(), "planning".into()] },
            ProjectEntry { name: "client-bd".into(), total_minutes: 300, notes: vec!["proposal".into()] },
            ProjectEntry { name: "docs".into(), total_minutes: 60, notes: vec!["release notes".into()] },
        ],
    }
}

#[test]
fn pads_by_display_width_not_char_count() {
    assert_eq!(pad_display_width("日本語", 10).width(), 10);
    assert_eq!(pad_display_width("abc", 10).width(), 10);
}

#[test]
fn ascii_name_longer_than_cols_truncates_to_exact_width() {
    let padded = pad_display_width("abcdefghijklmnopqrstuvwxyz", 10);
    assert_eq!(padded.width(), 10);
    assert!(padded.ends_with('…'), "should end with an ellipsis: {padded:?}");
}

#[test]
fn cjk_name_longer_than_cols_truncates_to_exact_width() {
    let padded = pad_display_width("日本語のプログラミング入門", 10);
    assert_eq!(padded.width(), 10);
    assert!(padded.contains('…'), "should contain an ellipsis: {padded:?}");
}

#[test]
fn emoji_name_longer_than_cols_truncates_to_exact_width() {
    let padded = pad_display_width("🎉🎉🎉🎉🎉🎉", 10);
    assert_eq!(padded.width(), 10);
    assert!(padded.contains('…'), "should contain an ellipsis: {padded:?}");
}

#[test]
fn wraps_long_notes_with_a_hanging_indent() {
    let lines = wrap_note("alpha beta gamma delta epsilon", 16, 5);
    assert!(lines.len() > 1, "a 30-char note must wrap at width 16");
    assert!(lines[0].len() <= 16);
    assert!(lines[1].starts_with("     "), "continuation lines are indented");
    for l in &lines {
        assert!(l.width() <= 16, "no line may exceed the width");
    }
}

#[test]
fn a_word_longer_than_the_width_is_hard_broken_not_dropped() {
    let lines = wrap_note("supercalifragilisticexpialidocious", 10, 2);
    let joined: String = lines.iter().map(|l| l.trim().to_string()).collect();
    assert!(joined.contains("supercali"), "content must survive wrapping");
    assert_eq!(joined, "supercalifragilisticexpialidocious");
}

#[test]
fn hanging_indent_never_exceeds_a_pathologically_narrow_width() {
    let lines = wrap_note("alpha beta gamma", 3, 5);
    for l in &lines {
        assert!(l.width() <= 3, "line {l:?} exceeds width 3");
    }
}

#[test]
fn an_empty_note_is_one_empty_line() {
    assert_eq!(wrap_note("", 20, 5), vec![String::new()]);
    assert_eq!(wrap_note("short note", 20, 5), vec!["short note".to_string()]);
}

#[test]
fn a_hard_break_takes_at_least_one_glyph() {
    assert_eq!(take_within_width("日本", 1), "日");
    assert_eq!(take_within_width("abcdef", 3), "abc");
    assert_eq!(take_within_width("", 3), "");
}

#[test]
fn the_list_opens_on_its_first_project_and_wraps() {
    let mut list = ProjectListWidget::new(&fixture_day());
    assert!(list.has_items());
    assert_eq!(list.selected_item(), Some(0));
    assert_eq!(list.apply(&AppEvent::PreviousProject), Handled::Consumed);
    assert_eq!(list.selected_item(), Some(2));
    list.apply(&AppEvent::NextProject);
    assert_eq!(list.selected_item(), Some(0));
    list.apply(&AppEvent::LastProject);
    assert_eq!(list.selected_item(), Some(2));
    list.apply(&AppEvent::FirstProject);
    assert_eq!(list.selected_item(), Some(0));
    assert_eq!(list.apply(&AppEvent::Quit), Handled::Ignored);
}

#[test]
fn copying_notes_joins_them_as_a_bulleted_list() {
    let mut list = ProjectListWidget::new(&fixture_day());
    assert_eq!(list.apply(&AppEvent::CopyNotes), Handled::Consumed);
    assert_eq!(list.notes_to_copy(), Some("- email\n- planning".to_string()));
}

#[test]
fn the_header_grows_a_row_per_warning_plus_a_separator() {
    let list = ProjectListWidget::new(&fixture_day());
    assert_eq!(list.header_height(), 6);
    let mut clean = fixture_day();
    clean.warnings.clear();
    assert_eq!(ProjectListWidget::new(&clean).header_height(), 4);
}

#[test]
fn an_empty_day_has_nothing_to_select() {
    let mut empty = fixture_day();
    empty.projects.clear();
    let list = ProjectListWidget::new(&empty);
    assert!(!list.has_items());
    assert_eq!(list.selected_item(), None);
    assert_eq!(list.notes_to_copy(), None);
}

#[test]
fn the_header_shows_dead_time() {
    let mut data = fixture_day();
    data.dead_time_minutes = 95;
    let list = ProjectListWidget::new(&data);
    assert_eq!(list.dead_time_span(), Some(("Dead Time: 1:35 (1.58 hours)".to_string(), true)));
    data.dead_time_minutes = 30;
    assert_eq!(ProjectListWidget::new(&data).dead_time_span(), Some(("Dead Time: 0:30 (0.50 hours)".to_string(), false)));
    data.dead_time_minutes = 0;
    assert_eq!(ProjectListWidget::new(&data).dead_time_span(), None);
}
