use time_tracking::config::Formatter;
use time_tracking::day::{ClockTime, ProjectEntry, TimeTrackingData};
use time_tracking::formatters::{
    DefaultDisplayFormatter, DisplayFormatter, MarkdownDisplayFormatter, PlainDisplayFormatter,
};

#[test]
fn test_default_display_formatter_creation() {
    let formatter = DefaultDisplayFormatter;
    let _formatter_ref: &dyn DisplayFormatter = &formatter;
}

#[test]
fn test_plain_display_formatter_creation() {
    let formatter = PlainDisplayFormatter;
    let _formatter_ref: &dyn DisplayFormatter = &formatter;
}

#[test]
fn test_markdown_display_formatter_creation() {
    let formatter = MarkdownDisplayFormatter;
    let _formatter_ref: &dyn DisplayFormatter = &formatter;
}

fn readme_day() -> TimeTrackingData {
    TimeTrackingData {
        start_time: Some(ClockTime { hour: 11, minute: 45 }),
        end_time: Some(ClockTime { hour: 4, minute: 0 }),
        total_minutes: 255,
        dead_time_minutes: 0,
        warnings: vec![],
        projects: vec![
            ProjectEntry {
                name: "project_code1".to_string(),
                total_minutes: 60,
                notes: vec![
                    "Comment about what you worked on".to_string(),
                    "More work on the first project".to_string(),
                ],
            },
            ProjectEntry {
                name: "project_code2".to_string(),
                total_minutes: 75,
                notes: vec!["Another comment about your work".to_string()],
            },
            ProjectEntry {
                name: "project_code3".to_string(),
                total_minutes: 120,
                notes: vec!["Different project work".to_string()],
            },
        ],
    }
}

#[test]
fn default_summary_matches_the_readme_example() {
    let text = DefaultDisplayFormatter.day_summary(&readme_day(), "");
    for line in [
        "📅 TIME OVERVIEW",
        "Start Time: 11:45",
        "End Time:   4:00",
        "⏱️  WORKING TIME",
        "Total: 4:15 (4.25 hours)",
        "⏸️  DEAD TIME",
        "✅ No dead time (gaps) found",
        "📋 PROJECTS",
        "  📌 project_code1 - 1:00 (1.00 hrs)",
        "     • Comment about what you worked on",
        "     • More work on the first project",
        "  📌 project_code2 - 1:15 (1.25 hrs)",
        "  📌 project_code3 - 2:00 (2.00 hrs)",
    ] {
        assert!(text.contains(line), "missing {line:?} in:\n{text}");
    }
}

#[test]
fn plain_summary_carries_no_emoji() {
    let text = PlainDisplayFormatter.day_summary(&readme_day(), "");
    assert!(text.contains("TIME OVERVIEW"));
    assert!(text.contains("  * project_code1 - 1:00 (1.00 hrs)"), "got:\n{text}");
    assert!(!text.contains('📌'));
}

#[test]
fn each_formatter_is_built_from_its_name() {
    assert_eq!(Formatter::Default.name(), "default");
    assert_eq!(Formatter::Markdown.name(), "markdown");
    assert_eq!(Formatter::Plain.name(), "plain");
    let data = readme_day();
    assert_eq!(
        Formatter::Plain.build().day_summary(&data, ""),
        PlainDisplayFormatter.day_summary(&data, "")
    );
    assert_eq!(
        Formatter::Markdown.build().day_summary(&data, "  "),
        MarkdownDisplayFormatter.day_summary(&data, "  ")
    );
    assert_eq!(
        Formatter::Default.build().no_file_found(""),
        DefaultDisplayFormatter.no_file_found("")
    );
}

#[test]
fn weekly_totals_show_hours_and_minutes() {
    let text = DefaultDisplayFormatter.weekly_totals(480, 30);
    assert!(text.contains("8:00"), "got:\n{text}");
    assert!(text.contains("0:30"), "got:\n{text}");
}

#[test]
fn markdown_puts_each_project_on_its_own_line() {
    let data = TimeTrackingData {
        start_time: Some(ClockTime { hour: 9, minute: 0 }),
        end_time: Some(ClockTime { hour: 3, minute: 0 }),
        total_minutes: 360,
        dead_time_minutes: 0,
        warnings: Vec::new(),
        projects: vec![
            ProjectEntry { name: "code1".to_string(), total_minutes: 300, notes: vec!["wrote tests".to_string()] },
            ProjectEntry { name: "ops".to_string(), total_minutes: 60, notes: Vec::new() },
        ],
    };
    let text = MarkdownDisplayFormatter.day_summary(&data, "");
    assert_eq!(
        text,
        "**Total Time:** 6.00 hours\n**Projects:**\n  - **code1** - 5.00 hours\n    - wrote tests\n  - **ops** - 1.00 hours\n"
    );
}
