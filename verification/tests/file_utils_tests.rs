use time_tracking::date::Date;
use time_tracking::file_utils::{
    create_template_content, data_dir_in, fill_template, get_time_tracking_dir,
    get_time_tracking_dir_with_override, join_path, DirError,
};

fn date(y: i32, m: u8, d: u8) -> Date {
    Date::from_calendar_date(y, m, d).unwrap()
}

#[test]
fn test_get_time_tracking_dir_no_override() {
    let result = get_time_tracking_dir();
    assert!(result.is_ok());

    let path = result.unwrap();
    assert!(path.ends_with(".time-tracking"));
}

#[test]
fn test_get_time_tracking_dir_with_override_none() {
    let result = get_time_tracking_dir_with_override(None);
    assert!(result.is_ok());

    let path = result.unwrap();
    assert!(path.ends_with(".time-tracking"));
}

#[test]
fn test_get_time_tracking_dir_with_override_some() {
    let override_path = "/custom/path/time-tracking";
    let result = get_time_tracking_dir_with_override(Some(override_path));
    assert!(result.is_ok());
    assert_eq!(result.unwrap(), override_path);
}

#[test]
fn test_get_time_tracking_dir_with_override_relative_path() {
    let override_path = "relative/path";
    let result = get_time_tracking_dir_with_override(Some(override_path));
    assert!(result.is_ok());
    assert_eq!(result.unwrap(), override_path);
}

#[test]
fn test_get_time_tracking_dir_with_override_empty_string() {
    let result = get_time_tracking_dir_with_override(Some(""));
    assert!(result.is_ok());
    assert_eq!(result.unwrap(), "");
}

#[test]
fn the_data_directory_sits_in_the_home_directory() {
    assert_eq!(data_dir_in(Some("/home/ann".into())).unwrap(), "/home/ann/.time-tracking");
    assert_eq!(data_dir_in(Some("/home/ann/".into())).unwrap(), "/home/ann/.time-tracking");
    assert_eq!(data_dir_in(None), Err(DirError::NoHome));
    assert_eq!(DirError::NoHome.message(), "could not determine home directory");
}

#[test]
fn joining_adds_exactly_one_separator() {
    assert_eq!(join_path("a", "b.md"), "a/b.md");
    assert_eq!(join_path("a/", "b.md"), "a/b.md");
    assert_eq!(join_path("", "b.md"), "b.md");
}

#[test]
fn test_create_template_content_no_template() {
    let result = create_template_content(&date(2023, 10, 15), None);
    assert_eq!(result, "");
}

#[test]
fn test_create_template_content_multiple_date_placeholders() {
    let template = "Date: {date}\nFilename: {date}.md\nTitle: Report for {date}";
    assert_eq!(
        fill_template(template, &date(2023, 12, 25)),
        "Date: 2023-12-25\nFilename: 2023-12-25.md\nTitle: Report for 2023-12-25"
    );
}

#[test]
fn test_create_template_content_with_template_file() {
    let template =
        "# Daily Report for {date}\n\n## Tasks\n- Task 1\n- Task 2\n\n## Notes\nDate: {date}";
    assert_eq!(
        create_template_content(&date(2023, 10, 15), Some(template)),
        "# Daily Report for 2023-10-15\n\n## Tasks\n- Task 1\n- Task 2\n\n## Notes\nDate: 2023-10-15"
    );
}

#[test]
fn test_create_template_content_no_date_placeholders() {
    let template = "# Static Template\n\nThis template has no date placeholders.";
    assert_eq!(fill_template(template, &date(2023, 10, 15)), template);
}

#[test]
fn test_create_template_content_empty_template_file() {
    assert_eq!(fill_template("", &date(2023, 10, 15)), "");
}

#[test]
fn test_create_template_content_date_formatting() {
    for (d, expected) in [
        (date(2023, 1, 1), "2023-01-01"),
        (date(2023, 12, 31), "2023-12-31"),
        (date(2024, 2, 29), "2024-02-29"),
        (date(2000, 6, 15), "2000-06-15"),
    ] {
        assert_eq!(fill_template("Date: {date}", &d), format!("Date: {expected}"));
    }
}

#[test]
fn test_create_template_content_complex_template() {
    let template = "# Time Tracking Report - {date}\n\n## Summary\nDate: {date}\nWeek: Week of {date}\n\n## Notes\nReport generated for {date}\n\n---\n*Generated on {date}*";
    let content = fill_template(template, &date(2023, 10, 15));
    assert!(!content.contains("{date}"));
    assert_eq!(content.matches("2023-10-15").count(), 5);
}

#[test]
fn a_broken_placeholder_is_left_alone() {
    assert_eq!(fill_template("{dat}{date", &date(2023, 10, 15)), "{dat}{date");
    assert_eq!(fill_template("{{date}}", &date(2023, 10, 15)), "{2023-10-15}");
}
