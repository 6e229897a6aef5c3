use time_tracking::clock::{parse_prompt, trim, Moment};
use time_tracking::date::Date;

fn date(y: i32, m: u8, d: u8) -> Date {
    Date::from_calendar_date(y, m, d).unwrap()
}

fn noon_utc(y: i32, m: u8, d: u8) -> Moment {
    Moment { date: date(y, m, d), hour: 12, minute: 0, second: 0, nanosecond: 0, offset_seconds: 0 }
}

#[test]
fn parses_an_iso_date() {
    let now = noon_utc(2026, 8, 28);
    assert_eq!(parse_prompt("2026-08-14", &now).unwrap(), date(2026, 8, 14));
}

#[test]
fn parses_a_natural_language_date() {
    let now = noon_utc(2026, 8, 28);
    assert_eq!(parse_prompt("yesterday", &now).unwrap(), date(2026, 8, 27));
}

#[test]
fn rejects_gibberish_with_a_message() {
    let now = noon_utc(2026, 8, 28);
    assert!(parse_prompt("not a date at all", &now).is_err());
    assert_eq!(
        parse_prompt("  not a date at all ", &now),
        Err("Could not parse date: not a date at all".to_owned())
    );
}

#[test]
fn blank_input_is_rejected_without_reaching_the_parser() {
    let now = noon_utc(2026, 8, 28);
    assert_eq!(parse_prompt("   ", &now), Err("Enter a date".to_owned()));
}

#[test]
fn trimming_cuts_white_space_at_both_ends_only() {
    assert_eq!(trim("  a b \t"), "a b");
    assert_eq!(trim(""), "");
    assert_eq!(trim(" \n "), "");
}
