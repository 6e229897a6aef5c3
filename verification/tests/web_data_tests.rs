use time_tracking::date::Date;
use time_tracking::day::{ClockTime, ProjectEntry, TimeTrackingData};
use time_tracking::web_data::{aggregate_week_days, day_data_for, week_data, DayData};

fn date(y: i32, m: u8, d: u8) -> Date {
    Date::from_calendar_date(y, m, d).expect("a valid date")
}

fn project(name: &str, minutes: u32, notes: &[&str]) -> ProjectEntry {
    ProjectEntry {
        name: name.to_string(),
        total_minutes: minutes,
        notes: notes.iter().map(|n| n.to_string()).collect(),
    }
}

fn parsed_day(projects: Vec<ProjectEntry>, dead: u32) -> TimeTrackingData {
    let total = projects.iter().map(|p| p.total_minutes).sum();
    TimeTrackingData {
        start_time: Some(ClockTime { hour: 9, minute: 0 }),
        end_time: Some(ClockTime { hour: 5, minute: 30 }),
        total_minutes: total,
        dead_time_minutes: dead,
        warnings: vec!["Line 3: bad range".to_string()],
        projects,
    }
}

fn week_of(first: Date) -> [Date; 7] {
    let mut out = [first; 7];
    for (i, slot) in out.iter_mut().enumerate() {
        *slot = first.checked_add_days(i as i64).expect("in range");
    }
    out
}

#[test]
fn a_day_without_a_file_is_reported_empty() {
    let d = DayData::empty(&date(2025, 6, 11));
    assert_eq!(d.date, "2025-06-11");
    assert_eq!(d.total_minutes, 0);
    assert_eq!(d.dead_time_minutes, 0);
    assert!(d.projects.is_empty());
    assert!(d.warnings.is_empty());
    assert_eq!(d.start_time, None);
    assert_eq!(d.end_time, None);

    let same = day_data_for(&date(2025, 6, 11), None);
    assert_eq!(same.date, "2025-06-11");
    assert!(same.projects.is_empty());
}

#[test]
fn a_parsed_day_is_reported_with_its_times_and_projects() {
    let data = parsed_day(vec![project("code1", 300, &["wrote tests"]), project("admin", 15, &[])], 30);
    let d = day_data_for(&date(2025, 10, 3), Some(&data));
    assert_eq!(d.date, "2025-10-03");
    assert_eq!(d.total_minutes, 315);
    assert_eq!(d.dead_time_minutes, 30);
    assert_eq!(d.start_time, Some("9:00".to_string()));
    assert_eq!(d.end_time, Some("5:30".to_string()));
    assert_eq!(d.warnings, vec!["Line 3: bad range".to_string()]);
    assert_eq!(d.projects.len(), 2);
    assert_eq!(d.projects[0].name, "code1");
    assert_eq!(d.projects[0].total_minutes, 300);
    assert_eq!(d.projects[0].notes, vec!["wrote tests".to_string()]);
    assert_eq!(d.projects[1].name, "admin");
}

#[test]
fn a_parsed_day_without_times_says_not_available() {
    let data = TimeTrackingData {
        start_time: None,
        end_time: None,
        total_minutes: 0,
        dead_time_minutes: 0,
        warnings: Vec::new(),
        projects: Vec::new(),
    };
    let d = day_data_for(&date(2025, 10, 3), Some(&data));
    assert_eq!(d.start_time, Some("N/A".to_string()));
    assert_eq!(d.end_time, Some("N/A".to_string()));
}

#[test]
fn the_week_sums_each_project_and_sorts_by_name() {
    let week = week_of(date(2025, 6, 7));
    let monday = parsed_day(vec![project("internal", 120, &[]), project("admin", 30, &[])], 15);
    let tuesday = parsed_day(vec![project("admin", 45, &[]), project("client-bd", 240, &[])], 0);
    let mut days: Vec<Option<DayData>> = Vec::new();
    for i in 0..7 {
        let d = match i {
            2 => Some(day_data_for(&week[i], Some(&monday))),
            3 => Some(day_data_for(&week[i], Some(&tuesday))),
            5 => None,
            _ => Some(day_data_for(&week[i], None)),
        };
        days.push(d);
    }

    let w = week_data(&week, days);
    assert_eq!(w.start_date, "2025-06-07");
    assert_eq!(w.end_date, "2025-06-13");
    assert_eq!(w.total_minutes, 150 + 285);
    assert_eq!(w.dead_time_minutes, 15);
    assert_eq!(w.days.len(), 7);
    assert_eq!(w.days[5].date, "2025-06-12", "a day that failed to load is reported empty");
    assert_eq!(w.days[5].total_minutes, 0);
    let names: Vec<&str> = w.project_summaries.iter().map(|p| p.name.as_str()).collect();
    assert_eq!(names, vec!["admin", "client-bd", "internal"]);
    let minutes: Vec<u64> = w.project_summaries.iter().map(|p| p.total_minutes).collect();
    assert_eq!(minutes, vec![75, 240, 120]);
}

#[test]
fn an_empty_week_has_no_projects() {
    let week = week_of(date(2025, 6, 7));
    let days: Vec<Option<DayData>> = week.iter().map(|d| Some(DayData::empty(d))).collect();
    let (out, summaries, total, dead) = aggregate_week_days(&week, days);
    assert_eq!(out.len(), 7);
    assert!(summaries.is_empty());
    assert_eq!(total, 0);
    assert_eq!(dead, 0);
}
