use time_tracking::date::Date;
use time_tracking::day::TimeTrackingData;
use time_tracking::day_cache::{DayCache, Stamp};

fn date(y: i32, m: u8, d: u8) -> Date {
    Date::from_calendar_date(y, m, d).unwrap()
}

fn at(secs: i64) -> Stamp {
    Stamp { secs, nanos: 0 }
}

#[test]
fn a_fresh_read_is_served_until_the_timeout() {
    let mut cache = DayCache::new(30);
    let d = date(2026, 8, 24);
    cache.cache_content(d, Some(at(100)), "8-10 admin\n".to_string(), at(1000));
    assert_eq!(cache.get_cached_content(&d, at(1000), Some(at(100))).map(String::as_str), Some("8-10 admin\n"));
    assert_eq!(cache.get_cached_content(&d, at(1029), Some(at(100))).map(String::as_str), Some("8-10 admin\n"));
    assert_eq!(cache.get_cached_content(&d, at(1030), Some(at(100))), None);
    assert!(cache.get_cached_parsed(&d, at(1000), Some(at(100))).is_none());
}

#[test]
fn a_day_file_restored_to_an_older_copy_is_not_served_from_cache() {
    let mut cache = DayCache::new(60);
    let d = date(2026, 8, 24);
    cache.cache_content(d, Some(at(500)), "new".to_string(), at(1000));
    assert_eq!(cache.get_cached_content(&d, at(1001), Some(at(400))), None);
    assert_eq!(cache.get_cached_content(&d, at(1001), None), None);
}

#[test]
fn a_write_racing_an_in_flight_parse_does_not_poison_the_cache() {
    let mut cache = DayCache::new(60);
    let d = date(2026, 8, 24);
    cache.cache_content(d, Some(at(1)), "C1".to_string(), at(10));
    cache.cache_content(d, Some(at(2)), "C2".to_string(), at(11));
    cache.cache_parsed(d, "C1", TimeTrackingData::empty());
    assert!(cache.get_cached_parsed(&d, at(12), Some(at(2))).is_none());
    cache.cache_parsed(d, "C2", TimeTrackingData::empty());
    assert!(cache.get_cached_parsed(&d, at(12), Some(at(2))).is_some());
}

#[test]
fn test_cache_invalidation() {
    let mut cache = DayCache::new(60);
    let d = date(2026, 8, 24);
    let other = date(2026, 8, 25);
    cache.cache_content(d, Some(at(1)), "a".to_string(), at(10));
    cache.cache_content(other, Some(at(1)), "b".to_string(), at(10));
    cache.invalidate_date(&d);
    assert_eq!(cache.get_cached_content(&d, at(11), Some(at(1))), None);
    assert_eq!(cache.get_cached_content(&other, at(11), Some(at(1))).map(String::as_str), Some("b"));
}

#[test]
fn test_clear_cache() {
    let mut cache = DayCache::new(60);
    let d = date(2026, 8, 24);
    cache.cache_content(d, Some(at(1)), "a".to_string(), at(10));
    cache.clear_cache();
    assert_eq!(cache.get_cached_content(&d, at(11), Some(at(1))), None);
    assert_eq!(cache.timeout(), 60);
}

#[test]
fn parse_day_is_memoized_between_calls() {
    let mut cache = DayCache::new(60);
    let d = date(2026, 8, 24);
    cache.cache_content(d, Some(at(1)), "a".to_string(), at(10));
    let mut data = TimeTrackingData::empty();
    data.total_minutes = 120;
    cache.cache_parsed(d, "a", data);
    assert_eq!(cache.get_cached_parsed(&d, at(11), Some(at(1))).map(|p| p.total_minutes), Some(120));
}
