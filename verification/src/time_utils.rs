//! Weekday names and the seven dates of a week.

use vstd::prelude::*;

use crate::date::{lemma_date_eq, Date, Weekday, MAX_JULIAN_DAY, MIN_JULIAN_DAY};
use crate::text::push_char;

verus! {

/// The code of `c` with ASCII upper case folded to lower case; every other
/// character keeps its code.
pub open spec fn ascii_lower_code(c: char) -> u32 {
    if 65 <= (c as u32) <= 90 {
        (c as u32 + 32) as u32
    } else {
        c as u32
    }
}

/// `a` and `b` are equal once ASCII letters are compared without case, as
/// `str::eq_ignore_ascii_case` compares them.
pub open spec fn eq_ignore_ascii_case_spec(a: Seq<char>, b: Seq<char>) -> bool {
    &&& a.len() == b.len()
    &&& forall|i: int| 0 <= i < a.len() ==> ascii_lower_code(#[trigger] a[i]) == ascii_lower_code(b[i])
}

/// Compares two strings, ignoring the case of ASCII letters.
pub fn eq_ignore_ascii_case(a: &str, b: &str) -> (r: bool)
    ensures
        r == eq_ignore_ascii_case_spec(a@, b@),
{
    let n = a.unicode_len();
    if n != b.unicode_len() {
        return false;
    }
    let mut i: usize = 0;
    while i < n
        invariant
            n == a@.len(),
            n == b@.len(),
            i <= n,
            forall|k: int| 0 <= k < i ==> ascii_lower_code(#[trigger] a@[k]) == ascii_lower_code(b@[k]),
        decreases n - i,
    {
        let x = a.get_char(i) as u32;
        let y = b.get_char(i) as u32;
        let lx = if 65 <= x && x <= 90 { x + 32 } else { x };
        let ly = if 65 <= y && y <= 90 { y + 32 } else { y };
        if lx != ly {
            return false;
        }
        i = i + 1;
    }
    true
}

/// The weekday a name selects: the English name or its three-letter
/// abbreviation, in any ASCII case.
pub open spec fn weekday_named(s: Seq<char>) -> Option<Weekday> {
    if eq_ignore_ascii_case_spec(s, "monday"@) || eq_ignore_ascii_case_spec(s, "mon"@) {
        Some(Weekday::Monday)
    } else if eq_ignore_ascii_case_spec(s, "tuesday"@) || eq_ignore_ascii_case_spec(s, "tue"@) {
        Some(Weekday::Tuesday)
    } else if eq_ignore_ascii_case_spec(s, "wednesday"@) || eq_ignore_ascii_case_spec(s, "wed"@) {
        Some(Weekday::Wednesday)
    } else if eq_ignore_ascii_case_spec(s, "thursday"@) || eq_ignore_ascii_case_spec(s, "thu"@) {
        Some(Weekday::Thursday)
    } else if eq_ignore_ascii_case_spec(s, "friday"@) || eq_ignore_ascii_case_spec(s, "fri"@) {
        Some(Weekday::Friday)
    } else if eq_ignore_ascii_case_spec(s, "saturday"@) || eq_ignore_ascii_case_spec(s, "sat"@) {
        Some(Weekday::Saturday)
    } else if eq_ignore_ascii_case_spec(s, "sunday"@) || eq_ignore_ascii_case_spec(s, "sun"@) {
        Some(Weekday::Sunday)
    } else {
        None
    }
}

/// A weekday name that names no weekday.
#[derive(Clone, Debug, PartialEq, Eq)]
pub struct InvalidWeekday {
    /// The text that was given.
    pub input: String,
}

/// The message an unknown weekday name is reported with.
pub open spec fn invalid_weekday_message(input: Seq<char>) -> Seq<char> {
    "Invalid weekday: '"@ + input
        + "'. Valid options are: Monday, Tuesday, Wednesday, Thursday, Friday, Saturday, Sunday"@
}

impl InvalidWeekday {
    /// The message to show the user.
    pub fn message(&self) -> (s: String)
        ensures
            s@ == invalid_weekday_message(self.input@),
    {
        let mut s = String::from_str("Invalid weekday: '");
        s.append(self.input.as_str());
        s.append(
            "'. Valid options are: Monday, Tuesday, Wednesday, Thursday, Friday, Saturday, Sunday",
        );
        s
    }
}

/// Reads a weekday from its English name or three-letter abbreviation,
/// ignoring ASCII case; anything else is an [`InvalidWeekday`].
pub fn parse_weekday(day_str: &str) -> (r: Result<Weekday, InvalidWeekday>)
    ensures
        match weekday_named(day_str@) {
            Some(w) => r == Ok::<Weekday, InvalidWeekday>(w),
            None => r matches Err(e) && e.input@ == day_str@,
        },
{
    if eq_ignore_ascii_case(day_str, "monday") || eq_ignore_ascii_case(day_str, "mon") {
        return Ok(Weekday::Monday);
    }
    if eq_ignore_ascii_case(day_str, "tuesday") || eq_ignore_ascii_case(day_str, "tue") {
        return Ok(Weekday::Tuesday);
    }
    if eq_ignore_ascii_case(day_str, "wednesday") || eq_ignore_ascii_case(day_str, "wed") {
        return Ok(Weekday::Wednesday);
    }
    if eq_ignore_ascii_case(day_str, "thursday") || eq_ignore_ascii_case(day_str, "thu") {
        return Ok(Weekday::Thursday);
    }
    if eq_ignore_ascii_case(day_str, "friday") || eq_ignore_ascii_case(day_str, "fri") {
        return Ok(Weekday::Friday);
    }
    if eq_ignore_ascii_case(day_str, "saturday") || eq_ignore_ascii_case(day_str, "sat") {
        return Ok(Weekday::Saturday);
    }
    if eq_ignore_ascii_case(day_str, "sunday") || eq_ignore_ascii_case(day_str, "sun") {
        return Ok(Weekday::Sunday);
    }
    Err(InvalidWeekday { input: day_str.to_owned() })
}

/// How many days `date` lies after the most recent `week_start_day`
/// (zero when `date` falls on it).
pub open spec fn days_since_week_start(date: Date, week_start_day: Weekday) -> int {
    (date.weekday_spec().index() - week_start_day.index() + 7) % 7
}

/// The Julian day the week holding `date` starts on.
pub open spec fn week_start_julian(date: Date, week_start_day: Weekday) -> int {
    date.julian_day_spec() - days_since_week_start(date, week_start_day)
}

/// The seven days of that week lie in the range of dates there are.
pub open spec fn week_in_range(date: Date, week_start_day: Weekday) -> bool {
    &&& MIN_JULIAN_DAY <= week_start_julian(date, week_start_day)
    &&& week_start_julian(date, week_start_day) + 6 <= MAX_JULIAN_DAY
}

/// Whether the seven days of the week holding `date` lie in the range of
/// dates there are.
pub fn week_fits(date: &Date, week_start_day: Weekday) -> (r: bool)
    ensures
        r == week_in_range(*date, week_start_day),
{
    let j = date.julian_day() as i64;
    let since: i64 = (date.weekday().number_from_monday() as i64 - week_start_day.number_from_monday() as i64 + 7) % 7;
    let start = j - since;
    MIN_JULIAN_DAY as i64 <= start && start + 6 <= MAX_JULIAN_DAY as i64
}

proof fn lemma_week_start_weekday(j: int, s: int)
    requires
        0 <= s < 7,
    ensures
        ({
            let k = ((j % 7) - s + 7) % 7;
            &&& 0 <= k < 7
            &&& (j - k) % 7 == s
        }),
{
}

/// The seven dates of the week holding `date`, the first one falling on
/// `week_start_day`.
pub fn get_week_dates(date: &Date, week_start_day: Weekday) -> (r: [Date; 7])
    requires
        week_in_range(*date, week_start_day),
    ensures
        forall|i: int|
            0 <= i < 7 ==> (#[trigger] r[i]).julian_day_spec() == week_start_julian(*date, week_start_day)
                + i,
        r[0].weekday_spec() == week_start_day,
        r[days_since_week_start(*date, week_start_day)] == *date,
        0 <= days_since_week_start(*date, week_start_day) < 7,
{
    let current = date.weekday();
    let since: i64 = ((current.number_from_monday() as i64 - week_start_day.number_from_monday() as i64
        + 7) % 7) as i64;
    let j = date.julian_day() as i64;
    let start = j - since;
    proof {
        lemma_week_start_weekday(date.julian_day_spec(), week_start_day.index());
    }
    let d0 = Date::from_julian_day(start as i32).unwrap();
    let d1 = Date::from_julian_day((start + 1) as i32).unwrap();
    let d2 = Date::from_julian_day((start + 2) as i32).unwrap();
    let d3 = Date::from_julian_day((start + 3) as i32).unwrap();
    let d4 = Date::from_julian_day((start + 4) as i32).unwrap();
    let d5 = Date::from_julian_day((start + 5) as i32).unwrap();
    let d6 = Date::from_julian_day((start + 6) as i32).unwrap();
    let r = [d0, d1, d2, d3, d4, d5, d6];
    proof {
        let k = days_since_week_start(*date, week_start_day);
        assert(r[k].julian_day_spec() == date.julian_day_spec());
        assert(r[k] == *date) by {
            lemma_date_eq(r[k], *date);
        }
    }
    r
}

/// The weekday's English name followed by the date, e.g.
/// `"Monday 2023-10-09"`.
pub open spec fn day_with_date_text(date: Date) -> Seq<char> {
    date.weekday_spec().name_text() + seq![' '] + date.iso_spec()
}

/// `date` as its weekday and `YYYY-MM-DD`, e.g. `"Monday 2023-10-09"`.
pub fn format_day_with_date(date: &Date) -> (s: String)
    ensures
        s@ == day_with_date_text(*date),
{
    let mut s = String::from_str(date.weekday().name());
    push_char(&mut s, ' ');
    let iso = date.iso_string();
    s.append(iso.as_str());
    s
}

/// Short names for weekdays.
pub trait WeekdayExt {
    /// The three-letter abbreviation, e.g. `"Mon"`.
    fn short_name(&self) -> &'static str;
}

impl WeekdayExt for Weekday {
    fn short_name(&self) -> (s: &'static str)
        ensures
            s@ == self.short_text(),
    {
        match self {
            Weekday::Monday => "Mon",
            Weekday::Tuesday => "Tue",
            Weekday::Wednesday => "Wed",
            Weekday::Thursday => "Thu",
            Weekday::Friday => "Fri",
            Weekday::Saturday => "Sat",
            Weekday::Sunday => "Sun",
        }
    }
}

/// The day pane's title: the short weekday and `YYYY-MM-DD`, e.g.
/// `"Thu 2026-08-27"`.
pub open spec fn pane_title_text(date: Date) -> Seq<char> {
    date.weekday_spec().short_text() + seq![' '] + date.iso_spec()
}

/// The day pane's title for `date`, which says which day is on screen
/// whether or not it has data.
pub fn format_pane_title(date: &Date) -> (s: String)
    ensures
        s@ == pane_title_text(*date),
{
    let mut s = String::from_str(date.weekday().short_name());
    push_char(&mut s, ' ');
    let iso = date.iso_string();
    s.append(iso.as_str());
    s
}

} // verus!
