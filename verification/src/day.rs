//! One parsed day file, and how its times and durations are written.
//!
//! A day file lists entries such as `11:45-12:15 project_code` followed by
//! `- note` lines. [`TimeTrackingData`] is what such a file adds up to:
//! its first and last clock times, its working and dead (gap) minutes,
//! the warnings raised while reading it and its projects with their notes.

use vstd::prelude::*;

use crate::text::{nat_text, push_char, push_decimal, push_two_digits, two_digit_text};

verus! {

/// A time of day as written in a day file: an hour on a 12-hour clock with
/// no AM/PM, and a minute.
#[derive(Clone, Copy, Debug, PartialEq, Eq, Structural)]
pub struct ClockTime {
    /// The hour as written, e.g. `11` for `11:45` and `4` for `4`.
    pub hour: u8,
    /// The minute, `0..=59`.
    pub minute: u8,
}

/// One project's share of a day.
#[derive(Clone, Debug, PartialEq, Eq)]
pub struct ProjectEntry {
    /// The project code exactly as written.
    pub name: String,
    /// Minutes booked against the project that day.
    pub total_minutes: u32,
    /// The notes written under the project's entries, in file order.
    pub notes: Vec<String>,
}

/// Everything one day file adds up to.
#[derive(Clone, Debug, PartialEq, Eq)]
pub struct TimeTrackingData {
    /// The first time of the day, if any entry was read.
    pub start_time: Option<ClockTime>,
    /// The last time of the day, if any entry was read.
    pub end_time: Option<ClockTime>,
    /// Working minutes.
    pub total_minutes: u32,
    /// Minutes of gaps between entries.
    pub dead_time_minutes: u32,
    /// Problems met while reading the file.
    pub warnings: Vec<String>,
    /// The day's projects.
    pub projects: Vec<ProjectEntry>,
}

/// `minutes` as hours and two-digit minutes, e.g. `"4:15"`.
pub open spec fn duration_minutes_text(minutes: nat) -> Seq<char> {
    nat_text(minutes / 60) + seq![':'] + two_digit_text(minutes % 60)
}

/// `minutes` in hundredths of an hour, rounded to the nearest.
///
/// A third of a hundredth is the finest fraction minutes can leave over, so
/// there is never a tie to break.
pub open spec fn duration_hundredths(minutes: nat) -> nat {
    (10 * minutes + 3) / 6
}

/// `minutes` as decimal hours with two places, e.g. `"4.25"`.
pub open spec fn duration_decimal_text(minutes: nat) -> Seq<char> {
    let h = duration_hundredths(minutes);
    nat_text(h / 100) + seq!['.'] + two_digit_text(h % 100)
}

/// A clock time as `H:MM`, e.g. `"11:45"` or `"4:00"`.
pub open spec fn clock_time_text(t: ClockTime) -> Seq<char> {
    nat_text(t.hour as nat) + seq![':'] + two_digit_text(t.minute as nat)
}

/// An optional clock time, `fallback` standing in for a missing one.
pub open spec fn clock_time_option_text(t: Option<ClockTime>, fallback: Seq<char>) -> Seq<char> {
    match t {
        Some(t) => clock_time_text(t),
        None => fallback,
    }
}

/// `minutes` as `H:MM`, e.g. `"4:15"` for 255.
pub fn format_duration_minutes(minutes: u32) -> (s: String)
    ensures
        s@ == duration_minutes_text(minutes as nat),
{
    let mut s = String::new();
    push_decimal(&mut s, (minutes / 60) as u64);
    push_char(&mut s, ':');
    push_two_digits(&mut s, (minutes % 60) as u64);
    assert(s@ =~= duration_minutes_text(minutes as nat));
    s
}

/// `minutes` as decimal hours with two places, e.g. `"4.25"` for 255.
pub fn format_duration_decimal(minutes: u32) -> (s: String)
    ensures
        s@ == duration_decimal_text(minutes as nat),
{
    let h: u64 = (10 * (minutes as u64) + 3) / 6;
    let mut s = String::new();
    push_decimal(&mut s, h / 100);
    push_char(&mut s, '.');
    push_two_digits(&mut s, h % 100);
    assert(s@ =~= duration_decimal_text(minutes as nat));
    s
}

/// Appends a clock time as `H:MM`.
pub fn push_clock_time(s: &mut String, t: ClockTime)
    requires
        t.minute < 100,
    ensures
        final(s)@ == old(s)@ + clock_time_text(t),
{
    push_decimal(s, t.hour as u64);
    push_char(s, ':');
    push_two_digits(s, t.minute as u64);
    assert(final(s)@ =~= old(s)@ + clock_time_text(t));
}

/// An optional clock time as `H:MM`, or `fallback` when there is none.
pub fn format_time_option(t: Option<ClockTime>, fallback: &str) -> (s: String)
    requires
        t matches Some(t) ==> t.minute < 100,
    ensures
        s@ == clock_time_option_text(t, fallback@),
{
    match t {
        Some(t) => {
            let mut s = String::new();
            push_clock_time(&mut s, t);
            assert(s@ =~= clock_time_text(t));
            s
        },
        None => String::from_str(fallback),
    }
}

/// A day's clock times are real times of day.
pub open spec fn times_well_formed(data: TimeTrackingData) -> bool {
    &&& data.start_time matches Some(t) ==> t.minute < 60
    &&& data.end_time matches Some(t) ==> t.minute < 60
}

impl TimeTrackingData {
    /// Whether the day's clock times are real times of day.
    pub fn times_are_real(&self) -> (r: bool)
        ensures
            r == times_well_formed(*self),
    {
        let start_ok = match self.start_time {
            Some(t) => t.minute < 60,
            None => true,
        };
        let end_ok = match self.end_time {
            Some(t) => t.minute < 60,
            None => true,
        };
        start_ok && end_ok
    }

    /// A day with nothing in it.
    pub fn empty() -> (d: TimeTrackingData)
        ensures
            d.start_time is None,
            d.end_time is None,
            d.total_minutes == 0,
            d.dead_time_minutes == 0,
            d.warnings@.len() == 0,
            d.projects@.len() == 0,
    {
        TimeTrackingData {
            start_time: None,
            end_time: None,
            total_minutes: 0,
            dead_time_minutes: 0,
            warnings: Vec::new(),
            projects: Vec::new(),
        }
    }

    /// The first time of the day, or `"N/A"`.
    pub fn formatted_start_time(&self) -> (s: String)
        requires
            times_well_formed(*self),
        ensures
            s@ == clock_time_option_text(self.start_time, "N/A"@),
    {
        format_time_option(self.start_time, "N/A")
    }

    /// The last time of the day, or `"N/A"`.
    pub fn formatted_end_time(&self) -> (s: String)
        requires
            times_well_formed(*self),
        ensures
            s@ == clock_time_option_text(self.end_time, "N/A"@),
    {
        format_time_option(self.end_time, "N/A")
    }

    /// Working time as `H:MM`.
    pub fn formatted_total_minutes(&self) -> (s: String)
        ensures
            s@ == duration_minutes_text(self.total_minutes as nat),
    {
        format_duration_minutes(self.total_minutes)
    }

    /// Working time as decimal hours.
    pub fn formatted_total_decimal(&self) -> (s: String)
        ensures
            s@ == duration_decimal_text(self.total_minutes as nat),
    {
        format_duration_decimal(self.total_minutes)
    }

    /// Dead time as `H:MM`.
    pub fn formatted_dead_time_minutes(&self) -> (s: String)
        ensures
            s@ == duration_minutes_text(self.dead_time_minutes as nat),
    {
        format_duration_minutes(self.dead_time_minutes)
    }

    /// Dead time as decimal hours.
    pub fn formatted_dead_decimal(&self) -> (s: String)
        ensures
            s@ == duration_decimal_text(self.dead_time_minutes as nat),
    {
        format_duration_decimal(self.dead_time_minutes)
    }
}

} // verus!
