//! Calendar dates as Julian day numbers, and the days of the week.
//!
//! A [`Date`] is the Julian day number the `time` crate itself is built on,
//! so adding days is integer addition. Converting to and from a calendar
//! date (year, month, day) goes through `time`.

use vstd::prelude::*;

use crate::text::{nat_text, push_char, push_decimal, push_two_digits, two_digit_text};

verus! {

/// Julian day of `-9999-01-01`, the earliest date `time::Date` holds.
pub const MIN_JULIAN_DAY: i32 = -1930999;

/// Julian day of `9999-12-31`, the latest date `time::Date` holds.
pub const MAX_JULIAN_DAY: i32 = 5373484;

/// The Julian day of 1970-01-01.
pub const UNIX_EPOCH_JULIAN_DAY: i32 = 2440588;

/// Days from 1970-01-01 to `year`-`month`-`day` of the proleptic Gregorian
/// calendar (negative before it), counted in whole 400-year eras of 146097
/// days from a year that starts in March.
#[verifier::opaque]
pub open spec fn days_from_civil(year: int, month: int, day: int) -> int {
    let y = if month <= 2 { year - 1 } else { year };
    let era = y / 400;
    let year_of_era = y % 400;
    let shifted_month = if month > 2 { month - 3 } else { month + 9 };
    let day_of_year = (153 * shifted_month + 2) / 5 + day - 1;
    let day_of_era = year_of_era * 365 + year_of_era / 4 - year_of_era / 100 + day_of_year;
    era * 146097 + day_of_era - 719468
}

/// `year`-`month`-`day` is a calendar date in the range `time::Date` holds:
/// years -9999 to 9999, a month from 1 to 12, a day of that month.
pub open spec fn valid_calendar_date(year: int, month: int, day: int) -> bool {
    &&& -9999 <= year <= 9999
    &&& 1 <= month <= 12
    &&& 1 <= day <= crate::calendar::month_length_spec(year, month)
}

/// The Julian day of the calendar date `year`-`month`-`day`, or `None` when
/// that is not a date `time::Date` holds.
pub open spec fn calendar_julian_day(year: int, month: int, day: int) -> Option<int> {
    if valid_calendar_date(year, month, day) {
        Some(days_from_civil(year, month, day) + UNIX_EPOCH_JULIAN_DAY)
    } else {
        None
    }
}

/// The calendar date `(year, month, day)` whose Julian day is
/// `julian_day`.
#[verifier::opaque]
pub open spec fn julian_calendar_date(julian_day: int) -> (int, int, int) {
    choose|t: (int, int, int)| valid_calendar_date(t.0, t.1, t.2)
        && days_from_civil(t.0, t.1, t.2) + UNIX_EPOCH_JULIAN_DAY == julian_day
}

/// The Julian day of the calendar date `year`-`month`-`day`, if it is one.
///
/// Trusted: `time::Date::from_calendar_date` (with `time::Month::try_from`
/// for the month number), the date it gives read back with
/// `time::Date::to_julian_day`. The contract says the result is the
/// Julian day of that date in the proleptic Gregorian calendar
/// ([`calendar_julian_day`]), and none for a date `time` does not hold.
#[verifier::external_body]
fn julian_of_calendar_date(year: i32, month: u8, day: u8) -> (r: Option<i32>)
    ensures
        r matches Some(j) ==> calendar_julian_day(year as int, month as int, day as int) == Some(j as int),
        r is None ==> calendar_julian_day(year as int, month as int, day as int) is None,
{
    let month = match time::Month::try_from(month) {
        Ok(m) => m,
        Err(_) => return None,
    };
    match time::Date::from_calendar_date(year, month, day) {
        Ok(d) => Some(d.to_julian_day()),
        Err(_) => None,
    }
}

/// The calendar date `(year, month, day)` of the Julian day `julian`.
///
/// Trusted: `time::Date::to_calendar_date`, on the date
/// `time::Date::from_julian_day` gives for `julian` (which it always gives
/// for a day in range). The contract says the result is a calendar date in
/// the range `time` holds whose day count in the proleptic Gregorian
/// calendar ([`days_from_civil`]) is that Julian day.
#[verifier::external_body]
fn calendar_date_of_julian(julian: i32) -> (r: (i32, u8, u8))
    requires
        MIN_JULIAN_DAY <= julian <= MAX_JULIAN_DAY,
    ensures
        valid_calendar_date(r.0 as int, r.1 as int, r.2 as int),
        days_from_civil(r.0 as int, r.1 as int, r.2 as int) + UNIX_EPOCH_JULIAN_DAY == julian,
        -9999 <= r.0 <= 9999,
        1 <= r.1 <= 12,
        1 <= r.2 <= 31,
{
    let d = time::Date::from_julian_day(julian).unwrap_or(time::Date::MIN);
    let (y, m, day) = d.to_calendar_date();
    (y, m as u8, day)
}

/// A day of the week.
#[derive(Clone, Copy, Debug, PartialEq, Eq, Structural, Hash)]
pub enum Weekday {
    Monday,
    Tuesday,
    Wednesday,
    Thursday,
    Friday,
    Saturday,
    Sunday,
}

/// The weekday `n` days after Monday, for `0 <= n < 7`.
pub open spec fn weekday_from_index(n: int) -> Weekday {
    if n == 0 { Weekday::Monday }
    else if n == 1 { Weekday::Tuesday }
    else if n == 2 { Weekday::Wednesday }
    else if n == 3 { Weekday::Thursday }
    else if n == 4 { Weekday::Friday }
    else if n == 5 { Weekday::Saturday }
    else { Weekday::Sunday }
}

/// The weekday of a Julian day: day 0 of the count, like every multiple of
/// seven, is a Monday.
pub open spec fn julian_weekday(julian_day: int) -> Weekday {
    weekday_from_index(julian_day % 7)
}

impl Weekday {
    /// Days after Monday: Monday is 0, Sunday is 6.
    pub open spec fn index(self) -> int {
        match self {
            Weekday::Monday => 0,
            Weekday::Tuesday => 1,
            Weekday::Wednesday => 2,
            Weekday::Thursday => 3,
            Weekday::Friday => 4,
            Weekday::Saturday => 5,
            Weekday::Sunday => 6,
        }
    }

    /// The English name, as `time::Weekday` displays it.
    pub open spec fn name_text(self) -> Seq<char> {
        match self {
            Weekday::Monday => "Monday"@,
            Weekday::Tuesday => "Tuesday"@,
            Weekday::Wednesday => "Wednesday"@,
            Weekday::Thursday => "Thursday"@,
            Weekday::Friday => "Friday"@,
            Weekday::Saturday => "Saturday"@,
            Weekday::Sunday => "Sunday"@,
        }
    }

    /// The three-letter abbreviation.
    pub open spec fn short_text(self) -> Seq<char> {
        match self {
            Weekday::Monday => "Mon"@,
            Weekday::Tuesday => "Tue"@,
            Weekday::Wednesday => "Wed"@,
            Weekday::Thursday => "Thu"@,
            Weekday::Friday => "Fri"@,
            Weekday::Saturday => "Sat"@,
            Weekday::Sunday => "Sun"@,
        }
    }

    /// One-based position counting from Monday: Monday is 1, Sunday is 7.
    pub fn number_from_monday(self) -> (n: u8)
        ensures
            n == self.index() + 1,
    {
        match self {
            Weekday::Monday => 1,
            Weekday::Tuesday => 2,
            Weekday::Wednesday => 3,
            Weekday::Thursday => 4,
            Weekday::Friday => 5,
            Weekday::Saturday => 6,
            Weekday::Sunday => 7,
        }
    }

    /// Days after the preceding Sunday: Sunday is 0, Saturday is 6.
    pub fn number_days_from_sunday(self) -> (n: u8)
        ensures
            n == (self.index() + 1) % 7,
    {
        match self {
            Weekday::Monday => 1,
            Weekday::Tuesday => 2,
            Weekday::Wednesday => 3,
            Weekday::Thursday => 4,
            Weekday::Friday => 5,
            Weekday::Saturday => 6,
            Weekday::Sunday => 0,
        }
    }

    /// The English name, e.g. `"Monday"`.
    pub fn name(self) -> (s: &'static str)
        ensures
            s@ == self.name_text(),
    {
        match self {
            Weekday::Monday => "Monday",
            Weekday::Tuesday => "Tuesday",
            Weekday::Wednesday => "Wednesday",
            Weekday::Thursday => "Thursday",
            Weekday::Friday => "Friday",
            Weekday::Saturday => "Saturday",
            Weekday::Sunday => "Sunday",
        }
    }
}

/// Proves that `weekday_from_index` and `index` undo each other.
pub proof fn lemma_weekday_index(n: int)
    requires
        0 <= n < 7,
    ensures
        weekday_from_index(n).index() == n,
{
}

/// Two dates with the same Julian day are the same date.
pub proof fn lemma_date_eq(a: Date, b: Date)
    requires
        a.julian_day_spec() == b.julian_day_spec(),
    ensures
        a == b,
{
}

/// A calendar date, held as its Julian day number.
#[derive(Clone, Copy, Debug, PartialEq, Eq, Structural, Hash, PartialOrd, Ord)]
pub struct Date {
    julian: i32,
}

/// The date `year`-`month`-`day` written as `YYYY-MM-DD`, a minus sign in
/// front of a year before year zero.
pub open spec fn iso_text(year: int, month: int, day: int) -> Seq<char> {
    let abs_year = if year < 0 { -year } else { year };
    let sign: Seq<char> = if year < 0 { seq!['-'] } else { Seq::empty() };
    sign + two_digit_text((abs_year / 100) as nat) + two_digit_text((abs_year % 100) as nat)
        + seq!['-'] + two_digit_text(month as nat) + seq!['-'] + two_digit_text(day as nat)
}

impl Date {
    #[verifier::type_invariant]
    spec fn in_range(self) -> bool {
        MIN_JULIAN_DAY <= self.julian <= MAX_JULIAN_DAY
    }

    /// The Julian day number of this date.
    pub closed spec fn julian_day_spec(self) -> int {
        self.julian as int
    }

    /// The date's day of the week.
    pub open spec fn weekday_spec(self) -> Weekday {
        julian_weekday(self.julian_day_spec())
    }

    /// The date as `(year, month, day)`.
    pub open spec fn calendar(self) -> (int, int, int) {
        julian_calendar_date(self.julian_day_spec())
    }

    /// The date as `YYYY-MM-DD`.
    pub open spec fn iso_spec(self) -> Seq<char> {
        let (y, m, d) = self.calendar();
        iso_text(y, m, d)
    }

    /// The Julian day number of this date.
    pub fn julian_day(&self) -> (r: i32)
        ensures
            r == self.julian_day_spec(),
            MIN_JULIAN_DAY <= r <= MAX_JULIAN_DAY,
    {
        proof {
            use_type_invariant(self);
        }
        self.julian
    }

    /// The date with Julian day number `julian`, if `time::Date` holds one.
    pub fn from_julian_day(julian: i32) -> (r: Option<Date>)
        ensures
            r is Some <==> MIN_JULIAN_DAY <= julian <= MAX_JULIAN_DAY,
            r matches Some(d) ==> d.julian_day_spec() == julian,
    {
        if MIN_JULIAN_DAY <= julian && julian <= MAX_JULIAN_DAY {
            Some(Date { julian })
        } else {
            None
        }
    }

    /// The date `days` days later (earlier when negative), if there is one.
    pub fn checked_add_days(&self, days: i64) -> (r: Option<Date>)
        ensures
            r is Some <==> MIN_JULIAN_DAY <= self.julian_day_spec() + days <= MAX_JULIAN_DAY,
            r matches Some(d) ==> d.julian_day_spec() == self.julian_day_spec() + days,
    {
        let j = self.julian_day() as i64;
        if days < MIN_JULIAN_DAY as i64 - j || days > MAX_JULIAN_DAY as i64 - j {
            None
        } else {
            Date::from_julian_day((j + days) as i32)
        }
    }

    /// The next calendar day, if there is one.
    pub fn next_day(&self) -> (r: Option<Date>)
        ensures
            r is Some <==> self.julian_day_spec() < MAX_JULIAN_DAY,
            r matches Some(d) ==> d.julian_day_spec() == self.julian_day_spec() + 1,
    {
        proof {
            use_type_invariant(self);
        }
        self.checked_add_days(1)
    }

    /// The previous calendar day, if there is one.
    pub fn previous_day(&self) -> (r: Option<Date>)
        ensures
            r is Some <==> self.julian_day_spec() > MIN_JULIAN_DAY,
            r matches Some(d) ==> d.julian_day_spec() == self.julian_day_spec() - 1,
    {
        proof {
            use_type_invariant(self);
        }
        self.checked_add_days(-1)
    }

    /// The day of the week, from the Julian day number exactly as
    /// `time::Date::weekday` derives it.
    pub fn weekday(&self) -> (w: Weekday)
        ensures
            w == self.weekday_spec(),
    {
        let j = self.julian_day();
        let r = j % 7;
        let r = if r < 0 { r + 7 } else { r };
        assert(r == self.julian_day_spec() % 7);
        if r == 0 { Weekday::Monday }
        else if r == 1 { Weekday::Tuesday }
        else if r == 2 { Weekday::Wednesday }
        else if r == 3 { Weekday::Thursday }
        else if r == 4 { Weekday::Friday }
        else if r == 5 { Weekday::Saturday }
        else { Weekday::Sunday }
    }

    /// The date `year`-`month`-`day`, if it is a valid calendar date in
    /// the range `time::Date` covers.
    pub fn from_calendar_date(year: i32, month: u8, day: u8) -> (r: Option<Date>)
        ensures
            r matches Some(d) ==> calendar_julian_day(year as int, month as int, day as int)
                == Some(d.julian_day_spec()),
            r is None ==> calendar_julian_day(year as int, month as int, day as int) is None,
    {
        match julian_of_calendar_date(year, month, day) {
            Some(j) => {
                proof {
                    crate::calendar::law_calendar_dates_lie_in_the_julian_range(year as int, month as int, day as int);
                }
                Date::from_julian_day(j)
            },
            None => None,
        }
    }

    /// The date as `(year, month, day)`, the month counted from 1.
    pub fn to_calendar_date(&self) -> (r: (i32, u8, u8))
        ensures
            (r.0 as int, r.1 as int, r.2 as int) == julian_calendar_date(self.julian_day_spec()),
            valid_calendar_date(r.0 as int, r.1 as int, r.2 as int),
            days_from_civil(r.0 as int, r.1 as int, r.2 as int) + UNIX_EPOCH_JULIAN_DAY == self.julian_day_spec(),
            -9999 <= r.0 <= 9999,
            1 <= r.1 <= 12,
            1 <= r.2 <= 31,
    {
        proof {
            use_type_invariant(self);
        }
        let r = calendar_date_of_julian(self.julian);
        proof {
            crate::calendar::law_a_calendar_date_reads_back(r.0 as int, r.1 as int, r.2 as int);
        }
        r
    }

    /// The date written `YYYY-MM-DD`.
    pub fn iso_string(&self) -> (s: String)
        ensures
            s@ == self.iso_spec(),
    {
        let (y, m, d) = self.to_calendar_date();
        let mut s = String::new();
        let abs_year: u64 = if y < 0 { (0 - y) as u64 } else { y as u64 };
        if y < 0 {
            push_char(&mut s, '-');
        }
        push_two_digits(&mut s, abs_year / 100);
        push_two_digits(&mut s, abs_year % 100);
        push_char(&mut s, '-');
        push_two_digits(&mut s, m as u64);
        push_char(&mut s, '-');
        push_two_digits(&mut s, d as u64);
        let ghost ay: int = if y < 0 { -y } else { y as int };
        assert(abs_year == ay);
        assert(s@ =~= iso_text(y as int, m as int, d as int));
        s
    }
}

} // verus!
