//! The month calendar's geometry: which date a click on it lands on, and
//! the months around the active date whose days the calendar marks.

use vstd::prelude::*;

use crate::date::{calendar_julian_day, julian_calendar_date, Date, Weekday, MAX_JULIAN_DAY, MIN_JULIAN_DAY};
use crate::layout::Rect;

verus! {

/// The month after `m` (1 to 12), December wrapping to January.
pub open spec fn next_month_number(m: int) -> int {
    if m >= 12 { 1 } else { m + 1 }
}

/// The first day of the month of the date with Julian day `j`.
pub open spec fn first_of_month_julian(j: int) -> Option<int> {
    let (y, m, _) = julian_calendar_date(j);
    calendar_julian_day(y, m, 1)
}

/// The date drawn at (`x`, `y`) by a calendar of the month of `active`
/// rendered in `area`, as a Julian day: the block takes a right border and
/// a column and a row of padding, a month header and a weekday header
/// take the next two rows, and in each week row weekday `i`, counted from
/// Sunday, starts at column `1 + 3 * i`. Rows run from the Sunday on or
/// before the first of the month until a row's Sunday falls in the next
/// month.
pub open spec fn date_at_spec(active: Date, area: Rect, x: u16, y: u16) -> Option<int> {
    if area.width < 2 || area.height < 1 {
        None
    } else {
        let ix = area.x + 1;
        let iy = area.y + 1;
        let iw = area.width - 2;
        let ih = area.height - 1;
        let grid_y = iy + 2;
        if y < grid_y || y >= iy + ih || x < ix || x >= ix + iw {
            None
        } else {
            let column = x - ix;
            let weekday = column / 3;
            let week = y - grid_y;
            if column % 3 != 1 || weekday >= 7 {
                None
            } else {
                match first_of_month_julian(active.julian_day_spec()) {
                    None => None,
                    Some(first) => {
                        let grid_start = first - (crate::date::julian_weekday(first).index() + 1) % 7;
                        let row_start = grid_start + week * 7;
                        let day = row_start + weekday;
                        if !(MIN_JULIAN_DAY <= grid_start <= MAX_JULIAN_DAY) || !(MIN_JULIAN_DAY <= row_start <= MAX_JULIAN_DAY)
                            || !(MIN_JULIAN_DAY <= day <= MAX_JULIAN_DAY) {
                            None
                        } else if julian_calendar_date(row_start).1 == next_month_number(julian_calendar_date(first).1) {
                            None
                        } else {
                            Some(day)
                        }
                    },
                }
            }
        }
    }
}

/// The date drawn at (`x`, `y`) when the calendar of `active`'s month is
/// rendered in `area`, or `None` for a cell that is not a day. The weeks
/// start on Sunday, as the calendar draws them, whatever the configured
/// start of the week is.
pub fn date_at(active: Date, area: Rect, x: u16, y: u16) -> (r: Option<Date>)
    requires
        area.x + area.width <= u16::MAX,
        area.y + area.height <= u16::MAX,
    ensures
        match r {
            Some(d) => date_at_spec(active, area, x, y) == Some(d.julian_day_spec()),
            None => date_at_spec(active, area, x, y) is None,
        },
{
    if area.width < 2 || area.height < 1 {
        return None;
    }
    let ix = area.x + 1;
    let iy = area.y + 1;
    let iw = area.width - 2;
    let ih = area.height - 1;
    let grid_y: u32 = iy as u32 + 2;
    if (y as u32) < grid_y || y >= iy + ih || x < ix || x >= ix + iw {
        return None;
    }
    let column = x - ix;
    if column % 3 != 1 {
        return None;
    }
    let weekday = column / 3;
    if weekday >= 7 {
        return None;
    }
    let week = y as u32 - grid_y;
    let (yr, mo, _) = active.to_calendar_date();
    let first = match Date::from_calendar_date(yr, mo, 1) {
        Some(f) => f,
        None => return None,
    };
    let offset = first.weekday().number_days_from_sunday() as i64;
    let grid_start = match first.checked_add_days(-offset) {
        Some(g) => g,
        None => return None,
    };
    let row_start = match grid_start.checked_add_days(week as i64 * 7) {
        Some(r) => r,
        None => return None,
    };
    let (_, first_month, _) = first.to_calendar_date();
    let (_, row_month, _) = row_start.to_calendar_date();
    let next: u8 = if first_month >= 12 { 1 } else { first_month + 1 };
    if row_month == next {
        return None;
    }
    row_start.checked_add_days(weekday as i64)
}

/// Why the months around a date could not be found.
#[derive(Clone, Copy, Debug, PartialEq, Eq, Structural)]
pub enum MonthError {
    /// The first of the month could not be formed.
    ReplaceDay,
    /// The month asked for lies in a year out of range.
    YearOutOfRange,
}

/// The month `offset` months from the one holding the Julian day `date`,
/// counted from January of year -10000: twelve per year.
pub open spec fn shifted_month_index(date: int, offset: i32) -> int {
    let (y, m, _) = julian_calendar_date(date);
    (y + 10000) * 12 + (m - 1) + offset
}

/// The first day of the month `offset` months from the date with Julian
/// day `date` (back for a negative offset), across year boundaries; an
/// offset of zero leaves the date as it is.
pub open spec fn month_offset_spec(date: int, offset: i32) -> Result<int, MonthError> {
    let k = shifted_month_index(date, offset);
    if offset == 0 {
        Ok(date)
    } else if k < 0 {
        Err(MonthError::YearOutOfRange)
    } else {
        match calendar_julian_day(k / 12 - 10000, k % 12 + 1, 1) {
            Some(j) => Ok(j),
            None => Err(MonthError::YearOutOfRange),
        }
    }
}

/// The first day of the month `offset` months from `date` (previous for a
/// negative offset).
pub fn month_offset(date: Date, offset: i32) -> (r: Result<Date, MonthError>)
    ensures
        match r {
            Ok(d) => month_offset_spec(date.julian_day_spec(), offset) == Ok::<int, MonthError>(d.julian_day_spec()),
            Err(e) => month_offset_spec(date.julian_day_spec(), offset) == Err::<int, MonthError>(e),
        },
{
    if offset == 0 {
        return Ok(date);
    }
    let (y, m, _) = date.to_calendar_date();
    let index: i64 = (y as i64 + 10000) * 12 + (m as i64 - 1) + offset as i64;
    if index < 0 {
        return Err(MonthError::YearOutOfRange);
    }
    let u = index as u64;
    let y2: i32 = ((u / 12) as i64 - 10000) as i32;
    let m2: u8 = (u % 12 + 1) as u8;
    match Date::from_calendar_date(y2, m2, 1) {
        Some(r) => Ok(r),
        None => Err(MonthError::YearOutOfRange),
    }
}

/// `year` is a leap year of the proleptic Gregorian calendar.
pub open spec fn is_leap_year(year: int) -> bool {
    (year % 4 == 0 && year % 100 != 0) || year % 400 == 0
}

/// Days in `month` (1 to 12) of `year`, as `time::Month::length` counts.
pub open spec fn month_length_spec(year: int, month: int) -> int {
    if month == 2 {
        if is_leap_year(year) { 29 } else { 28 }
    } else if month == 4 || month == 6 || month == 9 || month == 11 {
        30
    } else {
        31
    }
}

/// Days in `month` of `year`.
#[verifier::spinoff_prover]
pub fn month_length(year: i32, month: u8) -> (n: u8)
    ensures
        n == month_length_spec(year as int, month as int),
{
    if month == 2 {
        if (year % 4 == 0 && year % 100 != 0) || year % 400 == 0 { 29 } else { 28 }
    } else if month == 4 || month == 6 || month == 9 || month == 11 {
        30
    } else {
        31
    }
}

/// The days the calendar marks around the date with Julian day `active`:
/// from the first of the month before to the last of the month after (or
/// its first, where `time` cannot give that day), as Julian days.
pub open spec fn scan_range_spec(active: int) -> Result<(int, int), MonthError> {
    let (y, m, _) = julian_calendar_date(active);
    match calendar_julian_day(y, m, 1) {
        None => Err(MonthError::ReplaceDay),
        Some(c) => match month_offset_spec(c, -1i32) {
            Err(e) => Err(e),
            Ok(p) => match month_offset_spec(c, 1i32) {
                Err(e) => Err(e),
                Ok(n) => {
                    let (ny, nm, _) = julian_calendar_date(n);
                    match calendar_julian_day(ny, nm, month_length_spec(ny, nm)) {
                        Some(e) => Ok((p, e)),
                        None => Ok((p, n)),
                    }
                },
            },
        },
    }
}

/// The days the calendar marks around `active`.
pub fn populated_scan_range(active: Date) -> (r: Result<(Date, Date), MonthError>)
    ensures
        match r {
            Ok((start, end)) => scan_range_spec(active.julian_day_spec())
                == Ok::<(int, int), MonthError>((start.julian_day_spec(), end.julian_day_spec())),
            Err(e) => scan_range_spec(active.julian_day_spec()) == Err::<(int, int), MonthError>(e),
        },
{
    let (y, m, _) = active.to_calendar_date();
    let current = match Date::from_calendar_date(y, m, 1) {
        Some(c) => c,
        None => return Err(MonthError::ReplaceDay),
    };
    let prev = match month_offset(current, -1) {
        Ok(p) => p,
        Err(e) => return Err(e),
    };
    let next = match month_offset(current, 1) {
        Ok(n) => n,
        Err(e) => return Err(e),
    };
    let (ny, nm, _) = next.to_calendar_date();
    let last = month_length(ny, nm);
    let end = match Date::from_calendar_date(ny, nm, last) {
        Some(e) => e,
        None => next,
    };
    Ok((prev, end))
}

/// How the calendar marks `date`: the active date wins over having tracked
/// hours; any other day is left plain.
pub fn calendar_mark(date: Date, active: Date, populated: &Vec<Date>) -> (m: Option<crate::bar_chart::BarStyle>)
    ensures
        m == (if date == active {
            Some(crate::bar_chart::BarStyle::Active)
        } else if populated@.contains(date) {
            Some(crate::bar_chart::BarStyle::Populated)
        } else {
            None
        }),
{
    if date == active {
        return Some(crate::bar_chart::BarStyle::Active);
    }
    let mut i: usize = 0;
    while i < populated.len()
        invariant
            i <= populated@.len(),
            date != active,
            forall|k: int| 0 <= k < i ==> populated@[k] != date,
        decreases populated@.len() - i,
    {
        if populated[i] == date {
            assert(populated@[i as int] == date);
            return Some(crate::bar_chart::BarStyle::Populated);
        }
        i = i + 1;
    }
    None
}


/// The days of a month follow one another: day `day` of `year`-`month` is
/// `day - 1` days after its first.
pub proof fn law_days_within_a_month_are_consecutive(year: int, month: int, day: int)
    requires
        1 <= month <= 12,
    ensures
        crate::date::days_from_civil(year, month, day) == crate::date::days_from_civil(year, month, 1) + day - 1,
{
    reveal(crate::date::days_from_civil);
}

/// Days from the start of a 400-year era to March 1 of its year `r`.
spec fn march_first_of_era_year(r: int) -> int {
    r * 365 + r / 4 - r / 100
}

proof fn lemma_february_and_march_firsts(year: int)
    ensures
        crate::date::days_from_civil(year, 2, 1)
            == (year - 1) / 400 * 146097 + march_first_of_era_year((year - 1) % 400) + 337 - 719468,
        crate::date::days_from_civil(year, 3, 1)
            == year / 400 * 146097 + march_first_of_era_year(year % 400) - 719468,
{
    reveal(crate::date::days_from_civil);
}

proof fn lemma_leap_step(r: int)
    requires
        0 <= r < 399,
    ensures
        march_first_of_era_year(r + 1) - march_first_of_era_year(r)
            == 365 + (if (r + 1) % 4 == 0 { 1int } else { 0int }) - (if (r + 1) % 100 == 0 { 1int } else { 0int }),
{
}

/// A year `400 * q + s` with `0 <= s < 400` leaves `s` over a division by
/// 400, and so by 4 and by 100 as `s` does.
proof fn lemma_year_in_era(year: int, q: int, s: int)
    requires
        0 <= s < 400,
        year == 400 * q + s,
    ensures
        year / 400 == q,
        year % 400 == s,
        year % 4 == s % 4,
        year % 100 == s % 100,
{
    vstd::arithmetic::div_mod::lemma_fundamental_div_mod_converse(year, 400, q, s);
    vstd::arithmetic::div_mod::lemma_fundamental_div_mod_converse(year, 4, 100 * q + s / 4, s % 4);
    vstd::arithmetic::div_mod::lemma_fundamental_div_mod_converse(year, 100, 4 * q + s / 100, s % 100);
}

proof fn lemma_century_years_are_multiples_of_four(s: int)
    requires
        0 < s < 400,
        s % 100 == 0,
    ensures
        s % 4 == 0,
        s == 100 || s == 200 || s == 300,
{
}

proof fn lemma_february_to_march(year: int)
    ensures
        crate::date::days_from_civil(year, 3, 1) == crate::date::days_from_civil(year, 2, 1) + month_length_spec(year, 2),
{
    lemma_february_and_march_firsts(year);
    let a = year - 1;
    let q = a / 400;
    let r = a % 400;
    assert(a == 400 * q + r && 0 <= r < 400);
    if r == 399 {
        lemma_year_in_era(year, q + 1, 0);
        assert(march_first_of_era_year(399) == 145731);
        assert(march_first_of_era_year(0) == 0);
        assert(is_leap_year(year));
    } else {
        lemma_year_in_era(year, q, r + 1);
        lemma_leap_step(r);
        if (r + 1) % 100 == 0 {
            lemma_century_years_are_multiples_of_four(r + 1);
        }
    }
}

/// Months follow one another: the first of the month after `year`-`month`
/// is as many days after the first of `month` as `month` has days.
pub proof fn law_a_month_follows_the_last(year: int, month: int)
    requires
        1 <= month <= 12,
    ensures
        ({
            let (y2, m2) = if month == 12 { (year + 1, 1int) } else { (year, month + 1) };
            crate::date::days_from_civil(y2, m2, 1) == crate::date::days_from_civil(year, month, 1)
                + month_length_spec(year, month)
        }),
{
    if month == 2 {
        lemma_february_to_march(year);
    } else {
        reveal(crate::date::days_from_civil);
    }
}

/// Firsts of later months of a year come after every day of earlier ones.
proof fn lemma_month_firsts_increase(year: int, m1: int, m2: int)
    requires
        1 <= m1 < m2 <= 12,
    ensures
        crate::date::days_from_civil(year, m1, 1) + month_length_spec(year, m1)
            <= crate::date::days_from_civil(year, m2, 1),
    decreases m2 - m1,
{
    law_a_month_follows_the_last(year, m1);
    if m1 + 1 < m2 {
        lemma_month_firsts_increase(year, m1 + 1, m2);
    }
}

/// A date of `year` lies between its January 1 and the next one.
proof fn lemma_date_within_its_year(year: int, month: int, day: int)
    requires
        1 <= month <= 12,
        1 <= day <= month_length_spec(year, month),
    ensures
        crate::date::days_from_civil(year, 1, 1) <= crate::date::days_from_civil(year, month, day),
        crate::date::days_from_civil(year, month, day) < crate::date::days_from_civil(year + 1, 1, 1),
{
    law_days_within_a_month_are_consecutive(year, month, day);
    if month > 1 {
        lemma_month_firsts_increase(year, 1, month);
    }
    if month < 12 {
        lemma_month_firsts_increase(year, month, 12);
    }
    law_a_month_follows_the_last(year, 12);
}

/// January 1 of a later year comes after every day of an earlier one.
proof fn lemma_years_increase(y1: int, y2: int)
    requires
        y1 < y2,
    ensures
        crate::date::days_from_civil(y1 + 1, 1, 1) <= crate::date::days_from_civil(y2, 1, 1),
    decreases y2 - y1,
{
    if y1 + 1 < y2 {
        lemma_years_increase(y1 + 1, y2);
        lemma_date_within_its_year(y1 + 1, 1, 1);
    }
}

/// Two calendar dates with the same day count are the same date: no two
/// dates share a Julian day.
pub proof fn law_calendar_dates_have_distinct_julian_days(
    y1: int,
    m1: int,
    d1: int,
    y2: int,
    m2: int,
    d2: int,
)
    requires
        crate::date::valid_calendar_date(y1, m1, d1),
        crate::date::valid_calendar_date(y2, m2, d2),
        crate::date::days_from_civil(y1, m1, d1) == crate::date::days_from_civil(y2, m2, d2),
    ensures
        y1 == y2 && m1 == m2 && d1 == d2,
{
    lemma_date_within_its_year(y1, m1, d1);
    lemma_date_within_its_year(y2, m2, d2);
    if y1 < y2 {
        lemma_years_increase(y1, y2);
    } else if y2 < y1 {
        lemma_years_increase(y2, y1);
    } else {
        law_days_within_a_month_are_consecutive(y1, m1, d1);
        law_days_within_a_month_are_consecutive(y2, m2, d2);
        if m1 < m2 {
            lemma_month_firsts_increase(y1, m1, m2);
        } else if m2 < m1 {
            lemma_month_firsts_increase(y1, m2, m1);
        }
    }
}

/// A calendar date turned into its Julian day and back is the same date:
/// what `Date::to_calendar_date` gives back of `Date::from_calendar_date`.
pub proof fn law_a_calendar_date_reads_back(year: int, month: int, day: int)
    requires
        crate::date::valid_calendar_date(year, month, day),
    ensures
        crate::date::julian_calendar_date(
            crate::date::days_from_civil(year, month, day) + crate::date::UNIX_EPOCH_JULIAN_DAY,
        ) == (year, month, day),
{
    let j = crate::date::days_from_civil(year, month, day) + crate::date::UNIX_EPOCH_JULIAN_DAY;
    reveal(crate::date::julian_calendar_date);
    let w = (year, month, day);
    assert(crate::date::valid_calendar_date(w.0, w.1, w.2)
        && crate::date::days_from_civil(w.0, w.1, w.2) + crate::date::UNIX_EPOCH_JULIAN_DAY == j);
    let t = crate::date::julian_calendar_date(j);
    law_calendar_dates_have_distinct_julian_days(t.0, t.1, t.2, year, month, day);
}

/// The Julian days of the dates `time` holds run from that of -9999-01-01
/// to that of 9999-12-31.
pub proof fn law_calendar_dates_lie_in_the_julian_range(year: int, month: int, day: int)
    requires
        crate::date::valid_calendar_date(year, month, day),
    ensures
        MIN_JULIAN_DAY <= crate::date::days_from_civil(year, month, day) + crate::date::UNIX_EPOCH_JULIAN_DAY
            <= MAX_JULIAN_DAY,
{
    assert(crate::date::days_from_civil(-9999, 1, 1) + crate::date::UNIX_EPOCH_JULIAN_DAY == MIN_JULIAN_DAY) by {
        reveal(crate::date::days_from_civil);
    }
    assert(crate::date::days_from_civil(10000, 1, 1) + crate::date::UNIX_EPOCH_JULIAN_DAY == MAX_JULIAN_DAY + 1) by {
        reveal(crate::date::days_from_civil);
    }
    lemma_date_within_its_year(year, month, day);
    if year > -9999 {
        lemma_years_increase(-9999, year);
        lemma_date_within_its_year(-9999, 1, 1);
    }
    if year < 9999 {
        lemma_years_increase(year, 10000);
    }
}

} // verus!
