//! The integer arithmetic of the weekly bar chart: bar heights in tenths of
//! an hour, the y-axis ceiling, where the goal line sits, how wide the bars
//! are, and which style each bar takes.

use vstd::prelude::*;

use crate::date::Date;

verus! {

/// The daily target as the chart uses it, in tenths of an hour: the
/// configured target (rounded to tenths), floored at one hour so that a
/// tiny target still gives a sane, visible ceiling.
pub open spec fn target_tenths_spec(raw: u64) -> u64 {
    if raw < 10 { 10 } else { raw }
}

/// The daily target in tenths of an hour, floored at one hour.
pub fn target_tenths(raw: u64) -> (t: u64)
    ensures
        t == target_tenths_spec(raw),
{
    if raw < 10 { 10 } else { raw }
}

/// A day's tracked minutes as a bar height in tenths of an hour (floored).
pub open spec fn bar_tenths_spec(minutes: u32) -> u64 {
    (minutes as u64 * 10 / 60) as u64
}

/// A day's tracked minutes as a bar height in tenths of an hour.
pub fn bar_tenths(minutes: u32) -> (t: u64)
    ensures
        t == bar_tenths_spec(minutes),
{
    minutes as u64 * 10 / 60
}

/// The chart's y-axis ceiling in tenths of an hour: at least the daily
/// target and at least the tallest bar, rounded up to a whole hour.
pub open spec fn chart_ceiling_spec(week_max_minutes: u32, raw_target: u64) -> int {
    let t = target_tenths_spec(raw_target) as int;
    let m = bar_tenths_spec(week_max_minutes) as int;
    let needed = if t > m { t } else { m };
    (needed + 9) / 10 * 10
}

/// The y-axis ceiling for a week whose tallest day has `week_max_minutes`
/// and a daily target of `raw_target` tenths of an hour. It depends on the
/// data and the target alone, never on how tall the terminal is.
pub fn chart_ceiling(week_max_minutes: u32, raw_target: u64) -> (c: u64)
    requires
        raw_target <= u64::MAX - 9,
    ensures
        c == chart_ceiling_spec(week_max_minutes, raw_target),
{
    let max_tenths = bar_tenths(week_max_minutes);
    let t = target_tenths(raw_target);
    let needed = if t > max_tenths { t } else { max_tenths };
    (needed + 9) / 10 * 10
}

/// The tracked minutes the week's data gives `date`: the first entry for
/// it, else none.
pub open spec fn minutes_for_spec(data: Seq<(Date, u32)>, date: Date) -> u32
    decreases data.len(),
{
    if data.len() == 0 {
        0
    } else if data[0].0 == date {
        data[0].1
    } else {
        minutes_for_spec(data.drop_first(), date)
    }
}

/// The tracked minutes of `date`, zero when no data is loaded or the day
/// has none.
pub fn minutes_for(data: Option<&Vec<(Date, u32)>>, date: Date) -> (m: u32)
    ensures
        m == match data {
            Some(d) => minutes_for_spec(d@, date),
            None => 0,
        },
{
    let d = match data {
        Some(d) => d,
        None => return 0,
    };
    let mut i: usize = 0;
    assert(d@.skip(0) =~= d@);
    while i < d.len()
        invariant
            i <= d@.len(),
            data == Some(d),
            minutes_for_spec(d@, date) == minutes_for_spec(d@.skip(i as int), date),
        decreases d@.len() - i,
    {
        assert(d@.skip(i as int)[0] == d@[i as int]);
        assert(d@.skip(i as int).drop_first() =~= d@.skip(i + 1));
        let e = d[i];
        if e.0 == date {
            assert(d@.skip(i as int)[0].0 == date);
            assert(d@.skip(i as int).len() > 0);
            assert(minutes_for_spec(d@.skip(i as int), date) == d@.skip(i as int)[0].1);
            return e.1;
        }
        i = i + 1;
    }
    0
}

/// One day's bar: its date, its height in tenths of an hour, and the raw
/// minutes behind it (which decide its style where the height floors to
/// zero).
#[derive(Clone, Copy, Debug, PartialEq, Eq, Structural)]
pub struct BarValue {
    pub date: Date,
    pub tenths: u64,
    pub minutes: u32,
}

/// The bar of `date` for the week's data.
pub open spec fn bar_value_spec(data: Option<Seq<(Date, u32)>>, date: Date) -> BarValue {
    let minutes = match data {
        Some(d) => minutes_for_spec(d, date),
        None => 0,
    };
    BarValue { date, tenths: bar_tenths_spec(minutes), minutes }
}

/// The seven bars of `week`, in its order: each day's minutes from the
/// week's data (zero for a day with none) and the height they give.
pub fn bar_values(data: Option<&Vec<(Date, u32)>>, week: &[Date; 7]) -> (r: Vec<BarValue>)
    ensures
        r@.len() == 7,
        forall|i: int| 0 <= i < 7 ==> #[trigger] r@[i] == bar_value_spec(
            match data { Some(d) => Some(d@), None => None }, week@[i]),
{
    let ghost dv = match data { Some(d) => Some(d@), None => None::<Seq<(Date, u32)>> };
    let mut r: Vec<BarValue> = Vec::new();
    let mut i: usize = 0;
    while i < 7
        invariant
            i <= 7,
            week@.len() == 7,
            dv == match data { Some(d) => Some(d@), None => None::<Seq<(Date, u32)>> },
            r@.len() == i,
            forall|k: int| 0 <= k < i ==> #[trigger] r@[k] == bar_value_spec(dv, week@[k]),
        decreases 7 - i,
    {
        let date = week[i];
        let minutes = minutes_for(data, date);
        r.push(BarValue { date, tenths: bar_tenths(minutes), minutes });
        i = i + 1;
    }
    r
}

/// The most minutes any of the week's days has.
pub open spec fn week_max_spec(data: Option<Seq<(Date, u32)>>, week: Seq<Date>) -> u32
    decreases week.len(),
{
    if week.len() == 0 {
        0
    } else {
        let rest = week_max_spec(data, week.drop_last());
        let m = match data {
            Some(d) => minutes_for_spec(d, week.last()),
            None => 0,
        };
        if m > rest { m } else { rest }
    }
}

/// The tallest tracked day of the week, in minutes: the ceiling must never
/// clip it, whatever the target.
pub fn week_max_minutes(data: Option<&Vec<(Date, u32)>>, week: &[Date; 7]) -> (m: u32)
    ensures
        m == week_max_spec(match data { Some(d) => Some(d@), None => None }, week@),
{
    let ghost dv = match data { Some(d) => Some(d@), None => None::<Seq<(Date, u32)>> };
    let mut best: u32 = 0;
    let mut i: usize = 0;
    while i < 7
        invariant
            i <= 7,
            week@.len() == 7,
            dv == match data { Some(d) => Some(d@), None => None::<Seq<(Date, u32)>> },
            best == week_max_spec(dv, week@.take(i as int)),
        decreases 7 - i,
    {
        assert(week@.take(i + 1).drop_last() =~= week@.take(i as int));
        let m = minutes_for(data, week[i]);
        if m > best {
            best = m;
        }
        i = i + 1;
    }
    assert(week@.take(7) =~= week@);
    best
}

/// The sum of the week's tracked minutes.
pub open spec fn week_total_spec(data: Seq<(Date, u32)>) -> int
    decreases data.len(),
{
    if data.len() == 0 { 0 } else { week_total_spec(data.drop_last()) + data.last().1 }
}

/// The week's tracked minutes in all, zero when no data is loaded.
pub fn total_weekly_minutes(data: Option<&Vec<(Date, u32)>>) -> (t: u64)
    requires
        data matches Some(d) ==> d@.len() <= u32::MAX,
    ensures
        t == match data { Some(d) => week_total_spec(d@), None => 0 },
{
    let d = match data {
        Some(d) => d,
        None => return 0,
    };
    let mut total: u64 = 0;
    let mut i: usize = 0;
    while i < d.len()
        invariant
            i <= d@.len(),
            d@.len() <= u32::MAX,
            total == week_total_spec(d@.take(i as int)),
            total <= i * (u32::MAX as int),
        decreases d@.len() - i,
    {
        assert(d@.take(i + 1).drop_last() =~= d@.take(i as int));
        proof {
            assert(total + d@[i as int].1 <= (i + 1) * (u32::MAX as int)) by (nonlinear_arith)
                requires total <= i * (u32::MAX as int), d@[i as int].1 <= u32::MAX;
            assert((i + 1) * (u32::MAX as int) <= (u32::MAX as int) * (u32::MAX as int)) by (nonlinear_arith)
                requires i + 1 <= u32::MAX;
        }
        total = total + d[i].1 as u64;
        i = i + 1;
    }
    assert(d@.take(d@.len() as int) =~= d@);
    total
}

/// The row of the goal line inside a chart area starting at row `y` and
/// `height` rows tall (its bottom row holds the day labels), for the
/// ceiling `ceiling` and the target `raw_target`: the target's share of
/// the bar rows, at least one row up so that the line never lands on the
/// labels; `None` when the area has no bar row.
pub open spec fn goal_row_spec(y: u16, height: u16, ceiling: u64, raw_target: u64) -> Option<u16> {
    if height < 2 {
        None
    } else {
        let bars = height - 1;
        let t = if target_tenths_spec(raw_target) < ceiling { target_tenths_spec(raw_target) } else { ceiling };
        let f = t * bars / ceiling as int;
        let filled = if f < 1 { 1 } else { f };
        Some((y + bars - filled) as u16)
    }
}

/// The row the goal line sits on.
pub fn goal_marker_row(y: u16, height: u16, ceiling: u64, raw_target: u64) -> (r: Option<u16>)
    requires
        ceiling > 0,
        ceiling as int * 65535 <= u64::MAX,
        y as int + height as int <= u16::MAX,
    ensures
        r == goal_row_spec(y, height, ceiling, raw_target),
{
    if height < 2 {
        return None;
    }
    let bars = height - 1;
    let target = target_tenths(raw_target);
    let t = if target < ceiling { target } else { ceiling };
    assert(t * bars <= ceiling * 65535) by (nonlinear_arith)
        requires t <= ceiling, bars <= 65535;
    let f = t * (bars as u64) / ceiling;
    assert(f <= bars) by (nonlinear_arith)
        requires t <= ceiling, ceiling > 0, f == (t * bars) / (ceiling as int);
    let filled: u16 = if f < 1 { 1 } else { f as u16 };
    Some(y + bars - filled)
}

/// Bar width and the gap between bars for a chart `width` columns wide:
/// seven bars with six gaps of at least a column in what the border and
/// padding leave, each bar at least three columns ("10h"), the rest spread
/// over the gaps.
pub open spec fn bar_dimensions_spec(width: u16) -> (u16, u16) {
    let content: int = if width > 4 { width - 4 } else { 0 };
    let raw: int = if content > 6 { (content - 6) / 7 } else { 1 };
    let bar: int = if raw < 3 { 3 } else { raw };
    let used: int = 7 * bar;
    let gap: int = if used < content { (content - used) / 6 } else { 1 };
    (bar as u16, gap as u16)
}

/// Bar width and gap for a chart `width` columns wide.
pub fn calculate_bar_dimensions(width: u16) -> (r: (u16, u16))
    ensures
        r == bar_dimensions_spec(width),
{
    let content: u16 = if width > 4 { width - 4 } else { 0 };
    let raw: u16 = if content > 6 { (content - 6) / 7 } else { 1 };
    let bar: u16 = if raw < 3 { 3 } else { raw };
    let used: u32 = 7 * (bar as u32);
    let gap: u16 = if used < content as u32 { ((content as u32 - used) / 6) as u16 } else { 1 };
    (bar, gap)
}

/// How a day's bar is drawn.
#[derive(Clone, Copy, Debug, PartialEq, Eq, Structural)]
pub enum BarStyle {
    /// The active date.
    Active,
    /// A day with tracked time.
    Populated,
    /// A day with none.
    Inactive,
}

/// The style of the bar of `date`: the active date wins over having data,
/// and the raw minutes (not the floored tenths) decide whether a day has
/// data, so a day with a few minutes still shows as populated.
pub fn style_for(date: Date, active_date: Date, minutes: u32) -> (s: BarStyle)
    ensures
        s == (if date == active_date { BarStyle::Active } else if minutes > 0 { BarStyle::Populated } else { BarStyle::Inactive }),
{
    if date == active_date {
        BarStyle::Active
    } else if minutes > 0 {
        BarStyle::Populated
    } else {
        BarStyle::Inactive
    }
}

/// The chart never clips a bar, and its ceiling is a whole number of hours
/// no lower than the target.
pub proof fn law_ceiling_never_clips_the_tallest_bar(week_max_minutes: u32, raw_target: u64)
    ensures
        bar_tenths_spec(week_max_minutes) <= chart_ceiling_spec(week_max_minutes, raw_target),
        target_tenths_spec(raw_target) <= chart_ceiling_spec(week_max_minutes, raw_target),
        chart_ceiling_spec(week_max_minutes, raw_target) % 10 == 0,
        chart_ceiling_spec(week_max_minutes, raw_target) >= 10,
{
}

/// The goal line always sits on a bar row: below the top of the area and
/// above the day-labels row.
pub proof fn law_goal_line_stays_on_a_bar_row(y: u16, height: u16, ceiling: u64, raw_target: u64)
    requires
        ceiling > 0,
        y as int + height as int <= u16::MAX,
    ensures
        goal_row_spec(y, height, ceiling, raw_target) matches Some(row) ==> y <= row < y + height - 1,
{
    if height >= 2 {
        let bars = height - 1;
        let t = if target_tenths_spec(raw_target) < ceiling { target_tenths_spec(raw_target) } else { ceiling };
        assert(t * bars / ceiling as int <= bars) by (nonlinear_arith)
            requires t <= ceiling, ceiling > 0, bars >= 0;
    }
}

} // verus!
