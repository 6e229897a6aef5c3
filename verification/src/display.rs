//! The text each report formatter renders: a day's summary, and the pieces
//! of the weekly report.
//!
//! Three formatters share one vocabulary. [`DefaultDisplayFormatter`] is
//! the emoji-rich one, [`PlainDisplayFormatter`] the same report without
//! emoji, and [`MarkdownDisplayFormatter`] a Markdown rendering.

use vstd::prelude::*;

use crate::day::{
    clock_time_option_text, duration_decimal_text, duration_minutes_text, format_duration_decimal,
    format_duration_minutes, format_time_option, times_well_formed, ProjectEntry, TimeTrackingData,
};
use crate::text::{push_char, push_repeated, repeat_char};

verus! {

/// `body` on a line of its own, indented by `indent`.
pub open spec fn line(indent: Seq<char>, body: Seq<char>) -> Seq<char> {
    indent + body + seq!['\n']
}

/// One indented line per item, each `bullet` followed by the item.
pub open spec fn bullet_lines(indent: Seq<char>, bullet: Seq<char>, items: Seq<String>) -> Seq<char>
    decreases items.len(),
{
    if items.len() == 0 {
        Seq::empty()
    } else {
        bullet_lines(indent, bullet, items.drop_last()) + line(indent, bullet + items.last()@)
    }
}

/// Appends `body` on a line of its own, indented by `indent`.
pub fn push_line(msg: &mut String, indent: &str, body: &str)
    ensures
        final(msg)@ == old(msg)@ + line(indent@, body@),
{
    msg.append(indent);
    msg.append(body);
    push_char(msg, '\n');
    assert(final(msg)@ =~= old(msg)@ + line(indent@, body@));
}

/// Appends `bullet` and `item` on a line of their own, indented by `indent`.
pub fn push_bullet_line(msg: &mut String, indent: &str, bullet: &str, item: &str)
    ensures
        final(msg)@ == old(msg)@ + line(indent@, bullet@ + item@),
{
    msg.append(indent);
    msg.append(bullet);
    msg.append(item);
    push_char(msg, '\n');
    assert(final(msg)@ =~= old(msg)@ + line(indent@, bullet@ + item@));
}

/// Appends one indented line per item.
pub fn push_bullet_lines(msg: &mut String, indent: &str, bullet: &str, items: &Vec<String>)
    ensures
        final(msg)@ == old(msg)@ + bullet_lines(indent@, bullet@, items@),
{
    let ghost start = msg@;
    let mut i: usize = 0;
    while i < items.len()
        invariant
            i <= items@.len(),
            msg@ == start + bullet_lines(indent@, bullet@, items@.take(i as int)),
        decreases items@.len() - i,
    {
        push_bullet_line(msg, indent, bullet, items[i].as_str());
        proof {
            let next = items@.take(i + 1);
            assert(next.drop_last() =~= items@.take(i as int));
            assert(next.last() == items@[i as int]);
        }
        i = i + 1;
        assert(msg@ =~= start + bullet_lines(indent@, bullet@, items@.take(i as int)));
    }
    assert(items@.take(items@.len() as int) =~= items@);
}

/// The headings and bullets one formatter draws a day summary with.
#[derive(Clone, Copy, Debug)]
pub struct DaySummaryStyle {
    pub overview_header: &'static str,
    pub working_header: &'static str,
    pub dead_header: &'static str,
    pub no_dead_msg: &'static str,
    pub dead_warn: &'static str,
    pub dead_error: &'static str,
    /// Separator between the status label and the dead-time figures.
    pub dead_sep: &'static str,
    pub warnings_header: &'static str,
    pub warning_bullet: &'static str,
    pub projects_header: &'static str,
    pub project_bullet: &'static str,
    pub note_bullet: &'static str,
    /// Whether blank lines separate the sections.
    pub extra_spacing: bool,
}

/// Dead time at or above this many minutes is reported as an error rather
/// than a warning.
pub const DEAD_TIME_ERROR_MINUTES: u32 = 90;

/// A blank line when `on`, nothing otherwise.
pub open spec fn spacing(on: bool) -> Seq<char> {
    if on { seq!['\n'] } else { Seq::empty() }
}

/// The start and end of the day.
pub open spec fn overview_text(data: TimeTrackingData, indent: Seq<char>, style: DaySummaryStyle) -> Seq<char> {
    line(indent, style.overview_header@)
        + line(indent, "Start Time: "@ + clock_time_option_text(data.start_time, "N/A"@))
        + line(indent, "End Time:   "@ + clock_time_option_text(data.end_time, "N/A"@))
        + spacing(style.extra_spacing)
}

/// The working time.
pub open spec fn working_text(data: TimeTrackingData, indent: Seq<char>, style: DaySummaryStyle) -> Seq<char> {
    line(indent, style.working_header@)
        + line(indent, "Total: "@ + duration_minutes_text(data.total_minutes as nat) + " ("@
            + duration_decimal_text(data.total_minutes as nat) + " hours)"@)
        + spacing(style.extra_spacing)
}

/// The dead time: none, a warning below the error threshold, an error at
/// or above it.
pub open spec fn dead_text(data: TimeTrackingData, indent: Seq<char>, style: DaySummaryStyle) -> Seq<char> {
    let body = if data.dead_time_minutes == 0 {
        line(indent, style.no_dead_msg@)
    } else {
        let status = if data.dead_time_minutes < DEAD_TIME_ERROR_MINUTES {
            style.dead_warn@
        } else {
            style.dead_error@
        };
        line(indent, status + style.dead_sep@ + duration_minutes_text(data.dead_time_minutes as nat)
            + " ("@ + duration_decimal_text(data.dead_time_minutes as nat) + " hours)"@)
    };
    line(indent, style.dead_header@) + body + spacing(style.extra_spacing) + spacing(style.extra_spacing)
}

/// The warnings block, absent on a day without warnings.
pub open spec fn warnings_text(data: TimeTrackingData, indent: Seq<char>, style: DaySummaryStyle) -> Seq<char> {
    if data.warnings@.len() == 0 {
        Seq::empty()
    } else {
        line(indent, style.warnings_header@) + bullet_lines(indent, style.warning_bullet@, data.warnings@)
            + spacing(style.extra_spacing)
    }
}

/// One project's line and its notes.
pub open spec fn project_text(p: ProjectEntry, indent: Seq<char>, style: DaySummaryStyle) -> Seq<char> {
    line(indent, style.project_bullet@ + p.name@ + " - "@ + duration_minutes_text(p.total_minutes as nat)
        + " ("@ + duration_decimal_text(p.total_minutes as nat) + " hrs)"@)
        + bullet_lines(indent, style.note_bullet@, p.notes@)
}

/// Every project in order.
pub open spec fn projects_lines(ps: Seq<ProjectEntry>, indent: Seq<char>, style: DaySummaryStyle) -> Seq<char>
    decreases ps.len(),
{
    if ps.len() == 0 {
        Seq::empty()
    } else {
        projects_lines(ps.drop_last(), indent, style) + project_text(ps.last(), indent, style)
    }
}

/// The projects block, or a hint at the file format when there are none.
pub open spec fn projects_text(data: TimeTrackingData, indent: Seq<char>, style: DaySummaryStyle) -> Seq<char> {
    let body = if data.projects@.len() > 0 {
        projects_lines(data.projects@, indent, style)
    } else {
        line(indent, "  No projects found. Make sure to enter time tracking data in the format:"@)
            + line(indent, "  11:45-12:15 project_code"@)
            + line(indent, "  - Comment explaining what you did"@)
    };
    line(indent, style.projects_header@) + body + spacing(style.extra_spacing)
}

/// The whole day summary.
pub open spec fn day_summary_text(data: TimeTrackingData, indent: Seq<char>, style: DaySummaryStyle) -> Seq<char> {
    overview_text(data, indent, style) + working_text(data, indent, style) + dead_text(data, indent, style)
        + warnings_text(data, indent, style) + projects_text(data, indent, style)
}

fn push_spacing(msg: &mut String, on: bool)
    ensures
        final(msg)@ == old(msg)@ + spacing(on),
{
    if on {
        push_char(msg, '\n');
    }
    assert(final(msg)@ =~= old(msg)@ + spacing(on));
}

fn push_overview(msg: &mut String, data: &TimeTrackingData, indent: &str, style: &DaySummaryStyle)
    requires
        times_well_formed(*data),
    ensures
        final(msg)@ == old(msg)@ + overview_text(*data, indent@, *style),
{
    push_line(msg, indent, style.overview_header);
    let mut start = String::from_str("Start Time: ");
    let t = format_time_option(data.start_time, "N/A");
    start.append(t.as_str());
    push_line(msg, indent, start.as_str());
    let mut end = String::from_str("End Time:   ");
    let t = format_time_option(data.end_time, "N/A");
    end.append(t.as_str());
    push_line(msg, indent, end.as_str());
    push_spacing(msg, style.extra_spacing);
    assert(final(msg)@ =~= old(msg)@ + overview_text(*data, indent@, *style));
}

fn push_working(msg: &mut String, data: &TimeTrackingData, indent: &str, style: &DaySummaryStyle)
    ensures
        final(msg)@ == old(msg)@ + working_text(*data, indent@, *style),
{
    push_line(msg, indent, style.working_header);
    let mut body = String::from_str("Total: ");
    let m = format_duration_minutes(data.total_minutes);
    body.append(m.as_str());
    body.append(" (");
    let d = format_duration_decimal(data.total_minutes);
    body.append(d.as_str());
    body.append(" hours)");
    push_line(msg, indent, body.as_str());
    push_spacing(msg, style.extra_spacing);
    assert(final(msg)@ =~= old(msg)@ + working_text(*data, indent@, *style));
}

fn push_dead(msg: &mut String, data: &TimeTrackingData, indent: &str, style: &DaySummaryStyle)
    ensures
        final(msg)@ == old(msg)@ + dead_text(*data, indent@, *style),
{
    push_line(msg, indent, style.dead_header);
    if data.dead_time_minutes == 0 {
        push_line(msg, indent, style.no_dead_msg);
    } else {
        let status = if data.dead_time_minutes < DEAD_TIME_ERROR_MINUTES {
            style.dead_warn
        } else {
            style.dead_error
        };
        let mut body = String::from_str(status);
        body.append(style.dead_sep);
        let m = format_duration_minutes(data.dead_time_minutes);
        body.append(m.as_str());
        body.append(" (");
        let d = format_duration_decimal(data.dead_time_minutes);
        body.append(d.as_str());
        body.append(" hours)");
        push_line(msg, indent, body.as_str());
    }
    push_spacing(msg, style.extra_spacing);
    push_spacing(msg, style.extra_spacing);
    assert(final(msg)@ =~= old(msg)@ + dead_text(*data, indent@, *style));
}

fn push_warnings(msg: &mut String, data: &TimeTrackingData, indent: &str, style: &DaySummaryStyle)
    ensures
        final(msg)@ == old(msg)@ + warnings_text(*data, indent@, *style),
{
    if data.warnings.len() > 0 {
        push_line(msg, indent, style.warnings_header);
        push_bullet_lines(msg, indent, style.warning_bullet, &data.warnings);
        push_spacing(msg, style.extra_spacing);
    }
    assert(final(msg)@ =~= old(msg)@ + warnings_text(*data, indent@, *style));
}

fn push_project(msg: &mut String, p: &ProjectEntry, indent: &str, style: &DaySummaryStyle)
    ensures
        final(msg)@ == old(msg)@ + project_text(*p, indent@, *style),
{
    let mut head = String::from_str(style.project_bullet);
    head.append(p.name.as_str());
    head.append(" - ");
    let m = format_duration_minutes(p.total_minutes);
    head.append(m.as_str());
    head.append(" (");
    let d = format_duration_decimal(p.total_minutes);
    head.append(d.as_str());
    head.append(" hrs)");
    push_line(msg, indent, head.as_str());
    push_bullet_lines(msg, indent, style.note_bullet, &p.notes);
    assert(final(msg)@ =~= old(msg)@ + project_text(*p, indent@, *style));
}

fn push_projects(msg: &mut String, data: &TimeTrackingData, indent: &str, style: &DaySummaryStyle)
    ensures
        final(msg)@ == old(msg)@ + projects_text(*data, indent@, *style),
{
    let ghost start = msg@;
    push_line(msg, indent, style.projects_header);
    if data.projects.len() > 0 {
        let ghost mid = msg@;
        let mut i: usize = 0;
        while i < data.projects.len()
            invariant
                i <= data.projects@.len(),
                msg@ == mid + projects_lines(data.projects@.take(i as int), indent@, *style),
            decreases data.projects@.len() - i,
        {
            push_project(msg, &data.projects[i], indent, style);
            proof {
                let next = data.projects@.take(i + 1);
                assert(next.drop_last() =~= data.projects@.take(i as int));
                assert(next.last() == data.projects@[i as int]);
            }
            i = i + 1;
            assert(msg@ =~= mid + projects_lines(data.projects@.take(i as int), indent@, *style));
        }
        assert(data.projects@.take(data.projects@.len() as int) =~= data.projects@);
    } else {
        push_line(msg, indent, "  No projects found. Make sure to enter time tracking data in the format:");
        push_line(msg, indent, "  11:45-12:15 project_code");
        push_line(msg, indent, "  - Comment explaining what you did");
    }
    push_spacing(msg, style.extra_spacing);
    assert(final(msg)@ =~= start + projects_text(*data, indent@, *style));
}

/// A day's summary drawn in `style`: overview, working time, dead time,
/// warnings and projects, each line prefixed with `indent`.
pub fn format_day_summary_impl(data: &TimeTrackingData, indent: &str, style: &DaySummaryStyle) -> (s: String)
    requires
        times_well_formed(*data),
    ensures
        s@ == day_summary_text(*data, indent@, *style),
{
    let mut msg = String::new();
    push_overview(&mut msg, data, indent, style);
    push_working(&mut msg, data, indent, style);
    push_dead(&mut msg, data, indent, style);
    push_warnings(&mut msg, data, indent, style);
    push_projects(&mut msg, data, indent, style);
    assert(msg@ =~= day_summary_text(*data, indent@, *style));
    msg
}

/// A day summary reports any dead time. Its dead-time block opens with
/// the header line; its next line is the no-dead-time message exactly when
/// the day has no dead minutes, and otherwise the warning (under the error
/// threshold) or error status followed by the dead minutes as
/// `H:MM (H.HH hours)`. That block stands in the summary right after the
/// working time.
pub proof fn law_day_summary_reports_any_dead_time(data: TimeTrackingData, indent: Seq<char>, style: DaySummaryStyle)
    ensures
        ({
            let head = line(indent, style.dead_header@);
            let text = dead_text(data, indent, style);
            let status = if data.dead_time_minutes < DEAD_TIME_ERROR_MINUTES { style.dead_warn@ } else { style.dead_error@ };
            let figures = line(indent, status + style.dead_sep@ + duration_minutes_text(data.dead_time_minutes as nat)
                + " ("@ + duration_decimal_text(data.dead_time_minutes as nat) + " hours)"@);
            &&& crate::text::occurs_at(text, head, 0)
            &&& data.dead_time_minutes == 0 ==> crate::text::occurs_at(text, line(indent, style.no_dead_msg@), head.len() as int)
            &&& data.dead_time_minutes > 0 ==> crate::text::occurs_at(text, figures, head.len() as int)
        }),
        crate::text::occurs_at(
            day_summary_text(data, indent, style),
            dead_text(data, indent, style),
            (overview_text(data, indent, style) + working_text(data, indent, style)).len() as int,
        ),
{
    let head = line(indent, style.dead_header@);
    let text = dead_text(data, indent, style);
    let sp = spacing(style.extra_spacing) + spacing(style.extra_spacing);
    assert(text.subrange(0, head.len() as int) =~= head);
    if data.dead_time_minutes == 0 {
        let l = line(indent, style.no_dead_msg@);
        assert(text =~= head + l + sp);
        assert(text.subrange(head.len() as int, (head.len() + l.len()) as int) =~= l);
    } else {
        let status = if data.dead_time_minutes < DEAD_TIME_ERROR_MINUTES { style.dead_warn@ } else { style.dead_error@ };
        let l = line(indent, status + style.dead_sep@ + duration_minutes_text(data.dead_time_minutes as nat)
            + " ("@ + duration_decimal_text(data.dead_time_minutes as nat) + " hours)"@);
        assert(text =~= head + l + sp);
        assert(text.subrange(head.len() as int, (head.len() + l.len()) as int) =~= l);
    }
    let pre = overview_text(data, indent, style) + working_text(data, indent, style);
    let all = day_summary_text(data, indent, style);
    let post = warnings_text(data, indent, style) + projects_text(data, indent, style);
    assert(all =~= pre + text + post);
    assert(all.subrange(pre.len() as int, (pre.len() + text.len()) as int) =~= text);
}

} // verus!
