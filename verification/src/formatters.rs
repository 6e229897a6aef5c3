//! The three report formatters.

use vstd::prelude::*;

use crate::data_svc::WeeklyProject;
use crate::day::{
    duration_decimal_text, duration_minutes_text, format_duration_decimal, format_duration_minutes,
    times_well_formed, TimeTrackingData,
};
use crate::display::{
    bullet_lines, day_summary_text, format_day_summary_impl, line, push_bullet_line, push_line,
    DaySummaryStyle, DEAD_TIME_ERROR_MINUTES,
};
use crate::text::{push_char, push_repeated, repeat_char};

verus! {

/// `c` repeated `n` times, then a line break.
pub open spec fn rule(c: char, n: nat) -> Seq<char> {
    repeat_char(c, n) + seq!['\n']
}

fn push_rule(msg: &mut String, c: char, n: usize)
    ensures
        final(msg)@ == old(msg)@ + rule(c, n as nat),
{
    push_repeated(msg, c, n);
    push_char(msg, '\n');
    assert(final(msg)@ =~= old(msg)@ + rule(c, n as nat));
}

/// `minutes` as `H:MM (H.HH hrs)`, the way totals read in weekly reports.
pub open spec fn hours_pair_text(minutes: nat) -> Seq<char> {
    duration_minutes_text(minutes) + " ("@ + duration_decimal_text(minutes) + " hrs)"@
}

fn push_hours_pair(msg: &mut String, minutes: u32)
    ensures
        final(msg)@ == old(msg)@ + hours_pair_text(minutes as nat),
{
    let m = format_duration_minutes(minutes);
    msg.append(m.as_str());
    msg.append(" (");
    let d = format_duration_decimal(minutes);
    msg.append(d.as_str());
    msg.append(" hrs)");
    assert(final(msg)@ =~= old(msg)@ + hours_pair_text(minutes as nat));
}

/// The banner both the emoji and the plain weekly report open with.
pub open spec fn banner_header_text(week_start: Seq<char>, week_end: Seq<char>) -> Seq<char> {
    "\n"@ + rule('=', 80) + "WEEKLY TIME TRACKING SUMMARY\n"@ + "Week of "@ + week_start
        + " to "@ + week_end + seq!['\n'] + rule('=', 80)
}

fn banner_header(week_start: &str, week_end: &str) -> (s: String)
    ensures
        s@ == banner_header_text(week_start@, week_end@),
{
    let mut msg = String::from_str("\n");
    push_rule(&mut msg, '=', 80);
    msg.append("WEEKLY TIME TRACKING SUMMARY\n");
    msg.append("Week of ");
    msg.append(week_start);
    msg.append(" to ");
    msg.append(week_end);
    push_char(&mut msg, '\n');
    push_rule(&mut msg, '=', 80);
    assert(msg@ =~= banner_header_text(week_start@, week_end@));
    msg
}

/// The banner opening the daily breakdowns of the emoji and plain reports.
pub open spec fn banner_breakdowns_text() -> Seq<char> {
    "\n"@ + rule('=', 80) + "DAILY BREAKDOWNS\n"@ + rule('=', 80)
}

fn banner_breakdowns() -> (s: String)
    ensures
        s@ == banner_breakdowns_text(),
{
    let mut msg = String::from_str("\n");
    push_rule(&mut msg, '=', 80);
    msg.append("DAILY BREAKDOWNS\n");
    push_rule(&mut msg, '=', 80);
    assert(msg@ =~= banner_breakdowns_text());
    msg
}

/// Every project of a weekly rollup: a line each, `bullet` in front, then
/// its notes with `note_bullet` in front.
pub open spec fn weekly_project_lines(ps: Seq<WeeklyProject>, bullet: Seq<char>, note_bullet: Seq<char>) -> Seq<char>
    decreases ps.len(),
{
    if ps.len() == 0 {
        Seq::empty()
    } else {
        let p = ps.last();
        weekly_project_lines(ps.drop_last(), bullet, note_bullet)
            + line(Seq::empty(), bullet + p.name@ + " - "@ + hours_pair_text(p.total_minutes as nat))
            + bullet_lines(Seq::empty(), note_bullet, p.notes@)
    }
}

fn push_weekly_project_lines(msg: &mut String, ps: &[WeeklyProject], bullet: &str, note_bullet: &str)
    ensures
        final(msg)@ == old(msg)@ + weekly_project_lines(ps@, bullet@, note_bullet@),
{
    let ghost start = msg@;
    let mut i: usize = 0;
    while i < ps.len()
        invariant
            i <= ps@.len(),
            msg@ == start + weekly_project_lines(ps@.take(i as int), bullet@, note_bullet@),
        decreases ps@.len() - i,
    {
        let p = &ps[i];
        let mut head = String::from_str(bullet);
        head.append(p.name.as_str());
        head.append(" - ");
        push_hours_pair(&mut head, p.total_minutes);
        push_line(msg, "", head.as_str());
        crate::display::push_bullet_lines(msg, "", note_bullet, &p.notes);
        proof {
            let next = ps@.take(i + 1);
            assert(next.drop_last() =~= ps@.take(i as int));
            assert(next.last() == ps@[i as int]);
            reveal_strlit("");
            assert(""@ =~= Seq::<char>::empty());
        }
        i = i + 1;
        assert(msg@ =~= start + weekly_project_lines(ps@.take(i as int), bullet@, note_bullet@));
    }
    assert(ps@.take(ps@.len() as int) =~= ps@);
}

/// Warnings each on a new line, `bullet` in front, after `header`.
pub open spec fn warning_block(header: Seq<char>, bullet: Seq<char>, ws: Seq<String>) -> Seq<char>
    decreases ws.len(),
{
    if ws.len() == 0 {
        header
    } else {
        warning_block(header, bullet, ws.drop_last()) + seq!['\n'] + bullet + ws.last()@
    }
}

fn warnings_block(header: &str, bullet: &str, ws: &[String]) -> (s: String)
    ensures
        s@ == (if ws@.len() == 0 { Seq::empty() } else { warning_block(header@, bullet@, ws@) }),
{
    let mut msg = String::new();
    if ws.len() > 0 {
        msg.append(header);
        let mut i: usize = 0;
        while i < ws.len()
            invariant
                i <= ws@.len(),
                msg@ == warning_block(header@, bullet@, ws@.take(i as int)),
            decreases ws@.len() - i,
        {
            push_char(&mut msg, '\n');
            msg.append(bullet);
            msg.append(ws[i].as_str());
            proof {
                let next = ws@.take(i + 1);
                assert(next.drop_last() =~= ws@.take(i as int));
                assert(next.last() == ws@[i as int]);
            }
            i = i + 1;
            assert(msg@ =~= warning_block(header@, bullet@, ws@.take(i as int)));
        }
        assert(ws@.take(ws@.len() as int) =~= ws@);
    }
    msg
}

/// What every report formatter renders.
pub trait DisplayFormatter {
    /// The text of [`Self::day_summary`].
    spec fn day_summary_spec(&self, data: TimeTrackingData, indent: Seq<char>) -> Seq<char>;

    /// The text of [`Self::weekly_header`].
    spec fn weekly_header_spec(&self, week_start: Seq<char>, week_end: Seq<char>) -> Seq<char>;

    /// The text of [`Self::weekly_totals`].
    spec fn weekly_totals_spec(&self, total_minutes: nat, dead_minutes: nat) -> Seq<char>;

    /// The text of [`Self::weekly_warnings`].
    spec fn weekly_warnings_spec(&self, warnings: Seq<String>) -> Seq<char>;

    /// The text of [`Self::weekly_projects`].
    spec fn weekly_projects_spec(&self, projects: Seq<WeeklyProject>) -> Seq<char>;

    /// The text of [`Self::daily_breakdowns_header`].
    spec fn daily_breakdowns_header_spec(&self) -> Seq<char>;

    /// The text of [`Self::day_header`].
    spec fn day_header_spec(&self, day_with_date: Seq<char>) -> Seq<char>;

    /// The text of [`Self::no_file_found`].
    spec fn no_file_found_spec(&self, indent: Seq<char>) -> Seq<char>;

    /// The text of [`Self::no_data_found`].
    spec fn no_data_found_spec(&self, indent: Seq<char>) -> Seq<char>;

    /// A single day's summary, each line prefixed with `indent`.
    fn day_summary(&self, data: &TimeTrackingData, indent: &str) -> (s: String)
        requires
            times_well_formed(*data),
        ensures
            s@ == self.day_summary_spec(*data, indent@);

    /// The heading of a weekly report.
    fn weekly_header(&self, week_start: &str, week_end: &str) -> (s: String)
        ensures
            s@ == self.weekly_header_spec(week_start@, week_end@);

    /// A week's working and dead time.
    fn weekly_totals(&self, total_minutes: u32, dead_minutes: u32) -> (s: String)
        ensures
            s@ == self.weekly_totals_spec(total_minutes as nat, dead_minutes as nat);

    /// The week's parser warnings; empty when there are none.
    fn weekly_warnings(&self, warnings: &[String]) -> (s: String)
        ensures
            s@ == self.weekly_warnings_spec(warnings@),
            warnings@.len() == 0 ==> s@.len() == 0;

    /// The week's per-project rollup.
    fn weekly_projects(&self, projects: &[WeeklyProject]) -> (s: String)
        ensures
            s@ == self.weekly_projects_spec(projects@);

    /// The heading above the per-day breakdowns.
    fn daily_breakdowns_header(&self) -> (s: String)
        ensures
            s@ == self.daily_breakdowns_header_spec();

    /// The heading of one day in the weekly report.
    fn day_header(&self, day_with_date: &str) -> (s: String)
        ensures
            s@ == self.day_header_spec(day_with_date@);

    /// The note for a day with no file.
    fn no_file_found(&self, indent: &str) -> (s: String)
        ensures
            s@ == self.no_file_found_spec(indent@);

    /// The note for a day whose file holds no time.
    fn no_data_found(&self, indent: &str) -> (s: String)
        ensures
            s@ == self.no_data_found_spec(indent@);
}

/// The emoji-rich day summary style.
pub open spec fn default_style() -> DaySummaryStyle {
    DaySummaryStyle {
        overview_header: "📅 TIME OVERVIEW",
        working_header: "⏱️  WORKING TIME",
        dead_header: "⏸️  DEAD TIME",
        no_dead_msg: "✅ No dead time (gaps) found",
        dead_warn: "⚠️",
        dead_error: "❌",
        dead_sep: " ",
        warnings_header: "⚠️  WARNINGS",
        warning_bullet: "  ⚠ ",
        projects_header: "📋 PROJECTS",
        project_bullet: "  📌 ",
        note_bullet: "     • ",
        extra_spacing: true,
    }
}

/// The emoji-free day summary style.
pub open spec fn plain_style() -> DaySummaryStyle {
    DaySummaryStyle {
        overview_header: "TIME OVERVIEW",
        working_header: "WORKING TIME",
        dead_header: "DEAD TIME",
        no_dead_msg: "No dead time (gaps) found",
        dead_warn: "WARNING",
        dead_error: "ERROR",
        dead_sep: ": ",
        warnings_header: "WARNINGS",
        warning_bullet: "  - ",
        projects_header: "PROJECTS",
        project_bullet: "  * ",
        note_bullet: "    - ",
        extra_spacing: false,
    }
}

/// The emoji-rich day summary style.
pub fn default_style_value() -> (s: DaySummaryStyle)
    ensures
        s == default_style(),
{
    DaySummaryStyle {
        overview_header: "📅 TIME OVERVIEW",
        working_header: "⏱️  WORKING TIME",
        dead_header: "⏸️  DEAD TIME",
        no_dead_msg: "✅ No dead time (gaps) found",
        dead_warn: "⚠️",
        dead_error: "❌",
        dead_sep: " ",
        warnings_header: "⚠️  WARNINGS",
        warning_bullet: "  ⚠ ",
        projects_header: "📋 PROJECTS",
        project_bullet: "  📌 ",
        note_bullet: "     • ",
        extra_spacing: true,
    }
}

/// The emoji-free day summary style.
pub fn plain_style_value() -> (s: DaySummaryStyle)
    ensures
        s == plain_style(),
{
    DaySummaryStyle {
        overview_header: "TIME OVERVIEW",
        working_header: "WORKING TIME",
        dead_header: "DEAD TIME",
        no_dead_msg: "No dead time (gaps) found",
        dead_warn: "WARNING",
        dead_error: "ERROR",
        dead_sep: ": ",
        warnings_header: "WARNINGS",
        warning_bullet: "  - ",
        projects_header: "PROJECTS",
        project_bullet: "  * ",
        note_bullet: "    - ",
        extra_spacing: false,
    }
}

/// Default emoji-based display formatter.
#[derive(Clone, Copy, Debug)]
pub struct DefaultDisplayFormatter;

/// Plain text display formatter (no emoji).
#[derive(Clone, Copy, Debug)]
pub struct PlainDisplayFormatter;

/// Markdown display formatter.
#[derive(Clone, Copy, Debug)]
pub struct MarkdownDisplayFormatter;

/// The emoji report's weekly totals.
pub open spec fn default_totals_text(total: nat, dead: nat) -> Seq<char> {
    "\n📊 WEEKLY TOTALS\n"@ + rule('-', 40) + "⏱️  Total Working Time: "@ + hours_pair_text(total)
        + seq!['\n'] + if dead > 0 {
        "⏸️  Total Dead Time: "@ + hours_pair_text(dead) + seq!['\n']
    } else {
        "⏸️  Total Dead Time: ✅ None\n"@
    }
}

/// The plain report's weekly totals.
pub open spec fn plain_totals_text(total: nat, dead: nat) -> Seq<char> {
    "\nWEEKLY TOTALS\n"@ + repeat_pair('-', '\n', 40) + "Total Working Time: "@ + hours_pair_text(total)
        + seq!['\n'] + if dead > 0 {
        "Total Dead Time: "@ + hours_pair_text(dead) + seq!['\n']
    } else {
        "Total Dead Time: None\n"@
    }
}

/// The two characters `a` `b` repeated `n` times.
pub open spec fn repeat_pair(a: char, b: char, n: nat) -> Seq<char>
    decreases n,
{
    if n == 0 {
        Seq::empty()
    } else {
        repeat_pair(a, b, (n - 1) as nat) + seq![a, b]
    }
}

fn push_repeat_pair(msg: &mut String, a: char, b: char, n: usize)
    ensures
        final(msg)@ == old(msg)@ + repeat_pair(a, b, n as nat),
{
    let ghost start = msg@;
    let mut i: usize = 0;
    while i < n
        invariant
            i <= n,
            msg@ == start + repeat_pair(a, b, i as nat),
        decreases n - i,
    {
        push_char(msg, a);
        push_char(msg, b);
        i = i + 1;
        assert(msg@ =~= start + repeat_pair(a, b, i as nat));
    }
}

impl DisplayFormatter for DefaultDisplayFormatter {
    open spec fn day_summary_spec(&self, data: TimeTrackingData, indent: Seq<char>) -> Seq<char> {
        day_summary_text(data, indent, default_style())
    }

    open spec fn weekly_header_spec(&self, week_start: Seq<char>, week_end: Seq<char>) -> Seq<char> {
        banner_header_text(week_start, week_end)
    }

    open spec fn weekly_totals_spec(&self, total_minutes: nat, dead_minutes: nat) -> Seq<char> {
        default_totals_text(total_minutes, dead_minutes)
    }

    open spec fn weekly_warnings_spec(&self, warnings: Seq<String>) -> Seq<char> {
        if warnings.len() == 0 {
            Seq::empty()
        } else {
            warning_block("\n⚠️  WEEKLY WARNINGS"@, "  ⚠ "@, warnings)
        }
    }

    open spec fn weekly_projects_spec(&self, projects: Seq<WeeklyProject>) -> Seq<char> {
        if projects.len() == 0 {
            Seq::empty()
        } else {
            "\n📋 WEEKLY PROJECTS SUMMARY\n"@ + weekly_project_lines(projects, "  📌 "@, "     • "@)
        }
    }

    open spec fn daily_breakdowns_header_spec(&self) -> Seq<char> {
        banner_breakdowns_text()
    }

    open spec fn day_header_spec(&self, day_with_date: Seq<char>) -> Seq<char> {
        "\n📅 "@ + day_with_date + seq!['\n'] + rule('=', 60)
    }

    open spec fn no_file_found_spec(&self, indent: Seq<char>) -> Seq<char> {
        indent + "📄 No time tracking file found"@
    }

    open spec fn no_data_found_spec(&self, indent: Seq<char>) -> Seq<char> {
        indent + "💤 No time tracking data found"@
    }

    fn day_summary(&self, data: &TimeTrackingData, indent: &str) -> (s: String) {
        let style = default_style_value();
        format_day_summary_impl(data, indent, &style)
    }

    fn weekly_header(&self, week_start: &str, week_end: &str) -> (s: String) {
        banner_header(week_start, week_end)
    }

    fn weekly_totals(&self, total_minutes: u32, dead_minutes: u32) -> (s: String) {
        let mut msg = String::from_str("\n📊 WEEKLY TOTALS\n");
        push_rule(&mut msg, '-', 40);
        msg.append("⏱️  Total Working Time: ");
        push_hours_pair(&mut msg, total_minutes);
        push_char(&mut msg, '\n');
        if dead_minutes > 0 {
            msg.append("⏸️  Total Dead Time: ");
            push_hours_pair(&mut msg, dead_minutes);
            push_char(&mut msg, '\n');
        } else {
            msg.append("⏸️  Total Dead Time: ✅ None\n");
        }
        assert(msg@ =~= default_totals_text(total_minutes as nat, dead_minutes as nat));
        msg
    }

    fn weekly_warnings(&self, warnings: &[String]) -> (s: String) {
        warnings_block("\n⚠️  WEEKLY WARNINGS", "  ⚠ ", warnings)
    }

    fn weekly_projects(&self, projects: &[WeeklyProject]) -> (s: String) {
        let mut msg = String::new();
        if projects.len() > 0 {
            msg.append("\n📋 WEEKLY PROJECTS SUMMARY\n");
            push_weekly_project_lines(&mut msg, projects, "  📌 ", "     • ");
        }
        assert(msg@ =~= self.weekly_projects_spec(projects@));
        msg
    }

    fn daily_breakdowns_header(&self) -> (s: String) {
        banner_breakdowns()
    }

    fn day_header(&self, day_with_date: &str) -> (s: String) {
        let mut msg = String::from_str("\n📅 ");
        msg.append(day_with_date);
        push_char(&mut msg, '\n');
        push_rule(&mut msg, '=', 60);
        assert(msg@ =~= self.day_header_spec(day_with_date@));
        msg
    }

    fn no_file_found(&self, indent: &str) -> (s: String) {
        let mut msg = String::from_str(indent);
        msg.append("📄 No time tracking file found");
        msg
    }

    fn no_data_found(&self, indent: &str) -> (s: String) {
        let mut msg = String::from_str(indent);
        msg.append("💤 No time tracking data found");
        msg
    }
}

impl DisplayFormatter for PlainDisplayFormatter {
    open spec fn day_summary_spec(&self, data: TimeTrackingData, indent: Seq<char>) -> Seq<char> {
        day_summary_text(data, indent, plain_style())
    }

    open spec fn weekly_header_spec(&self, week_start: Seq<char>, week_end: Seq<char>) -> Seq<char> {
        banner_header_text(week_start, week_end)
    }

    open spec fn weekly_totals_spec(&self, total_minutes: nat, dead_minutes: nat) -> Seq<char> {
        plain_totals_text(total_minutes, dead_minutes)
    }

    open spec fn weekly_warnings_spec(&self, warnings: Seq<String>) -> Seq<char> {
        if warnings.len() == 0 {
            Seq::empty()
        } else {
            warning_block("\nWEEKLY WARNINGS"@, "  - "@, warnings)
        }
    }

    open spec fn weekly_projects_spec(&self, projects: Seq<WeeklyProject>) -> Seq<char> {
        if projects.len() == 0 {
            Seq::empty()
        } else {
            "\nWEEKLY PROJECTS SUMMARY\n\n"@ + weekly_project_lines(projects, "  * "@, "    - "@)
        }
    }

    open spec fn daily_breakdowns_header_spec(&self) -> Seq<char> {
        banner_breakdowns_text()
    }

    open spec fn day_header_spec(&self, day_with_date: Seq<char>) -> Seq<char> {
        "\n"@ + day_with_date + seq!['\n'] + rule('=', 60)
    }

    open spec fn no_file_found_spec(&self, indent: Seq<char>) -> Seq<char> {
        indent + "No time tracking file found"@
    }

    open spec fn no_data_found_spec(&self, indent: Seq<char>) -> Seq<char> {
        indent + "No time tracking data found"@
    }

    fn day_summary(&self, data: &TimeTrackingData, indent: &str) -> (s: String) {
        let style = plain_style_value();
        format_day_summary_impl(data, indent, &style)
    }

    fn weekly_header(&self, week_start: &str, week_end: &str) -> (s: String) {
        banner_header(week_start, week_end)
    }

    fn weekly_totals(&self, total_minutes: u32, dead_minutes: u32) -> (s: String) {
        let mut msg = String::from_str("\nWEEKLY TOTALS\n");
        push_repeat_pair(&mut msg, '-', '\n', 40);
        msg.append("Total Working Time: ");
        push_hours_pair(&mut msg, total_minutes);
        push_char(&mut msg, '\n');
        if dead_minutes > 0 {
            msg.append("Total Dead Time: ");
            push_hours_pair(&mut msg, dead_minutes);
            push_char(&mut msg, '\n');
        } else {
            msg.append("Total Dead Time: None\n");
        }
        assert(msg@ =~= plain_totals_text(total_minutes as nat, dead_minutes as nat));
        msg
    }

    fn weekly_warnings(&self, warnings: &[String]) -> (s: String) {
        warnings_block("\nWEEKLY WARNINGS", "  - ", warnings)
    }

    fn weekly_projects(&self, projects: &[WeeklyProject]) -> (s: String) {
        let mut msg = String::new();
        if projects.len() > 0 {
            msg.append("\nWEEKLY PROJECTS SUMMARY\n\n");
            push_weekly_project_lines(&mut msg, projects, "  * ", "    - ");
        }
        assert(msg@ =~= self.weekly_projects_spec(projects@));
        msg
    }

    fn daily_breakdowns_header(&self) -> (s: String) {
        banner_breakdowns()
    }

    fn day_header(&self, day_with_date: &str) -> (s: String) {
        let mut msg = String::from_str("\n");
        msg.append(day_with_date);
        push_char(&mut msg, '\n');
        push_rule(&mut msg, '=', 60);
        assert(msg@ =~= self.day_header_spec(day_with_date@));
        msg
    }

    fn no_file_found(&self, indent: &str) -> (s: String) {
        let mut msg = String::from_str(indent);
        msg.append("No time tracking file found");
        msg
    }

    fn no_data_found(&self, indent: &str) -> (s: String) {
        let mut msg = String::from_str(indent);
        msg.append("No time tracking data found");
        msg
    }
}

/// The Markdown day summary's projects, each on a line of its own with
/// its notes below it.
pub open spec fn markdown_project_lines(ps: Seq<crate::day::ProjectEntry>, indent: Seq<char>) -> Seq<char>
    decreases ps.len(),
{
    if ps.len() == 0 {
        Seq::empty()
    } else {
        let p = ps.last();
        markdown_project_lines(ps.drop_last(), indent) + indent + "  - **"@ + p.name@ + "** - "@
            + duration_decimal_text(p.total_minutes as nat) + " hours\n"@
            + bullet_lines(indent, "    - "@, p.notes@)
    }
}

/// The Markdown day summary.
pub open spec fn markdown_day_text(data: TimeTrackingData, indent: Seq<char>) -> Seq<char> {
    line(indent, "**Total Time:** "@ + duration_decimal_text(data.total_minutes as nat) + " hours"@)
        + (if data.dead_time_minutes > 0 {
        line(indent, "**Dead Time:** "@ + duration_decimal_text(data.dead_time_minutes as nat) + " hours"@)
    } else {
        Seq::empty()
    }) + (if data.warnings@.len() > 0 {
        line(indent, "**Warnings:**"@) + bullet_lines(indent, "  - ⚠️ "@, data.warnings@)
    } else {
        Seq::empty()
    }) + (if data.projects@.len() > 0 {
        line(indent, "**Projects:**"@) + markdown_project_lines(data.projects@, indent)
    } else {
        Seq::empty()
    })
}

/// The Markdown weekly totals.
pub open spec fn markdown_totals_text(total: nat, dead: nat) -> Seq<char> {
    "## Summary\n"@ + "- **Total Time:** "@ + duration_decimal_text(total) + " hours\n"@ + (if dead > 0 {
        "- **Dead Time:** "@ + duration_decimal_text(dead) + " hours\n"@
    } else {
        Seq::empty()
    }) + seq!['\n']
}

/// One project of the Markdown weekly rollup.
pub open spec fn markdown_weekly_project(p: WeeklyProject) -> Seq<char> {
    "### "@ + p.name@ + seq!['\n'] + "**Time:** "@ + duration_decimal_text(p.total_minutes as nat)
        + " hours\n"@ + (if p.notes@.len() > 0 {
        "**Notes:**\n"@ + bullet_lines(Seq::empty(), "- "@, p.notes@)
    } else {
        Seq::empty()
    }) + seq!['\n']
}

/// The Markdown weekly rollup's projects.
pub open spec fn markdown_weekly_lines(ps: Seq<WeeklyProject>) -> Seq<char>
    decreases ps.len(),
{
    if ps.len() == 0 {
        Seq::empty()
    } else {
        markdown_weekly_lines(ps.drop_last()) + markdown_weekly_project(ps.last())
    }
}

fn push_markdown_project_lines(msg: &mut String, ps: &Vec<crate::day::ProjectEntry>, indent: &str)
    ensures
        final(msg)@ == old(msg)@ + markdown_project_lines(ps@, indent@),
{
    let ghost start = msg@;
    let mut i: usize = 0;
    while i < ps.len()
        invariant
            i <= ps@.len(),
            msg@ == start + markdown_project_lines(ps@.take(i as int), indent@),
        decreases ps@.len() - i,
    {
        let p = &ps[i];
        msg.append(indent);
        msg.append("  - **");
        msg.append(p.name.as_str());
        msg.append("** - ");
        let d = format_duration_decimal(p.total_minutes);
        msg.append(d.as_str());
        msg.append(" hours\n");
        crate::display::push_bullet_lines(msg, indent, "    - ", &p.notes);
        proof {
            let next = ps@.take(i + 1);
            assert(next.drop_last() =~= ps@.take(i as int));
            assert(next.last() == ps@[i as int]);
        }
        i = i + 1;
        assert(msg@ =~= start + markdown_project_lines(ps@.take(i as int), indent@));
    }
    assert(ps@.take(ps@.len() as int) =~= ps@);
}

impl DisplayFormatter for MarkdownDisplayFormatter {
    open spec fn day_summary_spec(&self, data: TimeTrackingData, indent: Seq<char>) -> Seq<char> {
        markdown_day_text(data, indent)
    }

    open spec fn weekly_header_spec(&self, week_start: Seq<char>, week_end: Seq<char>) -> Seq<char> {
        "# Weekly Summary\n"@ + "**Period:** "@ + week_start + " to "@ + week_end + seq!['\n', '\n']
    }

    open spec fn weekly_totals_spec(&self, total_minutes: nat, dead_minutes: nat) -> Seq<char> {
        markdown_totals_text(total_minutes, dead_minutes)
    }

    open spec fn weekly_warnings_spec(&self, warnings: Seq<String>) -> Seq<char> {
        if warnings.len() == 0 {
            Seq::empty()
        } else {
            warning_block("\n**Weekly Warnings:**"@, "  - ⚠️ "@, warnings)
        }
    }

    open spec fn weekly_projects_spec(&self, projects: Seq<WeeklyProject>) -> Seq<char> {
        if projects.len() == 0 {
            Seq::empty()
        } else {
            "## Projects\n"@ + markdown_weekly_lines(projects)
        }
    }

    open spec fn daily_breakdowns_header_spec(&self) -> Seq<char> {
        "## Daily Breakdowns\n"@
    }

    open spec fn day_header_spec(&self, day_with_date: Seq<char>) -> Seq<char> {
        "### "@ + day_with_date + seq!['\n']
    }

    open spec fn no_file_found_spec(&self, indent: Seq<char>) -> Seq<char> {
        indent + "*No time tracking file found*"@
    }

    open spec fn no_data_found_spec(&self, indent: Seq<char>) -> Seq<char> {
        indent + "*No time tracking data found*"@
    }

    fn day_summary(&self, data: &TimeTrackingData, indent: &str) -> (s: String) {
        let mut msg = String::new();
        let mut body = String::from_str("**Total Time:** ");
        let d = format_duration_decimal(data.total_minutes);
        body.append(d.as_str());
        body.append(" hours");
        push_line(&mut msg, indent, body.as_str());
        if data.dead_time_minutes > 0 {
            let mut body = String::from_str("**Dead Time:** ");
            let d = format_duration_decimal(data.dead_time_minutes);
            body.append(d.as_str());
            body.append(" hours");
            push_line(&mut msg, indent, body.as_str());
        }
        if data.warnings.len() > 0 {
            push_line(&mut msg, indent, "**Warnings:**");
            crate::display::push_bullet_lines(&mut msg, indent, "  - ⚠️ ", &data.warnings);
        }
        if data.projects.len() > 0 {
            push_line(&mut msg, indent, "**Projects:**");
            push_markdown_project_lines(&mut msg, &data.projects, indent);
        }
        assert(msg@ =~= markdown_day_text(*data, indent@));
        msg
    }

    fn weekly_header(&self, week_start: &str, week_end: &str) -> (s: String) {
        let mut msg = String::from_str("# Weekly Summary\n");
        msg.append("**Period:** ");
        msg.append(week_start);
        msg.append(" to ");
        msg.append(week_end);
        push_char(&mut msg, '\n');
        push_char(&mut msg, '\n');
        assert(msg@ =~= self.weekly_header_spec(week_start@, week_end@));
        msg
    }

    fn weekly_totals(&self, total_minutes: u32, dead_minutes: u32) -> (s: String) {
        let mut msg = String::from_str("## Summary\n");
        msg.append("- **Total Time:** ");
        let d = format_duration_decimal(total_minutes);
        msg.append(d.as_str());
        msg.append(" hours\n");
        if dead_minutes > 0 {
            msg.append("- **Dead Time:** ");
            let d = format_duration_decimal(dead_minutes);
            msg.append(d.as_str());
            msg.append(" hours\n");
        }
        push_char(&mut msg, '\n');
        assert(msg@ =~= markdown_totals_text(total_minutes as nat, dead_minutes as nat));
        msg
    }

    fn weekly_warnings(&self, warnings: &[String]) -> (s: String) {
        warnings_block("\n**Weekly Warnings:**", "  - ⚠️ ", warnings)
    }

    fn weekly_projects(&self, projects: &[WeeklyProject]) -> (s: String) {
        let mut msg = String::new();
        if projects.len() > 0 {
            msg.append("## Projects\n");
            let ghost start = msg@;
            let mut i: usize = 0;
            while i < projects.len()
                invariant
                    i <= projects@.len(),
                    msg@ == start + markdown_weekly_lines(projects@.take(i as int)),
                decreases projects@.len() - i,
            {
                let p = &projects[i];
                let ghost before = msg@;
                msg.append("### ");
                msg.append(p.name.as_str());
                push_char(&mut msg, '\n');
                msg.append("**Time:** ");
                let d = format_duration_decimal(p.total_minutes);
                msg.append(d.as_str());
                msg.append(" hours\n");
                if p.notes.len() > 0 {
                    msg.append("**Notes:**\n");
                    crate::display::push_bullet_lines(&mut msg, "", "- ", &p.notes);
                    proof {
                        reveal_strlit("");
                        assert(""@ =~= Seq::<char>::empty());
                    }
                }
                push_char(&mut msg, '\n');
                assert(msg@ =~= before + markdown_weekly_project(*p));
                proof {
                    let next = projects@.take(i + 1);
                    assert(next.drop_last() =~= projects@.take(i as int));
                    assert(next.last() == projects@[i as int]);
                }
                i = i + 1;
                assert(msg@ =~= start + markdown_weekly_lines(projects@.take(i as int)));
            }
            assert(projects@.take(projects@.len() as int) =~= projects@);
        }
        assert(msg@ =~= self.weekly_projects_spec(projects@));
        msg
    }

    fn daily_breakdowns_header(&self) -> (s: String) {
        String::from_str("## Daily Breakdowns\n")
    }

    fn day_header(&self, day_with_date: &str) -> (s: String) {
        let mut msg = String::from_str("### ");
        msg.append(day_with_date);
        push_char(&mut msg, '\n');
        assert(msg@ =~= self.day_header_spec(day_with_date@));
        msg
    }

    fn no_file_found(&self, indent: &str) -> (s: String) {
        let mut msg = String::from_str(indent);
        msg.append("*No time tracking file found*");
        msg
    }

    fn no_data_found(&self, indent: &str) -> (s: String) {
        let mut msg = String::from_str(indent);
        msg.append("*No time tracking data found*");
        msg
    }
}

/// The weekly totals report any dead time. The emoji and plain reports
/// end with "None" for the dead time exactly when the week has no dead
/// minutes, and otherwise with those minutes as `H:MM (H.HH hrs)`; the
/// Markdown report ends with a dead-time line exactly when there are dead
/// minutes.
pub proof fn law_weekly_totals_report_any_dead_time(total: nat, dead: nat)
    ensures
        dead > 0 ==> crate::text::ends_with(PlainDisplayFormatter.weekly_totals_spec(total, dead),
            "Total Dead Time: "@ + hours_pair_text(dead) + seq!['\n']),
        dead == 0 ==> crate::text::ends_with(PlainDisplayFormatter.weekly_totals_spec(total, dead),
            "Total Dead Time: None\n"@),
        dead > 0 ==> crate::text::ends_with(DefaultDisplayFormatter.weekly_totals_spec(total, dead),
            "⏸️  Total Dead Time: "@ + hours_pair_text(dead) + seq!['\n']),
        dead == 0 ==> crate::text::ends_with(DefaultDisplayFormatter.weekly_totals_spec(total, dead),
            "⏸️  Total Dead Time: ✅ None\n"@),
        dead > 0 ==> crate::text::ends_with(MarkdownDisplayFormatter.weekly_totals_spec(total, dead),
            "- **Dead Time:** "@ + duration_decimal_text(dead) + " hours\n"@ + seq!['\n']),
        dead == 0 ==> MarkdownDisplayFormatter.weekly_totals_spec(total, dead)
            == "## Summary\n"@ + "- **Total Time:** "@ + duration_decimal_text(total) + " hours\n"@ + seq!['\n'],
{
    let pl = "\nWEEKLY TOTALS\n"@ + repeat_pair('-', '\n', 40) + "Total Working Time: "@ + hours_pair_text(total) + seq!['\n'];
    let de = "\n📊 WEEKLY TOTALS\n"@ + rule('-', 40) + "⏱️  Total Working Time: "@ + hours_pair_text(total) + seq!['\n'];
    let md = "## Summary\n"@ + "- **Total Time:** "@ + duration_decimal_text(total) + " hours\n"@;
    if dead > 0 {
        let pt = "Total Dead Time: "@ + hours_pair_text(dead) + seq!['\n'];
        let dt = "⏸️  Total Dead Time: "@ + hours_pair_text(dead) + seq!['\n'];
        let mt = "- **Dead Time:** "@ + duration_decimal_text(dead) + " hours\n"@;
        assert(plain_totals_text(total, dead) =~= pl + pt);
        crate::text::lemma_ends_with_concat(pl, pt);
        assert(default_totals_text(total, dead) =~= de + dt);
        crate::text::lemma_ends_with_concat(de, dt);
        assert(markdown_totals_text(total, dead) =~= md + (mt + seq!['\n']));
        crate::text::lemma_ends_with_concat(md, mt + seq!['\n']);
    } else {
        assert(plain_totals_text(total, dead) =~= pl + "Total Dead Time: None\n"@);
        crate::text::lemma_ends_with_concat(pl, "Total Dead Time: None\n"@);
        assert(default_totals_text(total, dead) =~= de + "⏸️  Total Dead Time: ✅ None\n"@);
        crate::text::lemma_ends_with_concat(de, "⏸️  Total Dead Time: ✅ None\n"@);
        assert(markdown_totals_text(total, dead) =~= md + seq!['\n']);
    }
}

} // verus!
