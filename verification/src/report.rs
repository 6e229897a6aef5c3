//! The weekly report as the command line prints it, assembled from a
//! formatter's pieces.

use vstd::prelude::*;

use crate::data_svc::{strs, WeeklySummary};
use crate::date::Date;
use crate::day::{times_well_formed, TimeTrackingData};
use crate::formatters::{rule, DisplayFormatter};
use crate::text::{push_char, push_repeated, repeat_char};
use crate::time_utils::{day_with_date_text, format_day_with_date};

verus! {

/// `text` as `println!` prints it.
pub open spec fn printed(text: Seq<char>) -> Seq<char> {
    text + seq!['\n']
}

/// One day of the daily breakdowns: its heading, then its summary, or a
/// note that it has no time or no file.
pub open spec fn day_breakdown<F: DisplayFormatter>(f: &F, day: (Date, String, Option<TimeTrackingData>)) -> Seq<char> {
    printed(f.day_header_spec(day_with_date_text(day.0))) + match day.2 {
        Some(data) => if data.total_minutes > 0 {
            printed(f.day_summary_spec(data, "  "@))
        } else {
            printed(f.no_data_found_spec("  "@))
        },
        None => printed(f.no_file_found_spec("  "@)),
    }
}

/// The daily breakdowns of the first days of a week, in order.
pub open spec fn breakdowns<F: DisplayFormatter>(f: &F, days: Seq<(Date, String, Option<TimeTrackingData>)>) -> Seq<char>
    decreases days.len(),
{
    if days.len() == 0 {
        Seq::empty()
    } else {
        breakdowns(f, days.drop_last()) + day_breakdown(f, days.last())
    }
}

/// The weekly report for the week running from `first` to `last`.
pub open spec fn weekly_report_text<F: DisplayFormatter>(f: &F, first: Date, last: Date, summary: WeeklySummary) -> Seq<char> {
    printed(f.weekly_header_spec(day_with_date_text(first), day_with_date_text(last)))
        + printed(f.weekly_totals_spec(summary.total_minutes as nat, summary.dead_time_minutes as nat))
        + (if summary.warnings@.len() > 0 {
        printed(f.weekly_warnings_spec(summary.warnings@))
    } else {
        Seq::empty()
    }) + (if summary.projects@.len() > 0 {
        printed(f.weekly_projects_spec(summary.projects@))
    } else {
        Seq::empty()
    }) + printed(f.daily_breakdowns_header_spec()) + breakdowns(f, summary.days@) + printed(
        seq!['\n'] + repeat_char('=', 80),
    )
}

/// Every day of a summary that has a parse has real clock times.
pub open spec fn summary_times_well_formed(summary: WeeklySummary) -> bool {
    forall|t: int| 0 <= t < summary.days@.len() ==> ((#[trigger] summary.days@[t]).2 matches Some(d)
        ==> times_well_formed(d))
}

/// Whether every day of `summary` that has a parse has real clock times.
pub fn check_summary_times(summary: &WeeklySummary) -> (r: bool)
    ensures
        r == summary_times_well_formed(*summary),
{
    let mut i: usize = 0;
    while i < summary.days.len()
        invariant
            i <= summary.days@.len(),
            forall|t: int| 0 <= t < i ==> ((#[trigger] summary.days@[t]).2 matches Some(d) ==> times_well_formed(d)),
        decreases summary.days@.len() - i,
    {
        if let Some(d) = &summary.days[i].2 {
            let start_ok = match d.start_time {
                Some(t) => t.minute < 60,
                None => true,
            };
            let end_ok = match d.end_time {
                Some(t) => t.minute < 60,
                None => true,
            };
            if !(start_ok && end_ok) {
                assert(summary.days@[i as int].2 == Some(*d));
                return false;
            }
        }
        i = i + 1;
    }
    true
}

fn push_printed(msg: &mut String, text: &str)
    ensures
        final(msg)@ == old(msg)@ + printed(text@),
{
    msg.append(text);
    push_char(msg, '\n');
    assert(final(msg)@ =~= old(msg)@ + printed(text@));
}

/// The weekly report: heading, totals, warnings and projects when there
/// are any, then a breakdown of each day, closed by a rule.
pub fn weekly_report<F: DisplayFormatter>(f: &F, first: &Date, last: &Date, summary: &WeeklySummary) -> (s: String)
    requires
        summary_times_well_formed(*summary),
    ensures
        s@ == weekly_report_text(f, *first, *last, *summary),
{
    let mut msg = String::new();
    let a = format_day_with_date(first);
    let b = format_day_with_date(last);
    let h = f.weekly_header(a.as_str(), b.as_str());
    push_printed(&mut msg, h.as_str());
    let t = f.weekly_totals(summary.total_minutes, summary.dead_time_minutes);
    push_printed(&mut msg, t.as_str());
    if summary.warnings.len() > 0 {
        let w = f.weekly_warnings(summary.warnings.as_slice());
        push_printed(&mut msg, w.as_str());
    }
    if summary.projects.len() > 0 {
        let p = f.weekly_projects(summary.projects.as_slice());
        push_printed(&mut msg, p.as_str());
    }
    let bh = f.daily_breakdowns_header();
    push_printed(&mut msg, bh.as_str());
    let ghost mid = msg@;
    let mut i: usize = 0;
    proof {
        reveal_strlit("  ");
    }
    while i < summary.days.len()
        invariant
            i <= summary.days@.len(),
            summary_times_well_formed(*summary),
            msg@ == mid + breakdowns(f, summary.days@.take(i as int)),
        decreases summary.days@.len() - i,
    {
        let day = &summary.days[i];
        let ghost before = msg@;
        let label = format_day_with_date(&day.0);
        let dh = f.day_header(label.as_str());
        push_printed(&mut msg, dh.as_str());
        match &day.2 {
            Some(data) => {
                assert(summary.days@[i as int].2 == Some(*data));
                if data.total_minutes > 0 {
                    let ds = f.day_summary(data, "  ");
                    push_printed(&mut msg, ds.as_str());
                } else {
                    let nd = f.no_data_found("  ");
                    push_printed(&mut msg, nd.as_str());
                }
            },
            None => {
                let nf = f.no_file_found("  ");
                push_printed(&mut msg, nf.as_str());
            },
        }
        assert(msg@ =~= before + day_breakdown(f, summary.days@[i as int]));
        proof {
            let next = summary.days@.take(i + 1);
            assert(next.drop_last() =~= summary.days@.take(i as int));
            assert(next.last() == summary.days@[i as int]);
        }
        i = i + 1;
        assert(msg@ =~= mid + breakdowns(f, summary.days@.take(i as int)));
    }
    assert(summary.days@.take(summary.days@.len() as int) =~= summary.days@);
    push_char(&mut msg, '\n');
    push_repeated(&mut msg, '=', 80);
    push_char(&mut msg, '\n');
    assert(msg@ =~= weekly_report_text(f, *first, *last, *summary));
    msg
}

} // verus!
