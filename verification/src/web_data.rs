//! The records the web API answers with: one day's figures, and a week's
//! days with their totals and a per-project rollup sorted by name.
//!
//! Durations are kept in whole minutes here; the API's hour figures are
//! those minutes divided by sixty, which the serving layer computes.

use vstd::prelude::*;

use crate::data_svc::{
    booked, booking_sum, is_prefix, lemma_booking_sum_prefix, lemma_name_total_le_sum, lemma_prefix_transitive,
    lemma_push_booking, lemma_take_step, name_total, strs, Booking,
};
use crate::date::Date;
use crate::day::{clock_time_option_text, times_well_formed, ProjectEntry, TimeTrackingData};
use crate::project_list::copy_strings;
use crate::text::{lemma_lex_lt_asymmetric, lemma_lex_lt_irreflexive, lemma_lex_lt_total, lemma_lex_lt_transitive, lex_lt, str_eq, str_lt};

verus! {

/// One project of a day.
#[derive(Debug)]
pub struct ProjectData {
    /// The project code.
    pub name: String,
    /// Minutes booked against it that day.
    pub total_minutes: u32,
    /// Its notes, in file order.
    pub notes: Vec<String>,
}

/// One day as the API reports it.
#[derive(Debug)]
pub struct DayData {
    /// The date, `YYYY-MM-DD`.
    pub date: String,
    /// Working minutes.
    pub total_minutes: u32,
    /// Minutes of gaps between entries.
    pub dead_time_minutes: u32,
    /// The day's projects, in file order.
    pub projects: Vec<ProjectData>,
    /// Problems met while reading the day's file.
    pub warnings: Vec<String>,
    /// The first time of the day, `H:MM` or `N/A`; absent for a day with
    /// no file.
    pub start_time: Option<String>,
    /// The last time of the day, likewise.
    pub end_time: Option<String>,
}

/// A project's minutes across a week.
#[derive(Debug)]
pub struct ProjectSummary {
    /// The project code.
    pub name: String,
    /// Minutes booked against it across the week.
    pub total_minutes: u64,
}

/// A week as the API reports it.
#[derive(Debug)]
pub struct WeekData {
    /// The week's first date, `YYYY-MM-DD`.
    pub start_date: String,
    /// The week's last date, `YYYY-MM-DD`.
    pub end_date: String,
    /// Working minutes across the days that loaded.
    pub total_minutes: u64,
    /// Dead minutes across the days that loaded.
    pub dead_time_minutes: u64,
    /// The seven days in order; a day that failed to load is reported empty.
    pub days: Vec<DayData>,
    /// Minutes per project across the week, sorted by project code.
    pub project_summaries: Vec<ProjectSummary>,
}

/// `r` reports `p`.
pub open spec fn reports_project(r: ProjectData, p: ProjectEntry) -> bool {
    &&& r.name@ == p.name@
    &&& r.total_minutes == p.total_minutes
    &&& strs(r.notes@) == strs(p.notes@)
}

/// `r` is the empty report for `date`.
pub open spec fn is_empty_day(r: DayData, date: Date) -> bool {
    &&& r.date@ == date.iso_spec()
    &&& r.total_minutes == 0
    &&& r.dead_time_minutes == 0
    &&& r.projects@.len() == 0
    &&& r.warnings@.len() == 0
    &&& r.start_time is None
    &&& r.end_time is None
}

/// `r` reports the day `d` dated `date`.
pub open spec fn reports_day(r: DayData, date: Date, d: TimeTrackingData) -> bool {
    &&& r.date@ == date.iso_spec()
    &&& r.total_minutes == d.total_minutes
    &&& r.dead_time_minutes == d.dead_time_minutes
    &&& r.projects@.len() == d.projects@.len()
    &&& forall|k: int| 0 <= k < d.projects@.len() ==> reports_project(#[trigger] r.projects@[k], d.projects@[k])
    &&& strs(r.warnings@) == strs(d.warnings@)
    &&& r.start_time matches Some(s) && s@ == clock_time_option_text(d.start_time, "N/A"@)
    &&& r.end_time matches Some(e) && e@ == clock_time_option_text(d.end_time, "N/A"@)
}

impl DayData {
    /// The report for `date` when it has no file.
    pub fn empty(date: &Date) -> (r: DayData)
        ensures
            is_empty_day(r, *date),
    {
        DayData {
            date: date.iso_string(),
            total_minutes: 0,
            dead_time_minutes: 0,
            projects: Vec::new(),
            warnings: Vec::new(),
            start_time: None,
            end_time: None,
        }
    }
}

/// The report for `date`, whose file parsed to `data` (`None` when there
/// is no file).
pub fn day_data_for(date: &Date, data: Option<&TimeTrackingData>) -> (r: DayData)
    requires
        data matches Some(d) ==> times_well_formed(*d),
    ensures
        match data {
            Some(d) => reports_day(r, *date, *d),
            None => is_empty_day(r, *date),
        },
{
    let d = match data {
        None => return DayData::empty(date),
        Some(d) => d,
    };
    let mut projects: Vec<ProjectData> = Vec::new();
    let mut i: usize = 0;
    while i < d.projects.len()
        invariant
            i <= d.projects@.len(),
            projects@.len() == i,
            forall|k: int| 0 <= k < i ==> reports_project(#[trigger] projects@[k], d.projects@[k]),
        decreases d.projects@.len() - i,
    {
        let p = &d.projects[i];
        projects.push(ProjectData { name: p.name.clone(), total_minutes: p.total_minutes, notes: copy_strings(&p.notes) });
        i = i + 1;
    }
    DayData {
        date: date.iso_string(),
        total_minutes: d.total_minutes,
        dead_time_minutes: d.dead_time_minutes,
        projects,
        warnings: copy_strings(&d.warnings),
        start_time: Some(d.formatted_start_time()),
        end_time: Some(d.formatted_end_time()),
    }
}

/// The bookings one loaded day contributes to the rollup: each project's
/// code and minutes.
pub open spec fn day_data_bookings(d: Option<DayData>) -> Seq<Booking> {
    match d {
        Some(x) => x.projects@.map_values(|p: ProjectData| (p.name@, p.total_minutes as nat, Seq::<Seq<char>>::empty())),
        None => Seq::empty(),
    }
}

/// The bookings of the days, day by day.
pub open spec fn week_data_bookings(days: Seq<Option<DayData>>) -> Seq<Booking>
    decreases days.len(),
{
    if days.len() == 0 {
        Seq::empty()
    } else {
        week_data_bookings(days.drop_last()) + day_data_bookings(days.last())
    }
}

/// `ps` is the rollup of `bs` by project code: one entry per booked code,
/// sorted by code, each with the code's total.
pub open spec fn totals_by_name(ps: Seq<ProjectSummary>, bs: Seq<Booking>) -> bool {
    &&& forall|i: int, j: int| 0 <= i < j < ps.len() ==> lex_lt(#[trigger] ps[i].name@, #[trigger] ps[j].name@)
    &&& forall|i: int| 0 <= i < ps.len() ==> booked(bs, (#[trigger] ps[i]).name@)
        && ps[i].total_minutes == name_total(bs, ps[i].name@)
    &&& forall|name: Seq<char>| booked(bs, name) ==> exists|i: int| 0 <= i < ps.len() && (#[trigger] ps[i]).name@ == name
}

/// The working (or dead) minutes of the days that loaded.
pub open spec fn loaded_minutes(days: Seq<Option<DayData>>, dead: bool) -> nat
    decreases days.len(),
{
    if days.len() == 0 {
        0
    } else {
        loaded_minutes(days.drop_last(), dead) + match days.last() {
            Some(d) => if dead { d.dead_time_minutes as nat } else { d.total_minutes as nat },
            None => 0nat,
        }
    }
}

/// The minutes of all of `ps` together.
pub open spec fn summary_minutes(ps: Seq<ProjectSummary>) -> nat
    decreases ps.len(),
{
    if ps.len() == 0 {
        0
    } else {
        summary_minutes(ps.drop_last()) + ps.last().total_minutes as nat
    }
}

proof fn lemma_summary_minutes_update(ps: Seq<ProjectSummary>, i: int, x: ProjectSummary)
    requires
        0 <= i < ps.len(),
    ensures
        summary_minutes(ps.update(i, x)) + ps[i].total_minutes == summary_minutes(ps) + x.total_minutes,
    decreases ps.len(),
{
    if i < ps.len() - 1 {
        assert(ps.update(i, x).drop_last() =~= ps.drop_last().update(i, x));
        lemma_summary_minutes_update(ps.drop_last(), i, x);
    } else {
        assert(ps.update(i, x).drop_last() =~= ps.drop_last());
    }
}

proof fn lemma_summary_minutes_insert(ps: Seq<ProjectSummary>, i: int, x: ProjectSummary)
    requires
        0 <= i <= ps.len(),
    ensures
        summary_minutes(ps.insert(i, x)) == summary_minutes(ps) + x.total_minutes,
    decreases ps.len(),
{
    if i < ps.len() {
        assert(ps.insert(i, x).drop_last() =~= ps.drop_last().insert(i, x));
        lemma_summary_minutes_insert(ps.drop_last(), i, x);
    } else {
        assert(ps.insert(i, x).drop_last() =~= ps);
    }
}

fn add_to_totals(acc: &mut Vec<ProjectSummary>, name: &String, minutes: u32, Ghost(bs): Ghost<Seq<Booking>>)
    requires
        totals_by_name(old(acc)@, bs),
        summary_minutes(old(acc)@) == booking_sum(bs),
        booking_sum(bs) + minutes <= u64::MAX,
    ensures
        totals_by_name(final(acc)@, bs.push((name@, minutes as nat, Seq::<Seq<char>>::empty()))),
        summary_minutes(final(acc)@) == booking_sum(bs.push((name@, minutes as nat, Seq::<Seq<char>>::empty()))),
{
    let ghost b: Booking = (name@, minutes as nat, Seq::<Seq<char>>::empty());
    let ghost nbs = bs.push(b);
    proof {
        assert forall|n: Seq<char>| #![trigger name_total(nbs, n)] #![trigger booked(nbs, n)]
            name_total(nbs, n) == name_total(bs, n) + (if b.0 == n { b.1 } else { 0 })
            && booked(nbs, n) == (booked(bs, n) || b.0 == n) by {
            lemma_push_booking(bs, b, n);
        }
        lemma_push_booking(bs, b, name@);
        lemma_name_total_le_sum(nbs, name@);
    }
    let mut i: usize = 0;
    while i < acc.len() && str_lt(acc[i].name.as_str(), name.as_str())
        invariant
            i <= acc@.len(),
            acc@ == old(acc)@,
            forall|k: int| 0 <= k < i ==> lex_lt((#[trigger] acc@[k]).name@, name@),
        decreases acc@.len() - i,
    {
        i = i + 1;
    }
    let ghost before = acc@;
    if i < acc.len() && str_eq(acc[i].name.as_str(), name.as_str()) {
        let total = acc[i].total_minutes + minutes as u64;
        let entry = ProjectSummary { name: name.clone(), total_minutes: total };
        acc.set(i, entry);
        proof {
            lemma_summary_minutes_update(before, i as int, acc@[i as int]);
            assert(acc@ =~= before.update(i as int, acc@[i as int]));
            assert forall|k: int| 0 <= k < acc@.len() implies booked(nbs, (#[trigger] acc@[k]).name@)
                && acc@[k].total_minutes == name_total(nbs, acc@[k].name@) by {
                if k != i {
                    assert(acc@[k] == before[k]);
                    if before[k].name@ == name@ {
                        assert(before[i as int].name@ == name@);
                        lemma_lex_lt_irreflexive(name@);
                    }
                }
            }
            assert forall|n: Seq<char>| booked(nbs, n) implies exists|k: int| 0 <= k < acc@.len() && (#[trigger] acc@[k]).name@ == n by {
                if n == name@ {
                    assert(acc@[i as int].name@ == n);
                } else {
                    let k = choose|k: int| 0 <= k < before.len() && (#[trigger] before[k]).name@ == n;
                    assert(acc@[k].name@ == n);
                }
            }
        }
    } else {
        proof {
            if i < acc@.len() {
                lemma_lex_lt_total(acc@[i as int].name@, name@);
            }
            assert(!booked(bs, name@)) by {
                if booked(bs, name@) {
                    let k = choose|k: int| 0 <= k < before.len() && (#[trigger] before[k]).name@ == name@;
                    if k < i {
                        lemma_lex_lt_irreflexive(name@);
                    } else if k > i {
                        assert(lex_lt(before[i as int].name@, before[k].name@));
                        lemma_lex_lt_asymmetric(name@, before[i as int].name@);
                        lemma_lex_lt_irreflexive(name@);
                    }
                }
            }
        }
        let entry = ProjectSummary { name: name.clone(), total_minutes: minutes as u64 };
        acc.insert(i, entry);
        proof {
            lemma_summary_minutes_insert(before, i as int, acc@[i as int]);
            assert(acc@ =~= before.insert(i as int, acc@[i as int]));
            assert forall|x: int, y: int| 0 <= x < y < acc@.len() implies lex_lt(#[trigger] acc@[x].name@, #[trigger] acc@[y].name@) by {
                if y < i {
                    assert(acc@[x] == before[x] && acc@[y] == before[y]);
                } else if y == i {
                    assert(acc@[x] == before[x]);
                } else if x == i {
                    assert(acc@[y] == before[y - 1]);
                    if y - 1 > i {
                        lemma_lex_lt_transitive(name@, before[i as int].name@, before[y - 1].name@);
                    }
                } else if x < i {
                    assert(acc@[x] == before[x] && acc@[y] == before[y - 1]);
                    if y - 1 > i {
                        lemma_lex_lt_transitive(name@, before[i as int].name@, before[y - 1].name@);
                    }
                    lemma_lex_lt_transitive(before[x].name@, name@, before[y - 1].name@);
                } else {
                    assert(acc@[x] == before[x - 1] && acc@[y] == before[y - 1]);
                }
            }
            assert forall|k: int| 0 <= k < acc@.len() implies booked(nbs, (#[trigger] acc@[k]).name@)
                && acc@[k].total_minutes == name_total(nbs, acc@[k].name@) by {
                if k < i {
                    assert(acc@[k] == before[k]);
                    if before[k].name@ == name@ {
                        lemma_lex_lt_irreflexive(name@);
                    }
                } else if k > i {
                    assert(acc@[k] == before[k - 1]);
                    if before[k - 1].name@ == name@ {
                        assert(booked(bs, name@));
                    }
                } else {
                    crate::data_svc::lemma_unbooked(bs, name@);
                }
            }
            assert forall|n: Seq<char>| booked(nbs, n) implies exists|k: int| 0 <= k < acc@.len() && (#[trigger] acc@[k]).name@ == n by {
                if n == name@ {
                    assert(acc@[i as int].name@ == n);
                } else {
                    let k = choose|k: int| 0 <= k < before.len() && (#[trigger] before[k]).name@ == n;
                    if k < i {
                        assert(acc@[k].name@ == n);
                    } else {
                        assert(acc@[k + 1].name@ == n);
                    }
                }
            }
        }
    }
}

proof fn lemma_week_data_bookings_prefix(days: Seq<Option<DayData>>, i: int)
    requires
        0 <= i <= days.len(),
    ensures
        is_prefix(week_data_bookings(days.take(i)), week_data_bookings(days)),
    decreases days.len(),
{
    if i == days.len() {
        assert(days.take(i) =~= days);
        assert(week_data_bookings(days).take(week_data_bookings(days).len() as int) =~= week_data_bookings(days));
    } else {
        assert(days.take(i) =~= days.drop_last().take(i));
        lemma_week_data_bookings_prefix(days.drop_last(), i);
        let w = week_data_bookings(days.drop_last());
        assert((w + day_data_bookings(days.last())).take(w.len() as int) =~= w);
        lemma_prefix_transitive(week_data_bookings(days.take(i)), w, week_data_bookings(days));
    }
}

fn add_day_totals(totals: &mut Vec<ProjectSummary>, day: &DayData, Ghost(bs): Ghost<Seq<Booking>>)
    requires
        totals_by_name(old(totals)@, bs),
        summary_minutes(old(totals)@) == booking_sum(bs),
        booking_sum(bs + day_data_bookings(Some(*day))) <= u64::MAX,
    ensures
        totals_by_name(final(totals)@, bs + day_data_bookings(Some(*day))),
        summary_minutes(final(totals)@) == booking_sum(bs + day_data_bookings(Some(*day))),
{
    let ghost dbs = day_data_bookings(Some(*day));
    let mut j: usize = 0;
    while j < day.projects.len()
        invariant
            j <= day.projects@.len(),
            dbs == day_data_bookings(Some(*day)),
            dbs.len() == day.projects@.len(),
            totals_by_name(totals@, bs + dbs.take(j as int)),
            summary_minutes(totals@) == booking_sum(bs + dbs.take(j as int)),
            booking_sum(bs + dbs) <= u64::MAX,
        decreases day.projects@.len() - j,
    {
        let p = &day.projects[j];
        proof {
            let pre = bs + dbs.take(j as int);
            let next = bs + dbs.take(j + 1);
            assert(next =~= pre.push(dbs[j as int]));
            assert((bs + dbs).take(next.len() as int) =~= next);
            lemma_booking_sum_prefix(next, bs + dbs);
            assert(next.drop_last() =~= pre);
        }
        add_to_totals(totals, &p.name, p.total_minutes, Ghost(bs + dbs.take(j as int)));
        proof {
            assert(bs + dbs.take(j + 1) =~= (bs + dbs.take(j as int)).push(dbs[j as int]));
        }
        j = j + 1;
    }
    assert(dbs.take(dbs.len() as int) =~= dbs);
}

/// `out` is what the week reports for the day whose load gave `loaded`:
/// that day, or the empty day for `date` when its load failed.
pub open spec fn placed_day(out: DayData, loaded: Option<DayData>, date: Date) -> bool {
    match loaded {
        Some(d) => out == d,
        None => is_empty_day(out, date),
    }
}

/// The seven days of `week` as loaded (`None` where a day's load failed)
/// gathered into the week's days, its per-project totals sorted by code,
/// and its working and dead minutes. The project totals add up to every
/// minute booked to a project that week: none is lost or counted twice.
pub fn aggregate_week_days(week: &[Date; 7], days: Vec<Option<DayData>>) -> (r: (Vec<DayData>, Vec<ProjectSummary>, u64, u64))
    requires
        days@.len() == 7,
        forall|i: int| 0 <= i < 7 ==> (#[trigger] days@[i] matches Some(d) ==> d.date@ == week[i].iso_spec()),
        booking_sum(week_data_bookings(days@)) <= u64::MAX,
    ensures
        r.0@.len() == 7,
        forall|i: int| 0 <= i < 7 ==> placed_day(#[trigger] r.0@[i], days@[i], week[i]),
        forall|i: int| 0 <= i < 7 ==> (#[trigger] r.0@[i]).date@ == week[i].iso_spec(),
        totals_by_name(r.1@, week_data_bookings(days@)),
        summary_minutes(r.1@) == booking_sum(week_data_bookings(days@)),
        r.2 == loaded_minutes(days@, false),
        r.3 == loaded_minutes(days@, true),
{
    let ghost orig = days@;
    let mut rest = days;
    let mut out: Vec<DayData> = Vec::new();
    let mut totals: Vec<ProjectSummary> = Vec::new();
    let mut total: u64 = 0;
    let mut dead: u64 = 0;
    let mut k: usize = 0;
    proof {
        assert(orig.take(0) =~= Seq::<Option<DayData>>::empty());
    }
    while k < 7
        invariant
            k <= 7,
            orig.len() == 7,
            rest@ == orig.subrange(k as int, 7),
            out@.len() == k,
            forall|i: int| 0 <= i < k ==> placed_day(#[trigger] out@[i], orig[i], week[i]),
            totals_by_name(totals@, week_data_bookings(orig.take(k as int))),
            summary_minutes(totals@) == booking_sum(week_data_bookings(orig.take(k as int))),
            total == loaded_minutes(orig.take(k as int), false),
            dead == loaded_minutes(orig.take(k as int), true),
            total <= k * 0xffff_ffff,
            dead <= k * 0xffff_ffff,
            booking_sum(week_data_bookings(orig)) <= u64::MAX,
        decreases 7 - k,
    {
        let d = rest.remove(0);
        proof {
            assert(d == orig[k as int]);
            lemma_take_step(orig, k as int);
            lemma_week_data_bookings_prefix(orig, k + 1);
            lemma_booking_sum_prefix(week_data_bookings(orig.take(k + 1)), week_data_bookings(orig));
            assert(rest@ =~= orig.subrange(k + 1, 7));
        }
        match d {
            Some(day) => {
                add_day_totals(&mut totals, &day, Ghost(week_data_bookings(orig.take(k as int))));
                total = total + day.total_minutes as u64;
                dead = dead + day.dead_time_minutes as u64;
                out.push(day);
            },
            None => {
                out.push(DayData::empty(&week[k]));
            },
        }
        k = k + 1;
    }
    proof {
        assert(orig.take(7) =~= orig);
    }
    (out, totals, total, dead)
}

/// The week report for `week`: its first and last dates, and the days as
/// [`aggregate_week_days`] gathers them.
pub fn week_data(week: &[Date; 7], days: Vec<Option<DayData>>) -> (r: WeekData)
    requires
        days@.len() == 7,
        forall|i: int| 0 <= i < 7 ==> (#[trigger] days@[i] matches Some(d) ==> d.date@ == week[i].iso_spec()),
        booking_sum(week_data_bookings(days@)) <= u64::MAX,
    ensures
        r.start_date@ == week[0].iso_spec(),
        r.end_date@ == week[6].iso_spec(),
        r.days@.len() == 7,
        forall|i: int| 0 <= i < 7 ==> placed_day(#[trigger] r.days@[i], days@[i], week[i]),
        forall|i: int| 0 <= i < 7 ==> (#[trigger] r.days@[i]).date@ == week[i].iso_spec(),
        totals_by_name(r.project_summaries@, week_data_bookings(days@)),
        summary_minutes(r.project_summaries@) == booking_sum(week_data_bookings(days@)),
        r.total_minutes == loaded_minutes(days@, false),
        r.dead_time_minutes == loaded_minutes(days@, true),
{
    let (days_out, project_summaries, total_minutes, dead_time_minutes) = aggregate_week_days(week, days);
    WeekData {
        start_date: week[0].iso_string(),
        end_date: week[6].iso_string(),
        total_minutes,
        dead_time_minutes,
        days: days_out,
        project_summaries,
    }
}

} // verus!
