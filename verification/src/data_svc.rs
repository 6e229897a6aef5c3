//! Aggregating a week of parsed day files into one rollup.
//!
//! Reading the files is the caller's business; [`summarize_week`] is the
//! fold that turns the days read, in the caller's order, into a
//! [`WeeklySummary`].

use vstd::prelude::*;

use crate::date::Date;
use crate::day::{ProjectEntry, TimeTrackingData};
use crate::text::{
    lemma_lex_lt_irreflexive, lemma_lex_lt_total, lemma_lex_lt_transitive, lex_lt, seq_contains,
    str_contains, str_lt,
};
use crate::time_utils::{day_with_date_text, format_day_with_date};
use crate::config::{borrow_text, copy_text, opt_str_text, opt_text, Config};
use crate::file_utils::{data_dir_name, get_time_tracking_dir_with_override, join_path, path_join, DirError};

verus! {

/// One project's rollup across a week.
#[derive(Clone, Debug, PartialEq, Eq)]
pub struct WeeklyProject {
    /// Project code exactly as it appears in the day files.
    pub name: String,
    /// Minutes booked against this project across the whole week.
    pub total_minutes: u32,
    /// Notes for this project, each rendered as `"<Weekday YYYY-MM-DD>: <note>"`.
    pub notes: Vec<String>,
}

/// Everything a week of day files adds up to.
#[derive(Clone, Debug, PartialEq)]
pub struct WeeklySummary {
    /// Working minutes across the week.
    pub total_minutes: u32,
    /// Dead (gap) minutes across the week.
    pub dead_time_minutes: u32,
    /// Per-project rollup, ordered by minutes descending then name ascending.
    pub projects: Vec<WeeklyProject>,
    /// Parser warnings, each prefixed with the day that produced it.
    pub warnings: Vec<String>,
    /// Working minutes per requested day, zero for a day with no file, in
    /// the order the days were given.
    pub per_day: Vec<(Date, u32)>,
    /// Every requested day in the order given, with its raw content and its
    /// parse; a day with no file contributes `(date, "", None)`.
    pub days: Vec<(Date, String, Option<TimeTrackingData>)>,
}

/// One day as it reaches the fold: its date, and its raw content and parse
/// (both `None` when the day has no file).
pub type DayLoad = (Date, Option<String>, Option<TimeTrackingData>);

/// The texts of a list of strings.
pub open spec fn strs(v: Seq<String>) -> Seq<Seq<char>> {
    v.map_values(|s: String| s@)
}

/// A day counts only when both its content and its parse are present.
pub open spec fn is_loaded(d: DayLoad) -> bool {
    d.1 is Some && d.2 is Some
}

/// The parse of a loaded day.
pub open spec fn loaded_data(d: DayLoad) -> TimeTrackingData {
    d.2->0
}

/// What a note or warning from `date` is prefixed with.
pub open spec fn day_prefix(date: Date) -> Seq<char> {
    day_with_date_text(date) + ": "@
}

/// `texts`, each prefixed with the day they came from.
pub open spec fn prefixed(date: Date, texts: Seq<String>) -> Seq<Seq<char>> {
    texts.map_values(|t: String| day_prefix(date) + t@)
}

/// The warning a markdown heading line (`# ...`) draws from the parser,
/// which the weekly rollup leaves out.
pub open spec fn heading_warning_marker() -> Seq<char> {
    "Error parsing time range '#'"@
}

/// A day's warnings that the rollup keeps, prefixed with the day.
pub open spec fn kept_warnings(date: Date, ws: Seq<String>) -> Seq<Seq<char>>
    decreases ws.len(),
{
    if ws.len() == 0 {
        Seq::empty()
    } else {
        kept_warnings(date, ws.drop_last()) + if seq_contains(ws.last()@, heading_warning_marker()) {
            Seq::empty()
        } else {
            seq![day_prefix(date) + ws.last()@]
        }
    }
}

/// The warnings of a week, day by day.
pub open spec fn week_warnings(days: Seq<DayLoad>) -> Seq<Seq<char>>
    decreases days.len(),
{
    if days.len() == 0 {
        Seq::empty()
    } else {
        week_warnings(days.drop_last()) + if is_loaded(days.last()) {
            kept_warnings(days.last().0, loaded_data(days.last()).warnings@)
        } else {
            Seq::empty()
        }
    }
}

/// Working minutes of one day, zero for a day that is not loaded.
pub open spec fn day_minutes(d: DayLoad) -> nat {
    if is_loaded(d) { loaded_data(d).total_minutes as nat } else { 0 }
}

/// Dead minutes of one day, zero for a day that is not loaded.
pub open spec fn day_dead(d: DayLoad) -> nat {
    if is_loaded(d) { loaded_data(d).dead_time_minutes as nat } else { 0 }
}

/// Working minutes of a week.
pub open spec fn week_total(days: Seq<DayLoad>) -> nat
    decreases days.len(),
{
    if days.len() == 0 { 0 } else { week_total(days.drop_last()) + day_minutes(days.last()) }
}

/// Dead minutes of a week.
pub open spec fn week_dead(days: Seq<DayLoad>) -> nat
    decreases days.len(),
{
    if days.len() == 0 { 0 } else { week_dead(days.drop_last()) + day_dead(days.last()) }
}

/// One project booking of one day: the project's name, its minutes, and its
/// notes prefixed with the day.
pub type Booking = (Seq<char>, nat, Seq<Seq<char>>);

/// The bookings of one day, in file order.
pub open spec fn day_bookings(d: DayLoad) -> Seq<Booking> {
    if is_loaded(d) {
        loaded_data(d).projects@.map_values(
            |p: ProjectEntry| (p.name@, p.total_minutes as nat, prefixed(d.0, p.notes@)),
        )
    } else {
        Seq::empty()
    }
}

/// The bookings of a week, day by day.
pub open spec fn week_bookings(days: Seq<DayLoad>) -> Seq<Booking>
    decreases days.len(),
{
    if days.len() == 0 {
        Seq::empty()
    } else {
        week_bookings(days.drop_last()) + day_bookings(days.last())
    }
}

/// Minutes booked against `name`.
pub open spec fn name_total(bs: Seq<Booking>, name: Seq<char>) -> nat
    decreases bs.len(),
{
    if bs.len() == 0 {
        0
    } else {
        name_total(bs.drop_last(), name) + if bs.last().0 == name { bs.last().1 } else { 0 }
    }
}

/// Notes booked against `name`, in order.
pub open spec fn name_notes(bs: Seq<Booking>, name: Seq<char>) -> Seq<Seq<char>>
    decreases bs.len(),
{
    if bs.len() == 0 {
        Seq::empty()
    } else {
        name_notes(bs.drop_last(), name) + if bs.last().0 == name {
            bs.last().2
        } else {
            Seq::empty()
        }
    }
}

/// Minutes booked against any project.
pub open spec fn booking_sum(bs: Seq<Booking>) -> nat
    decreases bs.len(),
{
    if bs.len() == 0 { 0 } else { booking_sum(bs.drop_last()) + bs.last().1 }
}

/// Some booking is against `name`.
pub open spec fn booked(bs: Seq<Booking>, name: Seq<char>) -> bool {
    exists|t: int| 0 <= t < bs.len() && (#[trigger] bs[t]).0 == name
}

/// `a` comes before `b` in the rollup: more minutes first, then by name.
pub open spec fn ranks_before(a: WeeklyProject, b: WeeklyProject) -> bool {
    a.total_minutes > b.total_minutes || (a.total_minutes == b.total_minutes && lex_lt(a.name@, b.name@))
}

/// `a` is an initial part of `b`.
pub open spec fn is_prefix<A>(a: Seq<A>, b: Seq<A>) -> bool {
    a.len() <= b.len() && b.take(a.len() as int) == a
}

pub(crate) proof fn lemma_prefix_transitive<A>(a: Seq<A>, b: Seq<A>, c: Seq<A>)
    requires
        is_prefix(a, b),
        is_prefix(b, c),
    ensures
        is_prefix(a, c),
{
    assert(c.take(a.len() as int) =~= c.take(b.len() as int).take(a.len() as int));
}

proof fn lemma_week_bookings_prefix(days: Seq<DayLoad>, i: int)
    requires
        0 <= i <= days.len(),
    ensures
        is_prefix(week_bookings(days.take(i)), week_bookings(days)),
    decreases days.len(),
{
    if i == days.len() {
        assert(days.take(i) =~= days);
        assert(week_bookings(days).take(week_bookings(days).len() as int) =~= week_bookings(days));
    } else {
        assert(days.take(i) =~= days.drop_last().take(i));
        lemma_week_bookings_prefix(days.drop_last(), i);
        let w = week_bookings(days.drop_last());
        assert(week_bookings(days) == w + day_bookings(days.last()));
        assert((w + day_bookings(days.last())).take(w.len() as int) =~= w);
        lemma_prefix_transitive(week_bookings(days.take(i)), w, week_bookings(days));
    }
}

pub(crate) proof fn lemma_booking_sum_prefix(a: Seq<Booking>, b: Seq<Booking>)
    requires
        is_prefix(a, b),
    ensures
        booking_sum(a) <= booking_sum(b),
    decreases b.len(),
{
    if a.len() < b.len() {
        assert(b.drop_last().take(a.len() as int) =~= b.take(a.len() as int));
        lemma_booking_sum_prefix(a, b.drop_last());
    } else {
        assert(b.take(b.len() as int) =~= b);
    }
}

pub(crate) proof fn lemma_name_total_le_sum(bs: Seq<Booking>, name: Seq<char>)
    ensures
        name_total(bs, name) <= booking_sum(bs),
    decreases bs.len(),
{
    if bs.len() > 0 {
        lemma_name_total_le_sum(bs.drop_last(), name);
    }
}

pub(crate) proof fn lemma_unbooked(bs: Seq<Booking>, name: Seq<char>)
    requires
        !booked(bs, name),
    ensures
        name_total(bs, name) == 0,
        name_notes(bs, name) == Seq::<Seq<char>>::empty(),
    decreases bs.len(),
{
    if bs.len() > 0 {
        assert(!booked(bs.drop_last(), name)) by {
            if booked(bs.drop_last(), name) {
                let t = choose|t: int| 0 <= t < bs.drop_last().len() && (#[trigger] bs.drop_last()[t]).0 == name;
                assert(bs[t] == bs.drop_last()[t]);
            }
        }
        lemma_unbooked(bs.drop_last(), name);
        assert(bs.last() == bs[bs.len() - 1]);
        assert(name_notes(bs, name) =~= Seq::<Seq<char>>::empty());
    }
}

proof fn lemma_week_total_prefix(days: Seq<DayLoad>, i: int)
    requires
        0 <= i <= days.len(),
    ensures
        week_total(days.take(i)) <= week_total(days),
        week_dead(days.take(i)) <= week_dead(days),
    decreases days.len(),
{
    if i == days.len() {
        assert(days.take(i) =~= days);
    } else {
        assert(days.take(i) =~= days.drop_last().take(i));
        lemma_week_total_prefix(days.drop_last(), i);
    }
}

/// Takes the next day off the front of the list with the list's view.
pub(crate) proof fn lemma_take_step<A>(s: Seq<A>, i: int)
    requires
        0 <= i < s.len(),
    ensures
        s.take(i + 1).drop_last() == s.take(i),
        s.take(i + 1).last() == s[i],
{
    assert(s.take(i + 1).drop_last() =~= s.take(i));
}

proof fn lemma_ranks_total(a: WeeklyProject, b: WeeklyProject)
    requires
        a.name@ != b.name@,
    ensures
        ranks_before(a, b) || ranks_before(b, a),
{
    lemma_lex_lt_total(a.name@, b.name@);
}

proof fn lemma_ranks_transitive(a: WeeklyProject, b: WeeklyProject, c: WeeklyProject)
    requires
        ranks_before(a, b),
        ranks_before(b, c),
    ensures
        ranks_before(a, c),
{
    if a.total_minutes == b.total_minutes && b.total_minutes == c.total_minutes {
        lemma_lex_lt_transitive(a.name@, b.name@, c.name@);
    }
}

proof fn lemma_ranks_irreflexive(a: WeeklyProject)
    ensures
        !ranks_before(a, a),
{
    lemma_lex_lt_irreflexive(a.name@);
}

/// The minutes of all the rows of `ps` together.
pub open spec fn rollup_minutes(ps: Seq<WeeklyProject>) -> nat
    decreases ps.len(),
{
    if ps.len() == 0 {
        0
    } else {
        rollup_minutes(ps.drop_last()) + ps.last().total_minutes as nat
    }
}

proof fn lemma_rollup_minutes_update(ps: Seq<WeeklyProject>, i: int, x: WeeklyProject)
    requires
        0 <= i < ps.len(),
    ensures
        rollup_minutes(ps.update(i, x)) + ps[i].total_minutes == rollup_minutes(ps) + x.total_minutes,
    decreases ps.len(),
{
    if i < ps.len() - 1 {
        assert(ps.update(i, x).drop_last() =~= ps.drop_last().update(i, x));
        lemma_rollup_minutes_update(ps.drop_last(), i, x);
    } else {
        assert(ps.update(i, x).drop_last() =~= ps.drop_last());
    }
}

proof fn lemma_rollup_minutes_insert(ps: Seq<WeeklyProject>, i: int, x: WeeklyProject)
    requires
        0 <= i <= ps.len(),
    ensures
        rollup_minutes(ps.insert(i, x)) == rollup_minutes(ps) + x.total_minutes,
    decreases ps.len(),
{
    if i < ps.len() {
        assert(ps.insert(i, x).drop_last() =~= ps.drop_last().insert(i, x));
        lemma_rollup_minutes_insert(ps.drop_last(), i, x);
    } else {
        assert(ps.insert(i, x).drop_last() =~= ps);
    }
}

/// `acc` is the running rollup of the bookings `bs`: one entry per project
/// name booked, carrying that name's minutes and notes.
pub open spec fn rollup_of(acc: Seq<WeeklyProject>, bs: Seq<Booking>) -> bool {
    &&& forall|a: int, b: int|
        0 <= a < b < acc.len() ==> (#[trigger] acc[a]).name@ != (#[trigger] acc[b]).name@
    &&& forall|a: int|
        0 <= a < acc.len() ==> (#[trigger] acc[a]).total_minutes == name_total(bs, acc[a].name@)
    &&& forall|a: int| 0 <= a < acc.len() ==> strs((#[trigger] acc[a]).notes@) == name_notes(bs, acc[a].name@)
    &&& forall|a: int| 0 <= a < acc.len() ==> booked(bs, (#[trigger] acc[a]).name@)
    &&& forall|t: int|
        0 <= t < bs.len() ==> exists|a: int| 0 <= a < acc.len() && (#[trigger] acc[a]).name@ == (#[trigger] bs[t]).0
}

fn find_project(acc: &Vec<WeeklyProject>, name: &String) -> (r: Option<usize>)
    ensures
        r matches Some(k) ==> k < acc@.len() && acc@[k as int].name@ == name@,
        r is None ==> forall|a: int| 0 <= a < acc@.len() ==> (#[trigger] acc@[a]).name@ != name@,
{
    let mut k: usize = 0;
    while k < acc.len()
        invariant
            k <= acc@.len(),
            forall|a: int| 0 <= a < k ==> (#[trigger] acc@[a]).name@ != name@,
        decreases acc@.len() - k,
    {
        if acc[k].name == *name {
            return Some(k);
        }
        k = k + 1;
    }
    None
}

fn append_all(dst: &mut Vec<String>, src: &Vec<String>)
    ensures
        strs(final(dst)@) == strs(old(dst)@) + strs(src@),
{
    let ghost start = dst@;
    let mut i: usize = 0;
    while i < src.len()
        invariant
            i <= src@.len(),
            strs(dst@) == strs(start) + strs(src@.take(i as int)),
        decreases src@.len() - i,
    {
        let ghost prev = dst@;
        let c = src[i].clone();
        assert(c@ == src@[i as int]@);
        dst.push(c);
        assert(strs(dst@) =~= strs(prev).push(c@));
        assert(strs(src@.take(i + 1)) =~= strs(src@.take(i as int)).push(src@[i as int]@));
        i = i + 1;
        assert(strs(dst@) =~= strs(start) + strs(src@.take(i as int)));
    }
    assert(src@.take(src@.len() as int) =~= src@);
}

pub(crate) proof fn lemma_push_booking(bs: Seq<Booking>, b: Booking, name: Seq<char>)
    ensures
        name_total(bs.push(b), name) == name_total(bs, name) + if b.0 == name { b.1 } else { 0 },
        name_notes(bs.push(b), name) == name_notes(bs, name) + if b.0 == name { b.2 } else { Seq::empty() },
        booking_sum(bs.push(b)) == booking_sum(bs) + b.1,
        booked(bs.push(b), name) == (booked(bs, name) || b.0 == name),
{
    assert(bs.push(b).drop_last() =~= bs);
    if booked(bs, name) {
        let t = choose|t: int| 0 <= t < bs.len() && (#[trigger] bs[t]).0 == name;
        assert(bs.push(b)[t] == bs[t]);
    }
    if b.0 == name {
        assert(bs.push(b)[bs.len() as int] == b);
    }
    if booked(bs.push(b), name) && b.0 != name {
        let t = choose|t: int| 0 <= t < bs.push(b).len() && (#[trigger] bs.push(b)[t]).0 == name;
        assert(bs[t] == bs.push(b)[t]);
    }
}

/// Adds one booking to the running rollup.
fn add_booking(acc: &mut Vec<WeeklyProject>, name: &String, minutes: u32, notes: &Vec<String>, Ghost(bs): Ghost<Seq<Booking>>)
    requires
        rollup_of(old(acc)@, bs),
        rollup_minutes(old(acc)@) == booking_sum(bs),
        booking_sum(bs) + minutes <= u32::MAX,
    ensures
        rollup_of(final(acc)@, bs.push((name@, minutes as nat, strs(notes@)))),
        rollup_minutes(final(acc)@) == booking_sum(bs.push((name@, minutes as nat, strs(notes@)))),
{
    let ghost b: Booking = (name@, minutes as nat, strs(notes@));
    let ghost bs2 = bs.push(b);
    proof {
        assert forall|n: Seq<char>| #![auto]
            name_total(bs2, n) == name_total(bs, n) + (if b.0 == n { b.1 } else { 0 })
            && name_notes(bs2, n) == name_notes(bs, n) + (if b.0 == n { b.2 } else { Seq::empty() })
            && booked(bs2, n) == (booked(bs, n) || b.0 == n) by {
            lemma_push_booking(bs, b, n);
        }
    }
    match find_project(acc, name) {
        Some(k) => {
            let ghost old_acc = acc@;
            let mut item = acc.remove(k);
            proof {
                lemma_name_total_le_sum(bs, name@);
            }
            item.total_minutes = item.total_minutes + minutes;
            append_all(&mut item.notes, notes);
            acc.insert(k, item);
            proof {
                assert(acc@ =~= old_acc.update(k as int, item));
                lemma_rollup_minutes_update(old_acc, k as int, item);
                lemma_push_booking(bs, b, name@);
                assert forall|a: int, c: int|
                    0 <= a < c < acc@.len() implies (#[trigger] acc@[a]).name@ != (#[trigger] acc@[c]).name@ by {
                    assert(old_acc[a].name@ != old_acc[c].name@);
                }
                assert forall|a: int| 0 <= a < acc@.len() && a != k implies (#[trigger] acc@[a]).name@ != name@ by {
                    if a < k {
                        assert(old_acc[a].name@ != old_acc[k as int].name@);
                    } else {
                        assert(old_acc[k as int].name@ != old_acc[a].name@);
                    }
                }
                assert forall|a: int| 0 <= a < acc@.len() implies (#[trigger] acc@[a]).total_minutes
                    == name_total(bs2, acc@[a].name@) by {
                    if a != k {
                        assert(acc@[a] == old_acc[a]);
                    }
                }
                assert forall|a: int| 0 <= a < acc@.len() implies strs((#[trigger] acc@[a]).notes@)
                    == name_notes(bs2, acc@[a].name@) by {
                    if a != k {
                        assert(acc@[a] == old_acc[a]);
                        assert(name_notes(bs2, acc@[a].name@) =~= name_notes(bs, acc@[a].name@));
                    }
                }
                assert forall|a: int| 0 <= a < acc@.len() implies booked(bs2, (#[trigger] acc@[a]).name@) by {
                    if a != k {
                        assert(acc@[a] == old_acc[a]);
                    }
                }
                assert forall|t: int| 0 <= t < bs2.len() implies exists|a: int|
                    0 <= a < acc@.len() && (#[trigger] acc@[a]).name@ == (#[trigger] bs2[t]).0 by {
                    if t < bs.len() {
                        assert(bs2[t] == bs[t]);
                        let a = choose|a: int| 0 <= a < old_acc.len() && (#[trigger] old_acc[a]).name@ == bs[t].0;
                        assert(acc@[a].name@ == old_acc[a].name@);
                    } else {
                        assert(bs2[t] == b);
                        assert(acc@[k as int].name@ == b.0);
                    }
                }
            }
        },
        None => {
            let ghost old_acc = acc@;
            let mut fresh: Vec<String> = Vec::new();
            append_all(&mut fresh, notes);
            assert(strs(Seq::<String>::empty()) =~= Seq::<Seq<char>>::empty());
            let item = WeeklyProject { name: name.clone(), total_minutes: minutes, notes: fresh };
            acc.push(item);
            proof {
                assert(acc@.drop_last() =~= old_acc);
                lemma_push_booking(bs, b, name@);
                assert(!booked(bs, name@)) by {
                    if booked(bs, name@) {
                        let t = choose|t: int| 0 <= t < bs.len() && (#[trigger] bs[t]).0 == name@;
                        let a = choose|a: int| 0 <= a < old_acc.len() && (#[trigger] old_acc[a]).name@ == bs[t].0;
                        assert(old_acc[a].name@ != name@);
                    }
                }
                lemma_unbooked(bs, name@);
                let n = old_acc.len() as int;
                assert(acc@[n] == item);
                assert(strs(item.notes@) =~= name_notes(bs2, name@));
                assert forall|a: int, c: int|
                    0 <= a < c < acc@.len() implies (#[trigger] acc@[a]).name@ != (#[trigger] acc@[c]).name@ by {
                    if c < n {
                        assert(old_acc[a].name@ != old_acc[c].name@);
                    } else {
                        assert(acc@[a] == old_acc[a]);
                    }
                }
                assert forall|a: int| 0 <= a < acc@.len() implies (#[trigger] acc@[a]).total_minutes
                    == name_total(bs2, acc@[a].name@) by {
                    if a < n {
                        assert(acc@[a] == old_acc[a]);
                    }
                }
                assert forall|a: int| 0 <= a < acc@.len() implies strs((#[trigger] acc@[a]).notes@)
                    == name_notes(bs2, acc@[a].name@) by {
                    if a < n {
                        assert(acc@[a] == old_acc[a]);
                        assert(name_notes(bs2, acc@[a].name@) =~= name_notes(bs, acc@[a].name@));
                    }
                }
                assert forall|a: int| 0 <= a < acc@.len() implies booked(bs2, (#[trigger] acc@[a]).name@) by {
                    if a < n {
                        assert(acc@[a] == old_acc[a]);
                    }
                }
                assert forall|t: int| 0 <= t < bs2.len() implies exists|a: int|
                    0 <= a < acc@.len() && (#[trigger] acc@[a]).name@ == (#[trigger] bs2[t]).0 by {
                    if t < bs.len() {
                        assert(bs2[t] == bs[t]);
                        let a = choose|a: int| 0 <= a < old_acc.len() && (#[trigger] old_acc[a]).name@ == bs[t].0;
                        assert(acc@[a] == old_acc[a]);
                    } else {
                        assert(bs2[t] == b);
                        assert(acc@[n].name@ == b.0);
                    }
                }
            }
        },
    }
}

fn prefixed_notes(prefix: &String, notes: &Vec<String>) -> (r: Vec<String>)
    ensures
        strs(r@) == notes@.map_values(|t: String| prefix@ + t@),
{
    let mut r: Vec<String> = Vec::new();
    let mut i: usize = 0;
    while i < notes.len()
        invariant
            i <= notes@.len(),
            strs(r@) == notes@.take(i as int).map_values(|t: String| prefix@ + t@),
        decreases notes@.len() - i,
    {
        let mut s = prefix.clone();
        s.append(notes[i].as_str());
        let ghost prev = r@;
        r.push(s);
        assert(strs(r@) =~= strs(prev).push(s@));
        assert(notes@.take(i + 1).map_values(|t: String| prefix@ + t@) =~= notes@.take(i as int).map_values(
            |t: String| prefix@ + t@,
        ).push(prefix@ + notes@[i as int]@));
        i = i + 1;
    }
    assert(notes@.take(notes@.len() as int) =~= notes@);
    r
}

/// Everything the fold has gathered before the projects are ordered.
struct Gathered {
    total_minutes: u32,
    dead_time_minutes: u32,
    rollup: Vec<WeeklyProject>,
    warnings: Vec<String>,
    per_day: Vec<(Date, u32)>,
    days: Vec<(Date, String, Option<TimeTrackingData>)>,
}

/// The per-day output for one day of the input.
pub open spec fn day_row(out: (Date, String, Option<TimeTrackingData>), d: DayLoad) -> bool {
    &&& out.0 == d.0
    &&& out.1@ == (if is_loaded(d) { (d.1->0)@ } else { Seq::empty() })
    &&& out.2 == (if is_loaded(d) { d.2 } else { None::<TimeTrackingData> })
}

/// The input's sums fit the counters they are kept in.
pub open spec fn week_fits(days: Seq<DayLoad>) -> bool {
    &&& week_total(days) <= u32::MAX
    &&& week_dead(days) <= u32::MAX
    &&& booking_sum(week_bookings(days)) <= u32::MAX
}

fn gather(days: Vec<DayLoad>) -> (g: Gathered)
    requires
        week_fits(days@),
    ensures
        g.total_minutes == week_total(days@),
        g.dead_time_minutes == week_dead(days@),
        strs(g.warnings@) == week_warnings(days@),
        rollup_of(g.rollup@, week_bookings(days@)),
        rollup_minutes(g.rollup@) == booking_sum(week_bookings(days@)),
        g.per_day@.len() == days@.len(),
        forall|t: int| 0 <= t < days@.len() ==> (#[trigger] g.per_day@[t]) == (days@[t].0, day_minutes(days@[t]) as u32),
        g.days@.len() == days@.len(),
        forall|t: int| 0 <= t < days@.len() ==> day_row(#[trigger] g.days@[t], days@[t]),
{
    let ghost orig = days@;
    let mut rest = days;
    let mut total: u32 = 0;
    let mut dead: u32 = 0;
    let mut rollup: Vec<WeeklyProject> = Vec::new();
    let mut warnings: Vec<String> = Vec::new();
    let mut per_day: Vec<(Date, u32)> = Vec::new();
    let mut out_days: Vec<(Date, String, Option<TimeTrackingData>)> = Vec::new();
    let n = rest.len();
    let mut i: usize = 0;
    proof {
        assert(orig.take(0) =~= Seq::<DayLoad>::empty());
        assert(orig.subrange(0, orig.len() as int) =~= orig);
        assert(strs(warnings@) =~= Seq::<Seq<char>>::empty());
    }
    while i < n
        invariant
            n == orig.len(),
            i <= n,
            week_fits(orig),
            rest@ == orig.subrange(i as int, n as int),
            total == week_total(orig.take(i as int)),
            dead == week_dead(orig.take(i as int)),
            strs(warnings@) == week_warnings(orig.take(i as int)),
            rollup_of(rollup@, week_bookings(orig.take(i as int))),
            rollup_minutes(rollup@) == booking_sum(week_bookings(orig.take(i as int))),
            per_day@.len() == i,
            forall|t: int| 0 <= t < i ==> (#[trigger] per_day@[t]) == (orig[t].0, day_minutes(orig[t]) as u32),
            out_days@.len() == i,
            forall|t: int| 0 <= t < i ==> day_row(#[trigger] out_days@[t], orig[t]),
        decreases n - i,
    {
        let ghost d = orig[i as int];
        let ghost before = orig.take(i as int);
        let ghost after = orig.take(i + 1);
        proof {
            lemma_take_step(orig, i as int);
            lemma_week_total_prefix(orig, i + 1);
            lemma_week_bookings_prefix(orig, i + 1);
        }
        let (date, content, parsed) = rest.remove(0);
        assert(rest@ =~= orig.subrange(i + 1, n as int));
        assert(d == (date, content, parsed));
        match (content, parsed) {
            (Some(content), Some(data)) => {
                total = total + data.total_minutes;
                dead = dead + data.dead_time_minutes;
                per_day.push((date, data.total_minutes));
                let mut prefix = format_day_with_date(&date);
                prefix.append(": ");
                let ghost wbase = strs(warnings@);
                let mut w: usize = 0;
                proof {
                    assert(data.warnings@.take(0) =~= Seq::<String>::empty());
                    assert(wbase =~= wbase + kept_warnings(date, data.warnings@.take(0)));
                }
                while w < data.warnings.len()
                    invariant
                        w <= data.warnings@.len(),
                        prefix@ == day_prefix(date),
                        strs(warnings@) == wbase + kept_warnings(date, data.warnings@.take(w as int)),
                    decreases data.warnings@.len() - w,
                {
                    let text = &data.warnings[w];
                    proof {
                        lemma_take_step(data.warnings@, w as int);
                    }
                    let ghost prev = warnings@;
                    if !str_contains(text.as_str(), "Error parsing time range '#'") {
                        let mut line = prefix.clone();
                        line.append(text.as_str());
                        warnings.push(line);
                        assert(strs(warnings@) =~= strs(prev).push(line@));
                    }
                    w = w + 1;
                    assert(strs(warnings@) =~= wbase + kept_warnings(date, data.warnings@.take(w as int)));
                }
                assert(data.warnings@.take(data.warnings@.len() as int) =~= data.warnings@);
                let ghost bbase = week_bookings(before);
                let ghost dayb = day_bookings(d);
                let mut j: usize = 0;
                proof {
                    assert(bbase + dayb.take(0) =~= bbase);
                    assert(week_bookings(after) == bbase + dayb);
                }
                while j < data.projects.len()
                    invariant
                        j <= data.projects@.len(),
                        dayb == data.projects@.map_values(
                            |p: ProjectEntry| (p.name@, p.total_minutes as nat, prefixed(date, p.notes@)),
                        ),
                        prefix@ == day_prefix(date),
                        rollup_of(rollup@, bbase + dayb.take(j as int)),
                        rollup_minutes(rollup@) == booking_sum(bbase + dayb.take(j as int)),
                        is_prefix(bbase + dayb, week_bookings(orig)),
                        booking_sum(week_bookings(orig)) <= u32::MAX,
                    decreases data.projects@.len() - j,
                {
                    let p = &data.projects[j];
                    let notes = prefixed_notes(&prefix, &p.notes);
                    assert(strs(notes@) =~= prefixed(date, p.notes@));
                    let ghost cur = bbase + dayb.take(j as int);
                    proof {
                        assert(cur.push(dayb[j as int]) =~= (bbase + dayb).take(cur.len() as int + 1));
                        lemma_prefix_transitive(cur.push(dayb[j as int]), bbase + dayb, week_bookings(orig));
                        lemma_booking_sum_prefix(cur.push(dayb[j as int]), week_bookings(orig));
                        lemma_push_booking(cur, dayb[j as int], p.name@);
                    }
                    add_booking(&mut rollup, &p.name, p.total_minutes, &notes, Ghost(cur));
                    proof {
                        assert(cur.push((p.name@, p.total_minutes as nat, strs(notes@))) =~= bbase + dayb.take(j + 1));
                    }
                    j = j + 1;
                }
                proof {
                    assert(dayb.take(data.projects@.len() as int) =~= dayb);
                }
                out_days.push((date, content, Some(data)));
            },
            (content, parsed) => {
                per_day.push((date, 0));
                out_days.push((date, String::new(), None));
                proof {
                    assert(!is_loaded(d));
                    assert(day_bookings(d) =~= Seq::<Booking>::empty());
                    assert(week_bookings(after) =~= week_bookings(before));
                }
            },
        }
        proof {
            assert(week_warnings(after) =~= strs(warnings@));
        }
        i = i + 1;
    }
    proof {
        assert(orig.take(n as int) =~= orig);
    }
    Gathered { total_minutes: total, dead_time_minutes: dead, rollup, warnings, per_day, days: out_days }
}

/// Whether `a` comes before `b` in the rollup.
pub fn ranks_before_exec(a: &WeeklyProject, b: &WeeklyProject) -> (r: bool)
    ensures
        r == ranks_before(*a, *b),
{
    a.total_minutes > b.total_minutes || (a.total_minutes == b.total_minutes && str_lt(
        a.name.as_str(),
        b.name.as_str(),
    ))
}

/// Every pair of rows is in rollup order.
pub open spec fn in_rollup_order(ps: Seq<WeeklyProject>) -> bool {
    forall|a: int, b: int| 0 <= a < b < ps.len() ==> ranks_before(#[trigger] ps[a], #[trigger] ps[b])
}

/// No two rows share a name.
pub open spec fn names_distinct(ps: Seq<WeeklyProject>) -> bool {
    forall|a: int, b: int| 0 <= a < b < ps.len() ==> (#[trigger] ps[a]).name@ != (#[trigger] ps[b]).name@
}

fn insert_ranked(sorted: &mut Vec<WeeklyProject>, x: WeeklyProject) -> (p: usize)
    requires
        in_rollup_order(old(sorted)@),
        forall|k: int| 0 <= k < old(sorted)@.len() ==> (#[trigger] old(sorted)@[k]).name@ != x.name@,
    ensures
        p <= old(sorted)@.len(),
        final(sorted)@ == old(sorted)@.insert(p as int, x),
        in_rollup_order(final(sorted)@),
{
    let mut p: usize = 0;
    while p < sorted.len() && !ranks_before_exec(&x, &sorted[p])
        invariant
            p <= sorted@.len(),
            forall|k: int| 0 <= k < sorted@.len() ==> (#[trigger] sorted@[k]).name@ != x.name@,
            forall|k: int| 0 <= k < p ==> ranks_before(#[trigger] sorted@[k], x),
        decreases sorted@.len() - p,
    {
        proof {
            lemma_ranks_total(sorted@[p as int], x);
        }
        p = p + 1;
    }
    let ghost old_sorted = sorted@;
    sorted.insert(p, x);
    proof {
        assert forall|a: int, b: int| 0 <= a < b < sorted@.len() implies ranks_before(
            #[trigger] sorted@[a],
            #[trigger] sorted@[b],
        ) by {
            if b < p {
                assert(sorted@[a] == old_sorted[a] && sorted@[b] == old_sorted[b]);
            } else if b == p {
                assert(sorted@[a] == old_sorted[a]);
            } else if a < p {
                assert(sorted@[a] == old_sorted[a] && sorted@[b] == old_sorted[b - 1]);
            } else if a == p {
                assert(sorted@[b] == old_sorted[b - 1]);
                if b - 1 > p {
                    assert(ranks_before(old_sorted[p as int], old_sorted[b - 1]));
                    lemma_ranks_transitive(x, old_sorted[p as int], old_sorted[b - 1]);
                }
            } else {
                assert(sorted@[a] == old_sorted[a - 1] && sorted@[b] == old_sorted[b - 1]);
            }
        }
    }
    p
}

/// Every element of `r` is one of `pool[0..i]`, and every one of those
/// is in `r`.
pub open spec fn holds_exactly(r: Seq<WeeklyProject>, pool: Seq<WeeklyProject>, i: int) -> bool {
    &&& forall|a: int| 0 <= a < r.len() ==> exists|t: int| 0 <= t < i && #[trigger] r[a] == #[trigger] pool[t]
    &&& forall|t: int| 0 <= t < i ==> exists|a: int| 0 <= a < r.len() && #[trigger] r[a] == #[trigger] pool[t]
}

/// A project not yet placed has a name no placed project has.
proof fn lemma_new_name(sorted: Seq<WeeklyProject>, accs: Seq<WeeklyProject>, i: int)
    requires
        0 <= i < accs.len(),
        names_distinct(accs),
        holds_exactly(sorted, accs, i),
    ensures
        forall|k: int| 0 <= k < sorted.len() ==> (#[trigger] sorted[k]).name@ != accs[i].name@,
{
    assert forall|k: int| 0 <= k < sorted.len() implies (#[trigger] sorted[k]).name@ != accs[i].name@ by {
        let t = choose|t: int| 0 <= t < i && #[trigger] sorted[k] == #[trigger] accs[t];
        assert(accs[t].name@ != accs[i].name@);
    }
}

/// Placing `accs[i]` at `p` keeps the sorted list holding exactly the
/// projects placed so far.
proof fn lemma_holds_after_insert(old_sorted: Seq<WeeklyProject>, sorted: Seq<WeeklyProject>, accs: Seq<WeeklyProject>, i: int, p: int)
    requires
        0 <= i < accs.len(),
        0 <= p <= old_sorted.len(),
        sorted == old_sorted.insert(p, accs[i]),
        holds_exactly(old_sorted, accs, i),
    ensures
        holds_exactly(sorted, accs, i + 1),
{
    assert forall|a: int| 0 <= a < sorted.len() implies exists|t: int| 0 <= t < i + 1 && #[trigger] sorted[a] == #[trigger] accs[t] by {
        if a < p {
            assert(sorted[a] == old_sorted[a]);
            let t = choose|t: int| 0 <= t < i && #[trigger] old_sorted[a] == #[trigger] accs[t];
        } else if a == p {
            assert(sorted[a] == accs[i]);
        } else {
            assert(sorted[a] == old_sorted[a - 1]);
            let t = choose|t: int| 0 <= t < i && #[trigger] old_sorted[a - 1] == #[trigger] accs[t];
        }
    }
    assert forall|t: int| 0 <= t < i + 1 implies exists|a: int| 0 <= a < sorted.len() && #[trigger] sorted[a] == #[trigger] accs[t] by {
        if t < i {
            let a = choose|a: int| 0 <= a < old_sorted.len() && #[trigger] old_sorted[a] == #[trigger] accs[t];
            if a < p {
                assert(sorted[a] == old_sorted[a]);
            } else {
                assert(sorted[a + 1] == old_sorted[a]);
            }
        } else {
            assert(sorted[p] == accs[t]);
        }
    }
}

fn sort_rollup(acc: Vec<WeeklyProject>) -> (r: Vec<WeeklyProject>)
    requires
        names_distinct(acc@),
    ensures
        in_rollup_order(r@),
        holds_exactly(r@, acc@, acc@.len() as int),
        rollup_minutes(r@) == rollup_minutes(acc@),
{
    let ghost accs = acc@;
    let n = acc.len();
    let mut rest = acc;
    let mut sorted: Vec<WeeklyProject> = Vec::new();
    let mut i: usize = 0;
    proof {
        assert(accs.subrange(0, n as int) =~= accs);
        assert(accs.take(0) =~= Seq::<WeeklyProject>::empty());
    }
    while i < n
        invariant
            n == accs.len(),
            i <= n,
            names_distinct(accs),
            rest@ == accs.subrange(i as int, n as int),
            in_rollup_order(sorted@),
            holds_exactly(sorted@, accs, i as int),
            rollup_minutes(sorted@) == rollup_minutes(accs.take(i as int)),
        decreases n - i,
    {
        let x = rest.remove(0);
        assert(x == accs[i as int]);
        assert(rest@ =~= accs.subrange(i + 1, n as int));
        proof {
            lemma_new_name(sorted@, accs, i as int);
        }
        let ghost old_sorted = sorted@;
        let p = insert_ranked(&mut sorted, x);
        proof {
            lemma_holds_after_insert(old_sorted, sorted@, accs, i as int, p as int);
            lemma_rollup_minutes_insert(old_sorted, p as int, x);
            lemma_take_step(accs, i as int);
        }
        i = i + 1;
    }
    proof {
        assert(accs.take(n as int) =~= accs);
    }
    sorted
}

/// `ps` is the ordered rollup of the bookings `bs`: one row per project
/// name booked, with that name's minutes and notes, more minutes first and
/// then by name.
pub open spec fn sorted_rollup_of(ps: Seq<WeeklyProject>, bs: Seq<Booking>) -> bool {
    &&& in_rollup_order(ps)
    &&& names_distinct(ps)
    &&& forall|a: int| 0 <= a < ps.len() ==> {
        &&& (#[trigger] ps[a]).total_minutes == name_total(bs, ps[a].name@)
        &&& strs(ps[a].notes@) == name_notes(bs, ps[a].name@)
        &&& booked(bs, ps[a].name@)
    }
    &&& forall|t: int| 0 <= t < bs.len() ==> exists|a: int| 0 <= a < ps.len() && (#[trigger] ps[a]).name@ == (#[trigger] bs[t]).0
}

/// Folds a week of loaded days, in the order given, into one
/// [`WeeklySummary`].
///
/// A day counts only when both its content and its parse are present;
/// any other day contributes zero minutes and an empty row. Warnings
/// keep their day order and carry the day's prefix, except the one a
/// markdown heading draws from the parser. Projects are merged by name
/// across the week and ordered by minutes descending, then name; their
/// minutes add up to every minute booked that week, none lost or counted
/// twice.
#[verifier::spinoff_prover]
#[verifier::rlimit(40)]
pub fn summarize_week(days: Vec<DayLoad>) -> (s: WeeklySummary)
    requires
        week_fits(days@),
    ensures
        s.total_minutes == week_total(days@),
        s.dead_time_minutes == week_dead(days@),
        strs(s.warnings@) == week_warnings(days@),
        sorted_rollup_of(s.projects@, week_bookings(days@)),
        rollup_minutes(s.projects@) == booking_sum(week_bookings(days@)),
        s.per_day@.len() == days@.len(),
        forall|t: int| 0 <= t < days@.len() ==> (#[trigger] s.per_day@[t]) == (days@[t].0, day_minutes(days@[t]) as u32),
        s.days@.len() == days@.len(),
        forall|t: int| 0 <= t < days@.len() ==> day_row(#[trigger] s.days@[t], days@[t]),
{
    let ghost bs = week_bookings(days@);
    let g = gather(days);
    let ghost acc = g.rollup@;
    let projects = sort_rollup(g.rollup);
    proof {
        assert(holds_exactly(projects@, acc, acc.len() as int));
        assert forall|a: int, b: int| 0 <= a < b < projects@.len() implies (#[trigger] projects@[a]).name@
            != (#[trigger] projects@[b]).name@ by {
            let ta = choose|t: int| 0 <= t < acc.len() && #[trigger] projects@[a] == #[trigger] acc[t];
            let tb = choose|t: int| 0 <= t < acc.len() && #[trigger] projects@[b] == #[trigger] acc[t];
            if ta == tb {
                lemma_ranks_irreflexive(acc[ta]);
            } else if ta < tb {
                assert(acc[ta].name@ != acc[tb].name@);
            } else {
                assert(acc[tb].name@ != acc[ta].name@);
            }
        }
        assert forall|a: int| 0 <= a < projects@.len() implies {
            &&& (#[trigger] projects@[a]).total_minutes == name_total(bs, projects@[a].name@)
            &&& strs(projects@[a].notes@) == name_notes(bs, projects@[a].name@)
            &&& booked(bs, projects@[a].name@)
        } by {
            let t = choose|t: int| 0 <= t < acc.len() && #[trigger] projects@[a] == #[trigger] acc[t];
        }
        assert forall|t: int| 0 <= t < bs.len() implies exists|a: int|
            0 <= a < projects@.len() && (#[trigger] projects@[a]).name@ == (#[trigger] bs[t]).0 by {
            let k = choose|k: int| 0 <= k < acc.len() && (#[trigger] acc[k]).name@ == bs[t].0;
            let a = choose|a: int| 0 <= a < projects@.len() && #[trigger] projects@[a] == #[trigger] acc[k];
        }
    }
    WeeklySummary {
        total_minutes: g.total_minutes,
        dead_time_minutes: g.dead_time_minutes,
        projects,
        warnings: g.warnings,
        per_day: g.per_day,
        days: g.days,
    }
}


/// Working minutes per day of the week `s` sums up, in the order the days
/// were given: the projection of the summary that the bar chart reads.
pub fn weekly_data(s: &WeeklySummary) -> (r: &Vec<(Date, u32)>)
    ensures
        r@ == s.per_day@,
{
    &s.per_day
}

/// How day files are parsed and created: the markers that bound the time
/// entries in a file, and the template a new day file starts from.
#[derive(Debug, Default)]
pub struct ParseSettings {
    /// Line before which parsing does not start, e.g. "```timetracking".
    pub prefix: Option<String>,
    /// Line at which parsing stops, e.g. "```".
    pub suffix: Option<String>,
    /// Template file a new day file is made from.
    pub template_file: Option<String>,
}

impl ParseSettings {
    /// The markers and the template of a loaded configuration.
    pub fn from_config(config: &Config) -> (r: ParseSettings)
        ensures
            opt_text(r.prefix) == opt_text(config.prefix),
            opt_text(r.suffix) == opt_text(config.suffix),
            opt_text(r.template_file) == opt_text(config.template_file),
    {
        ParseSettings {
            prefix: copy_text(&config.prefix),
            suffix: copy_text(&config.suffix),
            template_file: copy_text(&config.template_file),
        }
    }

    /// A copy of these settings.
    pub fn duplicate(&self) -> (r: ParseSettings)
        ensures
            opt_text(r.prefix) == opt_text(self.prefix),
            opt_text(r.suffix) == opt_text(self.suffix),
            opt_text(r.template_file) == opt_text(self.template_file),
    {
        ParseSettings {
            prefix: copy_text(&self.prefix),
            suffix: copy_text(&self.suffix),
            template_file: copy_text(&self.template_file),
        }
    }
}

/// Where a data service looks for day files.
#[derive(Debug)]
pub enum DataDir {
    /// The directory the run's configuration names, else `~/.time-tracking`.
    FromConfig,
    /// A directory the caller supplied.
    Fixed(String),
}

impl DataDir {
    /// The directory to read day files from under `config`: a fixed one as
    /// given; otherwise the configured `data_directory` when there is one,
    /// else `.time-tracking` in the home directory.
    pub fn resolve(&self, config: &Config) -> (r: Result<String, DirError>)
        ensures
            match self {
                DataDir::Fixed(d) => r matches Ok(p) && p@ == d@,
                DataDir::FromConfig => match opt_text(config.data_directory) {
                    Some(d) => r matches Ok(p) && p@ == d,
                    None => {
                        &&& r is Err ==> r == Err::<String, DirError>(DirError::NoHome)
                        &&& r matches Ok(p) ==> exists|h: Seq<char>| p@ == path_join(h, data_dir_name())
                    },
                },
            },
    {
        match self {
            DataDir::FromConfig => get_time_tracking_dir_with_override(config.get_data_directory()),
            DataDir::Fixed(dir) => Ok(dir.clone()),
        }
    }
}

/// How a data service parses the day files it reads.
#[derive(Debug)]
pub enum ParseOpts {
    /// Read from the run's configuration on each use.
    FromConfig,
    /// Settings the caller supplied.
    Fixed(ParseSettings),
}

impl ParseOpts {
    /// The prefix marker in force under `config`.
    pub fn prefix<'a>(&'a self, config: &'a Config) -> (r: Option<&'a str>)
        ensures
            opt_str_text(r) == match self {
                ParseOpts::FromConfig => opt_text(config.prefix),
                ParseOpts::Fixed(s) => opt_text(s.prefix),
            },
    {
        match self {
            ParseOpts::FromConfig => config.get_prefix(),
            ParseOpts::Fixed(settings) => borrow_text(&settings.prefix),
        }
    }

    /// The suffix marker in force under `config`.
    pub fn suffix<'a>(&'a self, config: &'a Config) -> (r: Option<&'a str>)
        ensures
            opt_str_text(r) == match self {
                ParseOpts::FromConfig => opt_text(config.suffix),
                ParseOpts::Fixed(s) => opt_text(s.suffix),
            },
    {
        match self {
            ParseOpts::FromConfig => config.get_suffix(),
            ParseOpts::Fixed(settings) => borrow_text(&settings.suffix),
        }
    }

    /// The template file in force under `config`.
    pub fn template_file<'a>(&'a self, config: &'a Config) -> (r: Option<&'a str>)
        ensures
            opt_str_text(r) == match self {
                ParseOpts::FromConfig => opt_text(config.template_file),
                ParseOpts::Fixed(s) => opt_text(s.template_file),
            },
    {
        match self {
            ParseOpts::FromConfig => config.get_template_file(),
            ParseOpts::Fixed(settings) => borrow_text(&settings.template_file),
        }
    }

    /// The markers and template in force under `config`.
    pub fn parse_settings(&self, config: &Config) -> (r: ParseSettings)
        ensures
            match self {
                ParseOpts::FromConfig => {
                    &&& opt_text(r.prefix) == opt_text(config.prefix)
                    &&& opt_text(r.suffix) == opt_text(config.suffix)
                    &&& opt_text(r.template_file) == opt_text(config.template_file)
                },
                ParseOpts::Fixed(s) => {
                    &&& opt_text(r.prefix) == opt_text(s.prefix)
                    &&& opt_text(r.suffix) == opt_text(s.suffix)
                    &&& opt_text(r.template_file) == opt_text(s.template_file)
                },
            },
    {
        match self {
            ParseOpts::FromConfig => ParseSettings::from_config(config),
            ParseOpts::Fixed(settings) => settings.duplicate(),
        }
    }
}

/// The name of `date`'s day file: `YYYY-MM-DD.md`.
pub open spec fn day_file_name_text(date: Date) -> Seq<char> {
    date.iso_spec() + ".md"@
}

/// The name of `date`'s day file.
pub fn day_file_name(date: &Date) -> (r: String)
    ensures
        r@ == day_file_name_text(*date),
{
    let mut s = date.iso_string();
    s.append(".md");
    s
}

/// The path of `date`'s day file in the directory `dir`, whether or not
/// anything is there.
pub fn get_file_path(dir: &str, date: &Date) -> (r: String)
    ensures
        r@ == path_join(dir@, day_file_name_text(*date)),
{
    let name = day_file_name(date);
    join_path(dir, name.as_str())
}

/// `c` is an ASCII digit.
pub open spec fn is_ascii_digit(c: char) -> bool {
    '0' <= c && c <= '9'
}

/// The value of the ASCII digit `c`.
pub open spec fn digit_value(c: char) -> int {
    c as int - '0' as int
}

/// The calendar fields `text` holds when it reads as `time`'s
/// `[year]-[month]-[day]`: an optional `+` or `-`, four digits of year, a
/// dash, two digits of month, a dash, two digits of day, and nothing more.
pub open spec fn iso_fields(text: Seq<char>) -> Option<(int, int, int)> {
    let signed = text.len() > 0 && (text[0] == '+' || text[0] == '-');
    let body = if signed { text.drop_first() } else { text };
    if body.len() == 10 && body[4] == '-' && body[7] == '-'
        && (forall|k: int| 0 <= k < 10 && k != 4 && k != 7 ==> is_ascii_digit(#[trigger] body[k])) {
        let year = digit_value(body[0]) * 1000 + digit_value(body[1]) * 100 + digit_value(body[2]) * 10
            + digit_value(body[3]);
        Some((
            if signed && text[0] == '-' { -year } else { year },
            digit_value(body[5]) * 10 + digit_value(body[6]),
            digit_value(body[8]) * 10 + digit_value(body[9]),
        ))
    } else {
        None
    }
}

/// The Julian day of the date `text` writes as `[year]-[month]-[day]`, or
/// `None` where it writes none: the fields must read and name a calendar
/// date in `time`'s range.
pub open spec fn iso_date_parse(text: Seq<char>) -> Option<int> {
    match iso_fields(text) {
        Some((y, m, d)) => crate::date::calendar_julian_day(y, m, d),
        None => None,
    }
}

/// The Julian day of the date written `YYYY-MM-DD` in `text`.
///
/// Trusted: `time::Date::parse` with the format `[year]-[month]-[day]`
/// (without `time`'s `large-dates` feature, so the year is an optional
/// sign and exactly four digits, month and day exactly two, and nothing
/// may follow), the date read back with `time::Date::to_julian_day`.
#[verifier::external_body]
fn parse_iso_date(text: &str) -> (r: Option<i32>)
    ensures
        match r {
            Some(j) => iso_date_parse(text@) == Some(j as int),
            None => iso_date_parse(text@) is None,
        },
{
    let format = match time::format_description::parse("[year]-[month]-[day]") {
        Ok(f) => f,
        Err(_) => return None,
    };
    match time::Date::parse(text, &format) {
        Ok(d) => Some(d.to_julian_day()),
        Err(_) => None,
    }
}

/// The date a request writes as `YYYY-MM-DD`, if it is one.
pub fn parse_request_date(text: &str) -> (r: Option<Date>)
    ensures
        match r {
            Some(d) => iso_date_parse(text@) == Some(d.julian_day_spec()),
            None => iso_date_parse(text@) is None,
        },
{
    match parse_iso_date(text) {
        Some(j) => {
            proof {
                let (y, m, d) = iso_fields(text@)->0;
                crate::calendar::law_calendar_dates_lie_in_the_julian_range(y, m, d);
            }
            Date::from_julian_day(j)
        },
        None => None,
    }
}

/// The date a file named `name` stands for: `name` is a date written
/// `YYYY-MM-DD` followed by `.md`.
pub open spec fn day_file_date_spec(name: Seq<char>) -> Option<int> {
    if name.len() >= 3 && name.skip(name.len() - 3) == ".md"@ {
        iso_date_parse(name.take(name.len() - 3))
    } else {
        None
    }
}

/// The date a day file's name encodes, or `None` for anything else that
/// shares the directory: a template, a README, an editor's swap file.
pub fn day_file_date(name: &str) -> (r: Option<Date>)
    ensures
        match r {
            Some(d) => day_file_date_spec(name@) == Some(d.julian_day_spec()),
            None => day_file_date_spec(name@) is None,
        },
{
    let n = name.unicode_len();
    proof {
        reveal_strlit(".md");
    }
    if n < 3 || name.get_char(n - 3) != '.' || name.get_char(n - 2) != 'm' || name.get_char(n - 1) != 'd' {
        proof {
            if n >= 3 {
                assert(name@.skip(n - 3)[0] == name@[n - 3]);
                assert(name@.skip(n - 3)[1] == name@[n - 2]);
                assert(name@.skip(n - 3)[2] == name@[n - 1]);
            }
        }
        return None;
    }
    assert(name@.skip(n - 3) =~= ".md"@);
    let mut stem = String::new();
    let mut i: usize = 0;
    while i < n - 3
        invariant
            n == name@.len(),
            n >= 3,
            i <= n - 3,
            stem@ == name@.take(i as int),
        decreases n - 3 - i,
    {
        let c = name.get_char(i);
        crate::text::push_char(&mut stem, c);
        assert(stem@ =~= name@.take(i + 1));
        i = i + 1;
    }
    parse_request_date(stem.as_str())
}

/// Whether a day's parse counts as data.
pub fn has_data(data: Option<&TimeTrackingData>) -> (r: bool)
    ensures
        r == match data {
            Some(d) => d.projects@.len() > 0 && d.total_minutes > 0,
            None => false,
        },
{
    match data {
        Some(d) => d.projects.len() > 0 && d.total_minutes > 0,
        None => false,
    }
}

/// Whether a day's parse counts as data, in spec.
pub open spec fn counts_as_data(data: Option<TimeTrackingData>) -> bool {
    match data {
        Some(d) => d.projects@.len() > 0 && d.total_minutes > 0,
        None => false,
    }
}

/// The dates of `days`, in their order, whose parse counts as data.
pub open spec fn populated_spec(days: Seq<(Date, Option<TimeTrackingData>)>) -> Seq<Date>
    decreases days.len(),
{
    if days.len() == 0 {
        Seq::empty()
    } else if counts_as_data(days.last().1) {
        populated_spec(days.drop_last()).push(days.last().0)
    } else {
        populated_spec(days.drop_last())
    }
}

/// The dates, among `days` (each with its parse, `None` for a day that has
/// no file or could not be read), whose day holds data: at least one
/// project and more than zero minutes. They keep the order they came in,
/// so dates given ascending come out ascending.
pub fn populated_dates(days: &Vec<(Date, Option<TimeTrackingData>)>) -> (r: Vec<Date>)
    ensures
        r@ == populated_spec(days@),
{
    let mut r: Vec<Date> = Vec::new();
    let mut i: usize = 0;
    while i < days.len()
        invariant
            i <= days@.len(),
            r@ == populated_spec(days@.take(i as int)),
        decreases days@.len() - i,
    {
        let (date, data) = &days[i];
        assert(days@.take(i + 1).drop_last() =~= days@.take(i as int));
        if has_data(data.as_ref()) {
            r.push(*date);
        }
        i = i + 1;
    }
    assert(days@.take(days@.len() as int) =~= days@);
    r
}

/// Keeping the dates with data keeps their order: each kept date is one of
/// the given dates, and dates given ascending come out ascending.
pub proof fn law_populated_dates_keep_their_order(days: Seq<(Date, Option<TimeTrackingData>)>)
    requires
        ascending(days.map_values(|d: (Date, Option<TimeTrackingData>)| d.0)),
    ensures
        ascending(populated_spec(days)),
        forall|k: int| 0 <= k < populated_spec(days).len() ==>
            exists|t: int| 0 <= t < days.len() && days[t].0 == #[trigger] populated_spec(days)[k],
    decreases days.len(),
{
    if days.len() > 0 {
        let t = days.drop_last();
        let ds = days.map_values(|d: (Date, Option<TimeTrackingData>)| d.0);
        let ts = t.map_values(|d: (Date, Option<TimeTrackingData>)| d.0);
        assert forall|a: int, b: int| 0 <= a < b < ts.len() implies (#[trigger] ts[a]).julian_day_spec()
            <= (#[trigger] ts[b]).julian_day_spec() by {
            assert(ts[a] == ds[a] && ts[b] == ds[b]);
        }
        law_populated_dates_keep_their_order(t);
        let p = populated_spec(t);
        assert forall|k: int| 0 <= k < p.len() implies (#[trigger] p[k]).julian_day_spec()
            <= days.last().0.julian_day_spec() by {
            let w = choose|w: int| 0 <= w < t.len() && t[w].0 == p[k];
            assert(ds[w] == t[w].0);
            assert(ds[days.len() - 1] == days.last().0);
        }
        assert forall|k: int| 0 <= k < p.len() implies exists|w: int| 0 <= w < days.len() && days[w].0 == #[trigger] p[k] by {
            let w = choose|w: int| 0 <= w < t.len() && t[w].0 == p[k];
            assert(days[w] == t[w]);
        }
        if counts_as_data(days.last().1) {
            let q = p.push(days.last().0);
            assert forall|k: int| 0 <= k < q.len() implies exists|w: int| 0 <= w < days.len() && days[w].0 == #[trigger] q[k] by {
                if k == p.len() {
                    assert(days[days.len() - 1].0 == q[k]);
                } else {
                    assert(q[k] == p[k]);
                }
            }
            assert forall|a: int, b: int| 0 <= a < b < q.len() implies (#[trigger] q[a]).julian_day_spec()
                <= (#[trigger] q[b]).julian_day_spec() by {
                assert(q[a] == p[a]);
                if b < p.len() {
                    assert(q[b] == p[b]);
                }
            }
        }
    }
}

/// `s` is in ascending order.
pub open spec fn ascending(s: Seq<Date>) -> bool {
    forall|a: int, b: int| 0 <= a < b < s.len() ==> (#[trigger] s[a]).julian_day_spec() <= (#[trigger] s[b]).julian_day_spec()
}

/// The dates of the file names `names` that are day files of a date in
/// `start..=end`, in the order the names come.
pub open spec fn day_dates_in(names: Seq<String>, start: Date, end: Date) -> Seq<int>
    decreases names.len(),
{
    if names.len() == 0 {
        Seq::empty()
    } else {
        let rest = day_dates_in(names.drop_last(), start, end);
        match day_file_date_spec(names.last()@) {
            Some(j) => if start.julian_day_spec() <= j <= end.julian_day_spec() {
                rest.push(j)
            } else {
                rest
            },
            None => rest,
        }
    }
}

/// The Julian days of `s`.
pub open spec fn julians(s: Seq<Date>) -> Seq<int> {
    s.map_values(|d: Date| d.julian_day_spec())
}

/// Insert `d` into the ascending `v`, keeping it ascending.
fn insert_ascending(v: &mut Vec<Date>, d: Date)
    requires
        ascending(old(v)@),
    ensures
        ascending(final(v)@),
        julians(final(v)@).to_multiset() == julians(old(v)@).to_multiset().insert(d.julian_day_spec()),
{
    let mut i: usize = 0;
    while i < v.len() && v[i].julian_day() <= d.julian_day()
        invariant
            i <= v@.len(),
            forall|k: int| 0 <= k < i ==> (#[trigger] v@[k]).julian_day_spec() <= d.julian_day_spec(),
        decreases v@.len() - i,
    {
        i = i + 1;
    }
    let ghost before = v@;
    v.insert(i, d);
    proof {
        assert(v@ =~= before.insert(i as int, d));
        assert forall|a: int, b: int| 0 <= a < b < v@.len() implies (#[trigger] v@[a]).julian_day_spec()
            <= (#[trigger] v@[b]).julian_day_spec() by {
            if b < i {
            } else if b == i {
            } else if a < i {
                assert(before[a].julian_day_spec() <= d.julian_day_spec());
                assert(v@[b] == before[b - 1]);
                assert(i < before.len() ==> before[i as int].julian_day_spec() > d.julian_day_spec());
                if a < b - 1 {
                    assert(before[a].julian_day_spec() <= before[b - 1].julian_day_spec());
                }
            } else if a == i {
                assert(v@[b] == before[b - 1]);
                assert(before[i as int].julian_day_spec() > d.julian_day_spec());
                if i < b - 1 {
                    assert(before[i as int].julian_day_spec() <= before[b - 1].julian_day_spec());
                }
            } else {
                assert(v@[a] == before[a - 1]);
                assert(v@[b] == before[b - 1]);
            }
        }
        assert(julians(v@) =~= julians(before).insert(i as int, d.julian_day_spec()));
        lemma_insert_to_multiset(julians(before), i as int, d.julian_day_spec());
    }
}

/// The dates in `start..=end` that the file names `names` (the regular
/// files and symbolic links of the data directory) are day files of, in
/// ascending order.
pub fn existing_dates(names: &Vec<String>, start: Date, end: Date) -> (r: Vec<Date>)
    ensures
        ascending(r@),
        julians(r@).to_multiset() == day_dates_in(names@, start, end).to_multiset(),
        forall|k: int| 0 <= k < r@.len() ==> start.julian_day_spec() <= (#[trigger] r@[k]).julian_day_spec() <= end.julian_day_spec(),
{
    let mut dates: Vec<Date> = Vec::new();
    let mut i: usize = 0;
    proof {
        broadcast use vstd::seq_lib::group_to_multiset_ensures;
        assert(names@.take(0).len() == 0);
        assert(day_dates_in(names@.take(0), start, end) =~= Seq::<int>::empty());
        assert(julians(dates@) =~= Seq::<int>::empty());
    }
    while i < names.len()
        invariant
            i <= names@.len(),
            ascending(dates@),
            julians(dates@).to_multiset() == day_dates_in(names@.take(i as int), start, end).to_multiset(),
        decreases names@.len() - i,
    {
        assert(names@.take(i + 1).drop_last() =~= names@.take(i as int));
        if let Some(date) = day_file_date(names[i].as_str()) {
            if start.julian_day() <= date.julian_day() && date.julian_day() <= end.julian_day() {
                insert_ascending(&mut dates, date);
                proof {
                    let t = day_dates_in(names@.take(i as int), start, end);
                    broadcast use vstd::seq_lib::group_to_multiset_ensures;
                    assert(t.push(date.julian_day_spec()).to_multiset() =~= t.to_multiset().insert(date.julian_day_spec()));
                }
            }
        }
        i = i + 1;
    }
    assert(names@.take(names@.len() as int) =~= names@);
    proof {
        assert forall|k: int| 0 <= k < dates@.len() implies start.julian_day_spec()
            <= (#[trigger] dates@[k]).julian_day_spec() <= end.julian_day_spec() by {
            lemma_day_dates_in_range(names@, start, end);
            let j = dates@[k].julian_day_spec();
            assert(julians(dates@)[k] == j);
            broadcast use vstd::seq_lib::group_to_multiset_ensures;
            assert(julians(dates@).contains(j));
            assert(julians(dates@).to_multiset().count(j) > 0);
            assert(day_dates_in(names@, start, end).contains(j));
        }
    }
    dates
}

/// Inserting into a sequence inserts into its multiset.
proof fn lemma_insert_to_multiset(s: Seq<int>, i: int, x: int)
    requires
        0 <= i <= s.len(),
    ensures
        s.insert(i, x).to_multiset() =~= s.to_multiset().insert(x),
{
    broadcast use vstd::seq_lib::group_to_multiset_ensures;
    broadcast use vstd::multiset::group_multiset_axioms;
    let t = s.insert(i, x);
    assert(t.remove(i) =~= s);
    assert(t[i] == x);
    assert(t.contains(x));
    assert(t.remove(i).to_multiset() =~= t.to_multiset().remove(x));
}

/// Every day in `day_dates_in` lies in the range.
proof fn lemma_day_dates_in_range(names: Seq<String>, start: Date, end: Date)
    ensures
        forall|k: int| 0 <= k < day_dates_in(names, start, end).len() ==>
            start.julian_day_spec() <= #[trigger] day_dates_in(names, start, end)[k] <= end.julian_day_spec(),
    decreases names.len(),
{
    if names.len() > 0 {
        lemma_day_dates_in_range(names.drop_last(), start, end);
        let rest = day_dates_in(names.drop_last(), start, end);
        let all = day_dates_in(names, start, end);
        assert forall|k: int| 0 <= k < all.len() implies start.julian_day_spec() <= #[trigger] all[k]
            <= end.julian_day_spec() by {
            if k < rest.len() {
                assert(rest[k] == all[k]);
            }
        }
    }
}


/// The minutes of a list of per-day rows, added up.
pub open spec fn per_day_sum(rows: Seq<(Date, u32)>) -> nat
    decreases rows.len(),
{
    if rows.len() == 0 { 0 } else { per_day_sum(rows.drop_last()) + rows.last().1 as nat }
}

/// A day's minutes never exceed the week's.
proof fn lemma_day_within_week(days: Seq<DayLoad>, t: int)
    requires
        0 <= t < days.len(),
    ensures
        day_minutes(days[t]) <= week_total(days),
    decreases days.len(),
{
    if t < days.len() - 1 {
        lemma_day_within_week(days.drop_last(), t);
        assert(days.drop_last()[t] == days[t]);
    }
}

/// The per-day minutes of a weekly summary add up to its working total:
/// the bar chart and the report never disagree about a week.
pub proof fn law_per_day_adds_up_to_the_week_total(days: Seq<DayLoad>, per_day: Seq<(Date, u32)>)
    requires
        week_fits(days),
        per_day.len() == days.len(),
        forall|t: int| 0 <= t < days.len() ==> (#[trigger] per_day[t]) == (days[t].0, day_minutes(days[t]) as u32),
    ensures
        per_day_sum(per_day) == week_total(days),
    decreases days.len(),
{
    if days.len() > 0 {
        let n = days.len() - 1;
        lemma_week_total_prefix(days, n);
        assert(days.drop_last() =~= days.take(n));
        lemma_day_within_week(days, n);
        assert(week_fits(days.drop_last())) by {
            lemma_week_bookings_prefix(days, n);
            lemma_booking_sum_prefix(week_bookings(days.take(n)), week_bookings(days));
        }
        assert forall|t: int| 0 <= t < days.drop_last().len() implies (#[trigger] per_day.drop_last()[t])
            == (days.drop_last()[t].0, day_minutes(days.drop_last()[t]) as u32) by {
            assert(per_day.drop_last()[t] == per_day[t]);
            assert(days.drop_last()[t] == days[t]);
        }
        law_per_day_adds_up_to_the_week_total(days.drop_last(), per_day.drop_last());
        assert(per_day.last() == per_day[n]);
    }
}

} // verus!
