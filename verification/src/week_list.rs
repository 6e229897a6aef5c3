//! The weekly per-project rollup pane: where its selection sits, what
//! `Enter` puts on the clipboard, and how a row lines its hours up.

use vstd::prelude::*;

use crate::data_svc::{strs, WeeklyProject};
use crate::day::{duration_decimal_text, duration_minutes_text, format_duration_decimal, format_duration_minutes};
use crate::event::AppEvent;
use crate::mode::Handled;
use crate::text::{push_repeated, repeat_char};
use crate::width::{display_width, str_width};

verus! {

/// The selection of a list of `len` rows brought back into range: nothing
/// in an empty list, else the same row, or the first where it pointed past
/// the end or nowhere.
pub open spec fn clamped(sel: Option<usize>, len: nat) -> Option<usize> {
    if len == 0 {
        None
    } else {
        match sel {
            Some(i) => if i < len { Some(i) } else { Some((len - 1) as usize) },
            None => Some(0),
        }
    }
}

/// The selection one row down, wrapping from the last row to the first.
pub open spec fn next_row(sel: Option<usize>, len: nat) -> Option<usize> {
    if len == 0 {
        sel
    } else {
        match sel {
            Some(i) => if i + 1 < len { Some((i + 1) as usize) } else { Some(0) },
            None => Some(0),
        }
    }
}

/// The selection one row up, wrapping from the first row to the last.
pub open spec fn previous_row(sel: Option<usize>, len: nat) -> Option<usize> {
    if len == 0 {
        sel
    } else {
        match sel {
            Some(i) => if i > 0 { Some((i - 1) as usize) } else { Some((len - 1) as usize) },
            None => Some(0),
        }
    }
}

/// The selection on the first row, where there is one.
pub open spec fn first_row(sel: Option<usize>, len: nat) -> Option<usize> {
    if len == 0 { sel } else { Some(0) }
}

/// The selection on the last row, where there is one.
pub open spec fn last_row(sel: Option<usize>, len: nat) -> Option<usize> {
    if len == 0 { sel } else { Some((len - 1) as usize) }
}

/// The row selected after `f` is applied within a list of `len` rows.
pub fn step_next(sel: Option<usize>, len: usize) -> (r: Option<usize>)
    ensures
        r == next_row(sel, len as nat),
{
    if len == 0 {
        return sel;
    }
    match sel {
        Some(i) => if i < len - 1 { Some(i + 1) } else { Some(0) },
        None => Some(0),
    }
}

/// The selection one row up within a list of `len` rows.
pub fn step_previous(sel: Option<usize>, len: usize) -> (r: Option<usize>)
    ensures
        r == previous_row(sel, len as nat),
{
    if len == 0 {
        return sel;
    }
    match sel {
        Some(i) => if i > 0 { Some(i - 1) } else { Some(len - 1) },
        None => Some(0),
    }
}

/// What the weekly pane's `Enter` puts on the clipboard for `p`: the
/// timesheet line and the notes under it.
pub open spec fn week_copy_payload(p: WeeklyProject) -> Seq<char> {
    p.name@ + " - "@ + duration_minutes_text(p.total_minutes as nat) + " ("@
        + duration_decimal_text(p.total_minutes as nat) + " hrs)"@ + note_lines(strs(p.notes@))
}

/// Each note on a line of its own after a dash.
pub open spec fn note_lines(notes: Seq<Seq<char>>) -> Seq<char>
    decreases notes.len(),
{
    if notes.len() == 0 {
        Seq::empty()
    } else {
        note_lines(notes.drop_last()) + "\n- "@ + notes.last()
    }
}

/// The status line reporting the copy of `p`.
pub open spec fn week_copy_message(p: WeeklyProject) -> Seq<char> {
    "Copied "@ + duration_decimal_text(p.total_minutes as nat) + " hours for "@ + p.name@
}

/// What `Enter` asks to be copied for the selected `project`: nothing when
/// no project is selected (the key still belongs to the pane).
pub fn copy_intent(project: Option<&WeeklyProject>) -> (r: Handled)
    ensures
        match project {
            None => r == Handled::Consumed,
            Some(p) => r matches Handled::Emit(AppEvent::CopyToClipboard(payload, message))
                && payload@ == week_copy_payload(*p) && message@ == week_copy_message(*p),
        },
{
    let p = match project {
        None => return Handled::Consumed,
        Some(p) => p,
    };
    let hours = format_duration_decimal(p.total_minutes);
    let mut payload = p.name.clone();
    payload.append(" - ");
    let minutes = format_duration_minutes(p.total_minutes);
    payload.append(minutes.as_str());
    payload.append(" (");
    payload.append(hours.as_str());
    payload.append(" hrs)");
    let ghost head = payload@;
    let mut i: usize = 0;
    while i < p.notes.len()
        invariant
            i <= p.notes@.len(),
            payload@ == head + note_lines(strs(p.notes@).take(i as int)),
        decreases p.notes@.len() - i,
    {
        assert(strs(p.notes@).take(i + 1).drop_last() =~= strs(p.notes@).take(i as int));
        payload.append("\n- ");
        payload.append(p.notes[i].as_str());
        i = i + 1;
    }
    assert(strs(p.notes@).take(p.notes@.len() as int) =~= strs(p.notes@));
    let mut message = String::from_str("Copied ");
    message.append(hours.as_str());
    message.append(" hours for ");
    message.append(p.name.as_str());
    Handled::Emit(AppEvent::CopyToClipboard(payload, message))
}

/// The two lines over the weekly rollup: the week's working time, and its
/// dead time ("None" for a week with none), with whether the dead time is
/// worth drawing attention to.
pub open spec fn week_header_text(total_minutes: nat, dead_minutes: nat) -> (Seq<char>, Seq<char>, bool) {
    ("Working Time: "@ + duration_decimal_text(total_minutes) + " hours"@,
        "Dead Time: "@ + (if dead_minutes == 0 { "None"@ } else {
            duration_minutes_text(dead_minutes) + " ("@ + duration_decimal_text(dead_minutes) + " hours)"@
        }),
        dead_minutes > 0)
}

/// The lines over the weekly rollup for a week with `total_minutes` of
/// working time and `dead_minutes` of dead time.
pub fn week_header_lines(total_minutes: u32, dead_minutes: u32) -> (r: (String, String, bool))
    ensures
        (r.0@, r.1@, r.2) == week_header_text(total_minutes as nat, dead_minutes as nat),
{
    let mut working = String::from_str("Working Time: ");
    let t = format_duration_decimal(total_minutes);
    working.append(t.as_str());
    working.append(" hours");
    let mut dead = String::from_str("Dead Time: ");
    if dead_minutes == 0 {
        dead.append("None");
    } else {
        let m = format_duration_minutes(dead_minutes);
        dead.append(m.as_str());
        dead.append(" (");
        let d = format_duration_decimal(dead_minutes);
        dead.append(d.as_str());
        dead.append(" hours)");
    }
    (working, dead, dead_minutes > 0)
}

/// A project's hours as a row shows them: `H:MM (H.HH hrs)`.
pub open spec fn row_hours_text(minutes: nat) -> Seq<char> {
    duration_minutes_text(minutes) + " ("@ + duration_decimal_text(minutes) + " hrs)"@
}

/// The spaces between a row's name and its hours: what is left of `width`
/// after a leading space, the name and the hours, and at least one.
pub open spec fn row_gap(name: Seq<char>, minutes: nat, width: nat) -> nat {
    let content = 1 + display_width(name) + display_width(row_hours_text(minutes));
    if width > content { (width - content) as nat } else { 1 }
}

/// One project's row in a pane `width` columns wide: the name on the left
/// and the hours right-aligned against the width, measured in display
/// columns, with at least one space between them.
pub open spec fn project_row_text(p: WeeklyProject, width: nat) -> Seq<char> {
    " "@ + p.name@ + repeat_char(' ', row_gap(p.name@, p.total_minutes as nat, width))
        + row_hours_text(p.total_minutes as nat)
}

/// One project's row in a pane `width` columns wide.
pub fn project_row(project: &WeeklyProject, width: u16) -> (r: String)
    ensures
        r@ == project_row_text(*project, width as nat),
{
    let mut hours = format_duration_minutes(project.total_minutes);
    hours.append(" (");
    let dec = format_duration_decimal(project.total_minutes);
    hours.append(dec.as_str());
    hours.append(" hrs)");
    let name_width = str_width(project.name.as_str());
    let hours_width = str_width(hours.as_str());
    let gap: usize = if name_width < usize::MAX - 1 && hours_width < usize::MAX - 1 - name_width
        && (width as usize) > 1 + name_width + hours_width {
        width as usize - (1 + name_width + hours_width)
    } else {
        1
    };
    assert(gap == row_gap(project.name@, project.total_minutes as nat, width as nat));
    let mut row = String::from_str(" ");
    row.append(project.name.as_str());
    push_repeated(&mut row, ' ', gap);
    row.append(hours.as_str());
    row
}

/// Where the weekly rollup's selection sits; it outlives any one week.
#[derive(Debug)]
pub struct WeekListState {
    selected: Option<usize>,
}

impl WeekListState {
    /// The selected row.
    pub closed spec fn selection(self) -> Option<usize> {
        self.selected
    }

    /// A pane with nothing selected.
    pub fn new() -> (s: WeekListState)
        ensures
            s.selection() is None,
    {
        WeekListState { selected: None }
    }

    /// The selected row, or `None` when there is none.
    pub fn selected(&self) -> (r: Option<usize>)
        ensures
            r == self.selection(),
    {
        self.selected
    }

    /// Apply `event` to the pane over the week's `projects`, if it is one
    /// the pane owns; anything else falls through as `Ignored`. The
    /// selection is first brought back into range for `projects` (a caller
    /// passes no projects while the rollup on hand describes another week,
    /// so nothing is copied from it).
    pub fn apply(&mut self, event: &AppEvent, projects: &[WeeklyProject]) -> (r: Handled)
        ensures
            ({
                let len = projects@.len();
                let c = clamped(old(self).selection(), len);
                match *event {
                    AppEvent::NextWeekProject => r == Handled::Consumed && final(self).selection() == next_row(c, len),
                    AppEvent::PreviousWeekProject => r == Handled::Consumed && final(self).selection() == previous_row(c, len),
                    AppEvent::FirstWeekProject => r == Handled::Consumed && final(self).selection() == first_row(c, len),
                    AppEvent::LastWeekProject => r == Handled::Consumed && final(self).selection() == last_row(c, len),
                    AppEvent::CopyWeekProject => final(self).selection() == c && match c {
                        Some(i) => r matches Handled::Emit(AppEvent::CopyToClipboard(payload, message))
                            && payload@ == week_copy_payload(projects@[i as int])
                            && message@ == week_copy_message(projects@[i as int]),
                        None => r == Handled::Consumed,
                    },
                    _ => r == Handled::Ignored && final(self).selection() == c,
                }
            }),
    {
        let len = projects.len();
        self.selected = clamp_row(self.selected, len);
        match event {
            AppEvent::NextWeekProject => {
                self.selected = step_next(self.selected, len);
            },
            AppEvent::PreviousWeekProject => {
                self.selected = step_previous(self.selected, len);
            },
            AppEvent::FirstWeekProject => {
                if len > 0 {
                    self.selected = Some(0);
                }
            },
            AppEvent::LastWeekProject => {
                if len > 0 {
                    self.selected = Some(len - 1);
                }
            },
            AppEvent::CopyWeekProject => {
                return match self.selected {
                    Some(i) => copy_intent(Some(&projects[i])),
                    None => copy_intent(None),
                };
            },
            _ => return Handled::Ignored,
        }
        Handled::Consumed
    }

    /// Bring the selection back into range for a list of `len` rows.
    pub fn clamp(&mut self, len: usize)
        ensures
            final(self).selection() == clamped(old(self).selection(), len as nat),
    {
        self.selected = clamp_row(self.selected, len);
    }
}

/// The selection brought back into range for a list of `len` rows.
pub fn clamp_row(sel: Option<usize>, len: usize) -> (r: Option<usize>)
    ensures
        r == clamped(sel, len as nat),
{
    if len == 0 {
        return None;
    }
    match sel {
        Some(i) => if i < len { Some(i) } else { Some(len - 1) },
        None => Some(0),
    }
}

impl Default for WeekListState {
    /// A pane with nothing selected.
    fn default() -> (s: WeekListState)
        ensures
            s.selection() is None,
    {
        WeekListState::new()
    }
}

/// Whatever event a list of rows is given, its selection stays on a row
/// that is drawn: nothing in an empty list, a row before the end otherwise.
pub proof fn law_selection_stays_in_range(sel: Option<usize>, len: nat)
    ensures
        len == 0 ==> clamped(sel, len) is None,
        len > 0 ==> {
            let c = clamped(sel, len);
            &&& c matches Some(i) && i < len
            &&& next_row(c, len) matches Some(i) && i < len
            &&& previous_row(c, len) matches Some(i) && i < len
            &&& first_row(c, len) matches Some(i) && i < len
            &&& last_row(c, len) matches Some(i) && i < len
        },
{
}

/// Moving down a row and back up, or up and back down, returns to the row
/// the selection was on; both ends wrap.
pub proof fn law_next_and_previous_undo_each_other(i: usize, len: usize)
    requires
        i < len,
    ensures
        previous_row(next_row(Some(i), len as nat), len as nat) == Some(i),
        next_row(previous_row(Some(i), len as nat), len as nat) == Some(i),
        next_row(Some((len - 1) as usize), len as nat) == Some(0usize),
        previous_row(Some(0usize), len as nat) == Some((len - 1) as usize),
{
}

/// What the weekly pane copies holds every note of the project, in order,
/// each on a line of its own after "- ": a project without notes copies
/// just its timesheet line, and a project with one more note at the end
/// copies exactly one more line, that note's.
pub proof fn law_week_copy_keeps_every_note(p: WeeklyProject, q: WeeklyProject, note: String)
    requires
        q.name@ == p.name@,
        q.total_minutes == p.total_minutes,
        q.notes@ == p.notes@.push(note),
    ensures
        p.notes@.len() == 0 ==> week_copy_payload(p) == p.name@ + " - "@
            + duration_minutes_text(p.total_minutes as nat) + " ("@
            + duration_decimal_text(p.total_minutes as nat) + " hrs)"@,
        week_copy_payload(q) == week_copy_payload(p) + "\n- "@ + note@,
{
    assert(strs(q.notes@).drop_last() =~= strs(p.notes@));
    assert(strs(q.notes@).last() == note@);
    if p.notes@.len() == 0 {
        assert(strs(p.notes@) =~= Seq::<Seq<char>>::empty());
        assert(note_lines(strs(p.notes@)) =~= Seq::<char>::empty());
    }
}

/// The weekly header reports any dead time: "None" exactly when the week
/// has no dead minutes, and otherwise the dead minutes as
/// `H:MM (H.HH hours)`, flagged for attention.
pub proof fn law_week_header_reports_any_dead_time(total: nat, dead: nat)
    ensures
        dead == 0 ==> week_header_text(total, dead).1 == "Dead Time: "@ + "None"@,
        dead > 0 ==> crate::text::ends_with(week_header_text(total, dead).1,
            duration_minutes_text(dead) + " ("@ + duration_decimal_text(dead) + " hours)"@),
        week_header_text(total, dead).2 == (dead > 0),
{
    if dead > 0 {
        let f = duration_minutes_text(dead) + " ("@ + duration_decimal_text(dead) + " hours)"@;
        assert(week_header_text(total, dead).1 =~= "Dead Time: "@ + f);
        crate::text::lemma_ends_with_concat("Dead Time: "@, f);
    }
}

} // verus!
