//! The day view's project list: its rows, where its selection sits, what
//! its header needs, and how a name is fitted to its column.

use vstd::prelude::*;

use crate::data_svc::strs;
use crate::day::{
    clock_time_option_text, duration_decimal_text, duration_minutes_text, times_well_formed,
    ProjectEntry, TimeTrackingData,
};
use crate::event::AppEvent;
use crate::mode::Handled;
use crate::text::{push_char, push_repeated, repeat_char};
use crate::week_list::{first_row, last_row, next_row, previous_row, step_next, step_previous};
use crate::width::{char_columns, char_width, display_width, str_width};

verus! {

/// Columns reserved for the project name before the hours column starts.
pub const NAME_COLS: usize = 25;

/// Rows the start/end/working-time block of the header always takes.
pub const BASE_HEADER_ROWS: u16 = 4;

/// One project of the day as the list shows it.
#[derive(Debug)]
pub struct ProjectItem {
    /// The project code.
    pub name: String,
    /// Minutes booked against it.
    pub total_minutes: u32,
    /// Its notes, in file order.
    pub tasks: Vec<String>,
}

/// The day view's project list and the header above it.
#[derive(Debug)]
pub struct ProjectListWidget {
    start_time: String,
    end_time: String,
    total_minutes: u32,
    dead_time_minutes: u32,
    dead_time: String,
    dead_decimal: String,
    warnings: Vec<String>,
    items: Vec<ProjectItem>,
    selected: Option<usize>,
}

/// `item` shows the project `p`.
pub open spec fn shows(item: ProjectItem, p: ProjectEntry) -> bool {
    &&& item.name@ == p.name@
    &&& item.total_minutes == p.total_minutes
    &&& strs(item.tasks@) == strs(p.notes@)
}

/// The notes of `item` as the list's copy command puts them on the
/// clipboard: each on its own line after a dash.
pub open spec fn notes_copy_text(tasks: Seq<Seq<char>>) -> Seq<char>
    decreases tasks.len(),
{
    if tasks.len() == 0 {
        "- "@
    } else if tasks.len() == 1 {
        "- "@ + tasks[0]
    } else {
        notes_copy_text(tasks.drop_last()) + "\n- "@ + tasks.last()
    }
}

/// A copy of a list of strings.
pub(crate) fn copy_strings(v: &Vec<String>) -> (r: Vec<String>)
    ensures
        strs(r@) == strs(v@),
{
    let mut out: Vec<String> = Vec::new();
    let mut i: usize = 0;
    while i < v.len()
        invariant
            i <= v@.len(),
            strs(out@) == strs(v@.take(i as int)),
        decreases v@.len() - i,
    {
        let ghost before = out@;
        out.push(v[i].clone());
        assert(strs(out@) =~= strs(before).push(v@[i as int]@));
        assert(strs(v@.take(i + 1)) =~= strs(v@.take(i as int)).push(v@[i as int]@));
        i = i + 1;
    }
    assert(v@.take(v@.len() as int) =~= v@);
    out
}

impl ProjectListWidget {
    /// The list's rows.
    pub closed spec fn items_spec(self) -> Seq<ProjectItem> {
        self.items@
    }

    /// The selected row.
    pub closed spec fn selection(self) -> Option<usize> {
        self.selected
    }

    /// The parser warnings the header shows.
    pub closed spec fn warnings_spec(self) -> Seq<Seq<char>> {
        strs(self.warnings@)
    }

    /// The header's texts: start, end, dead time and dead decimal hours,
    /// and the working and dead minutes.
    pub closed spec fn header_spec(self) -> (Seq<char>, Seq<char>, Seq<char>, Seq<char>, u32, u32) {
        (self.start_time@, self.end_time@, self.dead_time@, self.dead_decimal@, self.total_minutes,
            self.dead_time_minutes)
    }

    /// This list is the one freshly built for the day `data`: a row per
    /// project in file order, the first one selected, and the day's header.
    pub open spec fn lists_day(self, data: TimeTrackingData) -> bool {
        &&& self.items_spec().len() == data.projects@.len()
        &&& forall|k: int| 0 <= k < data.projects@.len() ==> shows(#[trigger] self.items_spec()[k], data.projects@[k])
        &&& self.selection() == (if data.projects@.len() > 0 { Some(0usize) } else { None })
        &&& self.warnings_spec() == strs(data.warnings@)
        &&& self.header_spec() == (
            clock_time_option_text(data.start_time, "N/A"@),
            clock_time_option_text(data.end_time, "N/A"@),
            duration_minutes_text(data.dead_time_minutes as nat),
            duration_decimal_text(data.dead_time_minutes as nat),
            data.total_minutes,
            data.dead_time_minutes,
        )
    }

    /// The list for the day `data`, its first project selected.
    pub fn new(data: &TimeTrackingData) -> (w: ProjectListWidget)
        requires
            times_well_formed(*data),
        ensures
            w.lists_day(*data),
    {
        let mut items: Vec<ProjectItem> = Vec::new();
        let mut i: usize = 0;
        while i < data.projects.len()
            invariant
                i <= data.projects@.len(),
                items@.len() == i,
                forall|k: int| 0 <= k < i ==> shows(#[trigger] items@[k], data.projects@[k]),
            decreases data.projects@.len() - i,
        {
            let p = &data.projects[i];
            items.push(ProjectItem { name: p.name.clone(), total_minutes: p.total_minutes, tasks: copy_strings(&p.notes) });
            i = i + 1;
        }
        let selected = if items.len() > 0 { Some(0) } else { None };
        ProjectListWidget {
            start_time: data.formatted_start_time(),
            end_time: data.formatted_end_time(),
            total_minutes: data.total_minutes,
            dead_time_minutes: data.dead_time_minutes,
            dead_time: data.formatted_dead_time_minutes(),
            dead_decimal: data.formatted_dead_decimal(),
            warnings: copy_strings(&data.warnings),
            items,
            selected,
        }
    }

    /// Apply `event`, if it is one the list owns; anything else falls
    /// through as `Ignored`. Copying the selected project's notes is
    /// consumed here and carried out by the caller with [`Self::notes_to_copy`].
    pub fn apply(&mut self, event: &AppEvent) -> (r: Handled)
        ensures
            final(self).items_spec() == old(self).items_spec(),
            final(self).warnings_spec() == old(self).warnings_spec(),
            final(self).header_spec() == old(self).header_spec(),
            ({
                let len = old(self).items_spec().len();
                let s = old(self).selection();
                match *event {
                    AppEvent::NextProject => r == Handled::Consumed && final(self).selection() == next_row(s, len),
                    AppEvent::PreviousProject => r == Handled::Consumed && final(self).selection() == previous_row(s, len),
                    AppEvent::FirstProject => r == Handled::Consumed && final(self).selection() == first_row(s, len),
                    AppEvent::LastProject => r == Handled::Consumed && final(self).selection() == last_row(s, len),
                    AppEvent::CopyNotes => r == Handled::Consumed && final(self).selection() == s,
                    _ => r == Handled::Ignored && final(self).selection() == s,
                }
            }),
    {
        let len = self.items.len();
        match event {
            AppEvent::NextProject => {
                self.selected = step_next(self.selected, len);
            },
            AppEvent::PreviousProject => {
                self.selected = step_previous(self.selected, len);
            },
            AppEvent::FirstProject => {
                if len > 0 {
                    self.selected = Some(0);
                }
            },
            AppEvent::LastProject => {
                if len > 0 {
                    self.selected = Some(len - 1);
                }
            },
            AppEvent::CopyNotes => {},
            _ => return Handled::Ignored,
        }
        Handled::Consumed
    }

    /// The notes of the selected project as they go on the clipboard, or
    /// `None` when no row is selected.
    pub fn notes_to_copy(&self) -> (r: Option<String>)
        ensures
            match self.selection() {
                Some(i) => if i < self.items_spec().len() {
                    r matches Some(t) && t@ == notes_copy_text(strs(self.items_spec()[i as int].tasks@))
                } else {
                    r is None
                },
                None => r is None,
            },
    {
        let i = match self.selected {
            Some(i) => i,
            None => return None,
        };
        if i >= self.items.len() {
            return None;
        }
        let tasks = &self.items[i].tasks;
        let mut t = String::from_str("- ");
        let mut k: usize = 0;
        while k < tasks.len()
            invariant
                k <= tasks@.len(),
                k == 0 ==> t@ == "- "@,
                k > 0 ==> t@ == notes_copy_text(strs(tasks@).take(k as int)),
            decreases tasks@.len() - k,
        {
            if k > 0 {
                t.append("\n- ");
            }
            t.append(tasks[k].as_str());
            assert(strs(tasks@).take(k + 1).drop_last() =~= strs(tasks@).take(k as int));
            proof {
                if k == 0 {
                    assert(strs(tasks@).take(1)[0] == tasks@[0]@);
                }
            }
            k = k + 1;
        }
        proof {
            assert(strs(tasks@).take(tasks@.len() as int) =~= strs(tasks@));
        }
        Some(t)
    }

    /// The selected row.
    pub fn selected_item(&self) -> (r: Option<usize>)
        ensures
            r == self.selection(),
    {
        self.selected
    }

    /// Whether the list has any rows.
    pub fn has_items(&self) -> (r: bool)
        ensures
            r == (self.items_spec().len() > 0),
    {
        self.items.len() > 0
    }

    /// Rows the header needs: the start/end/working-time block, plus a
    /// blank separator and a row per warning when there are any.
    pub fn header_height(&self) -> (h: u16)
        ensures
            h == header_rows(self.warnings_spec().len()),
    {
        let n = self.warnings.len();
        if n == 0 {
            return BASE_HEADER_ROWS;
        }
        if n >= (u16::MAX - BASE_HEADER_ROWS) as usize {
            return u16::MAX;
        }
        BASE_HEADER_ROWS + 1 + n as u16
    }
}

/// Dead time at or above this many minutes is shown as an error rather
/// than a warning, as the day summary splits it.
pub const DEAD_TIME_ERROR_THRESHOLD_MINUTES: u32 = 90;

impl ProjectListWidget {
    /// The dead-time part of the working-time line: nothing for a day with
    /// no dead time; else its text and whether it reads as an error (at or
    /// above the threshold) rather than a warning.
    pub fn dead_time_span(&self) -> (r: Option<(String, bool)>)
        ensures
            self.header_spec().5 == 0 ==> r is None,
            self.header_spec().5 > 0 ==> (r matches Some((t, is_error))
                && t@ == "Dead Time: "@ + self.header_spec().2 + " ("@ + self.header_spec().3 + " hours)"@
                && is_error == (self.header_spec().5 >= DEAD_TIME_ERROR_THRESHOLD_MINUTES)),
    {
        if self.dead_time_minutes == 0 {
            return None;
        }
        let mut t = String::from_str("Dead Time: ");
        t.append(self.dead_time.as_str());
        t.append(" (");
        t.append(self.dead_decimal.as_str());
        t.append(" hours)");
        Some((t, self.dead_time_minutes >= DEAD_TIME_ERROR_THRESHOLD_MINUTES))
    }
}

/// Rows a header with `warnings` warnings takes, saturating at `u16::MAX`.
pub open spec fn header_rows(warnings: nat) -> u16 {
    if warnings == 0 {
        BASE_HEADER_ROWS
    } else if warnings + 1 + BASE_HEADER_ROWS >= u16::MAX {
        u16::MAX
    } else {
        (BASE_HEADER_ROWS + 1 + warnings) as u16
    }
}

/// The columns `c` takes, a control character none.
pub open spec fn cols(c: char) -> nat {
    match char_width(c) {
        Some(n) => n,
        None => 0,
    }
}

/// How many leading characters of `s` fit in `room` columns after `used`
/// are already taken, stopping at the first that does not fit.
pub open spec fn fit_count(s: Seq<char>, room: nat, used: nat) -> nat
    decreases s.len(),
{
    if s.len() == 0 || used + cols(s[0]) > room {
        0
    } else {
        1 + fit_count(s.drop_first(), room, used + cols(s[0]))
    }
}

/// The columns those characters take, `used` included.
pub open spec fn fit_cols(s: Seq<char>, room: nat, used: nat) -> nat
    decreases s.len(),
{
    if s.len() == 0 || used + cols(s[0]) > room {
        used
    } else {
        fit_cols(s.drop_first(), room, used + cols(s[0]))
    }
}

/// `name` fitted to `cols` display columns: padded with spaces when it is
/// narrower, else cut short and ended with `…`, padded to the width where
/// a wide last glyph leaves a column over.
pub open spec fn padded_name(name: Seq<char>, width: nat) -> Seq<char> {
    let w = display_width(name);
    if w <= width {
        name + repeat_char(' ', (width - w) as nat)
    } else {
        let room: nat = if width > 0 { (width - 1) as nat } else { 0 };
        let n = fit_count(name, room, 0);
        let used = fit_cols(name, room, 0);
        name.take(n as int) + seq!['…'] + repeat_char(' ', if width > used + 1 { (width - used - 1) as nat } else { 0 })
    }
}

/// The characters of `s` from `i` on.
proof fn lemma_fit_step(s: Seq<char>, i: int, room: nat, used: nat)
    requires
        0 <= i < s.len(),
        used + cols(s[i]) <= room,
    ensures
        fit_count(s.skip(i), room, used) == 1 + fit_count(s.skip(i + 1), room, used + cols(s[i])),
        fit_cols(s.skip(i), room, used) == fit_cols(s.skip(i + 1), room, used + cols(s[i])),
{
    assert(s.skip(i).drop_first() =~= s.skip(i + 1));
    assert(s.skip(i)[0] == s[i]);
}

/// Pad `name` with spaces to `width` display columns, or cut it short with
/// `…` where it is wider, so that CJK and emoji keep the hours column in
/// line.
pub fn pad_display_width(name: &str, width: usize) -> (r: String)
    ensures
        r@ == padded_name(name@, width as nat),
{
    let w = str_width(name);
    if w <= width {
        let mut out = String::from_str(name);
        push_repeated(&mut out, ' ', width - w);
        return out;
    }
    let room: usize = if width > 0 { width - 1 } else { 0 };
    let n = name.unicode_len();
    let mut out = String::new();
    let mut used: usize = 0;
    let mut i: usize = 0;
    let mut done = false;
    assert(name@.skip(0) =~= name@);
    while i < n && !done
        invariant
            n == name@.len(),
            i <= n,
            used <= room,
            out@ == name@.take(i as int),
            fit_count(name@, room as nat, 0) == i + fit_count(name@.skip(i as int), room as nat, used as nat),
            fit_cols(name@, room as nat, 0) == fit_cols(name@.skip(i as int), room as nat, used as nat),
            done ==> fit_count(name@.skip(i as int), room as nat, used as nat) == 0
                && fit_cols(name@.skip(i as int), room as nat, used as nat) == used,
        decreases 2 * (n - i) + if done { 0int } else { 1int },
    {
        let c = name.get_char(i);
        let cw: usize = match char_columns(c) {
            Some(x) => x,
            None => 0,
        };
        assert(name@.skip(i as int)[0] == name@[i as int]);
        if cw > room - used {
            done = true;
        } else {
            proof {
                lemma_fit_step(name@, i as int, room as nat, used as nat);
            }
            push_char(&mut out, c);
            assert(out@ =~= name@.take(i + 1));
            used = used + cw;
            i = i + 1;
        }
    }
    proof {
        if !done {
            assert(name@.skip(n as int).len() == 0);
        }
    }
    push_char(&mut out, '…');
    let pad: usize = if width > used + 1 { width - used - 1 } else { 0 };
    push_repeated(&mut out, ' ', pad);
    out
}

/// How many leading characters of `s` the hard break of a word takes in
/// `room` columns: at least one, and then as many as fit.
pub open spec fn within_count(s: Seq<char>, room: nat, used: nat) -> nat
    decreases s.len(),
{
    if s.len() == 0 {
        0
    } else if used > 0 && used + cols(s[0]) > room {
        0
    } else if used + cols(s[0]) >= room {
        1
    } else {
        1 + within_count(s.drop_first(), room, used + cols(s[0]))
    }
}

/// The longest prefix of `s` whose display width fits in `room` columns,
/// and never less than one character of a non-empty `s`, so that a single
/// glyph wider than the room cannot stall a wrapping loop.
pub fn take_within_width(s: &str, room: usize) -> (r: String)
    ensures
        r@ == s@.take(within_count(s@, room as nat, 0) as int),
{
    let n = s.unicode_len();
    let mut out = String::new();
    let mut used: usize = 0;
    let mut i: usize = 0;
    let mut done = false;
    assert(s@.skip(0) =~= s@);
    while i < n && !done
        invariant
            n == s@.len(),
            i <= n,
            used <= room,
            out@ == s@.take(i as int),
            !done ==> within_count(s@, room as nat, 0) == i + within_count(s@.skip(i as int), room as nat, used as nat),
            done ==> within_count(s@, room as nat, 0) == i,
        decreases 2 * (n - i) + if done { 0int } else { 1int },
    {
        let c = s.get_char(i);
        let cw: usize = match char_columns(c) {
            Some(x) => x,
            None => 0,
        };
        assert(s@.skip(i as int)[0] == s@[i as int]);
        assert(s@.skip(i as int).drop_first() =~= s@.skip(i + 1));
        if used > 0 && cw > room - used {
            done = true;
        } else if cw >= room - used {
            push_char(&mut out, c);
            assert(out@ =~= s@.take(i + 1));
            i = i + 1;
            done = true;
        } else {
            push_char(&mut out, c);
            assert(out@ =~= s@.take(i + 1));
            i = i + 1;
            used = used + cw;
        }
    }
    proof {
        if !done {
            assert(s@.skip(n as int).len() == 0);
        }
    }
    out
}


/// A hard break takes between one character and all of a non-empty word.
pub proof fn lemma_within_count_bounds(s: Seq<char>, room: nat, used: nat)
    ensures
        within_count(s, room, used) <= s.len(),
        used == 0 && s.len() > 0 ==> within_count(s, room, used) >= 1,
    decreases s.len(),
{
    if s.len() > 0 {
        lemma_within_count_bounds(s.drop_first(), room, used + cols(s[0]));
    }
}

/// The line width a note is wrapped to: at least one column.
pub open spec fn wrap_width(width: nat) -> nat {
    if width == 0 { 1 } else { width }
}

/// The hanging indent of continuation lines, capped one short of the
/// width so that an indent alone never fills a line.
pub open spec fn wrap_indent(width: nat, indent: nat) -> nat {
    if indent < width - 1 { indent } else { (width - 1) as nat }
}

/// The lines finished so far, the line being filled, and whether a word
/// has been put on it.
pub type WrapState = (Seq<Seq<char>>, Seq<char>, bool);

/// What a new line starts with: nothing for the first, the hanging indent
/// for the others.
pub open spec fn line_start(lines: Seq<Seq<char>>, indent: nat) -> Seq<char> {
    if lines.len() == 0 { Seq::empty() } else { repeat_char(' ', indent) }
}

/// The room the hard break of a word has on `line`: what is left of the
/// width, and at least a column.
pub open spec fn break_room(line: Seq<char>, width: nat) -> nat {
    if width > display_width(line) + 1 { (width - display_width(line)) as nat } else { 1 }
}

/// A word too wide for any line, broken across as many lines as it takes.
pub open spec fn hard_break(st: WrapState, rest: Seq<char>, width: nat, indent: nat) -> WrapState
    decreases rest.len(),
{
    if rest.len() == 0 {
        st
    } else {
        let k = within_count(rest, break_room(st.1, width), 0);
        if 1 <= k <= rest.len() {
            let line = st.1 + rest.take(k as int);
            let rem = rest.skip(k as int);
            if rem.len() == 0 {
                (st.0, line, true)
            } else {
                let lines = st.0.push(line);
                hard_break((lines, line_start(lines, indent), false), rem, width, indent)
            }
        } else {
            st
        }
    }
}

/// `word` packed onto the lines: after the words on the line being filled
/// when it fits there, else on a fresh line, else broken across lines.
pub open spec fn add_word(st: WrapState, word: Seq<char>, width: nat, indent: nat) -> WrapState {
    let sep: nat = if st.2 { 1 } else { 0 };
    if display_width(st.1) + sep + display_width(word) <= width {
        (st.0, st.1 + (if st.2 { seq![' '] } else { Seq::empty() }) + word, true)
    } else {
        let st1: WrapState = if st.2 {
            let lines = st.0.push(st.1);
            (lines, line_start(lines, indent), false)
        } else {
            st
        };
        if display_width(st1.1) + display_width(word) <= width {
            (st1.0, st1.1 + word, true)
        } else {
            hard_break(st1, word, width, indent)
        }
    }
}

/// The words packed greedily, in order.
pub open spec fn pack_words(words: Seq<Seq<char>>, width: nat, indent: nat) -> WrapState
    decreases words.len(),
{
    if words.len() == 0 {
        (Seq::empty(), Seq::empty(), false)
    } else {
        add_word(pack_words(words.drop_last(), width, indent), words.last(), width, indent)
    }
}

/// `note` wrapped to `width` display columns: its white-space separated
/// words packed greedily onto lines, continuation lines indented by
/// `indent` (capped below the width), a word that fits on no line broken
/// across lines rather than dropped. A note with no words is one empty line.
pub open spec fn wrapped_note(note: Seq<char>, width: nat, indent: nat) -> Seq<Seq<char>> {
    let w = wrap_width(width);
    let ind = wrap_indent(w, indent);
    let st = pack_words(crate::editor::words(note), w, ind);
    if st.2 || st.0.len() == 0 { st.0.push(st.1) } else { st.0 }
}

/// The characters of `s` from the `k`-th on.
fn skip_chars(s: &str, k: usize) -> (r: String)
    requires
        k <= s@.len(),
    ensures
        r@ == s@.skip(k as int),
{
    let n = s.unicode_len();
    let mut out = String::new();
    let mut i = k;
    while i < n
        invariant
            n == s@.len(),
            k <= i <= n,
            out@ == s@.subrange(k as int, i as int),
        decreases n - i,
    {
        push_char(&mut out, s.get_char(i));
        assert(out@ =~= s@.subrange(k as int, i + 1));
        i = i + 1;
    }
    assert(s@.subrange(k as int, n as int) =~= s@.skip(k as int));
    out
}

/// A line of `n` spaces.
fn spaces(n: usize) -> (r: String)
    ensures
        r@ == repeat_char(' ', n as nat),
{
    let mut s = String::new();
    push_repeated(&mut s, ' ', n);
    s
}

/// Break `word` across lines (see [`hard_break`]).
fn break_word(lines: &mut Vec<String>, line: &mut String, has_word: &mut bool, word: &str, width: usize, indent: usize)
    requires
        width >= 1,
    ensures
        ({
            let st = hard_break((strs(old(lines)@), old(line)@, *old(has_word)), word@, width as nat, indent as nat);
            &&& strs(final(lines)@) == st.0
            &&& final(line)@ == st.1
            &&& *final(has_word) == st.2
        }),
{
    let mut remaining = String::from_str(word);
    while remaining.unicode_len() > 0
        invariant
            width >= 1,
            hard_break((strs(lines@), line@, *has_word), remaining@, width as nat, indent as nat)
                == hard_break((strs(old(lines)@), old(line)@, *old(has_word)), word@, width as nat, indent as nat),
        decreases remaining@.len(),
    {
        let lw = str_width(line.as_str());
        let room: usize = if lw < usize::MAX - 1 && width > lw + 1 { width - lw } else { 1 };
        proof {
            if !(lw < usize::MAX - 1) {
                assert(display_width(line@) + 1 >= width);
            }
            assert(room == break_room(line@, width as nat));
            lemma_within_count_bounds(remaining@, room as nat, 0);
        }
        let take = take_within_width(remaining.as_str(), room);
        let k = take.unicode_len();
        line.append(take.as_str());
        let rest = skip_chars(remaining.as_str(), k);
        if rest.unicode_len() == 0 {
            *has_word = true;
        } else {
            let ghost before = strs(lines@);
            let mut done_line = String::new();
            std::mem::swap(&mut done_line, line);
            lines.push(done_line);
            assert(strs(lines@) =~= before.push(done_line@));
            *line = spaces(indent);
            *has_word = false;
        }
        remaining = rest;
    }
}

/// Pack the white-space separated words of `note` onto lines of at most
/// `width` display columns, continuation lines indented by `indent`
/// spaces; a word that fits on no line is broken across lines, never
/// dropped.
pub fn wrap_note(note: &str, width: u16, indent: usize) -> (r: Vec<String>)
    ensures
        strs(r@) == wrapped_note(note@, width as nat, indent as nat),
{
    let w: usize = if width == 0 { 1 } else { width as usize };
    let ind: usize = if indent < w - 1 { indent } else { w - 1 };
    let words = crate::editor::split_whitespace(note);
    let mut lines: Vec<String> = Vec::new();
    let mut line = String::new();
    let mut has_word = false;
    let mut i: usize = 0;
    proof {
        assert(strs(words@) == crate::editor::words(note@));
    }
    while i < words.len()
        invariant
            w == wrap_width(width as nat),
            ind == wrap_indent(w as nat, indent as nat),
            w >= 1,
            i <= words@.len(),
            strs(words@) == crate::editor::words(note@),
            (strs(lines@), line@, has_word) == pack_words(strs(words@).take(i as int), w as nat, ind as nat),
        decreases words@.len() - i,
    {
        let word = words[i].as_str();
        proof {
            assert(strs(words@).take(i + 1).drop_last() =~= strs(words@).take(i as int));
            assert(strs(words@).take(i + 1).last() == word@);
        }
        let lw = str_width(line.as_str());
        let ww = str_width(word);
        let sep: usize = if has_word { 1 } else { 0 };
        if lw <= w && ww <= w && lw + sep + ww <= w {
            if has_word {
                push_char(&mut line, ' ');
            }
            line.append(word);
            has_word = true;
            i = i + 1;
            continue;
        }
        if has_word {
            let ghost before = strs(lines@);
            let mut done_line = String::new();
            std::mem::swap(&mut done_line, &mut line);
            lines.push(done_line);
            assert(strs(lines@) =~= before.push(done_line@));
            line = spaces(ind);
            has_word = false;
        }
        let lw2 = str_width(line.as_str());
        if lw2 <= w && ww <= w && lw2 + ww <= w {
            line.append(word);
            has_word = true;
            i = i + 1;
            continue;
        }
        break_word(&mut lines, &mut line, &mut has_word, word, w, ind);
        i = i + 1;
    }
    assert(strs(words@).take(words@.len() as int) =~= strs(words@));
    if has_word || lines.len() == 0 {
        let ghost before = strs(lines@);
        lines.push(line);
        assert(strs(lines@) =~= before.push(line@));
    }
    lines
}

/// The day pane copies every note of a project, in order, each on a line
/// of its own after "- ": one note copies as that note's line, and one
/// more note at the end copies as exactly one more line.
pub proof fn law_notes_copy_keeps_every_note(tasks: Seq<Seq<char>>, note: Seq<char>)
    ensures
        notes_copy_text(seq![note]) == "- "@ + note,
        tasks.len() > 0 ==> notes_copy_text(tasks.push(note)) == notes_copy_text(tasks) + "\n- "@ + note,
{
    assert(seq![note][0] == note);
    if tasks.len() > 0 {
        assert(tasks.push(note).drop_last() =~= tasks);
    }
}

} // verus!
