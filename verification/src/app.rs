//! The terminal UI's state and the decisions it makes.
//!
//! A key is offered to the open overlay first, then to the active mode's
//! bindings; what it turns into is an [`AppEvent`]. Applying an event
//! changes the [`App`] and names, as an [`Action`], the one thing the event
//! loop has to go and do outside it: queue another event, start a load,
//! open the editor, or put text on the clipboard.

use vstd::prelude::*;

use crate::data_svc::{strs, WeeklyProject, WeeklySummary};
use crate::date::{julian_weekday, Date, Weekday, MAX_JULIAN_DAY, MIN_JULIAN_DAY};
use crate::day::{times_well_formed, TimeTrackingData};
use crate::event::{AppEvent, LoadPayload, Reload};
use crate::keymap::{
    binding_row, close_overlay_row, closes_overlay, first_firing_from, lookup, normalize_spec,
    KeyCode, KeyEvent,
};
use crate::mode::{Handled, Mode, Overlay};
use crate::project_list::{notes_copy_text, ProjectListWidget};
use crate::time_utils::{get_week_dates, week_fits, week_in_range, week_start_julian};
use crate::tui_context::TuiContext;
use crate::week_list::{
    clamped, first_row, last_row, next_row, previous_row, week_copy_message, week_copy_payload,
    WeekListState,
};

verus! {

/// `key` is Ctrl-C, which quits whatever is on screen.
pub open spec fn is_interrupt_spec(key: KeyEvent) -> bool {
    &&& key.code == KeyCode::Char('c') || key.code == KeyCode::Char('C')
    &&& key.modifiers.bits == 2
}

/// Whether `key` is Ctrl-C. The terminal delivers it as a key, not a
/// signal, so it has to be answered like one.
pub fn is_interrupt(key: KeyEvent) -> (r: bool)
    ensures
        r == is_interrupt_spec(key),
{
    (key.code == KeyCode::Char('c') || key.code == KeyCode::Char('C')) && key.modifiers.bits == 2
}

/// What `key` amounts to in `mode` with `overlay` open: Ctrl-C quits;
/// an open overlay is the only layer that sees any other key, closing on
/// its dismiss keys and swallowing the rest; otherwise the first binding
/// live in `mode` that lists the key decides.
pub open spec fn routed(mode: Mode, overlay: Option<Overlay>, key: KeyEvent) -> Handled {
    if is_interrupt_spec(key) {
        Handled::Emit(AppEvent::Quit)
    } else if overlay is Some {
        if binding_row(close_overlay_row()).0.contains(normalize_spec(key)) {
            Handled::Emit(AppEvent::CloseOverlay)
        } else {
            Handled::Consumed
        }
    } else {
        match first_firing_from(0, key, mode) {
            Some(i) => Handled::Emit(binding_row(i).1),
            None => Handled::Ignored,
        }
    }
}

/// Which layer `key` reaches in `mode` with `overlay` open, and what it
/// makes of it.
pub fn route_key(mode: Mode, overlay: &Option<Overlay>, key: KeyEvent) -> (h: Handled)
    ensures
        h == routed(mode, *overlay, key),
{
    if is_interrupt(key) {
        return Handled::Emit(AppEvent::Quit);
    }
    if overlay.is_some() {
        if closes_overlay(key) {
            Handled::Emit(AppEvent::CloseOverlay)
        } else {
            Handled::Consumed
        }
    } else {
        match lookup(key, mode) {
            Some(b) => Handled::Emit(b.event),
            None => Handled::Ignored,
        }
    }
}

/// Events after which the next key must already be routed differently:
/// those that open or close an overlay or change the mode.
pub open spec fn changes_key_routing_spec(event: AppEvent) -> bool {
    match event {
        AppEvent::ToggleHelp | AppEvent::CloseOverlay | AppEvent::OpenDatePrompt
        | AppEvent::ToggleZoomBar | AppEvent::ToggleWeekMode | AppEvent::ToggleRawFile => true,
        _ => false,
    }
}

/// Whether `event` changes how the next key is routed.
pub fn changes_key_routing(event: &AppEvent) -> (r: bool)
    ensures
        r == changes_key_routing_spec(*event),
{
    match event {
        AppEvent::ToggleHelp | AppEvent::CloseOverlay | AppEvent::OpenDatePrompt
        | AppEvent::ToggleZoomBar | AppEvent::ToggleWeekMode | AppEvent::ToggleRawFile => true,
        _ => false,
    }
}

/// Events that only move a pane's own selection or scroll position.
pub open spec fn is_pane_event_spec(event: AppEvent) -> bool {
    match event {
        AppEvent::NextProject | AppEvent::PreviousProject | AppEvent::FirstProject
        | AppEvent::LastProject | AppEvent::CopyNotes | AppEvent::NextWeekProject
        | AppEvent::PreviousWeekProject | AppEvent::FirstWeekProject | AppEvent::LastWeekProject
        | AppEvent::CopyWeekProject | AppEvent::ScrollRawFileDown | AppEvent::ScrollRawFileUp => true,
        _ => false,
    }
}

/// Whether `event` belongs to a pane.
pub fn is_pane_event(event: &AppEvent) -> (r: bool)
    ensures
        r == is_pane_event_spec(*event),
{
    match event {
        AppEvent::NextProject | AppEvent::PreviousProject | AppEvent::FirstProject
        | AppEvent::LastProject | AppEvent::CopyNotes | AppEvent::NextWeekProject
        | AppEvent::PreviousWeekProject | AppEvent::FirstWeekProject | AppEvent::LastWeekProject
        | AppEvent::CopyWeekProject | AppEvent::ScrollRawFileDown | AppEvent::ScrollRawFileUp => true,
        _ => false,
    }
}

/// What a background load is asked to fetch.
#[derive(Debug, PartialEq)]
pub struct LoadRequest {
    /// The generation the result must carry to be applied.
    pub generation: u64,
    /// The date whose day is loaded.
    pub date: Date,
    /// The week whose days feed the bar chart and the rollup.
    pub week: [Date; 7],
    /// Why the load was asked for.
    pub reload: Reload,
}

/// What the event loop has to do outside the [`App`] after an event.
#[derive(Debug, PartialEq)]
pub enum Action {
    /// Nothing.
    Nothing,
    /// Send this event round the loop again.
    Queue(AppEvent),
    /// Start a background load.
    Load(LoadRequest),
    /// Suspend the screen, open this date's file in the editor, then queue
    /// a rescan.
    Edit(Date),
    /// Put `.0` on the clipboard, reporting `.1` when there is one.
    Copy(String, Option<String>),
}

/// The terminal UI's state.
#[derive(Debug)]
pub struct App {
    /// Whether the loop keeps going.
    pub running: bool,
    /// The view filling the screen.
    pub mode: Mode,
    /// The modal layer drawn over it, if any.
    pub overlay: Option<Overlay>,
    /// Whether a load is in flight.
    pub loading: bool,
    /// The date on screen.
    pub active_date: Date,
    /// The seven dates of `active_date`'s week.
    pub week_dates: [Date; 7],
    /// The generation of the latest load asked for; a result carrying any
    /// other is stale.
    pub generation: u64,
    /// The date the last applied load was for.
    pub loaded_date: Option<Date>,
    /// The active date's parsed day, when it has projects.
    pub data: Option<TimeTrackingData>,
    /// The day view's list, built from `data`.
    pub project_list_widget: Option<ProjectListWidget>,
    /// The day's file as it sits on disk, when there is one.
    pub raw_content: Option<String>,
    /// Lines of the raw file scrolled past the top.
    pub raw_scroll: u16,
    /// Lines the raw-file pane shows at once, as last drawn.
    pub raw_visible_lines: u16,
    /// Dates with tracked hours, for the calendar's markers.
    pub populated_dates: Vec<Date>,
    /// Tracked minutes per day of the loaded week.
    pub weekly_data: Vec<(Date, u32)>,
    /// The loaded week's rollup.
    pub weekly_summary: Option<WeeklySummary>,
    /// The first date of the week `weekly_summary` was loaded for.
    pub summary_week_start: Option<Date>,
    /// The week pane's selection.
    pub week_list: WeekListState,
    /// The last load's error, for the status line.
    pub status: Option<String>,
    /// The settings the UI runs with.
    pub ctx: TuiContext,
}

/// `dates` are the seven days of the week holding `date`.
pub open spec fn week_matches(dates: [Date; 7], date: Date, start: Weekday) -> bool {
    forall|i: int| 0 <= i < 7 ==> (#[trigger] dates[i]).julian_day_spec() == week_start_julian(date, start) + i
}

impl App {
    /// The active date's week exists and `week_dates` holds it.
    pub open spec fn wf(self) -> bool {
        &&& week_in_range(self.active_date, self.ctx.week_start_day)
        &&& week_matches(self.week_dates, self.active_date, self.ctx.week_start_day)
    }

    /// A running app in the day view with nothing loaded yet, opened on
    /// `today` (the caller reads it off the clock).
    pub fn new(ctx: TuiContext, today: Date) -> (app: App)
        requires
            week_in_range(today, ctx.week_start_day),
        ensures
            app.wf(),
            app.running,
            app.mode == Mode::Day,
            app.overlay is None,
            !app.loading,
            app.active_date == today,
            app.generation == 0,
            app.loaded_date is None,
            app.data is None,
            app.project_list_widget is None,
            app.raw_content is None,
            app.raw_scroll == 0,
            app.raw_visible_lines == 0,
            app.populated_dates@.len() == 0,
            app.weekly_data@.len() == 0,
            app.weekly_summary is None,
            app.summary_week_start is None,
            app.week_list.selection() is None,
            app.status is None,
            app.ctx == ctx,
    {
        let week_dates = get_week_dates(&today, ctx.week_start_day);
        App {
            running: true,
            mode: Mode::Day,
            overlay: None,
            loading: false,
            active_date: today,
            week_dates,
            generation: 0,
            loaded_date: None,
            data: None,
            project_list_widget: None,
            raw_content: None,
            raw_scroll: 0,
            raw_visible_lines: 0,
            populated_dates: Vec::new(),
            weekly_data: Vec::new(),
            weekly_summary: None,
            summary_week_start: None,
            week_list: WeekListState::new(),
            status: None,
            ctx,
        }
    }
}

/// The Julian day `j`'s week, starting on `start`, lies in the range of
/// dates there are.
pub open spec fn week_fits_julian(j: int, start: Weekday) -> bool {
    let since = (julian_weekday(j).index() - start.index() + 7) % 7;
    &&& MIN_JULIAN_DAY <= j - since
    &&& j - since + 6 <= MAX_JULIAN_DAY
}

/// `n` is `o` moved to the date with Julian day `target` when that date
/// exists and its week fits, and `o` unchanged otherwise.
pub open spec fn lands_on(o: App, n: App, target: int) -> bool {
    if MIN_JULIAN_DAY <= target <= MAX_JULIAN_DAY && week_fits_julian(target, o.ctx.week_start_day) {
        &&& n.active_date.julian_day_spec() == target
        &&& n == (App { active_date: n.active_date, week_dates: n.week_dates, ..o })
    } else {
        n == o
    }
}

/// The month after (or before) `year`-`month`.
pub open spec fn month_shift(year: int, month: int, forward: bool) -> (int, int) {
    if forward {
        if month == 12 { (year + 1, 1) } else { (year, month + 1) }
    } else {
        if month == 1 { (year - 1, 12) } else { (year, month - 1) }
    }
}

/// The Julian day a month away from Julian day `j`: the same day of the
/// month, or the target month's last day when that month is shorter.
pub open spec fn month_step_target(j: int, forward: bool) -> Option<int> {
    let (y, m, d) = crate::date::julian_calendar_date(j);
    let (y2, m2) = month_shift(y, m, forward);
    let last = crate::calendar::month_length_spec(y2, m2);
    crate::date::calendar_julian_day(y2, m2, if d < last { d } else { last })
}

/// The generation after `g`, wrapping round at the top.
pub open spec fn next_generation(g: u64) -> u64 {
    if g == u64::MAX { 0 } else { (g + 1) as u64 }
}

/// The navigation reload every date move queues.
pub open spec fn navigation_reload() -> Action {
    Action::Queue(AppEvent::ReloadFromDisk(Reload::Navigation))
}

impl App {
    /// The same app opened on `date` instead.
    pub fn with_active_date(self, date: Date) -> (r: App)
        requires
            self.wf(),
            week_in_range(date, self.ctx.week_start_day),
        ensures
            r.wf(),
            r == (App { active_date: date, week_dates: r.week_dates, ..self }),
    {
        let mut app = self;
        app.week_dates = get_week_dates(&date, app.ctx.week_start_day);
        app.active_date = date;
        app
    }

    /// Whether the rollup on hand belongs to another week than the one on
    /// screen, as it does between a move and the reload it queued.
    pub fn week_is_stale(&self) -> (r: bool)
        ensures
            r == (match self.summary_week_start {
                Some(s) => s != self.week_dates[0],
                None => false,
            }),
    {
        match self.summary_week_start {
            Some(s) => s != self.week_dates[0],
            None => false,
        }
    }

    /// Stop the loop.
    pub fn quit(&mut self)
        ensures
            *final(self) == (App { running: false, ..*old(self) }),
    {
        self.running = false;
    }

    /// Open the help popup when nothing is open; close whatever is open
    /// otherwise.
    pub fn toggle_help(&mut self)
        ensures
            *final(self) == (App {
                overlay: if old(self).overlay is None { Some(Overlay::Help) } else { None },
                ..*old(self)
            }),
    {
        if self.overlay.is_none() {
            self.overlay = Some(Overlay::Help);
        } else {
            self.overlay = None;
        }
    }

    /// Switch between the day view and the zoomed bar chart.
    pub fn toggle_zoom_bar(&mut self)
        ensures
            *final(self) == (App {
                mode: if old(self).mode == Mode::ZoomedWeek { Mode::Day } else { Mode::ZoomedWeek },
                ..*old(self)
            }),
    {
        self.mode = if self.mode == Mode::ZoomedWeek { Mode::Day } else { Mode::ZoomedWeek };
    }

    /// Switch between the day view and the week's rollup.
    pub fn toggle_week_mode(&mut self)
        ensures
            *final(self) == (App {
                mode: if old(self).mode == Mode::Week { Mode::Day } else { Mode::Week },
                ..*old(self)
            }),
    {
        self.mode = if self.mode == Mode::Week { Mode::Day } else { Mode::Week };
    }

    /// Switch between the day view and the raw file.
    pub fn toggle_raw_file(&mut self)
        ensures
            *final(self) == (App {
                mode: if old(self).mode == Mode::RawFile { Mode::Day } else { Mode::RawFile },
                ..*old(self)
            }),
    {
        self.mode = if self.mode == Mode::RawFile { Mode::Day } else { Mode::RawFile };
    }

    /// Move to `date` when its week exists, and ask for a navigation reload
    /// either way.
    pub fn go_to_date(&mut self, date: Date) -> (a: Action)
        requires
            old(self).wf(),
        ensures
            final(self).wf(),
            a == navigation_reload(),
            lands_on(*old(self), *final(self), date.julian_day_spec()),
    {
        if week_fits(&date, self.ctx.week_start_day) {
            self.week_dates = get_week_dates(&date, self.ctx.week_start_day);
            self.active_date = date;
        }
        Action::Queue(AppEvent::ReloadFromDisk(Reload::Navigation))
    }

    /// Move `days` days (back when negative), staying put at either end of
    /// the calendar.
    pub fn step_days(&mut self, days: i64) -> (a: Action)
        requires
            old(self).wf(),
        ensures
            final(self).wf(),
            a == navigation_reload(),
            lands_on(*old(self), *final(self), old(self).active_date.julian_day_spec() + days),
    {
        match self.active_date.checked_add_days(days) {
            Some(d) => self.go_to_date(d),
            None => Action::Queue(AppEvent::ReloadFromDisk(Reload::Navigation)),
        }
    }

    /// Move a month forward (or back), keeping the day of the month or
    /// clamping it to the target month's last day.
    pub fn step_month(&mut self, forward: bool) -> (a: Action)
        requires
            old(self).wf(),
        ensures
            final(self).wf(),
            a == navigation_reload(),
            match month_step_target(old(self).active_date.julian_day_spec(), forward) {
                Some(t) => lands_on(*old(self), *final(self), t),
                None => *final(self) == *old(self),
            },
    {
        let (y, m, d) = self.active_date.to_calendar_date();
        let (y2, m2): (i32, u8) = if forward {
            if m == 12 { (y + 1, 1) } else { (y, m + 1) }
        } else {
            if m == 1 { (y - 1, 12) } else { (y, m - 1) }
        };
        let last = crate::calendar::month_length(y2, m2);
        let day: u8 = if d < last { d } else { last };
        match Date::from_calendar_date(y2, m2, day) {
            Some(t) => self.go_to_date(t),
            None => Action::Queue(AppEvent::ReloadFromDisk(Reload::Navigation)),
        }
    }

    /// Start a load of the date on screen under a fresh generation.
    pub fn start_load(&mut self, reload: Reload) -> (a: Action)
        ensures
            *final(self) == (App { generation: next_generation(old(self).generation), loading: true, ..*old(self) }),
            a == Action::Load(LoadRequest {
                generation: next_generation(old(self).generation),
                date: old(self).active_date,
                week: old(self).week_dates,
                reload,
            }),
    {
        self.generation = if self.generation == u64::MAX { 0 } else { self.generation + 1 };
        self.loading = true;
        Action::Load(LoadRequest {
            generation: self.generation,
            date: self.active_date,
            week: self.week_dates,
            reload,
        })
    }
}

/// `n` holds the day `day` the way the day view installs one: a day with
/// projects (and real clock times) gets a list; anything else leaves both
/// empty, so the "no data" placeholder is drawn.
pub open spec fn day_installed(n: App, day: Option<TimeTrackingData>) -> bool {
    match day {
        Some(d) => if d.projects@.len() > 0 && times_well_formed(d) {
            &&& n.data == Some(d)
            &&& n.project_list_widget matches Some(w) && w.lists_day(d)
        } else {
            n.data is None && n.project_list_widget is None
        },
        None => n.data is None && n.project_list_widget is None,
    }
}

/// Lines in `s` as `str::lines` counts them: one per line break, plus one
/// for a last line with no break after it.
pub open spec fn newline_count(s: Seq<char>) -> nat
    decreases s.len(),
{
    if s.len() == 0 {
        0
    } else {
        newline_count(s.drop_last()) + if s.last() == '\n' { 1nat } else { 0nat }
    }
}

/// The number of lines of `s`.
pub open spec fn line_count(s: Seq<char>) -> nat {
    newline_count(s) + if s.len() > 0 && s.last() != '\n' { 1nat } else { 0nat }
}

/// How far the raw pane may scroll: the lines that do not fit on screen.
pub open spec fn scroll_limit(raw: Option<String>, visible: u16) -> int {
    let lines: int = match raw {
        Some(t) => line_count(t@) as int,
        None => 0,
    };
    if lines > visible { lines - visible } else { 0 }
}

/// The scroll position one line down (or up) from `cur`, kept within
/// `0..=limit`.
pub open spec fn scrolled(cur: u16, down: bool, limit: int) -> int {
    let want: int = if down {
        if cur < u16::MAX { cur + 1 } else { cur as int }
    } else if cur == 0 {
        0
    } else {
        cur - 1
    };
    if want < limit { want } else { limit }
}

proof fn lemma_newline_count_bound(s: Seq<char>)
    ensures
        newline_count(s) <= s.len(),
    decreases s.len(),
{
    if s.len() > 0 {
        lemma_newline_count_bound(s.drop_last());
    }
}

fn line_total(s: &str) -> (n: usize)
    ensures
        n == line_count(s@),
{
    let len = s.unicode_len();
    let mut breaks: usize = 0;
    let mut i: usize = 0;
    while i < len
        invariant
            len == s@.len(),
            i <= len,
            breaks == newline_count(s@.subrange(0, i as int)),
            breaks <= i,
        decreases len - i,
    {
        let c = s.get_char(i);
        assert(s@.subrange(0, i as int + 1).drop_last() =~= s@.subrange(0, i as int));
        if c == '\n' {
            breaks = breaks + 1;
        }
        i = i + 1;
    }
    assert(s@.subrange(0, len as int) =~= s@);
    if len > 0 && s.get_char(len - 1) != '\n' {
        proof {
            lemma_newline_count_bound(s@.drop_last());
        }
        breaks + 1
    } else {
        breaks
    }
}

/// The selection a list event leaves behind, from `sel` in a list of `len`
/// rows.
pub open spec fn list_selection_after(sel: Option<usize>, len: nat, event: AppEvent) -> Option<usize> {
    match event {
        AppEvent::NextProject | AppEvent::NextWeekProject => next_row(sel, len),
        AppEvent::PreviousProject | AppEvent::PreviousWeekProject => previous_row(sel, len),
        AppEvent::FirstProject | AppEvent::FirstWeekProject => first_row(sel, len),
        AppEvent::LastProject | AppEvent::LastWeekProject => last_row(sel, len),
        _ => sel,
    }
}

/// What the week pane lists: the rollup on hand, unless it belongs to
/// another week than the one on screen.
pub open spec fn shown_projects(o: App) -> Seq<WeeklyProject> {
    let stale = match o.summary_week_start {
        Some(s) => s != o.week_dates[0],
        None => false,
    };
    match o.weekly_summary {
        Some(s) => if stale { Seq::empty() } else { s.projects@ },
        None => Seq::empty(),
    }
}

/// A day-list event (`NextProject` .. `CopyNotes`) applied to `o`.
pub open spec fn after_list_event(o: App, n: App, event: AppEvent, a: Action) -> bool {
    match o.project_list_widget {
        None => n == o && a == Action::Nothing,
        Some(w) => {
            &&& n == (App { project_list_widget: n.project_list_widget, ..o })
            &&& n.project_list_widget matches Some(w2) && {
                &&& w2.items_spec() == w.items_spec()
                &&& w2.warnings_spec() == w.warnings_spec()
                &&& w2.header_spec() == w.header_spec()
                &&& w2.selection() == list_selection_after(w.selection(), w.items_spec().len(), event)
            }
            &&& if event is CopyNotes {
                match w.selection() {
                    Some(i) => if i < w.items_spec().len() {
                        a matches Action::Copy(t, m) && m is None
                            && t@ == notes_copy_text(strs(w.items_spec()[i as int].tasks@))
                    } else {
                        a == Action::Nothing
                    },
                    None => a == Action::Nothing,
                }
            } else {
                a == Action::Nothing
            }
        },
    }
}

/// A week-pane event (`NextWeekProject` .. `CopyWeekProject`) applied to `o`.
pub open spec fn after_week_event(o: App, n: App, event: AppEvent, a: Action) -> bool {
    let projects = shown_projects(o);
    let c = clamped(o.week_list.selection(), projects.len());
    &&& n == (App { week_list: n.week_list, ..o })
    &&& n.week_list.selection() == list_selection_after(c, projects.len(), event)
    &&& if event is CopyWeekProject {
        match c {
            Some(i) => a matches Action::Copy(p, Some(m))
                && p@ == week_copy_payload(projects[i as int])
                && m@ == week_copy_message(projects[i as int]),
            None => a == Action::Nothing,
        }
    } else {
        a == Action::Nothing
    }
}

/// `times_well_formed`, checked.
fn times_ok(d: &TimeTrackingData) -> (r: bool)
    ensures
        r == times_well_formed(*d),
{
    let start_ok = match d.start_time {
        Some(t) => t.minute < 60,
        None => true,
    };
    let end_ok = match d.end_time {
        Some(t) => t.minute < 60,
        None => true,
    };
    start_ok && end_ok
}

impl App {
    /// Install a freshly loaded day; see [`day_installed`].
    pub fn set_day_data(&mut self, day: Option<TimeTrackingData>)
        ensures
            day_installed(*final(self), day),
            *final(self) == (App {
                data: final(self).data,
                project_list_widget: final(self).project_list_widget,
                ..*old(self)
            }),
    {
        match day {
            Some(d) => {
                if d.projects.len() > 0 && times_ok(&d) {
                    self.project_list_widget = Some(ProjectListWidget::new(&d));
                    self.data = Some(d);
                } else {
                    self.data = None;
                    self.project_list_widget = None;
                }
            },
            None => {
                self.data = None;
                self.project_list_widget = None;
            },
        }
    }

    /// The same app holding the day `data`.
    pub fn with_data(self, data: TimeTrackingData) -> (r: App)
        ensures
            day_installed(r, Some(data)),
            r == (App { data: r.data, project_list_widget: r.project_list_widget, ..self }),
    {
        let mut app = self;
        app.set_day_data(Some(data));
        app
    }

    /// The same app holding `summary` as the rollup of the week on screen.
    pub fn with_weekly_summary(self, summary: WeeklySummary) -> (r: App)
        ensures
            r == (App { weekly_summary: Some(summary), summary_week_start: Some(self.week_dates[0]), ..self }),
    {
        let mut app = self;
        app.summary_week_start = Some(app.week_dates[0]);
        app.weekly_summary = Some(summary);
        app
    }

    /// Apply the result of the load started under `generation`, unless a
    /// newer load has been asked for since.
    pub fn apply_load(&mut self, generation: u64, payload: LoadPayload)
        requires
            old(self).wf(),
        ensures
            final(self).wf(),
            load_applied(*old(self), *final(self), generation, payload),
    {
        if generation != self.generation {
            return;
        }
        let LoadPayload { date, day, raw, populated, weekly, weekly_summary } = payload;
        let start = self.ctx.week_start_day;
        self.summary_week_start = if week_fits(&date, start) {
            let week = get_week_dates(&date, start);
            Some(week[0])
        } else {
            None
        };
        self.set_day_data(day);
        self.loaded_date = Some(date);
        self.raw_content = raw;
        self.populated_dates = populated;
        self.weekly_data = weekly;
        self.weekly_summary = Some(weekly_summary);
        self.loading = false;
        self.status = None;
    }

    /// Record the failure of the load started under `generation`, unless a
    /// newer load has been asked for since.
    pub fn load_failed(&mut self, generation: u64, message: String)
        ensures
            if generation == old(self).generation {
                *final(self) == (App { loading: false, status: Some(message), ..*old(self) })
            } else {
                *final(self) == *old(self)
            },
    {
        if generation == self.generation {
            self.loading = false;
            self.status = Some(message);
        }
    }

    /// Take the raw file read under `generation` for `date`, unless a newer
    /// load has been asked for or the screen has moved to another date.
    pub fn raw_file_loaded(&mut self, generation: u64, date: Date, content: Option<String>)
        ensures
            if generation == old(self).generation && date == old(self).active_date {
                *final(self) == (App { raw_content: content, ..*old(self) })
            } else {
                *final(self) == *old(self)
            },
    {
        if generation == self.generation && date == self.active_date {
            self.raw_content = content;
        }
    }

    /// Scroll the raw pane a line down (or up), never past its first line
    /// nor so far that the pane shows less than a screenful.
    pub fn scroll_raw_file(&mut self, down: bool)
        ensures
            *final(self) == (App { raw_scroll: final(self).raw_scroll, ..*old(self) }),
            final(self).raw_scroll == scrolled(
                old(self).raw_scroll,
                down,
                scroll_limit(old(self).raw_content, old(self).raw_visible_lines),
            ),
    {
        let lines: usize = match &self.raw_content {
            Some(t) => line_total(t.as_str()),
            None => 0,
        };
        let visible = self.raw_visible_lines as usize;
        let limit: usize = if lines > visible { lines - visible } else { 0 };
        let cur = self.raw_scroll;
        let want: u16 = if down {
            if cur < u16::MAX { cur + 1 } else { cur }
        } else if cur == 0 {
            0
        } else {
            cur - 1
        };
        self.raw_scroll = if (want as usize) < limit { want } else { limit as u16 };
    }

    /// Apply a day-list event; see [`after_list_event`].
    pub fn apply_list_event(&mut self, event: AppEvent) -> (a: Action)
        requires
            match event {
                AppEvent::NextProject | AppEvent::PreviousProject | AppEvent::FirstProject
                | AppEvent::LastProject | AppEvent::CopyNotes => true,
                _ => false,
            },
        ensures
            after_list_event(*old(self), *final(self), event, a),
    {
        let taken = self.project_list_widget.take();
        match taken {
            None => Action::Nothing,
            Some(w) => {
                let mut w = w;
                let _ = w.apply(&event);
                let a = match event {
                    AppEvent::CopyNotes => match w.notes_to_copy() {
                        Some(t) => Action::Copy(t, None),
                        None => Action::Nothing,
                    },
                    _ => Action::Nothing,
                };
                self.project_list_widget = Some(w);
                a
            },
        }
    }

    /// Apply a week-pane event; see [`after_week_event`].
    pub fn apply_week_event(&mut self, event: AppEvent) -> (a: Action)
        requires
            match event {
                AppEvent::NextWeekProject | AppEvent::PreviousWeekProject | AppEvent::FirstWeekProject
                | AppEvent::LastWeekProject | AppEvent::CopyWeekProject => true,
                _ => false,
            },
        ensures
            after_week_event(*old(self), *final(self), event, a),
    {
        let stale = self.week_is_stale();
        let empty: Vec<WeeklyProject> = Vec::new();
        let projects: &[WeeklyProject] = match &self.weekly_summary {
            Some(s) => if stale { empty.as_slice() } else { s.projects.as_slice() },
            None => empty.as_slice(),
        };
        let h = self.week_list.apply(&event, projects);
        match h {
            Handled::Emit(AppEvent::CopyToClipboard(p, m)) => Action::Copy(p, Some(m)),
            _ => Action::Nothing,
        }
    }
}

/// `n` is `o` after the result `payload` of the load started under
/// `generation` arrived: applied whole when it is the latest load, dropped
/// otherwise.
pub open spec fn load_applied(o: App, n: App, generation: u64, payload: LoadPayload) -> bool {
    if generation == o.generation {
        let start = o.ctx.week_start_day;
        &&& day_installed(n, payload.day)
        &&& n.loaded_date == Some(payload.date)
        &&& n.raw_content == payload.raw
        &&& n.populated_dates == payload.populated
        &&& n.weekly_data == payload.weekly
        &&& n.weekly_summary == Some(payload.weekly_summary)
        &&& if week_in_range(payload.date, start) {
            n.summary_week_start matches Some(s) && s.julian_day_spec() == week_start_julian(payload.date, start)
        } else {
            n.summary_week_start is None
        }
        &&& n == (App {
            loading: false,
            status: None,
            loaded_date: n.loaded_date,
            data: n.data,
            project_list_widget: n.project_list_widget,
            raw_content: n.raw_content,
            populated_dates: n.populated_dates,
            weekly_data: n.weekly_data,
            weekly_summary: n.weekly_summary,
            summary_week_start: n.summary_week_start,
            ..o
        })
    } else {
        n == o
    }
}

/// `n` and `a` are what applying `event` to `o` gives.
pub open spec fn after_event(o: App, n: App, event: AppEvent, a: Action) -> bool {
    let here = o.active_date.julian_day_spec();
    match event {
        AppEvent::ToggleHelp => a == Action::Nothing
            && n == (App { overlay: if o.overlay is None { Some(Overlay::Help) } else { None }, ..o }),
        AppEvent::CloseOverlay => a == Action::Nothing && n == (App { overlay: None, ..o }),
        AppEvent::OpenDatePrompt => a == Action::Nothing && n == (App { overlay: n.overlay, ..o })
            && (n.overlay matches Some(Overlay::DatePrompt(t)) && t@.len() == 0),
        AppEvent::ToggleZoomBar => a == Action::Nothing
            && n == (App { mode: if o.mode == Mode::ZoomedWeek { Mode::Day } else { Mode::ZoomedWeek }, ..o }),
        AppEvent::ToggleWeekMode => a == Action::Nothing
            && n == (App { mode: if o.mode == Mode::Week { Mode::Day } else { Mode::Week }, ..o }),
        AppEvent::ToggleRawFile => a == Action::Nothing
            && n == (App { mode: if o.mode == Mode::RawFile { Mode::Day } else { Mode::RawFile }, ..o }),
        AppEvent::NextDate => a == navigation_reload() && lands_on(o, n, here + 1),
        AppEvent::PreviousDate => a == navigation_reload() && lands_on(o, n, here - 1),
        AppEvent::NextWeek => a == navigation_reload() && lands_on(o, n, here + 7),
        AppEvent::PreviousWeek => a == navigation_reload() && lands_on(o, n, here - 7),
        AppEvent::NextMonth => a == navigation_reload() && match month_step_target(here, true) {
            Some(t) => lands_on(o, n, t),
            None => n == o,
        },
        AppEvent::PreviousMonth => a == navigation_reload() && match month_step_target(here, false) {
            Some(t) => lands_on(o, n, t),
            None => n == o,
        },
        AppEvent::Today => a == navigation_reload()
            && n == (App { active_date: n.active_date, week_dates: n.week_dates, ..o }),
        AppEvent::ReloadFromDisk(r) => {
            &&& n == (App { generation: next_generation(o.generation), loading: true, ..o })
            &&& a == Action::Load(LoadRequest {
                generation: next_generation(o.generation),
                date: o.active_date,
                week: o.week_dates,
                reload: r,
            })
        },
        AppEvent::Edit => n == o && a == Action::Edit(o.active_date),
        AppEvent::Quit => a == Action::Nothing && n == (App { running: false, ..o }),
        AppEvent::DataLoaded(g, p) => a == Action::Nothing && load_applied(o, n, g, *p),
        AppEvent::LoadFailed(g, m) => a == Action::Nothing && if g == o.generation {
            n == (App { loading: false, status: Some(m), ..o })
        } else {
            n == o
        },
        AppEvent::RawFileLoaded(g, d, c) => a == Action::Nothing && if g == o.generation && d == o.active_date {
            n == (App { raw_content: c, ..o })
        } else {
            n == o
        },
        AppEvent::CopyToClipboard(p, m) => n == o && a == Action::Copy(p, Some(m)),
        AppEvent::NextProject | AppEvent::PreviousProject | AppEvent::FirstProject
        | AppEvent::LastProject | AppEvent::CopyNotes => after_list_event(o, n, event, a),
        AppEvent::NextWeekProject | AppEvent::PreviousWeekProject | AppEvent::FirstWeekProject
        | AppEvent::LastWeekProject | AppEvent::CopyWeekProject => after_week_event(o, n, event, a),
        AppEvent::ScrollRawFileDown => a == Action::Nothing && n == (App { raw_scroll: n.raw_scroll, ..o })
            && n.raw_scroll == scrolled(o.raw_scroll, true, scroll_limit(o.raw_content, o.raw_visible_lines)),
        AppEvent::ScrollRawFileUp => a == Action::Nothing && n == (App { raw_scroll: n.raw_scroll, ..o })
            && n.raw_scroll == scrolled(o.raw_scroll, false, scroll_limit(o.raw_content, o.raw_visible_lines)),
        AppEvent::YankDay | AppEvent::YankWeek => n == o && a == Action::Nothing,
    }
}

/// `n` and `a` are what applying `event` to `o` gives when the clock reads
/// `today`: `Today` lands on that date; every other event is as
/// [`after_event`] says.
pub open spec fn after_event_on(o: App, n: App, event: AppEvent, a: Action, today: Date) -> bool {
    match event {
        AppEvent::Today => a == navigation_reload() && lands_on(o, n, today.julian_day_spec()),
        _ => after_event(o, n, event, a),
    }
}

/// What `key` does to `o`: an event that changes routing or belongs to a
/// pane is applied at once, so the next key already sees its effect; any
/// other event is handed back to be queued.
pub open spec fn after_key(o: App, n: App, key: KeyEvent, a: Action) -> bool {
    match routed(o.mode, o.overlay, key) {
        Handled::Emit(e) => if changes_key_routing_spec(e) || is_pane_event_spec(e) {
            after_event(o, n, e, a)
        } else {
            n == o && a == Action::Queue(e)
        },
        _ => n == o && a == Action::Nothing,
    }
}

impl App {
    /// Apply `event`, reading the clock for `Today`; see [`after_event`]
    /// and [`after_event_on`].
    pub fn handle_app_event(&mut self, event: AppEvent) -> (a: Action)
        requires
            old(self).wf(),
        ensures
            final(self).wf(),
            after_event(*old(self), *final(self), event, a),
    {
        let today = match &event {
            AppEvent::Today => crate::clock::today(),
            _ => self.active_date,
        };
        self.handle_app_event_on(event, today)
    }

    /// Apply `event` with the clock reading `today`: `Today` goes to that
    /// date; see [`after_event_on`].
    #[verifier::spinoff_prover]
    pub fn handle_app_event_on(&mut self, event: AppEvent, today: Date) -> (a: Action)
        requires
            old(self).wf(),
        ensures
            final(self).wf(),
            after_event_on(*old(self), *final(self), event, a, today),
            after_event(*old(self), *final(self), event, a),
    {
        match event {
            AppEvent::ToggleHelp => {
                self.toggle_help();
                Action::Nothing
            },
            AppEvent::CloseOverlay => {
                self.overlay = None;
                Action::Nothing
            },
            AppEvent::OpenDatePrompt => {
                self.overlay = Some(Overlay::DatePrompt(String::new()));
                Action::Nothing
            },
            AppEvent::ToggleZoomBar => {
                self.toggle_zoom_bar();
                Action::Nothing
            },
            AppEvent::ToggleWeekMode => {
                self.toggle_week_mode();
                Action::Nothing
            },
            AppEvent::ToggleRawFile => {
                self.toggle_raw_file();
                Action::Nothing
            },
            AppEvent::NextDate => self.step_days(1),
            AppEvent::PreviousDate => self.step_days(-1),
            AppEvent::NextWeek => self.step_days(7),
            AppEvent::PreviousWeek => self.step_days(-7),
            AppEvent::NextMonth => self.step_month(true),
            AppEvent::PreviousMonth => self.step_month(false),
            AppEvent::Today => self.go_to_date(today),
            AppEvent::ReloadFromDisk(r) => self.start_load(r),
            AppEvent::Edit => Action::Edit(self.active_date),
            AppEvent::Quit => {
                self.quit();
                Action::Nothing
            },
            AppEvent::DataLoaded(g, p) => {
                self.apply_load(g, *p);
                Action::Nothing
            },
            AppEvent::LoadFailed(g, m) => {
                self.load_failed(g, m);
                Action::Nothing
            },
            AppEvent::RawFileLoaded(g, d, c) => {
                self.raw_file_loaded(g, d, c);
                Action::Nothing
            },
            AppEvent::CopyToClipboard(p, m) => Action::Copy(p, Some(m)),
            AppEvent::NextProject => self.apply_list_event(AppEvent::NextProject),
            AppEvent::PreviousProject => self.apply_list_event(AppEvent::PreviousProject),
            AppEvent::FirstProject => self.apply_list_event(AppEvent::FirstProject),
            AppEvent::LastProject => self.apply_list_event(AppEvent::LastProject),
            AppEvent::CopyNotes => self.apply_list_event(AppEvent::CopyNotes),
            AppEvent::NextWeekProject => self.apply_week_event(AppEvent::NextWeekProject),
            AppEvent::PreviousWeekProject => self.apply_week_event(AppEvent::PreviousWeekProject),
            AppEvent::FirstWeekProject => self.apply_week_event(AppEvent::FirstWeekProject),
            AppEvent::LastWeekProject => self.apply_week_event(AppEvent::LastWeekProject),
            AppEvent::CopyWeekProject => self.apply_week_event(AppEvent::CopyWeekProject),
            AppEvent::ScrollRawFileDown => {
                self.scroll_raw_file(true);
                Action::Nothing
            },
            AppEvent::ScrollRawFileUp => {
                self.scroll_raw_file(false);
                Action::Nothing
            },
            AppEvent::YankDay | AppEvent::YankWeek => Action::Nothing,
        }
    }

    /// Handle a key press; see [`after_key`].
    pub fn handle_key_events(&mut self, key: KeyEvent) -> (a: Action)
        requires
            old(self).wf(),
        ensures
            final(self).wf(),
            after_key(*old(self), *final(self), key, a),
    {
        match route_key(self.mode, &self.overlay, key) {
            Handled::Emit(e) => {
                if changes_key_routing(&e) || is_pane_event(&e) {
                    self.handle_app_event(e)
                } else {
                    Action::Queue(e)
                }
            },
            _ => Action::Nothing,
        }
    }
}

/// `t` goes to today: whatever date the app shows, after the `Today`
/// event with the clock reading `today` it shows `today` (whose week the
/// calendar holds), and a navigation reload is asked for.
pub proof fn law_today_goes_to_the_clock_date(o: App, n: App, a: Action, today: Date)
    requires
        MIN_JULIAN_DAY <= today.julian_day_spec() <= MAX_JULIAN_DAY,
        after_event_on(o, n, AppEvent::Today, a, today),
        week_fits_julian(today.julian_day_spec(), o.ctx.week_start_day),
    ensures
        n.active_date == today,
        a == navigation_reload(),
{
    crate::date::lemma_date_eq(n.active_date, today);
}

/// Ctrl-C stops the app from any mode, with or without an overlay open:
/// the key hands back `Quit` to be queued, and applying it stops the loop.
pub proof fn law_interrupt_quits_from_anywhere(o: App, m: App, key: KeyEvent, a: Action, n: App, b: Action)
    requires
        is_interrupt_spec(key),
        after_key(o, m, key, a),
        after_event(m, n, AppEvent::Quit, b),
    ensures
        m == o,
        a == Action::Queue(AppEvent::Quit),
        !n.running,
{
}

/// While an overlay is open no key reaches the mode behind it: each key
/// either quits (Ctrl-C), closes the overlay and changes nothing else, or
/// is swallowed.
pub proof fn law_open_overlay_is_modal(o: App, n: App, key: KeyEvent, a: Action)
    requires
        o.overlay is Some,
        after_key(o, n, key, a),
    ensures
        ({
            ||| n == o && a == Action::Queue(AppEvent::Quit)
            ||| n == (App { overlay: None, ..o }) && a == Action::Nothing
            ||| n == o && a == Action::Nothing
        }),
{
}

/// Zooming into the bar chart and back leaves the app as it was.
pub proof fn law_zoom_toggle_undoes_itself(o: App, m: App, n: App, a1: Action, a2: Action)
    requires
        o.mode == Mode::Day || o.mode == Mode::ZoomedWeek,
        after_event(o, m, AppEvent::ToggleZoomBar, a1),
        after_event(m, n, AppEvent::ToggleZoomBar, a2),
    ensures
        n == o,
{
}

/// Opening the week's rollup and going back leaves the app as it was.
pub proof fn law_week_toggle_undoes_itself(o: App, m: App, n: App, a1: Action, a2: Action)
    requires
        o.mode == Mode::Day || o.mode == Mode::Week,
        after_event(o, m, AppEvent::ToggleWeekMode, a1),
        after_event(m, n, AppEvent::ToggleWeekMode, a2),
    ensures
        n == o,
{
}

/// Opening the raw file and going back leaves the app as it was.
pub proof fn law_raw_toggle_undoes_itself(o: App, m: App, n: App, a1: Action, a2: Action)
    requires
        o.mode == Mode::Day || o.mode == Mode::RawFile,
        after_event(o, m, AppEvent::ToggleRawFile, a1),
        after_event(m, n, AppEvent::ToggleRawFile, a2),
    ensures
        n == o,
{
}

/// Opening the help popup and closing it again leaves the app as it was.
pub proof fn law_help_toggle_undoes_itself(o: App, m: App, n: App, a1: Action, a2: Action)
    requires
        o.overlay is None || o.overlay == Some(Overlay::Help),
        after_event(o, m, AppEvent::ToggleHelp, a1),
        after_event(m, n, AppEvent::ToggleHelp, a2),
    ensures
        n == o,
{
}

/// Once a reload has been asked for, the result of any load started
/// before it is dropped when it arrives.
pub proof fn law_superseded_load_is_dropped(
    o: App,
    m: App,
    n: App,
    r: Reload,
    payload: Box<LoadPayload>,
    a1: Action,
    a2: Action,
)
    requires
        after_event(o, m, AppEvent::ReloadFromDisk(r), a1),
        after_event(m, n, AppEvent::DataLoaded(o.generation, payload), a2),
    ensures
        n == m,
{
}

/// Going a day forward and a day back returns to the date started from,
/// wherever both moves are possible.
pub proof fn law_next_then_previous_day_returns(o: App, m: App, n: App, a1: Action, a2: Action)
    requires
        o.wf(),
        o.active_date.julian_day_spec() + 1 <= MAX_JULIAN_DAY,
        week_fits_julian(o.active_date.julian_day_spec() + 1, o.ctx.week_start_day),
        m.wf(),
        n.wf(),
        after_event(o, m, AppEvent::NextDate, a1),
        after_event(m, n, AppEvent::PreviousDate, a2),
    ensures
        n.active_date == o.active_date,
        n.week_dates == o.week_dates,
{
    crate::date::lemma_date_eq(n.active_date, o.active_date);
    lemma_same_week(n, o);
}

/// Going a week forward and a week back returns to the date started from,
/// wherever both moves are possible.
pub proof fn law_next_then_previous_week_returns(o: App, m: App, n: App, a1: Action, a2: Action)
    requires
        o.wf(),
        o.active_date.julian_day_spec() + 7 <= MAX_JULIAN_DAY,
        week_fits_julian(o.active_date.julian_day_spec() + 7, o.ctx.week_start_day),
        m.wf(),
        n.wf(),
        after_event(o, m, AppEvent::NextWeek, a1),
        after_event(m, n, AppEvent::PreviousWeek, a2),
    ensures
        n.active_date == o.active_date,
        n.week_dates == o.week_dates,
{
    crate::date::lemma_date_eq(n.active_date, o.active_date);
    lemma_same_week(n, o);
}

proof fn lemma_same_week(a: App, b: App)
    requires
        a.wf(),
        b.wf(),
        a.active_date == b.active_date,
        a.ctx.week_start_day == b.ctx.week_start_day,
    ensures
        a.week_dates == b.week_dates,
{
    assert forall|i: int| 0 <= i < 7 implies a.week_dates[i] == b.week_dates[i] by {
        crate::date::lemma_date_eq(a.week_dates[i], b.week_dates[i]);
    }
    assert(a.week_dates =~= b.week_dates);
}

/// What the day view's lower pane shows.
#[derive(Clone, Copy, Debug, PartialEq, Eq, Structural)]
pub enum DayPane {
    /// The project list of the date on screen.
    Projects,
    /// Nothing has been loaded for the date on screen yet.
    Loading,
    /// The date on screen loaded and has nothing to list.
    Empty,
}

impl App {
    /// What the day pane shows: never a list left over from another date.
    pub fn day_pane(&self) -> (p: DayPane)
        ensures
            p == (if self.loaded_date != Some(self.active_date) {
                DayPane::Loading
            } else if self.project_list_widget is Some {
                DayPane::Projects
            } else {
                DayPane::Empty
            }),
    {
        let current = match self.loaded_date {
            Some(d) => d == self.active_date,
            None => false,
        };
        if !current {
            DayPane::Loading
        } else if self.project_list_widget.is_some() {
            DayPane::Projects
        } else {
            DayPane::Empty
        }
    }

    /// The minutes the bar chart draws: the loaded week's, but only when
    /// they belong to the week on screen and there are any; otherwise no
    /// bars at all rather than last week's.
    pub fn chart_data(&self) -> (r: Option<&Vec<(Date, u32)>>)
        ensures
            r == (if self.weekly_data@.len() > 0 && !(match self.summary_week_start {
                Some(s) => s != self.week_dates[0],
                None => false,
            }) {
                Some(&self.weekly_data)
            } else {
                None
            }),
    {
        if self.weekly_data.len() > 0 && !self.week_is_stale() {
            Some(&self.weekly_data)
        } else {
            None
        }
    }
}

} // verus!
