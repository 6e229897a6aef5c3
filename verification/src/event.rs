//! The events the terminal UI's loop runs on.

use vstd::prelude::*;

use crate::data_svc::WeeklySummary;
use crate::date::Date;
use crate::day::TimeTrackingData;

verus! {

/// Why a reload was asked for, which decides whether the calendar's month
/// memo survives it.
#[derive(Clone, Copy, Debug, PartialEq, Eq, Structural)]
pub enum Reload {
    /// The user moved to another date; the month memo is kept.
    Navigation,
    /// Read the disk again: nothing on hand can be trusted.
    Rescan,
}

/// Everything one background load produces, applied in one step.
#[derive(Clone, Debug, PartialEq)]
pub struct LoadPayload {
    /// The date this load was started for.
    pub date: Date,
    /// The loaded date's parsed day, or `None` when it has no file yet.
    pub day: Option<TimeTrackingData>,
    /// The date's file exactly as it is on disk.
    pub raw: Option<String>,
    /// Dates with tracked hours, for the calendar's markers.
    pub populated: Vec<Date>,
    /// Tracked minutes per day of the date's week, for the bar chart.
    pub weekly: Vec<(Date, u32)>,
    /// The full weekly rollup `weekly` is a projection of.
    pub weekly_summary: WeeklySummary,
}

/// Application events.
#[derive(Clone, Debug, PartialEq)]
pub enum AppEvent {
    /// Toggle the help popup.
    ToggleHelp,
    /// Dismiss whatever overlay is open.
    CloseOverlay,
    /// Open the jump-to-date prompt.
    OpenDatePrompt,
    /// Toggle whether the bar chart is zoomed.
    ToggleZoomBar,
    /// Select the next project in the day view's list.
    NextProject,
    /// Select the previous project in the day view's list.
    PreviousProject,
    /// Select the first project in the day view's list.
    FirstProject,
    /// Select the last project in the day view's list.
    LastProject,
    /// Copy the selected project's notes to the clipboard.
    CopyNotes,
    /// Toggle between the day and the week view.
    ToggleWeekMode,
    /// Select the next project in the weekly rollup.
    NextWeekProject,
    /// Select the previous project in the weekly rollup.
    PreviousWeekProject,
    /// Select the first project in the weekly rollup.
    FirstWeekProject,
    /// Select the last project in the weekly rollup.
    LastWeekProject,
    /// Copy the selected project's week to the clipboard.
    CopyWeekProject,
    /// Put `.0` on the system clipboard, reporting `.1` once it is there.
    CopyToClipboard(String, String),
    /// Copy the active date's summary to the clipboard.
    YankDay,
    /// Copy the active week's rollup to the clipboard.
    YankWeek,
    /// Edit the current date in `$EDITOR`.
    Edit,
    /// Go to the next date.
    NextDate,
    /// Go to the previous date.
    PreviousDate,
    /// Go forward a week.
    NextWeek,
    /// Go back a week.
    PreviousWeek,
    /// Go forward a month.
    NextMonth,
    /// Go back a month.
    PreviousMonth,
    /// Reload the current date from disk.
    ReloadFromDisk(Reload),
    /// Go to today's date.
    Today,
    /// Toggle between the day view and the raw-file view.
    ToggleRawFile,
    /// Scroll the raw-file pane down a line.
    ScrollRawFileDown,
    /// Scroll the raw-file pane up a line.
    ScrollRawFileUp,
    /// The raw-file read started with generation `.0` for date `.1` finished.
    RawFileLoaded(u64, Date, Option<String>),
    /// A background load finished; carries the generation it was started with.
    DataLoaded(u64, Box<LoadPayload>),
    /// A background load failed; carries the generation it was started with.
    LoadFailed(u64, String),
    /// Quit the application.
    Quit,
}

} // verus!
