//! The one table every key binding is read from.
//!
//! [`lookup`] drives the key layers, the help popup renders
//! [`help_rows`], and the README carries the output of [`readme_table`].
//! A key may appear in more than one row provided the rows' [`ModeMask`]s
//! are disjoint, so the same physical key can mean different things in
//! different views.

use vstd::prelude::*;

use crate::event::{AppEvent, Reload};
use crate::mode::Mode;
use crate::text::{push_char, push_repeated, repeat_char};

verus! {

/// A key on the keyboard.
#[derive(Clone, Copy, Debug, PartialEq, Eq, Structural, Hash)]
pub enum KeyCode {
    Backspace,
    Enter,
    Left,
    Right,
    Up,
    Down,
    Home,
    End,
    PageUp,
    PageDown,
    Tab,
    BackTab,
    Delete,
    Insert,
    /// A function key, `F(1)` for F1.
    F(u8),
    /// A character key; the character already says whether Shift was held.
    Char(char),
    Null,
    Esc,
}

/// The modifier keys held with a key, as a set of bits.
#[derive(Clone, Copy, Debug, PartialEq, Eq, Structural, Hash)]
pub struct KeyModifiers {
    pub bits: u8,
}

impl KeyModifiers {
    /// The modifier set with bits `0`.
    pub fn none() -> (m: KeyModifiers)
        ensures
            m.bits == 0,
    {
        KeyModifiers { bits: 0 }
    }

    /// The modifier set with bits `1`.
    pub fn shift() -> (m: KeyModifiers)
        ensures
            m.bits == 1,
    {
        KeyModifiers { bits: 1 }
    }

    /// The modifier set with bits `2`.
    pub fn control() -> (m: KeyModifiers)
        ensures
            m.bits == 2,
    {
        KeyModifiers { bits: 2 }
    }

    /// The modifier set with bits `4`.
    pub fn alt() -> (m: KeyModifiers)
        ensures
            m.bits == 4,
    {
        KeyModifiers { bits: 4 }
    }

    /// The modifier set with bits `8`.
    pub fn super_key() -> (m: KeyModifiers)
        ensures
            m.bits == 8,
    {
        KeyModifiers { bits: 8 }
    }

    /// The modifier set with bits `16`.
    pub fn hyper() -> (m: KeyModifiers)
        ensures
            m.bits == 16,
    {
        KeyModifiers { bits: 16 }
    }

    /// The modifier set with bits `32`.
    pub fn meta() -> (m: KeyModifiers)
        ensures
            m.bits == 32,
    {
        KeyModifiers { bits: 32 }
    }

    /// Every modifier in `other` is held.
    pub open spec fn has(self, other: KeyModifiers) -> bool {
        self.bits & other.bits == other.bits
    }

    /// Is every modifier in `other` held?
    pub fn contains(self, other: KeyModifiers) -> (r: bool)
        ensures
            r == self.has(other),
    {
        self.bits & other.bits == other.bits
    }
}

/// A key press: the key and the modifiers held with it.
#[derive(Clone, Copy, Debug, PartialEq, Eq, Structural, Hash)]
pub struct KeyEvent {
    pub code: KeyCode,
    pub modifiers: KeyModifiers,
}

impl KeyEvent {
    /// A press of `code` with `modifiers` held.
    pub fn new(code: KeyCode, modifiers: KeyModifiers) -> (k: KeyEvent)
        ensures
            k.code == code,
            k.modifiers == modifiers,
    {
        KeyEvent { code, modifiers }
    }
}

/// A key as the table spells it: a code plus the modifiers held with it.
pub type Key = (KeyCode, KeyModifiers);

/// The bit that stands for `mode` in a [`ModeMask`].
pub open spec fn mode_bit(mode: Mode) -> u8 {
    match mode {
        Mode::Day => 1,
        Mode::Week => 2,
        Mode::ZoomedWeek => 4,
        Mode::RawFile => 8,
    }
}

/// The set of [`Mode`]s a binding is live in.
#[derive(Clone, Copy, Debug, PartialEq, Eq, Structural)]
pub struct ModeMask(u8);

/// A mask's bits say it is live in `mode`.
pub open spec fn mask_has(bits: u8, mode: Mode) -> bool {
    bits & mode_bit(mode) != 0
}

impl ModeMask {
    /// The day view only.
    pub fn day() -> (m: ModeMask)
        ensures
            m.bits() == 1,
    {
        ModeMask(1)
    }

    /// The weekly roll-up only.
    pub fn week() -> (m: ModeMask)
        ensures
            m.bits() == 2,
    {
        ModeMask(2)
    }

    /// The full-screen weekly bar chart only.
    pub fn zoom() -> (m: ModeMask)
        ensures
            m.bits() == 4,
    {
        ModeMask(4)
    }

    /// The raw-file view only.
    pub fn raw() -> (m: ModeMask)
        ensures
            m.bits() == 8,
    {
        ModeMask(8)
    }

    /// Every mode.
    pub fn all() -> (m: ModeMask)
        ensures
            m.bits() == 15,
    {
        ModeMask(15)
    }

    /// The mask's bits.
    pub closed spec fn bits(self) -> u8 {
        self.0
    }

    /// The union of two masks.
    pub fn or(self, other: Self) -> (r: Self)
        ensures
            r.bits() == self.bits() | other.bits(),
    {
        ModeMask(self.0 | other.0)
    }

    /// Is a binding carrying this mask live in `mode`?
    pub fn contains(self, mode: Mode) -> (r: bool)
        ensures
            r == mask_has(self.bits(), mode),
    {
        self.0 & Self::bit(mode).0 != 0
    }

    /// The mask holding `mode` alone.
    pub fn bit(mode: Mode) -> (m: Self)
        ensures
            m.bits() == mode_bit(mode),
    {
        match mode {
            Mode::Day => ModeMask(1),
            Mode::Week => ModeMask(2),
            Mode::ZoomedWeek => ModeMask(4),
            Mode::RawFile => ModeMask(8),
        }
    }
}

/// Each mode's bit selects that mode and no other, and the mask of every
/// mode selects them all.
pub proof fn lemma_mode_bits_select_their_mode(mode: Mode, other: Mode)
    ensures
        mask_has(mode_bit(mode), other) == (mode == other),
        mask_has(15, other),
{
    let a = mode_bit(mode);
    let b = mode_bit(other);
    assert(1u8 & 1u8 != 0 && 1u8 & 2u8 == 0 && 1u8 & 4u8 == 0 && 1u8 & 8u8 == 0) by (bit_vector);
    assert(2u8 & 1u8 == 0 && 2u8 & 2u8 != 0 && 2u8 & 4u8 == 0 && 2u8 & 8u8 == 0) by (bit_vector);
    assert(4u8 & 1u8 == 0 && 4u8 & 2u8 == 0 && 4u8 & 4u8 != 0 && 4u8 & 8u8 == 0) by (bit_vector);
    assert(8u8 & 1u8 == 0 && 8u8 & 2u8 == 0 && 8u8 & 4u8 == 0 && 8u8 & 8u8 != 0) by (bit_vector);
    assert(15u8 & 1u8 != 0 && 15u8 & 2u8 != 0 && 15u8 & 4u8 != 0 && 15u8 & 8u8 != 0) by (bit_vector);
}

/// Where the help popup and the README list a binding.
#[derive(Clone, Copy, Debug, PartialEq, Eq, Structural)]
pub enum Group {
    /// Moving around the day's project list.
    Project,
    /// Moving between dates.
    Date,
    /// Changing what fills the screen.
    View,
    /// Everything else: reload, edit, help, quit.
    General,
}

/// One row of the keymap: the keys, what they do, and where they do it.
#[derive(Debug)]
pub struct Binding {
    /// The keys that trigger the binding. Any one of them is enough.
    pub keys: Vec<Key>,
    /// What pressing one of `keys` means.
    pub event: AppEvent,
    /// The modes the binding is live in.
    pub modes: ModeMask,
    /// Where the help popup and the README list it.
    pub group: Group,
    /// One line of prose, shown by both the popup and the README.
    pub description: &'static str,
}

/// A row of the table: keys, event, mode bits, group and description.
pub type BindingRow = (Seq<Key>, AppEvent, u8, Group, Seq<char>);

/// Rows `0..29` are the bindings; row 29 is the one that dismisses an open
/// overlay, which is documented with them but is not on the mode axis.
pub open spec fn row_count() -> int {
    30
}

/// The index of the overlay-dismissing row.
pub open spec fn close_overlay_row() -> int {
    29
}

pub open spec fn binding_row(i: int) -> BindingRow {
    if i == 0 {
        (seq![(KeyCode::Down, KeyModifiers { bits: 0 }), (KeyCode::Char('j'), KeyModifiers { bits: 0 })], AppEvent::NextProject, 1u8, Group::Project, "select the next project"@)
    } else if i == 1 {
        (seq![(KeyCode::Up, KeyModifiers { bits: 0 }), (KeyCode::Char('k'), KeyModifiers { bits: 0 })], AppEvent::PreviousProject, 1u8, Group::Project, "select the previous project"@)
    } else if i == 2 {
        (seq![(KeyCode::Char('g'), KeyModifiers { bits: 0 })], AppEvent::FirstProject, 1u8, Group::Project, "jump to the first project"@)
    } else if i == 3 {
        (seq![(KeyCode::Char('G'), KeyModifiers { bits: 0 })], AppEvent::LastProject, 1u8, Group::Project, "jump to the last project"@)
    } else if i == 4 {
        (seq![(KeyCode::Enter, KeyModifiers { bits: 0 })], AppEvent::CopyNotes, 1u8, Group::Project, "copy the selected project's notes to the clipboard"@)
    } else if i == 5 {
        (seq![(KeyCode::Down, KeyModifiers { bits: 0 }), (KeyCode::Char('j'), KeyModifiers { bits: 0 })], AppEvent::NextWeekProject, 2u8, Group::Project, "select the next project in the weekly rollup"@)
    } else if i == 6 {
        (seq![(KeyCode::Up, KeyModifiers { bits: 0 }), (KeyCode::Char('k'), KeyModifiers { bits: 0 })], AppEvent::PreviousWeekProject, 2u8, Group::Project, "select the previous project in the weekly rollup"@)
    } else if i == 7 {
        (seq![(KeyCode::Char('g'), KeyModifiers { bits: 0 })], AppEvent::FirstWeekProject, 2u8, Group::Project, "jump to the first project in the weekly rollup"@)
    } else if i == 8 {
        (seq![(KeyCode::Char('G'), KeyModifiers { bits: 0 })], AppEvent::LastWeekProject, 2u8, Group::Project, "jump to the last project in the weekly rollup"@)
    } else if i == 9 {
        (seq![(KeyCode::Enter, KeyModifiers { bits: 0 })], AppEvent::CopyWeekProject, 2u8, Group::Project, "copy the selected project's week (with hours) to the clipboard"@)
    } else if i == 10 {
        (seq![(KeyCode::Left, KeyModifiers { bits: 0 }), (KeyCode::Char('h'), KeyModifiers { bits: 0 })], AppEvent::PreviousDate, 15u8, Group::Date, "go to the previous day"@)
    } else if i == 11 {
        (seq![(KeyCode::Right, KeyModifiers { bits: 0 }), (KeyCode::Char('l'), KeyModifiers { bits: 0 })], AppEvent::NextDate, 15u8, Group::Date, "go to the next day"@)
    } else if i == 12 {
        (seq![(KeyCode::Char('H'), KeyModifiers { bits: 0 })], AppEvent::PreviousWeek, 15u8, Group::Date, "go back a week"@)
    } else if i == 13 {
        (seq![(KeyCode::Char('L'), KeyModifiers { bits: 0 })], AppEvent::NextWeek, 15u8, Group::Date, "go forward a week"@)
    } else if i == 14 {
        (seq![(KeyCode::Char('['), KeyModifiers { bits: 0 }), (KeyCode::PageUp, KeyModifiers { bits: 0 })], AppEvent::PreviousMonth, 15u8, Group::Date, "go back a month"@)
    } else if i == 15 {
        (seq![(KeyCode::Char(']'), KeyModifiers { bits: 0 }), (KeyCode::PageDown, KeyModifiers { bits: 0 })], AppEvent::NextMonth, 15u8, Group::Date, "go forward a month"@)
    } else if i == 16 {
        (seq![(KeyCode::Char('t'), KeyModifiers { bits: 0 }), (KeyCode::Char('T'), KeyModifiers { bits: 0 })], AppEvent::Today, 15u8, Group::Date, "go to today"@)
    } else if i == 17 {
        (seq![(KeyCode::Char('d'), KeyModifiers { bits: 0 })], AppEvent::OpenDatePrompt, 15u8, Group::Date, "jump to a date"@)
    } else if i == 18 {
        (seq![(KeyCode::Char('f'), KeyModifiers { bits: 0 })], AppEvent::ToggleZoomBar, 15u8, Group::View, "toggle zooming into the weekly bar chart"@)
    } else if i == 19 {
        (seq![(KeyCode::Char('w'), KeyModifiers { bits: 0 })], AppEvent::ToggleWeekMode, 3u8, Group::View, "toggle the week's per-project rollup"@)
    } else if i == 20 {
        (seq![(KeyCode::Char('v'), KeyModifiers { bits: 0 })], AppEvent::ToggleRawFile, 9u8, Group::View, "view the active date's file as it sits on disk"@)
    } else if i == 21 {
        (seq![(KeyCode::Down, KeyModifiers { bits: 0 }), (KeyCode::Char('j'), KeyModifiers { bits: 0 })], AppEvent::ScrollRawFileDown, 8u8, Group::View, "scroll the raw file down"@)
    } else if i == 22 {
        (seq![(KeyCode::Up, KeyModifiers { bits: 0 }), (KeyCode::Char('k'), KeyModifiers { bits: 0 })], AppEvent::ScrollRawFileUp, 8u8, Group::View, "scroll the raw file up"@)
    } else if i == 23 {
        (seq![(KeyCode::Char('r'), KeyModifiers { bits: 0 })], AppEvent::ReloadFromDisk(Reload::Rescan), 15u8, Group::General, "reload the current date from disk"@)
    } else if i == 24 {
        (seq![(KeyCode::Char('e'), KeyModifiers { bits: 0 })], AppEvent::Edit, 15u8, Group::General, "edit the current date's notes in $EDITOR"@)
    } else if i == 25 {
        (seq![(KeyCode::Char('y'), KeyModifiers { bits: 0 })], AppEvent::YankDay, 15u8, Group::General, "copy the day's summary (with hours) to the clipboard"@)
    } else if i == 26 {
        (seq![(KeyCode::Char('Y'), KeyModifiers { bits: 0 })], AppEvent::YankWeek, 15u8, Group::General, "copy the week's summary (with hours) to the clipboard"@)
    } else if i == 27 {
        (seq![(KeyCode::Char('?'), KeyModifiers { bits: 0 })], AppEvent::ToggleHelp, 15u8, Group::General, "show the help popup"@)
    } else if i == 28 {
        (seq![(KeyCode::Esc, KeyModifiers { bits: 0 }), (KeyCode::Char('q'), KeyModifiers { bits: 0 })], AppEvent::Quit, 15u8, Group::General, "quit"@)
    } else {
        (seq![(KeyCode::Char('?'), KeyModifiers { bits: 0 }), (KeyCode::Esc, KeyModifiers { bits: 0 }), (KeyCode::Char('q'), KeyModifiers { bits: 0 })], AppEvent::CloseOverlay, 15u8, Group::General, "close the help popup"@)
    }
}

#[verifier::rlimit(80)]
fn binding_at(i: usize) -> (b: Binding)
    requires
        i < 30,
    ensures
        binding_is_row(b, i as int),
{
    if i == 0 {
        let b = Binding { keys: vec![(KeyCode::Down, KeyModifiers { bits: 0 }), (KeyCode::Char('j'), KeyModifiers { bits: 0 })], event: AppEvent::NextProject, modes: ModeMask(1), group: Group::Project, description: "select the next project" };
        assert(b.keys@ =~= binding_row(i as int).0);
        b
    } else if i == 1 {
        let b = Binding { keys: vec![(KeyCode::Up, KeyModifiers { bits: 0 }), (KeyCode::Char('k'), KeyModifiers { bits: 0 })], event: AppEvent::PreviousProject, modes: ModeMask(1), group: Group::Project, description: "select the previous project" };
        assert(b.keys@ =~= binding_row(i as int).0);
        b
    } else if i == 2 {
        let b = Binding { keys: vec![(KeyCode::Char('g'), KeyModifiers { bits: 0 })], event: AppEvent::FirstProject, modes: ModeMask(1), group: Group::Project, description: "jump to the first project" };
        assert(b.keys@ =~= binding_row(i as int).0);
        b
    } else if i == 3 {
        let b = Binding { keys: vec![(KeyCode::Char('G'), KeyModifiers { bits: 0 })], event: AppEvent::LastProject, modes: ModeMask(1), group: Group::Project, description: "jump to the last project" };
        assert(b.keys@ =~= binding_row(i as int).0);
        b
    } else if i == 4 {
        let b = Binding { keys: vec![(KeyCode::Enter, KeyModifiers { bits: 0 })], event: AppEvent::CopyNotes, modes: ModeMask(1), group: Group::Project, description: "copy the selected project's notes to the clipboard" };
        assert(b.keys@ =~= binding_row(i as int).0);
        b
    } else if i == 5 {
        let b = Binding { keys: vec![(KeyCode::Down, KeyModifiers { bits: 0 }), (KeyCode::Char('j'), KeyModifiers { bits: 0 })], event: AppEvent::NextWeekProject, modes: ModeMask(2), group: Group::Project, description: "select the next project in the weekly rollup" };
        assert(b.keys@ =~= binding_row(i as int).0);
        b
    } else if i == 6 {
        let b = Binding { keys: vec![(KeyCode::Up, KeyModifiers { bits: 0 }), (KeyCode::Char('k'), KeyModifiers { bits: 0 })], event: AppEvent::PreviousWeekProject, modes: ModeMask(2), group: Group::Project, description: "select the previous project in the weekly rollup" };
        assert(b.keys@ =~= binding_row(i as int).0);
        b
    } else if i == 7 {
        let b = Binding { keys: vec![(KeyCode::Char('g'), KeyModifiers { bits: 0 })], event: AppEvent::FirstWeekProject, modes: ModeMask(2), group: Group::Project, description: "jump to the first project in the weekly rollup" };
        assert(b.keys@ =~= binding_row(i as int).0);
        b
    } else if i == 8 {
        let b = Binding { keys: vec![(KeyCode::Char('G'), KeyModifiers { bits: 0 })], event: AppEvent::LastWeekProject, modes: ModeMask(2), group: Group::Project, description: "jump to the last project in the weekly rollup" };
        assert(b.keys@ =~= binding_row(i as int).0);
        b
    } else if i == 9 {
        let b = Binding { keys: vec![(KeyCode::Enter, KeyModifiers { bits: 0 })], event: AppEvent::CopyWeekProject, modes: ModeMask(2), group: Group::Project, description: "copy the selected project's week (with hours) to the clipboard" };
        assert(b.keys@ =~= binding_row(i as int).0);
        b
    } else if i == 10 {
        let b = Binding { keys: vec![(KeyCode::Left, KeyModifiers { bits: 0 }), (KeyCode::Char('h'), KeyModifiers { bits: 0 })], event: AppEvent::PreviousDate, modes: ModeMask(15), group: Group::Date, description: "go to the previous day" };
        assert(b.keys@ =~= binding_row(i as int).0);
        b
    } else if i == 11 {
        let b = Binding { keys: vec![(KeyCode::Right, KeyModifiers { bits: 0 }), (KeyCode::Char('l'), KeyModifiers { bits: 0 })], event: AppEvent::NextDate, modes: ModeMask(15), group: Group::Date, description: "go to the next day" };
        assert(b.keys@ =~= binding_row(i as int).0);
        b
    } else if i == 12 {
        let b = Binding { keys: vec![(KeyCode::Char('H'), KeyModifiers { bits: 0 })], event: AppEvent::PreviousWeek, modes: ModeMask(15), group: Group::Date, description: "go back a week" };
        assert(b.keys@ =~= binding_row(i as int).0);
        b
    } else if i == 13 {
        let b = Binding { keys: vec![(KeyCode::Char('L'), KeyModifiers { bits: 0 })], event: AppEvent::NextWeek, modes: ModeMask(15), group: Group::Date, description: "go forward a week" };
        assert(b.keys@ =~= binding_row(i as int).0);
        b
    } else if i == 14 {
        let b = Binding { keys: vec![(KeyCode::Char('['), KeyModifiers { bits: 0 }), (KeyCode::PageUp, KeyModifiers { bits: 0 })], event: AppEvent::PreviousMonth, modes: ModeMask(15), group: Group::Date, description: "go back a month" };
        assert(b.keys@ =~= binding_row(i as int).0);
        b
    } else if i == 15 {
        let b = Binding { keys: vec![(KeyCode::Char(']'), KeyModifiers { bits: 0 }), (KeyCode::PageDown, KeyModifiers { bits: 0 })], event: AppEvent::NextMonth, modes: ModeMask(15), group: Group::Date, description: "go forward a month" };
        assert(b.keys@ =~= binding_row(i as int).0);
        b
    } else if i == 16 {
        let b = Binding { keys: vec![(KeyCode::Char('t'), KeyModifiers { bits: 0 }), (KeyCode::Char('T'), KeyModifiers { bits: 0 })], event: AppEvent::Today, modes: ModeMask(15), group: Group::Date, description: "go to today" };
        assert(b.keys@ =~= binding_row(i as int).0);
        b
    } else if i == 17 {
        let b = Binding { keys: vec![(KeyCode::Char('d'), KeyModifiers { bits: 0 })], event: AppEvent::OpenDatePrompt, modes: ModeMask(15), group: Group::Date, description: "jump to a date" };
        assert(b.keys@ =~= binding_row(i as int).0);
        b
    } else if i == 18 {
        let b = Binding { keys: vec![(KeyCode::Char('f'), KeyModifiers { bits: 0 })], event: AppEvent::ToggleZoomBar, modes: ModeMask(15), group: Group::View, description: "toggle zooming into the weekly bar chart" };
        assert(b.keys@ =~= binding_row(i as int).0);
        b
    } else if i == 19 {
        let b = Binding { keys: vec![(KeyCode::Char('w'), KeyModifiers { bits: 0 })], event: AppEvent::ToggleWeekMode, modes: ModeMask(3), group: Group::View, description: "toggle the week's per-project rollup" };
        assert(b.keys@ =~= binding_row(i as int).0);
        b
    } else if i == 20 {
        let b = Binding { keys: vec![(KeyCode::Char('v'), KeyModifiers { bits: 0 })], event: AppEvent::ToggleRawFile, modes: ModeMask(9), group: Group::View, description: "view the active date's file as it sits on disk" };
        assert(b.keys@ =~= binding_row(i as int).0);
        b
    } else if i == 21 {
        let b = Binding { keys: vec![(KeyCode::Down, KeyModifiers { bits: 0 }), (KeyCode::Char('j'), KeyModifiers { bits: 0 })], event: AppEvent::ScrollRawFileDown, modes: ModeMask(8), group: Group::View, description: "scroll the raw file down" };
        assert(b.keys@ =~= binding_row(i as int).0);
        b
    } else if i == 22 {
        let b = Binding { keys: vec![(KeyCode::Up, KeyModifiers { bits: 0 }), (KeyCode::Char('k'), KeyModifiers { bits: 0 })], event: AppEvent::ScrollRawFileUp, modes: ModeMask(8), group: Group::View, description: "scroll the raw file up" };
        assert(b.keys@ =~= binding_row(i as int).0);
        b
    } else if i == 23 {
        let b = Binding { keys: vec![(KeyCode::Char('r'), KeyModifiers { bits: 0 })], event: AppEvent::ReloadFromDisk(Reload::Rescan), modes: ModeMask(15), group: Group::General, description: "reload the current date from disk" };
        assert(b.keys@ =~= binding_row(i as int).0);
        b
    } else if i == 24 {
        let b = Binding { keys: vec![(KeyCode::Char('e'), KeyModifiers { bits: 0 })], event: AppEvent::Edit, modes: ModeMask(15), group: Group::General, description: "edit the current date's notes in $EDITOR" };
        assert(b.keys@ =~= binding_row(i as int).0);
        b
    } else if i == 25 {
        let b = Binding { keys: vec![(KeyCode::Char('y'), KeyModifiers { bits: 0 })], event: AppEvent::YankDay, modes: ModeMask(15), group: Group::General, description: "copy the day's summary (with hours) to the clipboard" };
        assert(b.keys@ =~= binding_row(i as int).0);
        b
    } else if i == 26 {
        let b = Binding { keys: vec![(KeyCode::Char('Y'), KeyModifiers { bits: 0 })], event: AppEvent::YankWeek, modes: ModeMask(15), group: Group::General, description: "copy the week's summary (with hours) to the clipboard" };
        assert(b.keys@ =~= binding_row(i as int).0);
        b
    } else if i == 27 {
        let b = Binding { keys: vec![(KeyCode::Char('?'), KeyModifiers { bits: 0 })], event: AppEvent::ToggleHelp, modes: ModeMask(15), group: Group::General, description: "show the help popup" };
        assert(b.keys@ =~= binding_row(i as int).0);
        b
    } else if i == 28 {
        let b = Binding { keys: vec![(KeyCode::Esc, KeyModifiers { bits: 0 }), (KeyCode::Char('q'), KeyModifiers { bits: 0 })], event: AppEvent::Quit, modes: ModeMask(15), group: Group::General, description: "quit" };
        assert(b.keys@ =~= binding_row(i as int).0);
        b
    } else {
        let b = Binding { keys: vec![(KeyCode::Char('?'), KeyModifiers { bits: 0 }), (KeyCode::Esc, KeyModifiers { bits: 0 }), (KeyCode::Char('q'), KeyModifiers { bits: 0 })], event: AppEvent::CloseOverlay, modes: ModeMask(15), group: Group::General, description: "close the help popup" };
        assert(b.keys@ =~= binding_row(i as int).0);
        b
    }
}

/// `b` is row `i` of the table.
pub open spec fn binding_is_row(b: Binding, i: int) -> bool {
    let row = binding_row(i);
    &&& b.keys@ == row.0
    &&& b.event == row.1
    &&& b.modes.bits() == row.2
    &&& b.group == row.3
    &&& b.description@ == row.4
}

/// Every binding, in table order.
pub fn bindings() -> (v: Vec<Binding>)
    ensures
        v@.len() == 29,
        forall|i: int| 0 <= i < 29 ==> binding_is_row(#[trigger] v@[i], i),
{
    let mut v: Vec<Binding> = Vec::new();
    let mut i: usize = 0;
    while i < 29
        invariant
            i <= 29,
            v@.len() == i,
            forall|k: int| 0 <= k < i ==> binding_is_row(#[trigger] v@[k], k),
        decreases 29 - i,
    {
        v.push(binding_at(i));
        i = i + 1;
    }
    v
}

/// A key event reduced to what the table compares against: Shift is
/// dropped from every character key, whose character already says it.
pub open spec fn normalize_spec(key: KeyEvent) -> Key {
    match key.code {
        KeyCode::Char(_) => (key.code, KeyModifiers { bits: key.modifiers.bits & 254u8 }),
        _ => (key.code, key.modifiers),
    }
}

/// The key event as the table compares it.
pub fn normalize(key: KeyEvent) -> (k: Key)
    ensures
        k == normalize_spec(key),
{
    match key.code {
        KeyCode::Char(_) => (key.code, KeyModifiers { bits: key.modifiers.bits & 254u8 }),
        _ => (key.code, key.modifiers),
    }
}

/// Row `i` fires for `key` in `mode`.
pub open spec fn row_fires(i: int, key: KeyEvent, mode: Mode) -> bool {
    mask_has(binding_row(i).2, mode) && binding_row(i).0.contains(normalize_spec(key))
}

/// The first binding row at or after `i` that fires for `key` in `mode`.
pub open spec fn first_firing_from(i: int, key: KeyEvent, mode: Mode) -> Option<int>
    decreases 29 - i,
{
    if i >= 29 || i < 0 {
        None
    } else if row_fires(i, key, mode) {
        Some(i)
    } else {
        first_firing_from(i + 1, key, mode)
    }
}

fn keys_contain(keys: &Vec<Key>, k: Key) -> (r: bool)
    ensures
        r == keys@.contains(k),
{
    let mut i: usize = 0;
    while i < keys.len()
        invariant
            i <= keys@.len(),
            forall|j: int| 0 <= j < i ==> keys@[j] != k,
        decreases keys@.len() - i,
    {
        let x = keys[i];
        if x.0 == k.0 && x.1 == k.1 {
            assert(keys@[i as int] == k);
            return true;
        }
        i = i + 1;
    }
    false
}

/// The binding `key` triggers in `mode`: the first row of the table live
/// in `mode` that lists `key`.
pub fn lookup(key: KeyEvent, mode: Mode) -> (r: Option<Binding>)
    ensures
        r is Some <==> first_firing_from(0, key, mode) is Some,
        r matches Some(b) ==> binding_is_row(b, first_firing_from(0, key, mode)->0),
{
    let pressed = normalize(key);
    let mut i: usize = 0;
    while i < 29
        invariant
            i <= 29,
            pressed == normalize_spec(key),
            first_firing_from(0, key, mode) == first_firing_from(i as int, key, mode),
        decreases 29 - i,
    {
        let b = binding_at(i);
        if b.modes.contains(mode) && keys_contain(&b.keys, pressed) {
            return Some(b);
        }
        i = i + 1;
    }
    None
}

/// Does `key` dismiss an open overlay?
pub fn closes_overlay(key: KeyEvent) -> (r: bool)
    ensures
        r == binding_row(close_overlay_row()).0.contains(normalize_spec(key)),
{
    let b = binding_at(29);
    keys_contain(&b.keys, normalize(key))
}

/// The name a key is shown by.
pub open spec fn key_name_text(code: KeyCode) -> Seq<char> {
    match code {
        KeyCode::Char(c) => seq![c],
        KeyCode::Enter => "Enter"@,
        KeyCode::Esc => "Esc"@,
        KeyCode::Up => "↑"@,
        KeyCode::Down => "↓"@,
        KeyCode::Left => "←"@,
        KeyCode::Right => "→"@,
        KeyCode::Backspace => "Backspace"@,
        KeyCode::Home => "Home"@,
        KeyCode::End => "End"@,
        KeyCode::PageUp => "PageUp"@,
        KeyCode::PageDown => "PageDown"@,
        KeyCode::Tab => "Tab"@,
        KeyCode::BackTab => "BackTab"@,
        KeyCode::Delete => "Delete"@,
        KeyCode::Insert => "Insert"@,
        KeyCode::F(n) => "F("@ + crate::text::nat_text(n as nat) + ")"@,
        KeyCode::Null => "Null"@,
    }
}

fn push_key_name(s: &mut String, code: KeyCode)
    ensures
        final(s)@ == old(s)@ + key_name_text(code),
{
    match code {
        KeyCode::Char(c) => push_char(s, c),
        KeyCode::Enter => s.append("Enter"),
        KeyCode::Esc => s.append("Esc"),
        KeyCode::Up => s.append("↑"),
        KeyCode::Down => s.append("↓"),
        KeyCode::Left => s.append("←"),
        KeyCode::Right => s.append("→"),
        KeyCode::Backspace => s.append("Backspace"),
        KeyCode::Home => s.append("Home"),
        KeyCode::End => s.append("End"),
        KeyCode::PageUp => s.append("PageUp"),
        KeyCode::PageDown => s.append("PageDown"),
        KeyCode::Tab => s.append("Tab"),
        KeyCode::BackTab => s.append("BackTab"),
        KeyCode::Delete => s.append("Delete"),
        KeyCode::Insert => s.append("Insert"),
        KeyCode::F(n) => {
            s.append("F(");
            crate::text::push_decimal(s, n as u64);
            s.append(")");
        },
        KeyCode::Null => s.append("Null"),
    }
    assert(final(s)@ =~= old(s)@ + key_name_text(code));
}

/// One key, spelled the way the help popup and the README show it.
pub open spec fn render_key_text(k: Key) -> Seq<char> {
    if k.1.has(KeyModifiers { bits: 2 }) {
        "Ctrl-"@ + key_name_text(k.0)
    } else {
        key_name_text(k.0)
    }
}

/// Keys joined with `" / "`, e.g. `"↓ / j"`.
pub open spec fn rendered_keys_text(keys: Seq<Key>) -> Seq<char>
    decreases keys.len(),
{
    if keys.len() == 0 {
        Seq::empty()
    } else if keys.len() == 1 {
        render_key_text(keys[0])
    } else {
        rendered_keys_text(keys.drop_last()) + " / "@ + render_key_text(keys.last())
    }
}

fn push_key(s: &mut String, k: Key)
    ensures
        final(s)@ == old(s)@ + render_key_text(k),
{
    if k.1.contains(KeyModifiers::control()) {
        s.append("Ctrl-");
    }
    push_key_name(s, k.0);
    assert(final(s)@ =~= old(s)@ + render_key_text(k));
}

impl Binding {
    /// The keys as a human reads them, e.g. `"↓ / j"`.
    pub fn rendered_keys(&self) -> (s: String)
        ensures
            s@ == rendered_keys_text(self.keys@),
    {
        let mut s = String::new();
        let mut i: usize = 0;
        while i < self.keys.len()
            invariant
                i <= self.keys@.len(),
                s@ == rendered_keys_text(self.keys@.take(i as int)),
            decreases self.keys@.len() - i,
        {
            let ghost prev = s@;
            if i > 0 {
                s.append(" / ");
            }
            push_key(&mut s, self.keys[i]);
            proof {
                let next = self.keys@.take(i + 1);
                assert(next.drop_last() =~= self.keys@.take(i as int));
                assert(next.last() == self.keys@[i as int]);
                if i == 0 {
                    assert(next.len() == 1);
                    assert(next[0] == self.keys@[0]);
                    assert(prev =~= Seq::<char>::empty());
                }
            }
            i = i + 1;
            assert(s@ =~= rendered_keys_text(self.keys@.take(i as int)));
        }
        assert(self.keys@.take(self.keys@.len() as int) =~= self.keys@);
        s
    }
}

/// The group of the last row before `n` that is live in `mode`, if any.
pub open spec fn last_listed_group(mode: Mode, n: int) -> Option<Group>
    decreases n,
{
    if n <= 0 {
        None
    } else if mask_has(binding_row(n - 1).2, mode) {
        Some(binding_row(n - 1).3)
    } else {
        last_listed_group(mode, n - 1)
    }
}

/// The help rows for the table's rows before `n` that are live in `mode`:
/// `(keys, description)` pairs, with an empty pair between groups.
pub open spec fn help_rows_upto(mode: Mode, n: int) -> Seq<(Seq<char>, Seq<char>)>
    decreases n,
{
    if n <= 0 {
        Seq::empty()
    } else {
        let i = n - 1;
        let row = binding_row(i);
        help_rows_upto(mode, i) + if mask_has(row.2, mode) {
            (if last_listed_group(mode, i) matches Some(g) && g != row.3 {
                seq![(Seq::<char>::empty(), Seq::<char>::empty())]
            } else {
                Seq::empty()
            }) + seq![(rendered_keys_text(row.0), row.4)]
        } else {
            Seq::empty()
        }
    }
}

/// The texts of help rows.
pub open spec fn help_rows_view(rows: Seq<(String, &'static str)>) -> Seq<(Seq<char>, Seq<char>)> {
    rows.map_values(|r: (String, &'static str)| (r.0@, r.1@))
}

/// The help popup's rows for `mode`, as `(keys, description)` pairs, ordered
/// by group with an empty pair between groups. The table lists its rows
/// group by group, so table order is group order.
pub fn help_rows(mode: Mode) -> (rows: Vec<(String, &'static str)>)
    ensures
        help_rows_view(rows@) == help_rows_upto(mode, row_count()),
{
    let mut rows: Vec<(String, &'static str)> = Vec::new();
    let mut previous: Option<Group> = None;
    let mut i: usize = 0;
    proof {
        reveal_strlit("");
    }
    while i < 30
        invariant
            i <= 30,
            previous == last_listed_group(mode, i as int),
            help_rows_view(rows@) == help_rows_upto(mode, i as int),
        decreases 30 - i,
    {
        let b = binding_at(i);
        let ghost prev_rows = rows@;
        let ghost row = binding_row(i as int);
        if b.modes.contains(mode) {
            let ghost mid = rows@;
            let mut sep = false;
            match previous {
                Some(g) => {
                    if g != b.group {
                        let ghost before_sep = rows@;
                        let blank = String::new();
                        proof {
                            reveal_strlit("");
                        }
                        rows.push((blank, ""));
                        assert(""@ =~= Seq::<char>::empty());
                        assert(help_rows_view(rows@) =~~= help_rows_view(before_sep).push(
                            (Seq::<char>::empty(), Seq::<char>::empty()),
                        ));
                        sep = true;
                    }
                },
                None => {},
            }
            proof {
                let e: Seq<(Seq<char>, Seq<char>)> = if sep {
                    seq![(Seq::<char>::empty(), Seq::<char>::empty())]
                } else {
                    Seq::empty()
                };
                assert(help_rows_view(rows@) =~= help_rows_view(prev_rows) + e);
                assert(sep == (last_listed_group(mode, i as int) matches Some(g) && g != row.3));
            }
            let ghost mid2 = rows@;
            let keys = b.rendered_keys();
            rows.push((keys, b.description));
            assert(help_rows_view(rows@) =~= help_rows_view(mid2).push((keys@, b.description@)));
            previous = Some(b.group);
        } else {
            assert(help_rows_view(rows@) =~= help_rows_view(prev_rows));
        }
        i = i + 1;
        assert(help_rows_view(rows@) =~= help_rows_upto(mode, i as int));
    }
    rows
}

/// `s` padded with spaces on the right to `width` characters.
pub open spec fn pad_right(s: Seq<char>, width: nat) -> Seq<char> {
    if s.len() < width {
        s + repeat_char(' ', (width - s.len()) as nat)
    } else {
        s
    }
}

pub(crate) fn push_padded(out: &mut String, s: &str, width: usize)
    ensures
        final(out)@ == old(out)@ + pad_right(s@, width as nat),
{
    let n = s.unicode_len();
    out.append(s);
    if n < width {
        push_repeated(out, ' ', width - n);
    }
    assert(final(out)@ =~= old(out)@ + pad_right(s@, width as nat));
}

/// One row of a two-column Markdown table.
pub open spec fn table_line(a: Seq<char>, b: Seq<char>, wa: nat, wb: nat) -> Seq<char> {
    "| "@ + pad_right(a, wa) + " | "@ + pad_right(b, wb) + " |"@
}

fn push_table_line(out: &mut String, a: &str, b: &str, wa: usize, wb: usize)
    ensures
        final(out)@ == old(out)@ + table_line(a@, b@, wa as nat, wb as nat),
{
    out.append("| ");
    push_padded(out, a, wa);
    out.append(" | ");
    push_padded(out, b, wb);
    out.append(" |");
    assert(final(out)@ =~= old(out)@ + table_line(a@, b@, wa as nat, wb as nat));
}

/// The larger of two numbers.
pub open spec fn max_nat(a: nat, b: nat) -> nat {
    if a < b { b } else { a }
}

/// The widest cell of a column, its heading included.
pub open spec fn column_width_spec(cells: Seq<Seq<char>>, heading: Seq<char>) -> nat
    decreases cells.len(),
{
    if cells.len() == 0 {
        heading.len()
    } else {
        max_nat(column_width_spec(cells.drop_last(), heading), cells.last().len())
    }
}

/// Width of a Markdown column: the widest cell, its heading included.
pub fn column_width(cells: &Vec<&str>, heading: &str) -> (w: usize)
    ensures
        w == column_width_spec(cells@.map_values(|c: &str| c@), heading@),
{
    let mut w = heading.unicode_len();
    let mut i: usize = 0;
    while i < cells.len()
        invariant
            i <= cells@.len(),
            w == column_width_spec(cells@.take(i as int).map_values(|c: &str| c@), heading@),
        decreases cells@.len() - i,
    {
        let n = cells[i].unicode_len();
        proof {
            let next = cells@.take(i + 1).map_values(|c: &str| c@);
            assert(next.drop_last() =~= cells@.take(i as int).map_values(|c: &str| c@));
            assert(next.last() == cells@[i as int]@);
        }
        if n > w {
            w = n;
        }
        i = i + 1;
    }
    assert(cells@.take(cells@.len() as int) =~= cells@);
    w
}

/// The README's keys column.
pub open spec fn readme_keys() -> Seq<Seq<char>> {
    Seq::new(30, |i: int| rendered_keys_text(binding_row(i).0))
}

/// The README's action column.
pub open spec fn readme_actions() -> Seq<Seq<char>> {
    Seq::new(30, |i: int| binding_row(i).4)
}

/// The table rows for the first `n` bindings.
pub open spec fn readme_rows(n: int, wa: nat, wb: nat) -> Seq<char>
    decreases n,
{
    if n <= 0 {
        Seq::empty()
    } else {
        readme_rows(n - 1, wa, wb) + seq!['\n'] + table_line(readme_keys()[n - 1], readme_actions()[n - 1], wa, wb)
    }
}

/// The README's keybind table, header row and all.
pub open spec fn readme_table_text() -> Seq<char> {
    let wa = column_width_spec(readme_keys(), "Keys"@);
    let wb = column_width_spec(readme_actions(), "Action"@);
    table_line("Keys"@, "Action"@, wa, wb) + seq!['\n'] + "| "@ + repeat_char('-', wa) + " | "@
        + repeat_char('-', wb) + " |"@ + readme_rows(30, wa, wb)
}

/// The keybind table the README carries, header row and all: one row per
/// documented binding in table order, each column padded to its widest
/// cell.
pub fn readme_table() -> (s: String)
    ensures
        s@ == readme_table_text(),
{
    let mut keys: Vec<String> = Vec::new();
    let mut actions: Vec<&'static str> = Vec::new();
    let mut i: usize = 0;
    while i < 30
        invariant
            i <= 30,
            keys@.len() == i,
            actions@.len() == i,
            forall|k: int| 0 <= k < i ==> (#[trigger] keys@[k])@ == readme_keys()[k],
            forall|k: int| 0 <= k < i ==> (#[trigger] actions@[k])@ == readme_actions()[k],
        decreases 30 - i,
    {
        let b = binding_at(i);
        keys.push(b.rendered_keys());
        actions.push(b.description);
        i = i + 1;
    }
    let mut key_cells: Vec<&str> = Vec::new();
    let mut j: usize = 0;
    while j < 30
        invariant
            j <= 30,
            keys@.len() == 30,
            key_cells@.len() == j,
            forall|k: int| 0 <= k < 30 ==> (#[trigger] keys@[k])@ == readme_keys()[k],
            forall|k: int| 0 <= k < j ==> (#[trigger] key_cells@[k])@ == readme_keys()[k],
        decreases 30 - j,
    {
        key_cells.push(keys[j].as_str());
        j = j + 1;
    }
    assert(key_cells@.map_values(|c: &str| c@) =~= readme_keys());
    assert(actions@.map_values(|c: &str| c@) =~= readme_actions());
    let wa = column_width(&key_cells, "Keys");
    let wb = column_width(&actions, "Action");
    let mut out = String::new();
    push_table_line(&mut out, "Keys", "Action", wa, wb);
    push_char(&mut out, '\n');
    out.append("| ");
    push_repeated(&mut out, '-', wa);
    out.append(" | ");
    push_repeated(&mut out, '-', wb);
    out.append(" |");
    let ghost head = out@;
    let mut r: usize = 0;
    while r < 30
        invariant
            r <= 30,
            key_cells@.len() == 30,
            actions@.len() == 30,
            forall|k: int| 0 <= k < 30 ==> (#[trigger] key_cells@[k])@ == readme_keys()[k],
            forall|k: int| 0 <= k < 30 ==> (#[trigger] actions@[k])@ == readme_actions()[k],
            out@ == head + readme_rows(r as int, wa as nat, wb as nat),
        decreases 30 - r,
    {
        push_char(&mut out, '\n');
        push_table_line(&mut out, key_cells[r], actions[r], wa, wb);
        r = r + 1;
        assert(out@ =~= head + readme_rows(r as int, wa as nat, wb as nat));
    }
    assert(out@ =~= readme_table_text());
    out
}


} // verus!
