//! What is on screen, and who gets first refusal on a keypress.
//!
//! The terminal UI draws exactly one [`Mode`] plus at most one [`Overlay`]
//! on top of it. Keys are offered to the overlay first, then to the mode,
//! then to the global bindings; each layer answers with a [`Handled`].

use vstd::prelude::*;

use crate::event::AppEvent;

verus! {

/// The view currently filling the screen.
#[derive(Clone, Copy, Debug, PartialEq, Eq, Structural)]
pub enum Mode {
    /// A single day: calendar, weekly bar chart and the project list.
    Day,
    /// The whole week's projects rolled up.
    Week,
    /// The weekly bar chart, full screen.
    ZoomedWeek,
    /// The active date's file as it sits on disk.
    RawFile,
}

/// A modal layer drawn over the active [`Mode`].
#[derive(Clone, Debug, PartialEq, Eq)]
pub enum Overlay {
    /// The help popup.
    Help,
    /// A one-line prompt for a date to jump to, holding what has been typed
    /// so far.
    DatePrompt(String),
}

/// What a key layer made of a key: `Ignored` falls through to the next layer,
/// `Consumed` and `Emit` stop there.
#[derive(Clone, Debug, PartialEq)]
pub enum Handled {
    /// The layer acted on the key; nothing further happens.
    Consumed,
    /// The layer turned the key into an application event to be queued.
    Emit(AppEvent),
    /// The layer had no use for the key.
    Ignored,
}

} // verus!
