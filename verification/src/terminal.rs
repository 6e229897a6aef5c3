//! Which terminal modes the terminal UI turns on, in what order it turns
//! them on and off, and what a suspension of the UI reports.

use vstd::prelude::*;

verus! {

/// One change of terminal mode.
#[derive(Clone, Copy, Debug, PartialEq, Eq, Structural)]
pub enum TerminalStep {
    EnterAlternateScreen,
    EnableRawMode,
    EnableMouseCapture,
    DisableMouseCapture,
    DisableRawMode,
    LeaveAlternateScreen,
}

impl TerminalStep {
    /// The step that undoes this one.
    pub open spec fn inverse(self) -> TerminalStep {
        match self {
            TerminalStep::EnterAlternateScreen => TerminalStep::LeaveAlternateScreen,
            TerminalStep::EnableRawMode => TerminalStep::DisableRawMode,
            TerminalStep::EnableMouseCapture => TerminalStep::DisableMouseCapture,
            TerminalStep::DisableMouseCapture => TerminalStep::EnableMouseCapture,
            TerminalStep::DisableRawMode => TerminalStep::EnableRawMode,
            TerminalStep::LeaveAlternateScreen => TerminalStep::EnterAlternateScreen,
        }
    }
}

/// Every terminal mode the terminal UI turns on beyond the terminal's
/// defaults. Held by value, so that giving the terminal back cannot drift
/// from what start-up turned on.
#[derive(Clone, Copy, Debug, PartialEq, Eq, Structural)]
pub struct TerminalModes {
    /// Is mouse capture on? Governed by the `mouse` config key.
    pub mouse: bool,
}

/// The steps that take the terminal: alternate screen, raw mode, and mouse
/// capture when it is on.
pub open spec fn enter_steps_spec(m: TerminalModes) -> Seq<TerminalStep> {
    if m.mouse {
        seq![TerminalStep::EnterAlternateScreen, TerminalStep::EnableRawMode, TerminalStep::EnableMouseCapture]
    } else {
        seq![TerminalStep::EnterAlternateScreen, TerminalStep::EnableRawMode]
    }
}

/// The steps that give the terminal back, innermost mode first.
pub open spec fn leave_steps_spec(m: TerminalModes) -> Seq<TerminalStep> {
    if m.mouse {
        seq![TerminalStep::DisableMouseCapture, TerminalStep::DisableRawMode, TerminalStep::LeaveAlternateScreen]
    } else {
        seq![TerminalStep::DisableRawMode, TerminalStep::LeaveAlternateScreen]
    }
}

impl TerminalModes {
    /// The steps that take the terminal, in order.
    pub fn enter(self) -> (r: Vec<TerminalStep>)
        ensures
            r@ == enter_steps_spec(self),
    {
        let mut v = vec![TerminalStep::EnterAlternateScreen, TerminalStep::EnableRawMode];
        if self.mouse {
            v.push(TerminalStep::EnableMouseCapture);
        }
        v
    }

    /// The steps that give the terminal back, in order.
    pub fn leave(self) -> (r: Vec<TerminalStep>)
        ensures
            r@ == leave_steps_spec(self),
    {
        let mut v = Vec::new();
        if self.mouse {
            v.push(TerminalStep::DisableMouseCapture);
        }
        v.push(TerminalStep::DisableRawMode);
        v.push(TerminalStep::LeaveAlternateScreen);
        v
    }
}

/// Giving the terminal back is the exact inverse of taking it: the steps
/// of the one undo those of the other, innermost first.
pub proof fn law_leave_undoes_enter(m: TerminalModes)
    ensures
        leave_steps_spec(m).len() == enter_steps_spec(m).len(),
        forall|i: int| 0 <= i < enter_steps_spec(m).len() ==>
            #[trigger] leave_steps_spec(m)[i] == enter_steps_spec(m)[enter_steps_spec(m).len() - 1 - i].inverse(),
{
}

/// What a suspension of the terminal UI reports: the body's result when
/// the terminal was put back, else the body's error if it failed, else the
/// error of putting the terminal back. The terminal is put back either way.
pub fn suspension_result<T, E>(out: Result<T, E>, restored: Result<(), E>) -> (r: Result<T, E>)
    ensures
        match restored {
            Ok(_) => r == out,
            Err(e) => match out {
                Ok(_) => r == Err::<T, E>(e),
                Err(o) => r == Err::<T, E>(o),
            },
        },
{
    match restored {
        Ok(()) => out,
        Err(e) => match out {
            Ok(_) => Err(e),
            Err(o) => Err(o),
        },
    }
}

} // verus!
