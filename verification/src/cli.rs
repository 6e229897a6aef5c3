//! What a run of the command line does with its configuration: which mode
//! flags `--stdin` drops, and which of the reports, the terminal UI and the
//! web server it starts.

use vstd::prelude::*;

use crate::config::Config;
use crate::date::Weekday;
use crate::time_utils::{parse_weekday, weekday_named, InvalidWeekday};

verus! {

/// The mode flags `--stdin` drops, in the order they are documented:
/// `--serve`, `--week`, `--tui`. (`--noedit` is not one of them: reading
/// standard input opens no editor, so its intent is met.)
pub open spec fn ignored_flags_spec(config: Config) -> Seq<Seq<char>> {
    (if config.serve == Some(true) { seq!["--serve"@] } else { Seq::empty() })
        + (if config.week { seq!["--week"@] } else { Seq::empty() })
        + (if config.tui == Some(true) { seq!["--tui"@] } else { Seq::empty() })
}

/// The mode flags `--stdin` takes precedence over.
pub fn ignored_stdin_flags(config: &Config) -> (r: Vec<&'static str>)
    ensures
        r@.map_values(|s: &'static str| s@) == ignored_flags_spec(*config),
{
    let mut ignored: Vec<&'static str> = Vec::new();
    if config.serve == Some(true) {
        ignored.push("--serve");
    }
    if config.week {
        ignored.push("--week");
    }
    if config.tui == Some(true) {
        ignored.push("--tui");
    }
    assert(ignored@.map_values(|s: &'static str| s@) =~= ignored_flags_spec(*config));
    ignored
}

/// What fills the foreground of a run that does not read standard input.
#[derive(Clone, Copy, Debug, PartialEq, Eq, Structural)]
pub enum Launch {
    /// The terminal UI.
    Tui,
    /// The report of the week holding the configured date.
    WeekReport,
    /// The report of the configured date, after the day file is opened in
    /// the editor unless `noedit` is set.
    DayReport { noedit: bool },
}

/// What a run does.
#[derive(Debug, PartialEq, Eq)]
pub enum RunPlan {
    /// Report on the day read from standard input, saying which mode flags
    /// were dropped.
    Stdin { ignored: Vec<&'static str> },
    /// Start the web server on `serve_port` when there is one, then
    /// `launch` in the foreground; the week starts on `week_start`.
    Run { week_start: Weekday, serve_port: Option<u16>, launch: Launch },
}

/// The plan of a run under `config`: standard input first of all; else the
/// configured start of the week must name a weekday, the web server starts
/// when it is asked for and has a port, and the terminal UI, the week's
/// report or the day's report takes the foreground.
pub fn plan_run(config: &Config) -> (r: Result<RunPlan, InvalidWeekday>)
    ensures
        config.stdin ==> (r matches Ok(RunPlan::Stdin { ignored })
            && ignored@.map_values(|s: &'static str| s@) == ignored_flags_spec(*config)),
        !config.stdin ==> {
            let name: Seq<char> = match config.week_start_day {
                Some(s) => s@,
                None => "Saturday"@,
            };
            match weekday_named(name) {
                None => r matches Err(e) && e.input@ == name,
                Some(start) => r matches Ok(RunPlan::Run { week_start, serve_port, launch })
                    && week_start == start
                    && serve_port == (if config.serve == Some(true) { config.port } else { None::<u16> })
                    && launch == (if config.tui == Some(true) {
                        Launch::Tui
                    } else if config.week {
                        Launch::WeekReport
                    } else {
                        Launch::DayReport { noedit: config.noedit }
                    }),
            }
        },
{
    if config.stdin {
        return Ok(RunPlan::Stdin { ignored: ignored_stdin_flags(config) });
    }
    let week_start = match parse_weekday(config.get_week_start_day()) {
        Ok(w) => w,
        Err(e) => return Err(e),
    };
    let serve_port = if config.serve == Some(true) { config.port } else { None };
    let launch = if config.tui == Some(true) {
        Launch::Tui
    } else if config.week {
        Launch::WeekReport
    } else {
        Launch::DayReport { noedit: config.noedit }
    };
    Ok(RunPlan::Run { week_start, serve_port, launch })
}

} // verus!
