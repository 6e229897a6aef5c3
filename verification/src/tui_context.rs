//! Everything the terminal UI needs from its configuration, resolved once
//! at start-up.

use vstd::prelude::*;

use crate::config::{copy_text, opt_str_text, opt_text, Config, Formatter, DEFAULT_DAILY_TARGET_TENTHS};
use crate::data_svc::ParseSettings;
use crate::date::Weekday;
use crate::file_utils::{get_time_tracking_dir_with_override, DirError};
use crate::theme::{resolve, resolve_spec, ThemeChoice, ThemeEnv};
use crate::time_utils::{parse_weekday, weekday_named, InvalidWeekday};

verus! {

/// What the terminal UI reads instead of the configuration.
#[derive(Debug)]
pub struct TuiContext {
    /// First day of the week for the calendar and the bar chart.
    pub week_start_day: Weekday,
    /// Directory the day files are read from.
    pub data_dir: String,
    /// Tracked time that counts as a full day, in tenths of an hour.
    pub daily_target_tenths: u64,
    /// Formatter used when the UI hands content to the report formatters.
    pub formatter: Formatter,
    /// Line before which a day file's entries do not start.
    pub prefix: Option<String>,
    /// Line at which a day file's entries stop.
    pub suffix: Option<String>,
    /// Template a new day file is made from.
    pub template_file: Option<String>,
    /// The palette to draw with.
    pub theme: ThemeChoice,
}

/// Why the terminal UI's settings could not be resolved.
#[derive(Debug)]
pub enum ContextError {
    /// The configured start of the week names no weekday.
    WeekStart(InvalidWeekday),
    /// The data directory could not be found.
    DataDir(DirError),
}

impl TuiContext {
    /// The settings for `config`, with the colour environment `env`: the
    /// start of the week must name a weekday and the data directory must be
    /// found; the daily target defaults to eight hours and the formatter to
    /// the default one.
    pub fn from_config(config: &Config, env: &ThemeEnv) -> (r: Result<TuiContext, ContextError>)
        ensures
            ({
                let name: Seq<char> = match config.week_start_day {
                    Some(s) => s@,
                    None => "Saturday"@,
                };
                match weekday_named(name) {
                    None => r matches Err(ContextError::WeekStart(e)) && e.input@ == name,
                    Some(start) => {
                        &&& r matches Ok(c) ==> c.week_start_day == start
                        &&& match config.data_directory {
                            Some(d) => r matches Ok(c) && c.data_dir@ == d@,
                            None => r is Err ==> r matches Err(ContextError::DataDir(DirError::NoHome)),
                        }
                    },
                }
            }),
            r matches Ok(c) ==> settings_follow(c, *config, env.no_color, opt_text(env.colorterm)),
    {
        let week_start_day = match parse_weekday(config.get_week_start_day()) {
            Ok(w) => w,
            Err(e) => return Err(ContextError::WeekStart(e)),
        };
        let data_dir = match get_time_tracking_dir_with_override(config.get_data_directory()) {
            Ok(d) => d,
            Err(e) => return Err(ContextError::DataDir(e)),
        };
        let theme_name = match &config.theme {
            Some(t) => Some(t.as_str()),
            None => None,
        };
        Ok(TuiContext {
            week_start_day,
            data_dir,
            daily_target_tenths: match config.daily_target_tenths {
                Some(t) => t,
                None => DEFAULT_DAILY_TARGET_TENTHS,
            },
            formatter: match config.formatter {
                Some(f) => f,
                None => Formatter::Default,
            },
            prefix: copy_text(&config.prefix),
            suffix: copy_text(&config.suffix),
            template_file: copy_text(&config.template_file),
            theme: resolve(theme_name, env),
        })
    }

    /// The markers and template the UI's data service parses and creates
    /// day files with.
    pub fn parse_settings(&self) -> (r: ParseSettings)
        ensures
            opt_text(r.prefix) == opt_text(self.prefix),
            opt_text(r.suffix) == opt_text(self.suffix),
            opt_text(r.template_file) == opt_text(self.template_file),
    {
        ParseSettings {
            prefix: copy_text(&self.prefix),
            suffix: copy_text(&self.suffix),
            template_file: copy_text(&self.template_file),
        }
    }
}

/// The settings `c` carry over the rest of `config` as the terminal UI
/// reads it.
pub open spec fn settings_follow(c: TuiContext, config: Config, no_color: bool, colorterm: Option<Seq<char>>) -> bool {
    &&& c.daily_target_tenths == match config.daily_target_tenths {
        Some(t) => t,
        None => DEFAULT_DAILY_TARGET_TENTHS,
    }
    &&& c.formatter == match config.formatter {
        Some(f) => f,
        None => Formatter::Default,
    }
    &&& opt_text(c.prefix) == opt_text(config.prefix)
    &&& opt_text(c.suffix) == opt_text(config.suffix)
    &&& opt_text(c.template_file) == opt_text(config.template_file)
    &&& c.theme == resolve_spec(opt_text(config.theme), no_color, colorterm)
}

} // verus!
