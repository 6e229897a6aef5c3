//! The configuration a run works with: the values of the config file, the
//! command-line arguments layered over them, and the defaults for anything
//! neither supplies.

use vstd::prelude::*;

use crate::clock::{now, resolve_requested_date, Moment};
use crate::date::Date;
use crate::day::TimeTrackingData;
use crate::data_svc::WeeklyProject;
use crate::file_utils::{path_join, join_path, DirError};
use crate::formatters::{
    DefaultDisplayFormatter, DisplayFormatter, MarkdownDisplayFormatter, PlainDisplayFormatter,
};

verus! {

/// Which formatter renders output.
#[derive(Clone, Copy, Debug, PartialEq, Eq, Structural)]
pub enum Formatter {
    Default,
    Markdown,
    Plain,
}

impl Formatter {
    /// The formatter's name as the config file and `--formatter` spell it.
    pub open spec fn name_spec(self) -> Seq<char> {
        match self {
            Formatter::Default => "default"@,
            Formatter::Markdown => "markdown"@,
            Formatter::Plain => "plain"@,
        }
    }

    /// The formatter's name as the config file and `--formatter` spell it.
    pub fn name(&self) -> (s: &'static str)
        ensures
            s@ == self.name_spec(),
    {
        match self {
            Formatter::Default => {
                proof { reveal_strlit("default"); }
                "default"
            },
            Formatter::Markdown => {
                proof { reveal_strlit("markdown"); }
                "markdown"
            },
            Formatter::Plain => {
                proof { reveal_strlit("plain"); }
                "plain"
            },
        }
    }

    /// The formatter this variant selects: the one mapping from a
    /// configured formatter to its implementation.
    pub fn build(&self) -> (r: BuiltFormatter)
        ensures
            r.kind() == *self,
    {
        match self {
            Formatter::Default => BuiltFormatter::Default(DefaultDisplayFormatter),
            Formatter::Markdown => BuiltFormatter::Markdown(MarkdownDisplayFormatter),
            Formatter::Plain => BuiltFormatter::Plain(PlainDisplayFormatter),
        }
    }
}

/// A formatter built from a [`Formatter`]: one of the three
/// implementations of [`DisplayFormatter`].
#[derive(Clone, Copy, Debug)]
pub enum BuiltFormatter {
    Default(DefaultDisplayFormatter),
    Markdown(MarkdownDisplayFormatter),
    Plain(PlainDisplayFormatter),
}

impl BuiltFormatter {
    /// Which formatter this is.
    pub open spec fn kind(self) -> Formatter {
        match self {
            BuiltFormatter::Default(_) => Formatter::Default,
            BuiltFormatter::Markdown(_) => Formatter::Markdown,
            BuiltFormatter::Plain(_) => Formatter::Plain,
        }
    }

    /// Which formatter this is.
    pub fn formatter(&self) -> (f: Formatter)
        ensures
            f == self.kind(),
    {
        match self {
            BuiltFormatter::Default(_) => Formatter::Default,
            BuiltFormatter::Markdown(_) => Formatter::Markdown,
            BuiltFormatter::Plain(_) => Formatter::Plain,
        }
    }
}

impl DisplayFormatter for BuiltFormatter {
    open spec fn day_summary_spec(&self, data: TimeTrackingData, indent: Seq<char>) -> Seq<char> {
        match self {
            BuiltFormatter::Default(f) => f.day_summary_spec(data, indent),
            BuiltFormatter::Markdown(f) => f.day_summary_spec(data, indent),
            BuiltFormatter::Plain(f) => f.day_summary_spec(data, indent),
        }
    }

    open spec fn weekly_header_spec(&self, week_start: Seq<char>, week_end: Seq<char>) -> Seq<char> {
        match self {
            BuiltFormatter::Default(f) => f.weekly_header_spec(week_start, week_end),
            BuiltFormatter::Markdown(f) => f.weekly_header_spec(week_start, week_end),
            BuiltFormatter::Plain(f) => f.weekly_header_spec(week_start, week_end),
        }
    }

    open spec fn weekly_totals_spec(&self, total_minutes: nat, dead_minutes: nat) -> Seq<char> {
        match self {
            BuiltFormatter::Default(f) => f.weekly_totals_spec(total_minutes, dead_minutes),
            BuiltFormatter::Markdown(f) => f.weekly_totals_spec(total_minutes, dead_minutes),
            BuiltFormatter::Plain(f) => f.weekly_totals_spec(total_minutes, dead_minutes),
        }
    }

    open spec fn weekly_warnings_spec(&self, warnings: Seq<String>) -> Seq<char> {
        match self {
            BuiltFormatter::Default(f) => f.weekly_warnings_spec(warnings),
            BuiltFormatter::Markdown(f) => f.weekly_warnings_spec(warnings),
            BuiltFormatter::Plain(f) => f.weekly_warnings_spec(warnings),
        }
    }

    open spec fn weekly_projects_spec(&self, projects: Seq<WeeklyProject>) -> Seq<char> {
        match self {
            BuiltFormatter::Default(f) => f.weekly_projects_spec(projects),
            BuiltFormatter::Markdown(f) => f.weekly_projects_spec(projects),
            BuiltFormatter::Plain(f) => f.weekly_projects_spec(projects),
        }
    }

    open spec fn daily_breakdowns_header_spec(&self) -> Seq<char> {
        match self {
            BuiltFormatter::Default(f) => f.daily_breakdowns_header_spec(),
            BuiltFormatter::Markdown(f) => f.daily_breakdowns_header_spec(),
            BuiltFormatter::Plain(f) => f.daily_breakdowns_header_spec(),
        }
    }

    open spec fn day_header_spec(&self, day_with_date: Seq<char>) -> Seq<char> {
        match self {
            BuiltFormatter::Default(f) => f.day_header_spec(day_with_date),
            BuiltFormatter::Markdown(f) => f.day_header_spec(day_with_date),
            BuiltFormatter::Plain(f) => f.day_header_spec(day_with_date),
        }
    }

    open spec fn no_file_found_spec(&self, indent: Seq<char>) -> Seq<char> {
        match self {
            BuiltFormatter::Default(f) => f.no_file_found_spec(indent),
            BuiltFormatter::Markdown(f) => f.no_file_found_spec(indent),
            BuiltFormatter::Plain(f) => f.no_file_found_spec(indent),
        }
    }

    open spec fn no_data_found_spec(&self, indent: Seq<char>) -> Seq<char> {
        match self {
            BuiltFormatter::Default(f) => f.no_data_found_spec(indent),
            BuiltFormatter::Markdown(f) => f.no_data_found_spec(indent),
            BuiltFormatter::Plain(f) => f.no_data_found_spec(indent),
        }
    }

    fn day_summary(&self, data: &TimeTrackingData, indent: &str) -> (s: String) {
        match self {
            BuiltFormatter::Default(f) => f.day_summary(data, indent),
            BuiltFormatter::Markdown(f) => f.day_summary(data, indent),
            BuiltFormatter::Plain(f) => f.day_summary(data, indent),
        }
    }

    fn weekly_header(&self, week_start: &str, week_end: &str) -> (s: String) {
        match self {
            BuiltFormatter::Default(f) => f.weekly_header(week_start, week_end),
            BuiltFormatter::Markdown(f) => f.weekly_header(week_start, week_end),
            BuiltFormatter::Plain(f) => f.weekly_header(week_start, week_end),
        }
    }

    fn weekly_totals(&self, total_minutes: u32, dead_minutes: u32) -> (s: String) {
        match self {
            BuiltFormatter::Default(f) => f.weekly_totals(total_minutes, dead_minutes),
            BuiltFormatter::Markdown(f) => f.weekly_totals(total_minutes, dead_minutes),
            BuiltFormatter::Plain(f) => f.weekly_totals(total_minutes, dead_minutes),
        }
    }

    fn weekly_warnings(&self, warnings: &[String]) -> (s: String) {
        match self {
            BuiltFormatter::Default(f) => f.weekly_warnings(warnings),
            BuiltFormatter::Markdown(f) => f.weekly_warnings(warnings),
            BuiltFormatter::Plain(f) => f.weekly_warnings(warnings),
        }
    }

    fn weekly_projects(&self, projects: &[WeeklyProject]) -> (s: String) {
        match self {
            BuiltFormatter::Default(f) => f.weekly_projects(projects),
            BuiltFormatter::Markdown(f) => f.weekly_projects(projects),
            BuiltFormatter::Plain(f) => f.weekly_projects(projects),
        }
    }

    fn daily_breakdowns_header(&self) -> (s: String) {
        match self {
            BuiltFormatter::Default(f) => f.daily_breakdowns_header(),
            BuiltFormatter::Markdown(f) => f.daily_breakdowns_header(),
            BuiltFormatter::Plain(f) => f.daily_breakdowns_header(),
        }
    }

    fn day_header(&self, day_with_date: &str) -> (s: String) {
        match self {
            BuiltFormatter::Default(f) => f.day_header(day_with_date),
            BuiltFormatter::Markdown(f) => f.day_header(day_with_date),
            BuiltFormatter::Plain(f) => f.day_header(day_with_date),
        }
    }

    fn no_file_found(&self, indent: &str) -> (s: String) {
        match self {
            BuiltFormatter::Default(f) => f.no_file_found(indent),
            BuiltFormatter::Markdown(f) => f.no_file_found(indent),
            BuiltFormatter::Plain(f) => f.no_file_found(indent),
        }
    }

    fn no_data_found(&self, indent: &str) -> (s: String) {
        match self {
            BuiltFormatter::Default(f) => f.no_data_found(indent),
            BuiltFormatter::Markdown(f) => f.no_data_found(indent),
            BuiltFormatter::Plain(f) => f.no_data_found(indent),
        }
    }
}


/// Tenths of an hour in the default daily target of eight hours.
pub const DEFAULT_DAILY_TARGET_TENTHS: u64 = 80;

/// The port the web server listens on unless told otherwise.
pub const DEFAULT_PORT: u16 = 3000;

/// The web server's default port.
pub fn default_port() -> (r: Option<u16>)
    ensures
        r == Some(DEFAULT_PORT),
{
    Some(DEFAULT_PORT)
}

/// The text of an optional string.
pub open spec fn opt_text(o: Option<String>) -> Option<Seq<char>> {
    match o {
        Some(s) => Some(s@),
        None => None,
    }
}

/// The text of an optional borrowed string.
pub open spec fn opt_str_text(o: Option<&str>) -> Option<Seq<char>> {
    match o {
        Some(s) => Some(s@),
        None => None,
    }
}

/// `a` where it is given, else `b`.
pub open spec fn pick<T>(a: Option<T>, b: Option<T>) -> Option<T> {
    if a is Some { a } else { b }
}

/// A copy of an optional string.
pub fn copy_text(o: &Option<String>) -> (r: Option<String>)
    ensures
        opt_text(r) == opt_text(*o),
{
    match o {
        Some(s) => Some(s.clone()),
        None => None,
    }
}

/// An optional string, borrowed.
pub fn borrow_text(o: &Option<String>) -> (r: Option<&str>)
    ensures
        opt_str_text(r) == opt_text(*o),
{
    match o {
        Some(s) => Some(s.as_str()),
        None => None,
    }
}

/// The configuration of a run: the config file's values with the
/// command-line arguments layered over them.
#[derive(Clone, Debug)]
pub struct Config {
    /// Formatter to use.
    pub formatter: Option<Formatter>,
    /// Day the week starts on (Monday ... Sunday).
    pub week_start_day: Option<String>,
    /// Directory the day files are kept in (defaults to `~/.time-tracking`).
    pub data_directory: Option<String>,
    /// Template file a new day file is made from.
    pub template_file: Option<String>,
    /// Line before which time entries are not read, e.g. "```timetracking".
    pub prefix: Option<String>,
    /// Line at which time entries stop, e.g. "```".
    pub suffix: Option<String>,
    /// Colour preset of the terminal UI: "dark", "light" or "none".
    pub theme: Option<String>,
    /// Tracked time that counts as a full day, in tenths of an hour (the
    /// config file writes it in hours).
    pub daily_target_tenths: Option<u64>,
    /// Whether the terminal UI captures the mouse.
    pub mouse: Option<bool>,
    /// Whether the day is read from standard input.
    pub stdin: bool,
    /// Whether to launch the web server.
    pub serve: Option<bool>,
    /// The date the run reports on.
    pub date: Date,
    /// Whether the terminal UI is launched.
    pub tui: Option<bool>,
    /// Port of the web server.
    pub port: Option<u16>,
    /// Whether to skip opening the editor.
    pub noedit: bool,
    /// Whether to report on the whole week.
    pub week: bool,
}

/// `c` holds the default configuration, with `date` as its date.
pub open spec fn is_default_on(c: Config, date: Date) -> bool {
    &&& c.formatter == Some(Formatter::Default)
    &&& opt_text(c.week_start_day) == Some("Saturday"@)
    &&& c.data_directory is None
    &&& c.template_file is None
    &&& c.prefix is None
    &&& c.suffix is None
    &&& opt_text(c.theme) == Some("dark"@)
    &&& c.daily_target_tenths == Some(DEFAULT_DAILY_TARGET_TENTHS)
    &&& c.mouse == Some(true)
    &&& !c.stdin
    &&& c.serve == Some(false)
    &&& c.date == date
    &&& c.tui is None
    &&& c.port == Some(DEFAULT_PORT)
    &&& !c.noedit
    &&& !c.week
}

impl Config {
    /// The default configuration, reporting on `date`. The data directory
    /// is left unset on purpose: it is resolved where it is used, where a
    /// missing home directory is an error rather than a panic.
    pub fn default_on(date: Date) -> (c: Config)
        ensures
            is_default_on(c, date),
    {
        let week_start = String::from_str("Saturday");
        let theme = String::from_str("dark");
        proof {
            reveal_strlit("Saturday");
            reveal_strlit("dark");
        }
        Config {
            formatter: Some(Formatter::Default),
            week_start_day: Some(week_start),
            data_directory: None,
            template_file: None,
            prefix: None,
            suffix: None,
            theme: Some(theme),
            daily_target_tenths: Some(DEFAULT_DAILY_TARGET_TENTHS),
            mouse: Some(true),
            stdin: false,
            serve: Some(false),
            date,
            tui: None,
            port: default_port(),
            noedit: false,
            week: false,
        }
    }

    /// The day the week starts on, "Saturday" unless configured.
    pub fn get_week_start_day(&self) -> (r: &str)
        ensures
            r@ == match self.week_start_day {
                Some(s) => s@,
                None => "Saturday"@,
            },
    {
        match &self.week_start_day {
            Some(s) => s.as_str(),
            None => {
                proof { reveal_strlit("Saturday"); }
                "Saturday"
            },
        }
    }

    /// The configured data directory.
    pub fn get_data_directory(&self) -> (r: Option<&str>)
        ensures
            opt_str_text(r) == opt_text(self.data_directory),
    {
        borrow_text(&self.data_directory)
    }

    /// The configured template file.
    pub fn get_template_file(&self) -> (r: Option<&str>)
        ensures
            opt_str_text(r) == opt_text(self.template_file),
    {
        borrow_text(&self.template_file)
    }

    /// The configured formatter.
    pub fn get_configured_formatter(&self) -> (r: Option<Formatter>)
        ensures
            r == self.formatter,
    {
        self.formatter
    }

    /// The configured prefix.
    pub fn get_prefix(&self) -> (r: Option<&str>)
        ensures
            opt_str_text(r) == opt_text(self.prefix),
    {
        borrow_text(&self.prefix)
    }

    /// The configured suffix.
    pub fn get_suffix(&self) -> (r: Option<&str>)
        ensures
            opt_str_text(r) == opt_text(self.suffix),
    {
        borrow_text(&self.suffix)
    }

    /// The formatter this configuration selects: the configured one, else
    /// the default.
    pub fn get_formatter(&self) -> (r: BuiltFormatter)
        ensures
            r.kind() == match self.formatter {
                Some(f) => f,
                None => Formatter::Default,
            },
    {
        match self.formatter {
            Some(f) => f.build(),
            None => Formatter::Default.build(),
        }
    }

    /// The configuration a run works with: `file` (what the config file
    /// holds) with `args` layered over it, and the date the arguments ask
    /// for read relative to `now` (today when they ask for none or for one
    /// that cannot be read; such a phrase comes back as the second part).
    pub fn with_args(file: Config, args: &Args, now: &Moment) -> (r: (Config, Option<String>))
        requires
            now.wf(),
        ensures
            configured_for(file, *args, *now, r),
    {
        let mut config = file;
        apply_arg_overrides(&mut config, args);
        let requested = match &args.date {
            Some(d) => Some(d.clone()),
            None => copy_text(&args.positional_date),
        };
        let (date, unparsed) = resolve_requested_date(requested, now);
        config.date = date;
        (config, unparsed)
    }
}

/// `r` is what [`Config::with_args`] gives for `file` and `args` read
/// relative to `now`.
pub open spec fn configured_for(file: Config, args: Args, now: Moment, r: (Config, Option<String>)) -> bool {
    &&& overridden(file, args, r.0)
    &&& r.1 is Some <==> args.requested_date() is Some && phrase_date_missing(args.requested_date(), now)
    &&& match args.requested_date() {
        None => r.0.date == now.date,
        Some(s) => match crate::clock::phrase_date(s, now) {
            Some(j) => r.0.date.julian_day_spec() == j,
            None => r.0.date == now.date && opt_text(r.1) == Some(s),
        },
    }
}

impl Config {
    /// The configuration for a run starting now: [`Config::with_args`]
    /// read against the clock, whatever moment it gives.
    pub fn for_run(file: Config, args: &Args) -> (r: (Config, Option<String>))
        ensures
            exists|m: Moment| #![trigger m.wf()] m.wf() && configured_for(file, *args, m, r),
    {
        let moment = now();
        let r = Config::with_args(file, args, &moment);
        assert(moment.wf() && configured_for(file, *args, moment, r));
        r
    }
}

/// A phrase was requested and no date can be read from it.
pub open spec fn phrase_date_missing(s: Option<Seq<char>>, now: Moment) -> bool {
    s matches Some(t) && crate::clock::phrase_date(t, now) is None
}

impl Default for Config {
    /// The default configuration, reporting on today.
    fn default() -> (c: Config)
        ensures
            is_default_on(c, c.date),
    {
        Config::default_on(now().date)
    }
}

/// The command-line arguments of a run.
#[derive(Debug)]
pub struct Args {
    /// Date to report on, as `YYYY-MM-DD` or a phrase (defaults to today).
    pub date: Option<String>,
    /// Read the day from standard input.
    pub stdin: bool,
    /// Date given as a positional argument.
    pub positional_date: Option<String>,
    /// Report on the week around the date.
    pub week: bool,
    /// Day the week starts on.
    pub week_start_day: Option<String>,
    /// Directory the day files are kept in.
    pub data_directory: Option<String>,
    /// Template file a new day file is made from.
    pub template_file: Option<String>,
    /// Output formatter.
    pub formatter: Option<Formatter>,
    /// Skip opening the editor.
    pub noedit: bool,
    /// Launch the web server.
    pub serve: bool,
    /// Launch the terminal UI.
    pub tui: bool,
    /// Port of the web server.
    pub port: Option<u16>,
}

impl Args {
    /// The date phrase the arguments ask for: `--date`, else the positional
    /// date.
    pub open spec fn requested_date(self) -> Option<Seq<char>> {
        match self.date {
            Some(d) => Some(d@),
            None => opt_text(self.positional_date),
        }
    }

    /// No argument asks for anything.
    pub open spec fn is_empty(self) -> bool {
        &&& self.date is None
        &&& !self.stdin
        &&& self.positional_date is None
        &&& !self.week
        &&& self.week_start_day is None
        &&& self.data_directory is None
        &&& self.template_file is None
        &&& self.formatter is None
        &&& !self.noedit
        &&& !self.serve
        &&& !self.tui
        &&& self.port is None
    }
}

/// The arguments of a run that is not meant to read its command line:
/// every one at the value that changes nothing.
pub fn synthetic_args() -> (a: Args)
    ensures
        a.is_empty(),
{
    Args {
        date: None,
        stdin: false,
        positional_date: None,
        week: false,
        week_start_day: None,
        data_directory: None,
        template_file: None,
        formatter: None,
        noedit: false,
        serve: false,
        tui: false,
        port: None,
    }
}

/// `new` is `old` with every argument of `args` that is given (a value, or
/// a flag that is set) layered over it; the date is left alone.
pub open spec fn overridden(old: Config, args: Args, new: Config) -> bool {
    &&& opt_text(new.week_start_day) == pick(opt_text(args.week_start_day), opt_text(old.week_start_day))
    &&& opt_text(new.data_directory) == pick(opt_text(args.data_directory), opt_text(old.data_directory))
    &&& opt_text(new.template_file) == pick(opt_text(args.template_file), opt_text(old.template_file))
    &&& new.formatter == pick(args.formatter, old.formatter)
    &&& new.stdin == (old.stdin || args.stdin)
    &&& new.serve == (if args.serve { Some(true) } else { old.serve })
    &&& new.week == (old.week || args.week)
    &&& new.tui == (if args.tui { Some(true) } else { old.tui })
    &&& new.noedit == (old.noedit || args.noedit)
    &&& new.port == pick(args.port, old.port)
    &&& opt_text(new.prefix) == opt_text(old.prefix)
    &&& opt_text(new.suffix) == opt_text(old.suffix)
    &&& opt_text(new.theme) == opt_text(old.theme)
    &&& new.daily_target_tenths == old.daily_target_tenths
    &&& new.mouse == old.mouse
}

/// Layer every given argument of `args` over `config`, all but the date:
/// reading a date can fail, and has its own fallback.
pub fn apply_arg_overrides(config: &mut Config, args: &Args)
    ensures
        overridden(*old(config), *args, *final(config)),
        final(config).date == old(config).date,
{
    if args.week_start_day.is_some() {
        config.week_start_day = copy_text(&args.week_start_day);
    }
    if args.data_directory.is_some() {
        config.data_directory = copy_text(&args.data_directory);
    }
    if args.template_file.is_some() {
        config.template_file = copy_text(&args.template_file);
    }
    if let Some(formatter) = args.formatter {
        config.formatter = Some(formatter);
    }
    if args.stdin {
        config.stdin = true;
    }
    if args.serve {
        config.serve = Some(true);
    }
    if args.week {
        config.week = true;
    }
    if args.tui {
        config.tui = Some(true);
    }
    if args.noedit {
        config.noedit = true;
    }
    if let Some(port) = args.port {
        config.port = Some(port);
    }
}

/// The comments appended to a freshly written config file, explaining the
/// settings it leaves out.
pub open spec fn config_comments_text() -> Seq<char> {
    "\n# Optional template file which will be used to create each new day note\n"@
    + "#template_file = ~/.time-tracking/template.md\n"@
    + "\n# Optional prefix to look for in a file before starting to parse time notes\n"@
    + "\n# Useful if you want to keep other notes in the same file\n"@
    + "#prefix = \"```timetracking\"\n"@
    + "\n# Corresponding closing tag to stop parsing, if you want notes after this. Must specify prefix too\n"@
    + "#suffix = \"```\"\n"@
    + "\n# TUI theme preset: \"dark\", \"light\", or \"none\".\n"@
    + "# \"none\" emits no colors so your terminal palette shows through.\n"@
    + "# NO_COLOR in the environment forces \"none\".\n"@
    + "#theme = \"dark\"\n"@
    + "\n# Hours of tracked time that count as a full day, for the TUI weekly bar chart's y-axis ceiling and goal line.\n"@
    + "#daily_target_hours = 8.0\n"@
    + "\n# Let the TUI capture the mouse: click a day, a bar or a\n"@
    + "# row, and scroll with the wheel. Turn this off to keep the\n"@
    + "# terminal's own click-drag text selection.\n"@
    + "#mouse = true\n"@
}

/// The comments appended to a freshly written config file.
pub fn write_config_comments() -> (s: String)
    ensures
        s@ == config_comments_text(),
{
    let mut s = String::new();
    s.append("\n# Optional template file which will be used to create each new day note\n");
    s.append("#template_file = ~/.time-tracking/template.md\n");
    s.append("\n# Optional prefix to look for in a file before starting to parse time notes\n");
    s.append("\n# Useful if you want to keep other notes in the same file\n");
    s.append("#prefix = \"```timetracking\"\n");
    s.append("\n# Corresponding closing tag to stop parsing, if you want notes after this. Must specify prefix too\n");
    s.append("#suffix = \"```\"\n");
    s.append("\n# TUI theme preset: \"dark\", \"light\", or \"none\".\n");
    s.append("# \"none\" emits no colors so your terminal palette shows through.\n");
    s.append("# NO_COLOR in the environment forces \"none\".\n");
    s.append("#theme = \"dark\"\n");
    s.append("\n# Hours of tracked time that count as a full day, for the TUI weekly bar chart's y-axis ceiling and goal line.\n");
    s.append("#daily_target_hours = 8.0\n");
    s.append("\n# Let the TUI capture the mouse: click a day, a bar or a\n");
    s.append("# row, and scroll with the wheel. Turn this off to keep the\n");
    s.append("# terminal's own click-drag text selection.\n");
    s.append("#mouse = true\n");
    s
}

/// Where the config file lives: `time-tracking-cli/config.toml` in the
/// platform's config directory, else in `~/.config`.
pub fn config_path_in(config_dir: Option<String>, home: Option<String>) -> (r: Result<String, DirError>)
    ensures
        match config_dir {
            Some(c) => r matches Ok(p) && p@ == path_join(path_join(c@, "time-tracking-cli"@), "config.toml"@),
            None => match home {
                Some(h) => r matches Ok(p) && p@ == path_join(path_join(path_join(h@, ".config"@),
                    "time-tracking-cli"@), "config.toml"@),
                None => r == Err::<String, DirError>(DirError::NoConfigHome),
            },
        },
{
    proof {
        reveal_strlit("time-tracking-cli");
        reveal_strlit("config.toml");
        reveal_strlit(".config");
    }
    match config_dir {
        Some(c) => {
            let d = join_path(c.as_str(), "time-tracking-cli");
            Ok(join_path(d.as_str(), "config.toml"))
        },
        None => match home {
            Some(h) => {
                let d = join_path(h.as_str(), ".config");
                let d = join_path(d.as_str(), "time-tracking-cli");
                Ok(join_path(d.as_str(), "config.toml"))
            },
            None => Err(DirError::NoConfigHome),
        },
    }
}

/// The platform's configuration directory, if it has one.
///
/// Trusted: `dirs::config_dir`, its path converted to text (lossily, where
/// it is not Unicode). It reads the environment, so nothing is stated of
/// what comes back.
#[verifier::external_body]
fn config_dir() -> (r: Option<String>) {
    match dirs::config_dir() {
        Some(p) => Some(p.to_string_lossy().into_owned()),
        None => None,
    }
}

/// The config file inside the directory `dir`:
/// `dir/time-tracking-cli/config.toml`.
pub open spec fn config_file_under(dir: Seq<char>) -> Seq<char> {
    path_join(path_join(dir, "time-tracking-cli"@), "config.toml"@)
}

/// Where the config file lives: `time-tracking-cli/config.toml` inside
/// the platform's config directory, or inside `~/.config` where there is
/// none; an error only when neither directory is known.
pub fn get_config_path() -> (r: Result<String, DirError>)
    ensures
        r is Err ==> r == Err::<String, DirError>(DirError::NoConfigHome),
        r matches Ok(p) ==> exists|dir: Seq<char>| #[trigger] config_file_under(dir) == p@,
{
    let c = config_dir();
    let h = crate::file_utils::home_dir();
    let ghost gc = c;
    let ghost gh = h;
    let r = config_path_in(c, h);
    proof {
        if r is Ok {
            let p = r->Ok_0;
            match gc {
                Some(d) => {
                    assert(config_file_under(d@) == p@);
                },
                None => {
                    let hd = gh->Some_0;
                    assert(config_file_under(path_join(hd@, ".config"@)) == p@);
                },
            }
        }
    }
    r
}

} // verus!
