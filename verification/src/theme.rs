//! Which palette the terminal UI draws with: the configured preset, what
//! the environment says of colour support, and the nearest of the sixteen
//! ANSI colours to a truecolor value for terminals without truecolor.

use vstd::prelude::*;

use crate::config::opt_str_text;

verus! {

/// The built-in colour presets a config `theme` key can select.
#[derive(Clone, Copy, Debug, PartialEq, Eq, Structural)]
pub enum Preset {
    Dark,
    Light,
    /// No colour at all: modifiers only (the config value "none").
    Colourless,
}

/// The preset a `theme` value names: "light" and "none" name theirs, any
/// other value is the dark one, so that a typo cannot stop the UI.
pub open spec fn preset_named(s: Seq<char>) -> Preset {
    if s == "light"@ {
        Preset::Light
    } else if s == "none"@ {
        Preset::Colourless
    } else {
        Preset::Dark
    }
}

impl Preset {
    /// The preset `s` names; parsing never fails.
    pub fn from_name(s: &str) -> (p: Preset)
        ensures
            p == preset_named(s@),
    {
        if crate::text::str_eq(s, "light") {
            Preset::Light
        } else if crate::text::str_eq(s, "none") {
            Preset::Colourless
        } else {
            Preset::Dark
        }
    }
}

/// What the environment says of colour: `NO_COLOR` present and not empty,
/// and the value of `COLORTERM`.
#[derive(Debug, Default)]
pub struct ThemeEnv {
    pub no_color: bool,
    pub colorterm: Option<String>,
}

impl ThemeEnv {
    /// The environment from the values of `NO_COLOR` and `COLORTERM`:
    /// `NO_COLOR` counts only when it is present and not empty.
    pub fn parse(no_color: Option<&str>, colorterm: Option<&str>) -> (e: ThemeEnv)
        ensures
            e.no_color == (no_color matches Some(v) && v@.len() > 0),
            crate::config::opt_text(e.colorterm) == opt_str_text(colorterm),
    {
        ThemeEnv {
            no_color: match no_color {
                Some(v) => v.unicode_len() > 0,
                None => false,
            },
            colorterm: match colorterm {
                Some(c) => Some(String::from_str(c)),
                None => None,
            },
        }
    }
}

/// `COLORTERM` advertises 24-bit colour.
pub open spec fn truecolor_spec(colorterm: Option<Seq<char>>) -> bool {
    colorterm matches Some(c) && (c == "truecolor"@ || c == "24bit"@)
}

/// Whether `COLORTERM` advertises 24-bit colour.
pub fn supports_truecolor(colorterm: Option<&str>) -> (r: bool)
    ensures
        r == truecolor_spec(opt_str_text(colorterm)),
{
    match colorterm {
        Some(c) => crate::text::str_eq(c, "truecolor") || crate::text::str_eq(c, "24bit"),
        None => false,
    }
}

/// The palette to draw with: the preset, and whether every colour is
/// brought down to the sixteen ANSI colours.
#[derive(Clone, Copy, Debug, PartialEq, Eq, Structural)]
pub struct ThemeChoice {
    pub preset: Preset,
    pub ansi16: bool,
}

/// The palette for the configured `theme` value and the environment, in
/// order of precedence: `NO_COLOR` forces no colour at all; else the
/// configured preset applies (dark when absent or unknown); and unless it
/// is the colourless one, a terminal that does not advertise truecolor gets
/// every colour brought down to the sixteen ANSI colours.
pub open spec fn resolve_spec(configured: Option<Seq<char>>, no_color: bool, colorterm: Option<Seq<char>>) -> ThemeChoice {
    if no_color {
        ThemeChoice { preset: Preset::Colourless, ansi16: false }
    } else {
        let preset = match configured {
            Some(name) => preset_named(name),
            None => Preset::Dark,
        };
        if preset == Preset::Colourless {
            ThemeChoice { preset: Preset::Colourless, ansi16: false }
        } else {
            ThemeChoice { preset, ansi16: !truecolor_spec(colorterm) }
        }
    }
}

/// The palette for the configured `theme` value and the environment.
pub fn resolve(configured: Option<&str>, env: &ThemeEnv) -> (c: ThemeChoice)
    ensures
        c == resolve_spec(opt_str_text(configured), env.no_color, crate::config::opt_text(env.colorterm)),
{
    if env.no_color {
        return ThemeChoice { preset: Preset::Colourless, ansi16: false };
    }
    let preset = match configured {
        Some(name) => Preset::from_name(name),
        None => Preset::Dark,
    };
    match preset {
        Preset::Colourless => ThemeChoice { preset: Preset::Colourless, ansi16: false },
        _ => {
            let truecolor = match &env.colorterm {
                Some(c) => supports_truecolor(Some(c.as_str())),
                None => supports_truecolor(None),
            };
            ThemeChoice { preset, ansi16: !truecolor }
        },
    }
}

/// The sixteen named ANSI colours, in the order the nearest match is
/// searched.
#[derive(Clone, Copy, Debug, PartialEq, Eq, Structural)]
pub enum Ansi16 {
    Black,
    Red,
    Green,
    Yellow,
    Blue,
    Magenta,
    Cyan,
    Gray,
    DarkGray,
    LightRed,
    LightGreen,
    LightYellow,
    LightBlue,
    LightMagenta,
    LightCyan,
    White,
}

/// The `i`-th ANSI colour and the RGB value that stands for it in the
/// nearest-colour search.
pub open spec fn ansi16_entry(i: int) -> (Ansi16, (int, int, int)) {
    if i == 0 { (Ansi16::Black, (0, 0, 0)) }
    else if i == 1 { (Ansi16::Red, (128, 0, 0)) }
    else if i == 2 { (Ansi16::Green, (0, 128, 0)) }
    else if i == 3 { (Ansi16::Yellow, (128, 128, 0)) }
    else if i == 4 { (Ansi16::Blue, (0, 0, 128)) }
    else if i == 5 { (Ansi16::Magenta, (128, 0, 128)) }
    else if i == 6 { (Ansi16::Cyan, (0, 128, 128)) }
    else if i == 7 { (Ansi16::Gray, (192, 192, 192)) }
    else if i == 8 { (Ansi16::DarkGray, (128, 128, 128)) }
    else if i == 9 { (Ansi16::LightRed, (255, 0, 0)) }
    else if i == 10 { (Ansi16::LightGreen, (0, 255, 0)) }
    else if i == 11 { (Ansi16::LightYellow, (255, 255, 0)) }
    else if i == 12 { (Ansi16::LightBlue, (0, 0, 255)) }
    else if i == 13 { (Ansi16::LightMagenta, (255, 0, 255)) }
    else if i == 14 { (Ansi16::LightCyan, (0, 255, 255)) }
    else { (Ansi16::White, (255, 255, 255)) }
}

/// Squared Euclidean distance from (`r`, `g`, `b`) to the `i`-th ANSI
/// colour's RGB value.
pub open spec fn ansi16_distance(r: int, g: int, b: int, i: int) -> int {
    let (cr, cg, cb) = ansi16_entry(i).1;
    (r - cr) * (r - cr) + (g - cg) * (g - cg) + (b - cb) * (b - cb)
}

/// The entry of the table for an index the exec code holds.
fn entry_at(i: usize) -> (e: (Ansi16, (i32, i32, i32)))
    requires
        i < 16,
    ensures
        e.0 == ansi16_entry(i as int).0,
        (e.1.0 as int, e.1.1 as int, e.1.2 as int) == ansi16_entry(i as int).1,
{
    if i == 0 { (Ansi16::Black, (0, 0, 0)) }
    else if i == 1 { (Ansi16::Red, (128, 0, 0)) }
    else if i == 2 { (Ansi16::Green, (0, 128, 0)) }
    else if i == 3 { (Ansi16::Yellow, (128, 128, 0)) }
    else if i == 4 { (Ansi16::Blue, (0, 0, 128)) }
    else if i == 5 { (Ansi16::Magenta, (128, 0, 128)) }
    else if i == 6 { (Ansi16::Cyan, (0, 128, 128)) }
    else if i == 7 { (Ansi16::Gray, (192, 192, 192)) }
    else if i == 8 { (Ansi16::DarkGray, (128, 128, 128)) }
    else if i == 9 { (Ansi16::LightRed, (255, 0, 0)) }
    else if i == 10 { (Ansi16::LightGreen, (0, 255, 0)) }
    else if i == 11 { (Ansi16::LightYellow, (255, 255, 0)) }
    else if i == 12 { (Ansi16::LightBlue, (0, 0, 255)) }
    else if i == 13 { (Ansi16::LightMagenta, (255, 0, 255)) }
    else if i == 14 { (Ansi16::LightCyan, (0, 255, 255)) }
    else { (Ansi16::White, (255, 255, 255)) }
}

/// Squared distance from (`r`, `g`, `b`) to the `i`-th ANSI colour.
fn distance_to(r: u8, g: u8, b: u8, i: usize) -> (d: i32)
    requires
        i < 16,
    ensures
        d == ansi16_distance(r as int, g as int, b as int, i as int),
{
    let (_, (cr, cg, cb)) = entry_at(i);
    let dr = r as i32 - cr;
    let dg = g as i32 - cg;
    let db = b as i32 - cb;
    assert(0 <= dr * dr <= 65025) by (nonlinear_arith)
        requires -255 <= dr <= 255;
    assert(0 <= dg * dg <= 65025) by (nonlinear_arith)
        requires -255 <= dg <= 255;
    assert(0 <= db * db <= 65025) by (nonlinear_arith)
        requires -255 <= db <= 255;
    dr * dr + dg * dg + db * db
}

/// The ANSI colour nearest to the truecolor value (`r`, `g`, `b`) by
/// squared Euclidean distance, the first in table order among equals.
pub fn nearest_ansi16(r: u8, g: u8, b: u8) -> (c: Ansi16)
    ensures
        exists|i: int| 0 <= i < 16 && c == ansi16_entry(i).0
            && (forall|j: int| 0 <= j < 16 ==> ansi16_distance(r as int, g as int, b as int, i) <= #[trigger] ansi16_distance(r as int, g as int, b as int, j))
            && (forall|j: int| 0 <= j < i ==> ansi16_distance(r as int, g as int, b as int, i) < #[trigger] ansi16_distance(r as int, g as int, b as int, j)),
{
    let mut best: usize = 0;
    let mut best_d: i32 = distance_to(r, g, b, 0);
    let mut i: usize = 1;
    while i < 16
        invariant
            1 <= i <= 16,
            best < i,
            best_d == ansi16_distance(r as int, g as int, b as int, best as int),
            forall|j: int| 0 <= j < i ==> best_d <= #[trigger] ansi16_distance(r as int, g as int, b as int, j),
            forall|j: int| 0 <= j < best ==> best_d < #[trigger] ansi16_distance(r as int, g as int, b as int, j),
        decreases 16 - i,
    {
        let d = distance_to(r, g, b, i);
        if d < best_d {
            best = i;
            best_d = d;
        }
        i = i + 1;
    }
    let c = entry_at(best).0;
    assert(0 <= best < 16 && c == ansi16_entry(best as int).0);
    c
}

} // verus!
