use time_tracking::theme::{nearest_ansi16, resolve, supports_truecolor, Ansi16, Preset, ThemeEnv};

fn env(no_color: bool, colorterm: Option<&str>) -> ThemeEnv {
    ThemeEnv { no_color, colorterm: colorterm.map(str::to_string) }
}

#[test]
fn no_color_beats_an_explicit_config_theme() {
    let t = resolve(Some("dark"), &env(true, Some("truecolor")));
    assert_eq!(t.preset, Preset::Colourless);
}

#[test]
fn the_default_is_dark() {
    let t = resolve(None, &env(false, Some("truecolor")));
    assert_eq!(t.preset, Preset::Dark);
    assert!(!t.ansi16);
}

#[test]
fn light_and_dark_differ() {
    let d = resolve(Some("dark"), &env(false, Some("truecolor")));
    let l = resolve(Some("light"), &env(false, Some("truecolor")));
    assert_ne!(d.preset, l.preset);
}

#[test]
fn a_non_truecolor_terminal_downgrades_to_ansi() {
    let t = resolve(Some("dark"), &env(false, None));
    assert!(t.ansi16);
    let t = resolve(Some("dark"), &env(false, Some("24bit")));
    assert!(!t.ansi16);
}

#[test]
fn an_unknown_preset_name_falls_back_to_dark_without_erroring() {
    let t = resolve(Some("chartreuse"), &env(false, Some("truecolor")));
    assert_eq!(t.preset, Preset::Dark);
}

#[test]
fn an_empty_no_color_variable_does_not_count() {
    assert!(!ThemeEnv::parse(Some(""), None).no_color);
    assert!(ThemeEnv::parse(Some("1"), None).no_color);
}

#[test]
fn the_colourless_preset_is_never_downgraded() {
    let t = resolve(Some("none"), &env(false, None));
    assert_eq!(t.preset, Preset::Colourless);
    assert!(!t.ansi16);
}

#[test]
fn truecolor_is_advertised_two_ways() {
    assert!(supports_truecolor(Some("truecolor")));
    assert!(supports_truecolor(Some("24bit")));
    assert!(!supports_truecolor(Some("256color")));
    assert!(!supports_truecolor(None));
}

#[test]
fn the_nearest_ansi_colour_is_found() {
    assert_eq!(nearest_ansi16(0, 0, 0), Ansi16::Black);
    assert_eq!(nearest_ansi16(250, 5, 5), Ansi16::LightRed);
    assert_eq!(nearest_ansi16(190, 190, 195), Ansi16::Gray);
    assert_eq!(nearest_ansi16(255, 255, 255), Ansi16::White);
    // Equally far from black and dark red: the first in table order wins.
    assert_eq!(nearest_ansi16(64, 0, 0), Ansi16::Black);
}
