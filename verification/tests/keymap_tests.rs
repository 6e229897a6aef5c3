use time_tracking::event::AppEvent;
use time_tracking::keymap::{
    bindings, closes_overlay, help_rows, lookup, normalize, readme_table, KeyCode, KeyEvent,
    KeyModifiers, ModeMask,
};
use time_tracking::mode::Mode;

const ALL_MODES: [Mode; 4] = [Mode::Day, Mode::Week, Mode::ZoomedWeek, Mode::RawFile];

fn plain(code: KeyCode) -> KeyEvent {
    KeyEvent::new(code, KeyModifiers::none())
}

fn event_of(key: KeyEvent, mode: Mode) -> Option<AppEvent> {
    lookup(key, mode).map(|b| b.event)
}

#[test]
fn no_duplicate_key_within_a_mode() {
    let table = bindings();
    for mode in ALL_MODES {
        let mut seen: Vec<(KeyCode, KeyModifiers)> = Vec::new();
        for b in table.iter().filter(|b| b.modes.contains(mode)) {
            for k in &b.keys {
                assert!(!seen.contains(k), "{k:?} bound twice in {mode:?}");
                seen.push(*k);
            }
        }
    }
}

#[test]
fn every_binding_is_documented() {
    for b in bindings() {
        assert!(!b.description.is_empty(), "{:?} has no description", b.keys);
    }
}

#[test]
fn lookup_respects_mode() {
    let j = plain(KeyCode::Char('j'));
    assert!(lookup(j, Mode::Day).is_some());
    assert!(lookup(j, Mode::ZoomedWeek).is_none());
}

#[test]
fn every_table_key_survives_normalisation() {
    for binding in bindings() {
        for &(code, modifiers) in &binding.keys {
            assert_eq!(normalize(KeyEvent::new(code, modifiers)), (code, modifiers));
        }
    }
}

#[test]
fn shifted_punctuation_matches_its_unmodified_row() {
    let question = KeyEvent::new(KeyCode::Char('?'), KeyModifiers::shift());
    assert_eq!(event_of(question, Mode::Day), Some(AppEvent::ToggleHelp));
    assert!(closes_overlay(question));
}

#[test]
fn shift_is_kept_on_non_character_keys() {
    let shift_up = KeyEvent::new(KeyCode::Up, KeyModifiers::shift());
    assert_eq!(normalize(shift_up), (KeyCode::Up, KeyModifiers::shift()));
    assert!(lookup(shift_up, Mode::Day).is_none());
}

#[test]
fn each_mode_bit_selects_exactly_that_mode() {
    for mode in ALL_MODES {
        for other in ALL_MODES {
            assert_eq!(ModeMask::bit(mode).contains(other), mode == other);
        }
        assert!(ModeMask::all().contains(mode));
    }
}

#[test]
fn the_list_keys_mean_their_own_panes_event_in_each_pane() {
    let rows = [
        (KeyCode::Char('G'), AppEvent::LastProject, AppEvent::LastWeekProject),
        (KeyCode::Char('g'), AppEvent::FirstProject, AppEvent::FirstWeekProject),
        (KeyCode::Enter, AppEvent::CopyNotes, AppEvent::CopyWeekProject),
    ];
    for (code, day_event, week_event) in rows {
        let key = plain(code);
        assert_eq!(event_of(key, Mode::Day), Some(day_event));
        assert_eq!(event_of(key, Mode::Week), Some(week_event));
        for mode in [Mode::ZoomedWeek, Mode::RawFile] {
            assert!(lookup(key, mode).is_none(), "{key:?} leaked into {mode:?}");
        }
    }
}

#[test]
fn j_means_something_different_in_each_mode_that_binds_it() {
    let j = plain(KeyCode::Char('j'));
    assert_eq!(event_of(j, Mode::Day), Some(AppEvent::NextProject));
    assert_eq!(event_of(j, Mode::Week), Some(AppEvent::NextWeekProject));
    assert_eq!(event_of(j, Mode::RawFile), Some(AppEvent::ScrollRawFileDown));
    assert!(lookup(j, Mode::ZoomedWeek).is_none());
}

#[test]
fn w_toggles_the_weekly_rollup_from_both_sides() {
    let w = plain(KeyCode::Char('w'));
    for mode in [Mode::Day, Mode::Week] {
        assert_eq!(event_of(w, mode), Some(AppEvent::ToggleWeekMode));
    }
}

#[test]
fn help_rows_distinguish_all_four_modes() {
    for mode in ALL_MODES {
        let rows: Vec<_> = help_rows(mode).into_iter().map(|(_, d)| d).collect();
        assert!(rows.contains(&"go to today"), "{mode:?} lost a shared row");
        assert_eq!(rows.contains(&"select the next project"), mode == Mode::Day);
    }
}

#[test]
fn shifted_capitals_match_their_unmodified_row() {
    let g = KeyEvent::new(KeyCode::Char('G'), KeyModifiers::shift());
    let binding = lookup(g, Mode::Day).expect("G is bound in the day view");
    assert_eq!(binding.event, AppEvent::LastProject);
}

#[test]
fn shifted_week_keys_match_their_unmodified_row() {
    for (c, event) in [('H', AppEvent::PreviousWeek), ('L', AppEvent::NextWeek)] {
        for modifiers in [KeyModifiers::none(), KeyModifiers::shift()] {
            let key = KeyEvent::new(KeyCode::Char(c), modifiers);
            assert_eq!(event_of(key, Mode::Day), Some(event.clone()));
        }
    }
}

#[test]
fn a_stray_modifier_does_not_trigger_a_binding() {
    let ctrl_q = KeyEvent::new(KeyCode::Char('q'), KeyModifiers::control());
    assert!(lookup(ctrl_q, Mode::Day).is_none());
}

#[test]
fn every_mode_keeps_the_bindings_that_mean_the_same_everywhere() {
    for mode in ALL_MODES {
        assert_eq!(event_of(plain(KeyCode::Char('q')), mode), Some(AppEvent::Quit));
    }
}

#[test]
fn the_documented_close_keys_are_the_ones_that_close() {
    for code in [KeyCode::Char('?'), KeyCode::Esc, KeyCode::Char('q')] {
        assert!(closes_overlay(plain(code)));
    }
    assert!(!closes_overlay(plain(KeyCode::Char('j'))));
}

#[test]
fn the_readme_table_lists_every_binding() {
    let table = readme_table();
    assert!(table.starts_with("| Keys"), "got:\n{table}");
    assert!(table.contains("go to today"));
    assert!(table.contains("quit"));
}

#[test]
fn rendered_keys_join_with_a_slash() {
    let b = lookup(plain(KeyCode::Char('j')), Mode::Day).unwrap();
    assert_eq!(b.rendered_keys(), "↓ / j");
}

#[test]
fn help_lists_the_date_motions() {
    let rows = help_rows(Mode::Day);
    for expected in ["go to the previous day", "go forward a week", "go forward a month", "jump to a date"] {
        assert!(
            rows.iter().any(|(_, description)| *description == expected),
            "help omits {expected}: {rows:?}"
        );
    }
}

#[test]
fn d_opens_the_date_prompt() {
    assert_eq!(event_of(plain(KeyCode::Char('d')), Mode::Day), Some(AppEvent::OpenDatePrompt));
    assert!(readme_table().contains("jump to a date"));
}
