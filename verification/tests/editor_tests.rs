use time_tracking::editor::{choose_editor, editor_command, editor_exit_result, editor_run_result, split_editor_command, EditorError};

#[test]
fn a_single_word_editor_splits_to_itself_with_no_args() {
    assert_eq!(
        split_editor_command("nano"),
        Some(("nano".to_owned(), vec![]))
    );
}

#[test]
fn a_multi_word_editor_splits_into_program_and_args() {
    assert_eq!(
        split_editor_command("code --wait"),
        Some(("code".to_owned(), vec!["--wait".to_owned()]))
    );
    assert_eq!(
        split_editor_command("  subl   -n  -w  "),
        Some(("subl".to_owned(), vec!["-n".to_owned(), "-w".to_owned()]))
    );
}

#[test]
fn an_empty_editor_value_splits_to_nothing() {
    assert_eq!(split_editor_command("   "), None);
}

#[test]
fn an_empty_editor_is_reported_as_not_configured() {
    let err = editor_command("").unwrap_err();
    assert_eq!(err, EditorError::NotConfigured);
    assert_eq!(err.message(), "No editor configured: EDITOR/VISUAL is empty");
}

#[test]
fn editor_wins_over_visual_and_the_default() {
    assert_eq!(choose_editor(Some("vim".into()), Some("code".into()), "nano"), "vim");
    assert_eq!(choose_editor(None, Some("code".into()), "nano"), "code");
    assert_eq!(choose_editor(None, None, "nano"), "nano");
}

#[test]
fn tabs_and_newlines_also_separate_words() {
    assert_eq!(
        split_editor_command("emacsclient\t-c\n"),
        Some(("emacsclient".to_owned(), vec!["-c".to_owned()]))
    );
}

#[test]
fn a_non_zero_exit_names_the_editor() {
    assert_eq!(editor_exit_result("env false", true), Ok(()));
    let err = editor_exit_result("env false", false).unwrap_err();
    assert!(err.message().contains("non-zero status"));
    assert_eq!(err.message(), "Editor 'env false' exited with non-zero status");
}

#[test]
fn an_editor_run_succeeds_only_when_started_and_exited_cleanly() {
    assert_eq!(editor_run_result("vim", Ok(true)), Ok(()));
    assert_eq!(
        editor_run_result("vim", Ok(false)),
        Err(EditorError::NonZeroExit { editor: "vim".to_string() })
    );
    let not_found = "No such file or directory (os error 2)".to_string();
    assert_eq!(
        editor_run_result("vim", Err(not_found.clone())),
        Err(EditorError::SpawnFailed { cause: not_found.clone() })
    );
    assert_eq!(editor_run_result("   ", Ok(true)), Err(EditorError::NotConfigured));
    assert_eq!(EditorError::SpawnFailed { cause: not_found }.message(), "error running command");
}
