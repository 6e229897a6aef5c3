use time_tracking::terminal::{suspension_result, TerminalModes, TerminalStep};

#[test]
fn modes_are_copy_and_compare_by_value() {
    let a = TerminalModes { mouse: true };
    let b = a;
    assert_eq!(a, b);
}

#[test]
fn leaving_undoes_entering_innermost_first() {
    let modes = TerminalModes { mouse: true };
    assert_eq!(
        modes.enter(),
        vec![TerminalStep::EnterAlternateScreen, TerminalStep::EnableRawMode, TerminalStep::EnableMouseCapture]
    );
    assert_eq!(
        modes.leave(),
        vec![TerminalStep::DisableMouseCapture, TerminalStep::DisableRawMode, TerminalStep::LeaveAlternateScreen]
    );
}

#[test]
fn mouse_capture_is_left_alone_when_it_is_off() {
    let modes = TerminalModes { mouse: false };
    assert!(!modes.enter().contains(&TerminalStep::EnableMouseCapture));
    assert!(!modes.leave().contains(&TerminalStep::DisableMouseCapture));
}

#[test]
fn a_failing_body_reports_its_own_error() {
    let out: Result<u8, &str> = Err("body failed");
    assert_eq!(suspension_result(out, Err("restore failed")), Err("body failed"));
    assert_eq!(suspension_result(Ok::<u8, &str>(1), Err("restore failed")), Err("restore failed"));
    assert_eq!(suspension_result(Ok::<u8, &str>(1), Ok(())), Ok(1));
    assert_eq!(suspension_result(Err::<u8, &str>("body failed"), Ok(())), Err("body failed"));
}
