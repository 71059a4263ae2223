use clipboard_paste::focus_manager::{save_target_hint, FocusMemory};
use clipboard_paste::input_simulator::device_slot::{
    finish_warm_up, simulate_paste_uinput, simulate_paste_xtest, warm_up_needed, UinputPasteAction,
    UinputPasteEvent, XtestPasteAction, XtestPasteEvent,
};
use clipboard_paste::input_simulator::xdotool::{
    simulate_paste_xdotool, xdotool_arguments, xdotool_failure, XdotoolExit, XDOTOOL,
};
use clipboard_paste::input_simulator::{
    choose_chord, init, simulate_paste_keystroke, Backend, PasteAction, PasteChord, PasteEvent,
    PasteFailure,
};

fn retryable() -> Result<(), PasteFailure> {
    Err(PasteFailure::Retryable("absent".to_string()))
}

fn ambiguous() -> Result<(), PasteFailure> {
    Err(PasteFailure::Ambiguous("broken".to_string()))
}

/// Pastes with backends that answer in turn, and gives the backends that ran.
fn paste(
    x11: bool,
    mut answers: Vec<Result<(), PasteFailure>>,
) -> (Vec<Backend>, Result<(), String>) {
    let memory = FocusMemory::new();
    let mut tried = Vec::new();
    let mut action = simulate_paste_keystroke(x11, &memory, &[], PasteEvent::Begin);
    loop {
        match action {
            PasteAction::Try { backend, chord } => {
                assert_eq!(chord, PasteChord::CtrlV);
                tried.push(backend);
                let outcome = answers.remove(0);
                action = simulate_paste_keystroke(
                    x11,
                    &memory,
                    &[],
                    PasteEvent::Tried { backend, chord, outcome },
                );
            }
            PasteAction::Finish(result) => return (tried, result),
        }
    }
}

#[test]
fn xtest_comes_first_and_xdotool_last() {
    assert_eq!(
        paste(true, vec![retryable(), retryable(), retryable()]),
        (
            vec![Backend::Xtest, Backend::Uinput, Backend::Xdotool],
            Err("All paste methods failed".to_string())
        )
    );
    assert_eq!(
        paste(false, vec![retryable()]),
        (vec![Backend::Uinput], Err("All paste methods failed".to_string()))
    );
}

#[test]
fn the_first_backend_that_works_ends_the_paste() {
    assert_eq!(paste(true, vec![Ok(())]), (vec![Backend::Xtest], Ok(())));
    assert_eq!(
        paste(true, vec![retryable(), Ok(())]),
        (vec![Backend::Xtest, Backend::Uinput], Ok(()))
    );
    assert_eq!(paste(false, vec![Ok(())]), (vec![Backend::Uinput], Ok(())));
}

#[test]
fn nothing_runs_after_an_ambiguous_failure() {
    assert_eq!(
        paste(true, vec![ambiguous()]),
        (
            vec![Backend::Xtest],
            Err("XTest failed after input may have been emitted; refusing fallback: broken"
                .to_string())
        )
    );
    assert_eq!(
        paste(true, vec![retryable(), ambiguous()]),
        (
            vec![Backend::Xtest, Backend::Uinput],
            Err("uinput failed after input may have been emitted; refusing fallback: broken"
                .to_string())
        )
    );
    assert_eq!(
        paste(true, vec![retryable(), retryable(), ambiguous()]).1,
        Err("xdotool failed after input may have been emitted; refusing fallback: broken"
            .to_string())
    );
}

#[test]
fn a_fallback_sends_the_chord_that_was_wanted() {
    let mut memory = FocusMemory::new();
    save_target_hint(&mut memory, Some("Gnome-Terminal".to_string()), None);
    let targets = vec!["terminal".to_string()];
    assert_eq!(choose_chord(&memory, &targets), PasteChord::CtrlShiftV);
    assert_eq!(choose_chord(&memory, &[]), PasteChord::CtrlV);
    assert_eq!(choose_chord(&FocusMemory::new(), &targets), PasteChord::CtrlV);
    assert!(matches!(
        simulate_paste_keystroke(true, &memory, &targets, PasteEvent::Begin),
        PasteAction::Try { backend: Backend::Xtest, chord: PasteChord::CtrlShiftV }
    ));
    assert!(matches!(
        simulate_paste_keystroke(
            true,
            &memory,
            &[],
            PasteEvent::Tried {
                backend: Backend::Xtest,
                chord: PasteChord::CtrlShiftV,
                outcome: retryable(),
            },
        ),
        PasteAction::Try { backend: Backend::Uinput, chord: PasteChord::CtrlShiftV }
    ));
}

#[test]
fn labels_and_names() {
    assert_eq!(PasteChord::CtrlV.label(), "Ctrl+V");
    assert_eq!(PasteChord::CtrlShiftV.label(), "Ctrl+Shift+V");
    assert_eq!(Backend::Xtest.name(), "XTest");
    assert_eq!(Backend::Uinput.name(), "uinput");
    assert_eq!(Backend::Xdotool.name(), "xdotool");
}

#[test]
fn the_active_backend_is_warmed_up() {
    let x11 = init(true);
    assert_eq!((x11.thread_name, x11.backend), ("xtest-paste-warmup", Backend::Xtest));
    let other = init(false);
    assert_eq!((other.thread_name, other.backend), ("uinput-paste-warmup", Backend::Uinput));
}

#[test]
fn warm_up_keeps_what_it_created() {
    let mut slot: Option<u8> = None;
    assert!(warm_up_needed(&slot));
    assert_eq!(finish_warm_up(&mut slot, Err("no".to_string())), Some("no".to_string()));
    assert_eq!(slot, None);
    assert_eq!(finish_warm_up(&mut slot, Ok(4)), None);
    assert_eq!(slot, Some(4));
    assert!(!warm_up_needed(&slot));
}

#[test]
fn xtest_device_is_created_kept_and_given_up() {
    let mut slot: Option<u8> = None;
    assert!(matches!(
        simulate_paste_xtest(&mut slot, XtestPasteEvent::Begin),
        XtestPasteAction::Create
    ));
    assert!(matches!(
        simulate_paste_xtest(&mut slot, XtestPasteEvent::Created(Err("no".to_string()))),
        XtestPasteAction::Finish(Err(PasteFailure::Retryable(m))) if m == "no"
    ));
    assert_eq!(slot, None);
    assert!(matches!(
        simulate_paste_xtest(&mut slot, XtestPasteEvent::Created(Ok(4))),
        XtestPasteAction::Refresh
    ));
    assert!(matches!(
        simulate_paste_xtest(&mut slot, XtestPasteEvent::Refreshed(Ok(()))),
        XtestPasteAction::Send
    ));
    assert!(matches!(
        simulate_paste_xtest(&mut slot, XtestPasteEvent::Sent(Ok(()))),
        XtestPasteAction::Finish(Ok(()))
    ));
    assert_eq!(slot, Some(4));
    assert!(matches!(
        simulate_paste_xtest(&mut slot, XtestPasteEvent::Begin),
        XtestPasteAction::Refresh
    ));
    assert!(matches!(
        simulate_paste_xtest(&mut slot, XtestPasteEvent::Refreshed(Err("no".to_string()))),
        XtestPasteAction::Finish(Err(PasteFailure::Retryable(_)))
    ));
    assert_eq!(slot, None);
    slot = Some(5);
    assert!(matches!(
        simulate_paste_xtest(&mut slot, XtestPasteEvent::Sent(ambiguous())),
        XtestPasteAction::Finish(Err(PasteFailure::Ambiguous(_)))
    ));
    assert_eq!(slot, None);
}

#[test]
fn uinput_device_is_created_kept_and_given_up() {
    let mut slot: Option<u8> = None;
    assert!(matches!(
        simulate_paste_uinput(&mut slot, UinputPasteEvent::Begin),
        UinputPasteAction::Create
    ));
    assert!(matches!(
        simulate_paste_uinput(&mut slot, UinputPasteEvent::Created(Err("no".to_string()))),
        UinputPasteAction::Finish(Err(PasteFailure::Retryable(m))) if m == "no"
    ));
    assert!(matches!(
        simulate_paste_uinput(&mut slot, UinputPasteEvent::Created(Ok(4))),
        UinputPasteAction::SendNew { device: 4 }
    ));
    assert!(matches!(
        simulate_paste_uinput(
            &mut slot,
            UinputPasteEvent::SentNew { device: 4, outcome: Err("no".to_string()) },
        ),
        UinputPasteAction::Finish(Err(PasteFailure::Ambiguous(m))) if m == "no"
    ));
    assert_eq!(slot, None);
    assert!(matches!(
        simulate_paste_uinput(&mut slot, UinputPasteEvent::SentNew { device: 5, outcome: Ok(()) }),
        UinputPasteAction::Finish(Ok(()))
    ));
    assert_eq!(slot, Some(5));
    assert!(matches!(
        simulate_paste_uinput(&mut slot, UinputPasteEvent::Begin),
        UinputPasteAction::SendExisting
    ));
    assert!(matches!(
        simulate_paste_uinput(&mut slot, UinputPasteEvent::SentExisting(Ok(()))),
        UinputPasteAction::Finish(Ok(()))
    ));
    assert_eq!(slot, Some(5));
    assert!(matches!(
        simulate_paste_uinput(&mut slot, UinputPasteEvent::SentExisting(Err("no".to_string()))),
        UinputPasteAction::Finish(Err(PasteFailure::Ambiguous(_)))
    ));
    assert_eq!(slot, None);
}

#[test]
fn xdotool_is_called_with_a_delay_and_clear_modifiers() {
    assert_eq!(XDOTOOL, "xdotool");
    assert_eq!(
        xdotool_arguments(PasteChord::CtrlV),
        vec!["key", "--delay", "50", "--clearmodifiers", "ctrl+v"]
    );
    assert_eq!(xdotool_arguments(PasteChord::CtrlShiftV)[4], "ctrl+shift+v");
}

#[test]
fn only_an_xdotool_that_never_started_is_retryable() {
    assert!(matches!(
        simulate_paste_xdotool(XdotoolExit::NotStarted("no such file".to_string())),
        Err(PasteFailure::Retryable(m)) if m == "Failed to start xdotool: no such file"
    ));
    assert!(simulate_paste_xdotool(XdotoolExit::Ended { success: true, stderr: vec![b'x'] })
        .is_ok());
    assert!(matches!(
        simulate_paste_xdotool(
            XdotoolExit::Ended { success: false, stderr: b" no display \n".to_vec() }
        ),
        Err(PasteFailure::Ambiguous(m)) if m == "xdotool failed: no display"
    ));
    assert!(matches!(
        simulate_paste_xdotool(XdotoolExit::Ended { success: false, stderr: vec![b'a', 0xff] }),
        Err(PasteFailure::Ambiguous(m)) if m == "xdotool failed: a\u{fffd}"
    ));
    assert!(matches!(
        xdotool_failure("\tbad\u{3000}"),
        PasteFailure::Ambiguous(m) if m == "xdotool failed: bad"
    ));
}
