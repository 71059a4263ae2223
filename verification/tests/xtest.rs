use clipboard_paste::input_simulator::keymap::{
    find_keycode, key_is_pressed, resolve_paste_keycodes, wait_for_x11_key_state, KeyWait,
    KeyboardMapping, KeymapAction, KeymapEvent, PasteKeycodes, XK_CONTROL_L, XK_CONTROL_R,
    XK_LOWER_V, XK_SHIFT_L, XK_SHIFT_R, XK_UPPER_V,
};
use clipboard_paste::input_simulator::xtest::{
    fake_key, ChordAction, ChordStep, KeyEvent, KeyFault, PasteKey, RefreshAction, RefreshEvent,
    XtestDevice, XtestKeyGuard, XtestSetupAction, XtestSetupEvent,
};
use clipboard_paste::input_simulator::{PasteChord, PasteFailure};
use clipboard_paste::x11::Screens;

const CTRL: u8 = 37;
const SHIFT: u8 = 50;
const V: u8 = 55;

fn device() -> XtestDevice {
    XtestDevice { root_window: 7, ctrl_keycode: CTRL, shift_keycode: SHIFT, v_keycode: V }
}

#[test]
fn keymap_bit_lookup_handles_keycode_boundaries() {
    let mut keymap = [0u8; 32];
    keymap[4] = 1 << 5; // keycode 37
    keymap[6] = 1 << 7; // keycode 55

    assert!(key_is_pressed(&keymap, 37));
    assert!(key_is_pressed(&keymap, 55));
    assert!(!key_is_pressed(&keymap, 36));
    assert!(!key_is_pressed(&keymap, 56));
}

#[test]
fn keycodes_are_resolved_from_the_active_mapping() {
    // Three keycodes starting at 20, with two symbols each.
    let mapping = [0, 0, XK_CONTROL_L, 0, XK_SHIFT_L, 0, XK_LOWER_V, XK_UPPER_V];

    assert_eq!(
        find_keycode(&mapping, 2, 20, &[XK_CONTROL_L, XK_CONTROL_R]),
        Some(21)
    );
    assert_eq!(
        find_keycode(&mapping, 2, 20, &[XK_SHIFT_L, XK_SHIFT_R]),
        Some(22)
    );
    assert_eq!(
        find_keycode(&mapping, 2, 20, &[XK_LOWER_V, XK_UPPER_V]),
        Some(23)
    );
}

#[test]
fn every_key_has_its_own_bit() {
    for pressed in 0..=255u8 {
        let mut keymap = [0u8; 32];
        keymap[usize::from(pressed / 8)] |= 1 << (pressed % 8);
        for keycode in 0..=255u8 {
            assert_eq!(key_is_pressed(&keymap, keycode), keycode == pressed);
        }
    }
}

#[test]
fn keycode_lookup_edges() {
    assert_eq!(find_keycode(&[5, 6], 0, 8, &[5]), None);
    assert_eq!(find_keycode(&[], 2, 8, &[5]), None);
    assert_eq!(find_keycode(&[5, 6], 2, 8, &[]), None);
    assert_eq!(find_keycode(&[1, 5, 5], 2, 8, &[5]), Some(8));
    // The last row is cut short.
    assert_eq!(find_keycode(&[1, 2, 5], 2, 254, &[5]), Some(255));
    assert_eq!(find_keycode(&[1, 2, 5], 2, 255, &[5]), None);
    let mut long = vec![0u32; 300];
    long[256] = 5;
    assert_eq!(find_keycode(&long, 1, 0, &[5]), None);
    long[255] = 5;
    assert_eq!(find_keycode(&long, 1, 0, &[5]), Some(255));
}

#[test]
fn joined_symbols_give_the_lower_keycode() {
    let mapping = [1, 2, 3, 4];
    let find = |wanted: &[u32]| find_keycode(&mapping, 1, 20, wanted);
    assert_eq!((find(&[4]), find(&[2])), (Some(23), Some(21)));
    assert_eq!(find(&[4, 2]), Some(21));
    assert_eq!(find(&[2, 4, 4, 2]), Some(21));
    assert_eq!(find(&[9, 4]), Some(23));
}

fn range(min_keycode: u8, max_keycode: u8) -> KeymapAction {
    resolve_paste_keycodes(KeymapEvent::Range { min_keycode, max_keycode })
}

#[test]
fn keyboard_map_is_queried_for_the_announced_range() {
    assert!(matches!(
        range(8, 255),
        KeymapAction::Query { first_keycode: 8, keycode_count: 248 }
    ));
    assert!(matches!(
        range(9, 9),
        KeymapAction::Query { first_keycode: 9, keycode_count: 1 }
    ));
    for (low, high) in [(9, 8), (0, 255)] {
        assert!(matches!(
            range(low, high),
            KeymapAction::Finish(Err(m)) if m == "Invalid X11 keycode range"
        ));
    }
}

fn resolved(keysyms: Vec<u32>) -> Result<PasteKeycodes, String> {
    let mapping = KeyboardMapping { keysyms, keysyms_per_keycode: 1 };
    match resolve_paste_keycodes(KeymapEvent::Mapping { first_keycode: 8, outcome: Ok(mapping) }) {
        KeymapAction::Finish(result) => result,
        other => panic!("{:?}", other),
    }
}

#[test]
fn all_keys_of_the_chord_are_needed() {
    assert_eq!(
        resolved(vec![XK_UPPER_V, XK_SHIFT_R, XK_CONTROL_R]),
        Ok(PasteKeycodes { ctrl: 10, shift: 9, v: 8 })
    );
    assert_eq!(
        resolved(vec![XK_LOWER_V, XK_SHIFT_L]),
        Err("Ctrl key not found in the active X11 keymap".to_string())
    );
    assert_eq!(
        resolved(vec![XK_LOWER_V, XK_CONTROL_L]),
        Err("Shift key not found in the active X11 keymap".to_string())
    );
    assert_eq!(
        resolved(vec![XK_SHIFT_L, XK_CONTROL_L]),
        Err("V key not found in the active X11 keymap".to_string())
    );
    assert!(matches!(
        resolve_paste_keycodes(
            KeymapEvent::Mapping { first_keycode: 8, outcome: Err("no".to_string()) }
        ),
        KeymapAction::Finish(Err(m)) if m == "Failed to query X11 keymap: no"
    ));
}

#[test]
fn key_state_is_waited_for_a_quarter_of_a_second() {
    let mut keys = [0u8; 32];
    keys[4] = 1 << 5;
    assert!(matches!(
        wait_for_x11_key_state(37, true, Ok(keys), u128::MAX),
        KeyWait::Finish(Ok(()))
    ));
    assert!(matches!(
        wait_for_x11_key_state(37, false, Ok(keys), 249_999_999),
        KeyWait::Sleep(1_000_000)
    ));
    assert!(matches!(
        wait_for_x11_key_state(37, false, Ok(keys), 250_000_000),
        KeyWait::Finish(Err(m)) if m == "Timed out waiting for X11 key 37 to become released"
    ));
    assert!(matches!(
        wait_for_x11_key_state(255, true, Ok(keys), 250_000_000),
        KeyWait::Finish(Err(m)) if m == "Timed out waiting for X11 key 255 to become pressed"
    ));
    assert!(matches!(
        wait_for_x11_key_state(37, true, Err("no".to_string()), 0),
        KeyWait::Finish(Err(m)) if m == "Failed to query X11 key state: no"
    ));
}

/// Waits for key 37 to be pressed, with these looks at it, and gives the result and
/// how many looks it took.
fn wait_for_ctrl(samples: &[(bool, u128)]) -> Option<(bool, usize)> {
    for (i, (pressed, elapsed)) in samples.iter().enumerate() {
        let mut keys = [0u8; 32];
        if *pressed {
            keys[4] = 1 << 5;
        }
        match wait_for_x11_key_state(37, true, Ok(keys), *elapsed) {
            KeyWait::Finish(result) => return Some((result.is_ok(), i + 1)),
            KeyWait::Sleep(_) => {}
        }
    }
    None
}

#[test]
fn key_wait_ends_with_the_state_or_too_late() {
    assert_eq!(wait_for_ctrl(&[(false, 0), (true, 1), (true, 2)]), Some((true, 2)));
    assert_eq!(wait_for_ctrl(&[(false, 0), (false, 249_999_999)]), None);
    assert_eq!(wait_for_ctrl(&[(false, 0), (false, 250_000_000), (true, 1)]), Some((false, 2)));
    assert_eq!(wait_for_ctrl(&[(false, 0), (true, 300_000_000)]), Some((true, 2)));
}

#[test]
fn guard_forgets_a_released_key() {
    let mut guard = XtestKeyGuard::new();
    guard.press(37, false);
    guard.press(55, true);
    guard.release(37);
    assert_eq!(guard.held, vec![55]);
    assert!(guard.paste_may_have_been_sent);
}

#[test]
fn key_faults_are_reported_with_their_context() {
    assert_eq!(fake_key(Ok(()), "Failed to press V"), Ok(()));
    assert_eq!(
        fake_key(Err(KeyFault::Request("no".to_string())), "Failed to press V"),
        Err("Failed to press V: no".to_string())
    );
    assert_eq!(
        fake_key(Err(KeyFault::Flush("no".to_string())), "Failed to press V"),
        Err("X11 flush failed: no".to_string())
    );
    assert_eq!(
        fake_key(Err(KeyFault::State("no".to_string())), "Failed to press V"),
        Err("no".to_string())
    );
}

#[test]
fn script_verifies_each_key() {
    let script = device().chord_script(PasteChord::CtrlV);
    assert_eq!(
        script,
        vec![
            ChordStep::Press { key: PasteKey::Ctrl, keycode: CTRL },
            ChordStep::Await { keycode: CTRL, pressed: true },
            ChordStep::Press { key: PasteKey::V, keycode: V },
            ChordStep::Await { keycode: V, pressed: true },
            ChordStep::Release { key: PasteKey::V, keycode: V },
            ChordStep::Release { key: PasteKey::Ctrl, keycode: CTRL },
            ChordStep::Await { keycode: V, pressed: false },
            ChordStep::Await { keycode: CTRL, pressed: false },
        ]
    );
    assert_eq!(device().chord_script(PasteChord::CtrlShiftV).len(), 12);
}

/// Runs a chord and answers the request at each place in `failing` with a flush
/// error. Gives the requests as text, and the verdict.
fn run(chord: PasteChord, failing: &[usize]) -> (Vec<String>, Result<(), PasteFailure>) {
    let (mut run, mut action) = device().send_paste_chord(chord);
    let mut requests = Vec::new();
    loop {
        let request = match action {
            ChordAction::Press { keycode } => format!("+{}", keycode),
            ChordAction::Release { keycode } => format!("-{}", keycode),
            ChordAction::Await { keycode, pressed } => {
                format!("?{}{}", if pressed { '+' } else { '-' }, keycode)
            }
            ChordAction::Finish(verdict) => return (requests, verdict),
        };
        let outcome = if failing.contains(&requests.len()) {
            Err(KeyFault::Flush(format!("{}", requests.len())))
        } else {
            Ok(())
        };
        requests.push(request);
        action = run.advance(outcome);
    }
}

#[test]
fn presses_and_releases_are_faked_as_key_events() {
    assert_eq!(
        ChordAction::Press { keycode: V }.key_event(),
        Some(KeyEvent { key_type: 2, keycode: V })
    );
    assert_eq!(
        ChordAction::Release { keycode: V }.key_event(),
        Some(KeyEvent { key_type: 3, keycode: V })
    );
    assert_eq!(ChordAction::Await { keycode: V, pressed: true }.key_event(), None);
    assert_eq!(ChordAction::Finish(Ok(())).key_event(), None);
}

#[test]
fn good_answers_send_the_chord() {
    let (requests, verdict) = run(PasteChord::CtrlV, &[]);
    assert!(verdict.is_ok());
    assert_eq!(
        requests,
        vec!["+37", "?+37", "+55", "?+55", "-55", "-37", "?-55", "?-37"]
    );
    let (requests, verdict) = run(PasteChord::CtrlShiftV, &[]);
    assert!(verdict.is_ok());
    assert_eq!(
        requests,
        vec![
            "+37", "?+37", "+50", "?+50", "+55", "?+55", "-55", "-50", "-37", "?-55", "?-50",
            "?-37"
        ]
    );
}

#[test]
fn a_failure_before_v_is_retryable_and_releases_the_modifiers() {
    let (requests, verdict) = run(PasteChord::CtrlShiftV, &[3]);
    assert_eq!(requests, vec!["+37", "?+37", "+50", "?+50", "-50", "-37"]);
    assert!(matches!(
        verdict,
        Err(PasteFailure::Retryable(m)) if m == "X11 flush failed: 3"
    ));
}

#[test]
fn a_key_whose_press_failed_is_released_too() {
    let (requests, verdict) = run(PasteChord::CtrlV, &[0]);
    assert_eq!(requests, vec!["+37", "-37"]);
    assert!(matches!(verdict, Err(PasteFailure::Retryable(m)) if m == "X11 flush failed: 0"));
}

#[test]
fn a_failure_from_v_on_is_ambiguous() {
    let (requests, verdict) = run(PasteChord::CtrlV, &[2]);
    assert_eq!(requests, vec!["+37", "?+37", "+55", "-55", "-37"]);
    assert!(matches!(verdict, Err(PasteFailure::Ambiguous(m)) if m == "X11 flush failed: 2"));
    let (_, late) = run(PasteChord::CtrlV, &[7]);
    assert!(matches!(late, Err(PasteFailure::Ambiguous(m)) if m == "X11 flush failed: 7"));
}

#[test]
fn a_failed_cleanup_is_ambiguous_and_tried_once_more() {
    // The wait for Ctrl fails, and so does the release that follows.
    let (requests, verdict) = run(PasteChord::CtrlV, &[1, 2]);
    assert_eq!(requests, vec!["+37", "?+37", "-37", "-37"]);
    assert!(matches!(
        verdict,
        Err(PasteFailure::Ambiguous(m)) if m == "X11 flush failed: 1; X11 flush failed: 2"
    ));
}

#[test]
fn all_cleanup_errors_are_reported() {
    let (requests, verdict) = run(PasteChord::CtrlV, &[3, 4, 5, 6, 7]);
    assert_eq!(
        requests,
        vec!["+37", "?+37", "+55", "?+55", "-55", "-37", "-55", "-37"]
    );
    assert!(matches!(
        verdict,
        Err(PasteFailure::Ambiguous(m))
            if m == "X11 flush failed: 3; X11 flush failed: 4; X11 flush failed: 5"
    ));
}

#[test]
fn client_is_set_up_step_by_step() {
    let screens = Screens { roots: vec![3, 7], default_screen: 1 };
    assert!(matches!(
        XtestDevice::create(XtestSetupEvent::Connected(Ok(screens))),
        XtestSetupAction::QueryVersion { root_window: 7, major: 2, minor: 1 }
    ));
    assert!(matches!(
        XtestDevice::create(XtestSetupEvent::Version { root_window: 7, outcome: Ok(()) }),
        XtestSetupAction::ResolveKeycodes { root_window: 7 }
    ));
    let keycodes = PasteKeycodes { ctrl: CTRL, shift: SHIFT, v: V };
    assert!(matches!(
        XtestDevice::create(XtestSetupEvent::Keycodes { root_window: 7, resolved: Ok(keycodes) }),
        XtestSetupAction::Finish(Ok(created)) if created == device()
    ));
}

fn setup_error(event: XtestSetupEvent) -> String {
    match XtestDevice::create(event) {
        XtestSetupAction::Finish(Err(message)) => message,
        other => panic!("{:?}", other),
    }
}

#[test]
fn client_setup_errors() {
    let no = "no".to_string();
    assert_eq!(
        setup_error(XtestSetupEvent::Connected(Err(no.clone()))),
        "X11 connect failed: no"
    );
    assert_eq!(
        setup_error(XtestSetupEvent::Connected(Ok(Screens { roots: vec![3], default_screen: 1 }))),
        "X11 screen not found"
    );
    assert_eq!(
        setup_error(XtestSetupEvent::Version { root_window: 7, outcome: Err(no.clone()) }),
        "XTest version query failed: no"
    );
    assert_eq!(
        setup_error(XtestSetupEvent::Keycodes { root_window: 7, resolved: Err(no) }),
        "no"
    );
}

fn drain(queue: &[bool]) -> RefreshAction {
    let mut device = device();
    let mut changed = false;
    for event in queue {
        match device.refresh_keymap_if_needed(RefreshEvent::Polled {
            mapping_changed: changed,
            outcome: Ok(Some(*event)),
        }) {
            RefreshAction::Poll { mapping_changed } => changed = mapping_changed,
            other => return other,
        }
    }
    device.refresh_keymap_if_needed(RefreshEvent::Polled {
        mapping_changed: changed,
        outcome: Ok(None),
    })
}

#[test]
fn keys_are_resolved_again_only_after_a_mapping_change() {
    assert!(matches!(drain(&[]), RefreshAction::Finish(Ok(()))));
    assert!(matches!(drain(&[false, false]), RefreshAction::Finish(Ok(()))));
    assert!(matches!(drain(&[false, true, false]), RefreshAction::Resolve));
}

#[test]
fn refreshed_keycodes_replace_the_old_ones() {
    let mut changed = device();
    let keycodes = PasteKeycodes { ctrl: 1, shift: 2, v: 3 };
    assert!(matches!(
        changed.refresh_keymap_if_needed(RefreshEvent::Resolved(Ok(keycodes))),
        RefreshAction::Finish(Ok(()))
    ));
    assert_eq!(
        changed,
        XtestDevice { root_window: 7, ctrl_keycode: 1, shift_keycode: 2, v_keycode: 3 }
    );
    assert!(matches!(
        changed.refresh_keymap_if_needed(RefreshEvent::Resolved(Err("no".to_string()))),
        RefreshAction::Finish(Err(m)) if m == "no"
    ));
    assert!(matches!(
        changed.refresh_keymap_if_needed(RefreshEvent::Polled {
            mapping_changed: true,
            outcome: Err("no".to_string()),
        }),
        RefreshAction::Finish(Err(m)) if m == "Failed to poll X11 events: no"
    ));
    assert_eq!(changed.ctrl_keycode, 1);
}
