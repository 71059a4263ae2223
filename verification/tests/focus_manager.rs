use clipboard_paste::focus_manager::activation::{
    x11_activate_window_by_id, x11_activate_window_by_title, x11_force_input_focus,
    x11_robust_activate, ActivateAction, ActivateEvent, AtomFault, ForceAction, ForceEvent,
    RobustAction, RobustEvent, TitleActivationAction, TitleActivationEvent,
};
use clipboard_paste::focus_manager::window_search::{
    client_windows, find_window_by_title, wait_for_window_by_title, PropertyValue, SearchAction,
    WaitAction, WaitEvent,
};
use clipboard_paste::focus_manager::{
    clear_target_hint, get_focused_window, non_empty, restore_focused_window, save_focused_window,
    save_target_hint, target_matches_any_pattern, x11_window_class, x11_window_hint,
    x11_window_title, CaptureAction, CaptureEvent, FocusMemory, TargetWindowHint, TitleAction,
    TitleEvent,
};
use clipboard_paste::paste_sync::{ContextOutcome, FocusRestore};
use clipboard_paste::text::{concat2, concat3, decimal_text, join_texts, split_nul};
use clipboard_paste::x11::{FocusRequest, Screens};

fn text(s: &str) -> Option<String> {
    Some(s.to_string())
}

fn bytes(s: &str) -> Option<Vec<u8>> {
    Some(s.as_bytes().to_vec())
}

fn texts(list: &[&str]) -> Vec<String> {
    list.iter().map(|s| s.to_string()).collect()
}

fn with_hint(app_id: Option<&str>, title: Option<&str>) -> FocusMemory {
    let mut memory = FocusMemory::new();
    save_target_hint(&mut memory, app_id.and_then(text), title.and_then(text));
    memory
}

fn saved(memory: &FocusMemory) -> Option<(Option<&str>, Option<&str>)> {
    memory
        .target_hint
        .as_ref()
        .map(|hint| (hint.app_id.as_deref(), hint.title.as_deref()))
}

#[test]
fn blank_text_is_nothing() {
    assert_eq!(non_empty(" \t\u{3000}\n".to_string()), None);
    assert_eq!(non_empty(String::new()), None);
    assert_eq!(non_empty("\u{85}a b\u{2029}".to_string()), text("a b"));
}

#[test]
fn hints_are_trimmed_and_blank_ones_dropped() {
    let trimmed = with_hint(Some(" org.kde.konsole "), Some("  "));
    assert_eq!(saved(&trimmed), Some((Some("org.kde.konsole"), None)));
    let mut memory = with_hint(None, Some("sh"));
    save_target_hint(&mut memory, text(" "), None);
    assert_eq!(saved(&memory), Some((None, Some("sh"))));
    memory.last_focused_window = 9;
    clear_target_hint(&mut memory);
    assert_eq!(saved(&memory), None);
    assert_eq!(memory.last_focused_window, 9);
}

#[test]
fn patterns_match_parts_of_the_id_or_the_title() {
    let memory = with_hint(Some("org.gnome.Terminal"), Some("root@Host: ~"));
    assert!(target_matches_any_pattern(&memory, &texts(&["terminal"])));
    assert!(target_matches_any_pattern(&memory, &texts(&["nope", "HOST:"])));
    assert!(!target_matches_any_pattern(&memory, &texts(&["nope"])));
    assert!(!target_matches_any_pattern(&memory, &[]));
    assert!(!target_matches_any_pattern(&FocusMemory::new(), &texts(&["terminal"])));
}

#[test]
fn joined_patterns_match_what_either_matches() {
    let memory = with_hint(Some("konsole"), None);
    assert!(target_matches_any_pattern(&memory, &texts(&["kon", "nope"])));
    assert!(target_matches_any_pattern(&memory, &texts(&["nope", "kon"])));
    assert!(!target_matches_any_pattern(&memory, &texts(&["nope", "neither"])));
}

#[test]
fn blank_patterns_match_nothing_and_space_around_one_does_not_count() {
    let memory = with_hint(Some("a b"), None);
    assert!(!target_matches_any_pattern(&memory, &texts(&["", "  \t"])));
    assert!(target_matches_any_pattern(&memory, &texts(&["\u{a0} A B \n"])));
}

#[test]
fn only_ascii_case_is_ignored() {
    let memory = with_hint(Some("\u{c4}PP"), None);
    assert!(target_matches_any_pattern(&memory, &texts(&["\u{c4}pp"])));
    assert!(!target_matches_any_pattern(&memory, &texts(&["\u{e4}pp"])));
}

#[test]
fn capture_saves_the_window_and_its_hint() {
    let mut memory = FocusMemory::new();
    assert_eq!(
        save_focused_window(&mut memory, CaptureEvent::Begin { x11_session: true }),
        CaptureAction::QueryFocus
    );
    assert_eq!(
        save_focused_window(&mut memory, CaptureEvent::Focus(Some(12))),
        CaptureAction::QueryHint(12)
    );
    let hint = x11_window_hint(text("xterm"), None);
    assert_eq!(
        save_focused_window(&mut memory, CaptureEvent::Hint(hint)),
        CaptureAction::Finish
    );
    assert_eq!(memory.last_focused_window, 12);
    assert_eq!(saved(&memory), Some((Some("xterm"), None)));
}

#[test]
fn a_failed_capture_leaves_no_stale_target() {
    let mut memory = with_hint(Some("xterm"), None);
    memory.last_focused_window = 12;
    save_focused_window(&mut memory, CaptureEvent::Begin { x11_session: true });
    assert_eq!(
        save_focused_window(&mut memory, CaptureEvent::Focus(None)),
        CaptureAction::Finish
    );
    assert_eq!(memory.last_focused_window, 0);
    assert_eq!(saved(&memory), None);
}

#[test]
fn outside_x11_capture_changes_nothing() {
    let mut memory = with_hint(Some("xterm"), None);
    memory.last_focused_window = 12;
    assert_eq!(
        save_focused_window(&mut memory, CaptureEvent::Begin { x11_session: false }),
        CaptureAction::Finish
    );
    assert_eq!(memory.last_focused_window, 12);
    assert_eq!(saved(&memory), Some((Some("xterm"), None)));
}

#[test]
fn focus_goes_back_to_the_saved_window() {
    let mut memory = FocusMemory::new();
    assert_eq!(restore_focused_window(&memory), Err("No previous window saved".to_string()));
    memory.last_focused_window = 12;
    assert_eq!(
        restore_focused_window(&memory),
        Ok(FocusRestore { target_window: 12, timeout: 750_000_000, stable_samples: 0 })
    );
}

#[test]
fn focused_window_query() {
    let mut slot: Option<u8> = Some(1);
    assert_eq!(get_focused_window(&mut slot, ContextOutcome::Ran(Ok(3))), Some(3));
    assert_eq!(get_focused_window(&mut slot, ContextOutcome::Ran(Err("no".to_string()))), None);
    assert_eq!(slot, None);
}

#[test]
fn window_class_is_the_last_part_that_says_something() {
    assert_eq!(x11_window_class(bytes("xterm\0XTerm\0")), text("XTerm"));
    assert_eq!(x11_window_class(bytes("xterm\0 \0\0")), text("xterm"));
    assert_eq!(x11_window_class(bytes(" a \0")), text(" a "));
    assert_eq!(x11_window_class(bytes("\0 \0")), None);
    assert_eq!(x11_window_class(bytes("")), None);
    assert_eq!(x11_window_class(Some(vec![0xff])), None);
    assert_eq!(x11_window_class(None), None);
}

fn title(net_wm_name: Option<Vec<u8>>, wm_name: Option<Vec<u8>>) -> Option<String> {
    assert!(matches!(
        x11_window_title(TitleEvent::Atoms { interned: true }),
        TitleAction::AskNetWmName
    ));
    match x11_window_title(TitleEvent::NetWmName(net_wm_name)) {
        TitleAction::Finish(found) => found,
        TitleAction::AskWmName => match x11_window_title(TitleEvent::WmName(wm_name)) {
            TitleAction::Finish(found) => found,
            other => panic!("{:?}", other),
        },
        other => panic!("{:?}", other),
    }
}

#[test]
fn window_title_prefers_the_utf8_name() {
    assert_eq!(title(bytes(" neu\u{e4} "), bytes("old")), text(" neu\u{e4} "));
    assert_eq!(title(bytes("  "), bytes(" old ")), text("old"));
    assert_eq!(title(Some(vec![0xff]), bytes("old")), text("old"));
    assert_eq!(title(None, bytes(" ")), None);
    assert_eq!(title(None, Some(vec![0xc3])), None);
    assert_eq!(title(None, None), None);
    assert!(matches!(
        x11_window_title(TitleEvent::Atoms { interned: false }),
        TitleAction::Finish(None)
    ));
}

#[test]
fn a_window_that_says_nothing_has_no_hint() {
    assert!(x11_window_hint(None, None).is_none());
    assert!(matches!(
        x11_window_hint(None, text("t")),
        Some(TargetWindowHint { app_id: None, title: Some(t) }) if t == "t"
    ));
}

fn list(windows: &[u32]) -> Option<PropertyValue> {
    let value = windows.iter().flat_map(|window| window.to_ne_bytes()).collect();
    Some(PropertyValue { format: 32, value })
}

#[test]
fn client_list_is_read_in_machine_order() {
    assert_eq!(client_windows(list(&[0x01020304, 7])), vec![0x01020304, 7]);
    assert_eq!(client_windows(list(&[])), Vec::<u32>::new());
    assert_eq!(
        client_windows(Some(PropertyValue { format: 8, value: vec![1, 2, 3, 4] })),
        Vec::<u32>::new()
    );
    assert_eq!(client_windows(None), Vec::<u32>::new());
}

/// Searches windows 1, 2, .. with these pairs of names.
fn find(wanted: &str, names: &[(Option<&str>, Option<&str>)]) -> Option<u32> {
    let windows: Vec<u32> = (1..=names.len() as u32).collect();
    let mut search = find_window_by_title(wanted, list(&windows));
    let mut action = search.action();
    loop {
        let value = match action {
            SearchAction::AskNetWmName { window } => names[window as usize - 1].0,
            SearchAction::AskWmName { window } => names[window as usize - 1].1,
            SearchAction::Finish(found) => return found,
        };
        action = search.advance(value.and_then(bytes));
    }
}

#[test]
fn search_finds_the_first_window_that_shows_the_title() {
    let names = [
        (None, None),
        (Some("other"), Some("my clip board")),
        (Some("my clip"), None),
    ];
    assert_eq!(find("clip", &names), Some(2));
    assert_eq!(find("my clip", &names[2..]), Some(1));
    assert_eq!(find("Clip", &names), None);
    assert_eq!(find("", &names), Some(2));
    assert_eq!(find("clip", &[]), None);
}

#[test]
fn search_skips_names_that_are_not_utf8() {
    let mut search = find_window_by_title("a", list(&[4]));
    assert_eq!(search.action(), SearchAction::AskNetWmName { window: 4 });
    assert_eq!(search.advance(Some(vec![b'a', 0xff])), SearchAction::AskWmName { window: 4 });
    assert_eq!(search.advance(None), SearchAction::Finish(None));
    assert_eq!(search.advance(bytes("a")), SearchAction::Finish(None));
}

#[test]
fn window_is_waited_for_until_the_timeout() {
    assert_eq!(wait_for_window_by_title(9, WaitEvent::Tick { elapsed: 8 }), WaitAction::Search);
    assert_eq!(
        wait_for_window_by_title(9, WaitEvent::Tick { elapsed: 9 }),
        WaitAction::Finish(None)
    );
    assert_eq!(
        wait_for_window_by_title(9, WaitEvent::Searched(None)),
        WaitAction::Sleep(10_000_000)
    );
    assert_eq!(
        wait_for_window_by_title(9, WaitEvent::Searched(Some(3))),
        WaitAction::Finish(Some(3))
    );
}

#[test]
fn activation_sends_one_message_to_the_root_window() {
    let screens = Screens { roots: vec![5], default_screen: 0 };
    assert!(matches!(
        x11_activate_window_by_id(77, ActivateEvent::Connected(Ok(screens))),
        ActivateAction::InternAtom { root: 5 }
    ));
    match x11_activate_window_by_id(77, ActivateEvent::Interned { root: 5, atom: Ok(300) }) {
        ActivateAction::Send(request) => {
            assert!(!request.propagate);
            assert_eq!(request.destination, 5);
            assert_eq!(request.event_mask, (1 << 19) | (1 << 20));
            let message = request.message;
            assert_eq!((message.response_type, message.format, message.sequence), (33, 32, 0));
            assert_eq!((message.window, message.type_), (77, 300));
            assert_eq!(message.data, [1, 0, 0, 0, 0]);
        }
        other => panic!("{:?}", other),
    }
    assert!(matches!(
        x11_activate_window_by_id(77, ActivateEvent::Sent(Ok(()))),
        ActivateAction::Flush
    ));
    assert!(matches!(
        x11_activate_window_by_id(77, ActivateEvent::Flushed(Ok(()))),
        ActivateAction::Finish(Ok(()))
    ));
}

fn activation_error(event: ActivateEvent) -> String {
    match x11_activate_window_by_id(77, event) {
        ActivateAction::Finish(Err(message)) => message,
        other => panic!("{:?}", other),
    }
}

#[test]
fn activation_errors() {
    let no = "no".to_string();
    assert_eq!(
        activation_error(ActivateEvent::Connected(Err(no.clone()))),
        "X11 connect failed: no"
    );
    assert_eq!(
        activation_error(ActivateEvent::Connected(Ok(Screens { roots: vec![], default_screen: 0 }))),
        "Failed to get screen"
    );
    assert_eq!(
        activation_error(ActivateEvent::Interned {
            root: 5,
            atom: Err(AtomFault::Request(no.clone())),
        }),
        "Failed to intern atom: no"
    );
    assert_eq!(
        activation_error(ActivateEvent::Interned {
            root: 5,
            atom: Err(AtomFault::Reply(no.clone())),
        }),
        "Failed to get atom reply: no"
    );
    assert_eq!(activation_error(ActivateEvent::Sent(Err(no.clone()))), "Failed to send event: no");
    assert_eq!(activation_error(ActivateEvent::Flushed(Err(no))), "Failed to flush: no");
}

#[test]
fn forced_focus() {
    assert!(matches!(
        x11_force_input_focus(77, ForceEvent::Connected(Ok(()))),
        ForceAction::SetFocus(FocusRequest { revert_to: 1, window: 77, time: 0 })
    ));
    assert!(matches!(
        x11_force_input_focus(77, ForceEvent::Requested(Ok(()))),
        ForceAction::Flush
    ));
    assert!(matches!(
        x11_force_input_focus(77, ForceEvent::Flushed(Ok(()))),
        ForceAction::Finish(Ok(()))
    ));
    let no = || "no".to_string();
    for (event, expected) in [
        (ForceEvent::Connected(Err(no())), "X11 connect failed: no"),
        (ForceEvent::Requested(Err(no())), "set_input_focus failed: no"),
        (ForceEvent::Flushed(Err(no())), "Flush failed: no"),
    ] {
        assert!(matches!(
            x11_force_input_focus(77, event),
            ForceAction::Finish(Err(m)) if m == expected
        ));
    }
}

#[test]
fn activation_by_title() {
    assert!(matches!(
        x11_activate_window_by_title("clip", TitleActivationEvent::Begin),
        TitleActivationAction::Wait { timeout: 500_000_000 }
    ));
    assert!(matches!(
        x11_activate_window_by_title("clip", TitleActivationEvent::Waited(Some(4))),
        TitleActivationAction::Activate { window: 4 }
    ));
    assert!(matches!(
        x11_activate_window_by_title("clip", TitleActivationEvent::Waited(None)),
        TitleActivationAction::Finish(Err(m)) if m == "Window 'clip' not found within timeout"
    ));
    assert!(matches!(
        x11_activate_window_by_title("clip", TitleActivationEvent::Activated(Ok(()))),
        TitleActivationAction::Pause(20_000_000)
    ));
    assert!(matches!(
        x11_activate_window_by_title("clip", TitleActivationEvent::Activated(Err("no".to_string()))),
        TitleActivationAction::Finish(Err(m)) if m == "no"
    ));
    assert!(matches!(
        x11_activate_window_by_title("clip", TitleActivationEvent::Paused),
        TitleActivationAction::Finish(Ok(()))
    ));
}

#[test]
fn activation_by_title_acts_on_the_found_window() {
    let mut seen = Vec::new();
    let mut event = TitleActivationEvent::Begin;
    loop {
        event = match x11_activate_window_by_title("clip", event) {
            TitleActivationAction::Wait { .. } => {
                seen.push("wait".to_string());
                TitleActivationEvent::Waited(Some(4))
            }
            TitleActivationAction::Activate { window } => {
                seen.push(format!("activate {}", window));
                TitleActivationEvent::Activated(Ok(()))
            }
            TitleActivationAction::Pause(_) => {
                seen.push("pause".to_string());
                TitleActivationEvent::Paused
            }
            TitleActivationAction::Finish(result) => {
                assert_eq!(result, Ok(()));
                break;
            }
        };
    }
    assert_eq!(seen, vec!["wait", "activate 4", "pause"]);
}

/// Activates with these answers and gives the result.
fn robust(
    found: Option<u32>,
    activated: Result<(), String>,
    focus: Option<u32>,
    forced: Result<(), String>,
) -> Result<(), String> {
    let mut action = x11_robust_activate("clip", RobustEvent::Begin);
    loop {
        let event = match action {
            RobustAction::Wait { timeout } => {
                assert_eq!(timeout, 500_000_000);
                RobustEvent::Waited(found)
            }
            RobustAction::Activate { window } => {
                RobustEvent::Activated { window, outcome: activated.clone() }
            }
            RobustAction::Pause { window, nanos } => {
                assert_eq!(nanos, 30_000_000);
                RobustEvent::Paused { window }
            }
            RobustAction::QueryFocus { window } => RobustEvent::Focus { window, current: focus },
            RobustAction::Force { .. } => RobustEvent::Forced(forced.clone()),
            RobustAction::Finish(result) => return result,
        };
        action = x11_robust_activate("clip", event);
    }
}

#[test]
fn robust_activation_forces_focus_where_it_did_not_arrive() {
    let no = || Err("no".to_string());
    let refused = || Err("refused".to_string());
    assert_eq!(robust(None, Ok(()), None, Ok(())), Err("Window 'clip' not found".to_string()));
    assert_eq!(robust(Some(4), Ok(()), Some(4), refused()), Ok(()));
    assert_eq!(robust(Some(4), no(), Some(4), refused()), Ok(()));
    assert_eq!(robust(Some(4), Ok(()), Some(5), Ok(())), Ok(()));
    assert_eq!(robust(Some(4), Ok(()), Some(5), refused()), refused());
    assert_eq!(robust(Some(4), no(), None, refused()), refused());
    assert_eq!(robust(Some(4), no(), None, Ok(())), Ok(()));
}

#[test]
fn text_helpers() {
    assert_eq!(split_nul("a\0\0b"), vec!["a", "", "b"]);
    assert_eq!(split_nul(""), vec![""]);
    assert_eq!(concat2("a", "b"), "ab");
    assert_eq!(concat3("a", "", "c"), "ac");
    assert_eq!(join_texts(&texts(&["a", "", "c"]), "; "), "a; ; c");
    assert_eq!(join_texts(&vec![], "; "), "");
    assert_eq!(decimal_text(0), "0");
    assert_eq!(decimal_text(u32::MAX), "4294967295");
}
