use clipboard_paste::input_simulator::node_search::{
    find_uinput_event_node, NodeAction, NodeReply, NodeSearch,
};
use clipboard_paste::input_simulator::uinput::{
    input_event, input_events_as_bytes, paste_sequence, push_event_record, release_all_keys,
    send_paste_chord, starts_with_lowest_byte, sync_event, write_paste_chord, InputEvent,
    SendAction, SendEvent, WriteStep, EV_KEY, EV_SYN, KEY_LEFTCTRL, KEY_LEFTSHIFT, KEY_V, SYN_REPORT,
    UINPUT_KEY_HOLD, UINPUT_MODIFIER_SETTLE,
};
use clipboard_paste::input_simulator::uinput_device::{
    device_name, last_os_error, setup_request, uinput_setup, wait_for_uinput_device, NodeWait,
    SetupAction, SetupStep, UinputDevice,
};
use clipboard_paste::input_simulator::PasteChord;

#[test]
fn ctrl_v_is_emitted_as_two_complete_frames() {
    let events = paste_sequence(PasteChord::CtrlV);
    let actual: Vec<(u16, u16, i32)> = events
        .iter()
        .map(|event| (event.type_, event.code, event.value))
        .collect();

    assert_eq!(
        actual,
        vec![
            (EV_KEY, KEY_LEFTCTRL, 1),
            (EV_KEY, KEY_V, 1),
            (EV_SYN, SYN_REPORT, 0),
            (EV_KEY, KEY_V, 0),
            (EV_KEY, KEY_LEFTCTRL, 0),
            (EV_SYN, SYN_REPORT, 0),
        ]
    );
}

#[test]
fn ctrl_shift_v_includes_shift_until_v_is_released() {
    let events = paste_sequence(PasteChord::CtrlShiftV);
    let actual: Vec<(u16, u16, i32)> = events
        .iter()
        .map(|event| (event.type_, event.code, event.value))
        .collect();

    assert_eq!(
        actual,
        vec![
            (EV_KEY, KEY_LEFTCTRL, 1),
            (EV_KEY, KEY_LEFTSHIFT, 1),
            (EV_KEY, KEY_V, 1),
            (EV_SYN, SYN_REPORT, 0),
            (EV_KEY, KEY_V, 0),
            (EV_KEY, KEY_LEFTSHIFT, 0),
            (EV_KEY, KEY_LEFTCTRL, 0),
            (EV_SYN, SYN_REPORT, 0),
        ]
    );
}

#[test]
fn input_event_bytes_use_the_platform_abi_size() {
    let events = paste_sequence(PasteChord::CtrlV);
    assert_eq!(
        input_events_as_bytes(&events).len(),
        events.len() * std::mem::size_of::<libc::input_event>()
    );
}

#[test]
fn event_bytes_end_with_type_code_and_value() {
    let size = std::mem::size_of::<libc::input_event>();
    let bytes = input_events_as_bytes(&[input_event(EV_KEY, 0x1234, -2), sync_event()]);
    let mut expected = vec![0u8; size - 8];
    expected.extend_from_slice(&1u16.to_ne_bytes());
    expected.extend_from_slice(&0x1234u16.to_ne_bytes());
    expected.extend_from_slice(&(-2i32).to_ne_bytes());
    assert_eq!(&bytes[..size], &expected[..]);
    assert_eq!(&bytes[size..], &vec![0u8; size][..]);
    assert!(input_events_as_bytes(&[]).is_empty());
}

#[test]
fn byte_order_is_read_off_the_number_one() {
    assert!(starts_with_lowest_byte(&1u16.to_le_bytes()));
    assert!(!starts_with_lowest_byte(&1u16.to_be_bytes()));
    assert!(!starts_with_lowest_byte(&[1, 1]));
}

#[test]
fn records_follow_the_byte_order() {
    let event = input_event(0x0102, 0x0304, 0x05060708);
    let mut little = Vec::new();
    push_event_record(&mut little, event, 9, true);
    assert_eq!(little, vec![0, 2, 1, 4, 3, 8, 7, 6, 5]);
    let mut big = vec![9];
    push_event_record(&mut big, event, 8, false);
    assert_eq!(big, vec![9, 1, 2, 3, 4, 5, 6, 7, 8]);
}

#[test]
fn all_keys_are_let_go_in_one_frame() {
    assert_eq!(
        release_all_keys(),
        vec![
            input_event(EV_KEY, KEY_V, 0),
            input_event(EV_KEY, KEY_LEFTSHIFT, 0),
            input_event(EV_KEY, KEY_LEFTCTRL, 0),
            sync_event(),
        ]
    );
}

fn all_writes(chord: PasteChord) -> (Vec<InputEvent>, Vec<u128>) {
    let mut events = Vec::new();
    let mut pauses = Vec::new();
    let mut position = 0;
    while let Some(step) = write_paste_chord(chord, position) {
        match step {
            WriteStep::Write(part) => events.extend(part),
            WriteStep::Sleep(nanos) => pauses.push(nanos),
        }
        position += 1;
    }
    (events, pauses)
}

#[test]
fn writes_make_up_the_paste_sequence() {
    for chord in [PasteChord::CtrlV, PasteChord::CtrlShiftV] {
        let (events, pauses) = all_writes(chord);
        assert_eq!(events, paste_sequence(chord));
        assert_eq!(pauses, vec![UINPUT_MODIFIER_SETTLE, UINPUT_KEY_HOLD]);
    }
    assert_eq!(UINPUT_MODIFIER_SETTLE, 12_000_000);
    assert_eq!(UINPUT_KEY_HOLD, 18_000_000);
}

fn play(events: &[InputEvent], down: &mut Vec<u16>) {
    for event in events {
        if event.type_ == EV_KEY {
            down.retain(|code| *code != event.code);
            if event.value != 0 {
                down.push(event.code);
            }
        }
    }
}

#[test]
fn modifiers_are_down_whenever_v_is() {
    for chord in [PasteChord::CtrlV, PasteChord::CtrlShiftV] {
        let events = paste_sequence(chord);
        for n in 0..=events.len() {
            let mut down = Vec::new();
            play(&events[..n], &mut down);
            if down.contains(&KEY_V) {
                assert!(down.contains(&KEY_LEFTCTRL));
                assert_eq!(
                    down.contains(&KEY_LEFTSHIFT),
                    chord == PasteChord::CtrlShiftV
                );
            }
        }
    }
}

#[test]
fn no_key_stays_down_after_a_whole_or_a_failed_chord() {
    for chord in [PasteChord::CtrlV, PasteChord::CtrlShiftV] {
        let events = paste_sequence(chord);
        let mut whole = Vec::new();
        play(&events, &mut whole);
        assert!(whole.is_empty());
        for n in 0..=events.len() {
            let mut down = Vec::new();
            play(&events[..n], &mut down);
            play(&release_all_keys(), &mut down);
            assert!(down.is_empty());
        }
    }
}

#[test]
fn a_good_chord_goes_through_all_its_steps() {
    let mut action = send_paste_chord(PasteChord::CtrlShiftV, SendEvent::Begin);
    let mut seen = 0;
    while let SendAction::Step { position, .. } = action {
        assert_eq!(position, seen);
        seen += 1;
        action = send_paste_chord(
            PasteChord::CtrlShiftV,
            SendEvent::Stepped { position, outcome: Ok(()) },
        );
    }
    assert_eq!(seen, 5);
    assert!(matches!(action, SendAction::Finish(Ok(()))));
}

#[test]
fn a_failed_write_lets_go_of_all_keys() {
    let action = send_paste_chord(
        PasteChord::CtrlV,
        SendEvent::Stepped { position: 2, outcome: Err("gone".to_string()) },
    );
    match action {
        SendAction::Release { events, error } => {
            assert_eq!(events, release_all_keys());
            assert_eq!(error, "Failed to write uinput sequence: gone");
            match send_paste_chord(PasteChord::CtrlV, SendEvent::Released { error }) {
                SendAction::Finish(Err(message)) => {
                    assert_eq!(message, "Failed to write uinput sequence: gone")
                }
                other => panic!("{:?}", other),
            }
        }
        other => panic!("{:?}", other),
    }
}

#[test]
fn device_name_and_setup_record() {
    assert_eq!(device_name(0), "win11-clipboard-paste-0");
    assert_eq!(device_name(u32::MAX), "win11-clipboard-paste-4294967295");
    let setup = uinput_setup(1207);
    assert_eq!(
        (setup.bustype, setup.vendor, setup.product, setup.version),
        (0x03, 0x1234, 0x5678, 0x0001)
    );
    assert_eq!(setup.ff_effects_max, 0);
    assert_eq!(&setup.name[..26], b"win11-clipboard-paste-1207");
    assert_eq!(&setup.name[26..], &[0u8; 54]);
}

#[test]
fn device_is_created_step_by_step() {
    let mut action = UinputDevice::create(None);
    let mut requests = Vec::new();
    loop {
        match action {
            SetupAction::Perform(step) => {
                requests.push(setup_request(&step));
                if let SetupStep::Settle { nanos } = step {
                    assert_eq!(nanos, 100_000_000);
                }
                action = UinputDevice::create(Some((step, Ok(()))));
            }
            SetupAction::Finish(outcome) => {
                assert_eq!(outcome, Ok(()));
                break;
            }
        }
    }
    assert_eq!(
        requests,
        vec![
            None,
            Some((0x40045564, Some(1))),
            Some((0x40045565, Some(29))),
            Some((0x40045565, Some(42))),
            Some((0x40045565, Some(47))),
            Some((0x405c5503, None)),
            Some((0x5501, None)),
            None,
            None,
        ]
    );
}

fn setup_failure(step: SetupStep) -> String {
    match UinputDevice::create(Some((step, Err("nope".to_string())))) {
        SetupAction::Finish(Err(message)) => message,
        other => panic!("{:?}", other),
    }
}

#[test]
fn every_setup_failure_names_its_step() {
    assert_eq!(setup_failure(SetupStep::Open), "Failed to open /dev/uinput: nope");
    assert_eq!(setup_failure(SetupStep::EnableKeys), "Failed to enable EV_KEY: nope");
    assert_eq!(setup_failure(SetupStep::EnableCtrl), "Failed to enable KEY_LEFTCTRL: nope");
    assert_eq!(setup_failure(SetupStep::EnableShift), "Failed to enable KEY_LEFTSHIFT: nope");
    assert_eq!(setup_failure(SetupStep::EnableV), "Failed to enable KEY_V: nope");
    assert_eq!(setup_failure(SetupStep::Configure), "Failed to configure uinput device: nope");
    assert_eq!(setup_failure(SetupStep::Create), "Failed to create uinput device: nope");
    assert_eq!(last_os_error("Doing", "no"), "Doing: no");
}

#[test]
fn a_device_without_a_node_is_destroyed() {
    let action = UinputDevice::create(Some((SetupStep::AwaitNode, Err("late".to_string()))));
    match action {
        SetupAction::Perform(step) => {
            assert_eq!(setup_request(&step), Some((0x5502, None)));
            match UinputDevice::create(Some((step, Ok(())))) {
                SetupAction::Finish(Err(message)) => assert_eq!(message, "late"),
                other => panic!("{:?}", other),
            }
        }
        other => panic!("{:?}", other),
    }
}

#[test]
fn event_node_is_waited_for_two_seconds() {
    assert!(matches!(
        wait_for_uinput_device("kb", Some("/dev/input/event3".to_string()), u128::MAX),
        NodeWait::Finish(Ok(path)) if path == "/dev/input/event3"
    ));
    assert!(matches!(
        wait_for_uinput_device("kb", None, 1_999_999_999),
        NodeWait::Sleep(5_000_000)
    ));
    assert!(matches!(
        wait_for_uinput_device("kb", None, 2_000_000_000),
        NodeWait::Finish(Err(m)) if m == "Timed out waiting for 'kb' to appear in /dev/input"
    ));
}

struct Entry {
    name: Option<&'static str>,
    children: Option<Vec<&'static str>>,
}

fn search(entries: &[Entry], existing: &[&str]) -> Option<String> {
    let mut search: NodeSearch = find_uinput_event_node("kb", Some(entries.len()));
    let mut action = search.action();
    loop {
        let reply = match action {
            NodeAction::ReadName { entry } => {
                NodeReply::Name(entries[entry].name.map(|name| name.to_string()))
            }
            NodeAction::ListChildren { entry } => NodeReply::Children(
                entries[entry]
                    .children
                    .as_ref()
                    .map(|list| list.iter().map(|child| child.to_string()).collect()),
            ),
            NodeAction::CheckPath { path } => {
                NodeReply::Exists(existing.contains(&path.as_str()))
            }
            NodeAction::Finish(found) => return found,
        };
        action = search.advance(reply);
    }
}

#[test]
fn event_node_is_the_first_that_exists() {
    let entries = [
        Entry { name: None, children: None },
        Entry { name: Some("other"), children: Some(vec!["event0"]) },
        Entry { name: Some(" kb\n"), children: None },
        Entry { name: Some("kb\n"), children: Some(vec!["power", "event1", "js0", "event2"]) },
        Entry { name: Some("kb"), children: Some(vec!["event3"]) },
    ];
    let all = ["/dev/input/event0", "/dev/input/event2", "/dev/input/event3"];
    assert_eq!(search(&entries, &all), Some("/dev/input/event2".to_string()));
    assert_eq!(search(&entries, &all[2..]), Some("/dev/input/event3".to_string()));
    assert_eq!(search(&entries, &[]), None);
    assert_eq!(search(&[], &all), None);
}

#[test]
fn an_unreadable_class_directory_has_no_node() {
    assert!(matches!(
        find_uinput_event_node("kb", None).action(),
        NodeAction::Finish(None)
    ));
}
