use clipboard_paste::paste_sync::{
    clipboard_owner, finish_clipboard_handoff, finish_x11_context, focused_window, init,
    keep_x11_context, poll_until, restore_and_settle_focus, settle_clipboard_handoff, sync_error,
    with_x11_context, ClipboardHandoff, ContextOutcome, ContextStep, FocusRestore, PollStep,
    RestoreAction, RestoreEvent, SyncRequest,
};
use clipboard_paste::x11::FocusRequest;

fn error() -> String {
    "no".to_string()
}

#[test]
fn requests_name_themselves_in_their_errors() {
    assert_eq!(sync_error(SyncRequest::Connect, "no"), "X11 connection failed: no");
    assert_eq!(sync_error(SyncRequest::InternClipboard, "no"), "Failed to intern CLIPBOARD: no");
    assert_eq!(
        sync_error(SyncRequest::ClipboardOwner, "no"),
        "Failed to query clipboard owner: no"
    );
    assert_eq!(sync_error(SyncRequest::FocusedWindow, "no"), "Failed to query X11 focus: no");
    assert_eq!(sync_error(SyncRequest::SetFocus, "no"), "Set focus failed: no");
    assert_eq!(sync_error(SyncRequest::FocusFlush, "no"), "X11 focus flush failed: no");
}

#[test]
fn connection_is_made_once_and_only_under_x11() {
    assert_eq!(with_x11_context::<u8>(false, &Some(1)), ContextStep::Refuse);
    assert_eq!(with_x11_context::<u8>(true, &None), ContextStep::Connect);
    assert_eq!(with_x11_context::<u8>(true, &Some(1)), ContextStep::Operate);
    let mut slot: Option<u8> = None;
    assert_eq!(keep_x11_context(&mut slot, Err(error())), Err(error()));
    assert_eq!(slot, None);
    assert_eq!(keep_x11_context(&mut slot, Ok(3)), Ok(()));
    assert_eq!(slot, Some(3));
}

#[test]
fn a_failed_operation_gives_the_connection_up() {
    let mut slot: Option<u8> = Some(3);
    assert_eq!(finish_x11_context(&mut slot, ContextOutcome::Ran(Ok(9))), Ok(9));
    assert_eq!(slot, Some(3));
    assert_eq!(
        finish_x11_context::<u8, u8>(&mut slot, ContextOutcome::Ran(Err(error()))),
        Err(error())
    );
    assert_eq!(slot, None);
    assert_eq!(with_x11_context(true, &slot), ContextStep::Connect);
    assert_eq!(
        finish_x11_context::<u8, u8>(&mut slot, ContextOutcome::Refused),
        Err("X11 synchronization requested outside an X11 session".to_string())
    );
    assert_eq!(
        finish_x11_context::<u8, u8>(&mut slot, ContextOutcome::NotConnected(error())),
        Err(error())
    );
}

#[test]
fn queries_hide_their_errors() {
    let mut slot: Option<u8> = Some(3);
    assert_eq!(clipboard_owner(&mut slot, ContextOutcome::Ran(Ok(0))), Some(0));
    assert_eq!(focused_window(&mut slot, ContextOutcome::Ran(Ok(8))), Some(8));
    assert_eq!(clipboard_owner(&mut slot, ContextOutcome::Refused), None);
    assert_eq!(slot, Some(3));
    assert_eq!(focused_window(&mut slot, ContextOutcome::Ran(Err(error()))), None);
    assert_eq!(slot, None);
}

#[test]
fn only_an_x11_session_is_warmed_up() {
    assert_eq!(init(true), Some("x11-paste-sync-warmup".to_string()));
    assert_eq!(init(false), None);
}

#[test]
fn polling_checks_once_more_before_it_gives_up() {
    assert!(matches!(poll_until(Ok(true), 10, 0), PollStep::Finish(Ok(true))));
    assert!(matches!(poll_until(Ok(false), 10, 10), PollStep::Finish(Ok(false))));
    assert!(matches!(poll_until(Ok(false), 9, 10), PollStep::Sleep(3_000_000)));
    assert!(matches!(poll_until(Err(error()), 0, 10), PollStep::Finish(Err(m)) if m == "no"));
}

/// Verifies a request for window 5 with these samples, one every millisecond,
/// and a timeout of ten.
fn settle(samples: &[u32]) -> Option<bool> {
    let mut request = restore_and_settle_focus(5, 10_000_000).unwrap();
    for (i, window) in samples.iter().enumerate() {
        let elapsed = 1_000_000 * (i as u128);
        match request.advance(RestoreEvent::Sampled { focus: Ok(*window), elapsed }) {
            RestoreAction::Poll(PollStep::Finish(Ok(settled))) => return Some(settled),
            RestoreAction::Poll(PollStep::Sleep(3_000_000)) => {}
            other => panic!("{:?}", other),
        }
    }
    None
}

#[test]
fn focus_settles_on_two_samples_in_a_row() {
    assert_eq!(settle(&[5, 5]), Some(true));
    assert_eq!(settle(&[5]), None);
    assert_eq!(settle(&[5, 6, 5]), None);
    assert_eq!(settle(&[5, 6, 5, 5]), Some(true));
    assert_eq!(settle(&[6; 10]), None);
    assert_eq!(settle(&[6; 11]), Some(false));
    // Two matching samples count even if the second comes late.
    assert_eq!(settle(&[6, 6, 6, 6, 6, 6, 6, 6, 6, 5, 5]), Some(true));
    assert_eq!(settle(&[6, 6, 6, 6, 6, 6, 6, 6, 6, 6, 5, 5]), Some(false));
}

#[test]
fn focus_is_requested_flushed_and_sampled() {
    let mut request = restore_and_settle_focus(5, 7).unwrap();
    assert_eq!(request, FocusRestore { target_window: 5, timeout: 7, stable_samples: 0 });
    assert!(matches!(
        request.advance(RestoreEvent::Begin),
        RestoreAction::SetFocus(FocusRequest { revert_to: 2, window: 5, time: 0 })
    ));
    assert!(matches!(request.advance(RestoreEvent::Requested(Ok(()))), RestoreAction::Flush));
    assert!(matches!(request.advance(RestoreEvent::Flushed(Ok(()))), RestoreAction::Sample));
}

fn restore_error(event: RestoreEvent) -> String {
    match restore_and_settle_focus(5, 7).unwrap().advance(event) {
        RestoreAction::Poll(PollStep::Finish(Err(message))) => message,
        other => panic!("{:?}", other),
    }
}

#[test]
fn focus_errors() {
    assert_eq!(
        restore_and_settle_focus(0, 7),
        Err("Cannot restore focus to X11 window 0".to_string())
    );
    assert_eq!(restore_error(RestoreEvent::Requested(Err(error()))), "Set focus failed: no");
    assert_eq!(restore_error(RestoreEvent::Flushed(Err(error()))), "X11 focus flush failed: no");
    assert_eq!(
        restore_error(RestoreEvent::Sampled { focus: Err(error()), elapsed: 0 }),
        "Failed to query X11 focus: no"
    );
}

#[test]
fn clipboard_goes_over_to_another_owner() {
    assert_eq!(settle_clipboard_handoff(None, 9), None);
    let handoff = settle_clipboard_handoff(Some(4), 9).unwrap();
    assert_eq!(handoff, ClipboardHandoff { owner_before: 4, timeout: 9 });
    assert!(matches!(handoff.sample(Ok(6), 50), PollStep::Finish(Ok(true))));
    assert!(matches!(handoff.sample(Ok(4), 8), PollStep::Sleep(3_000_000)));
    assert!(matches!(handoff.sample(Ok(0), 9), PollStep::Finish(Ok(false))));
    assert!(matches!(
        handoff.sample(Err(error()), 0),
        PollStep::Finish(Err(m)) if m == "Failed to query clipboard owner: no"
    ));
}

/// Waits for the clipboard of window 4 to change hands, with one sample every
/// millisecond and a timeout of three. Gives the result and the samples taken.
fn hand_over(samples: &[Result<u32, String>]) -> Option<(bool, usize)> {
    let handoff = settle_clipboard_handoff(Some(4), 3_000_000).unwrap();
    for (i, owner) in samples.iter().enumerate() {
        match handoff.sample(owner.clone(), 1_000_000 * (i as u128)) {
            PollStep::Finish(result) => {
                let mut slot: Option<u8> = Some(1);
                let settled = finish_clipboard_handoff(&mut slot, ContextOutcome::Ran(result));
                return Some((settled, i + 1));
            }
            PollStep::Sleep(_) => {}
        }
    }
    None
}

#[test]
fn a_handoff_is_reported_where_the_last_sample_shows_it() {
    assert_eq!(hand_over(&[Ok(4), Ok(0), Ok(9)]), Some((true, 3)));
    assert_eq!(hand_over(&[Ok(4), Ok(4), Ok(4)]), None);
    assert_eq!(hand_over(&[Ok(4), Ok(4), Ok(4), Ok(0)]), Some((false, 4)));
    assert_eq!(hand_over(&[Ok(4), Ok(4), Ok(4), Ok(9)]), Some((true, 4)));
    assert_eq!(hand_over(&[Ok(4), Err(error()), Ok(9)]), Some((false, 2)));
}

#[test]
fn a_handoff_error_counts_as_no_handoff() {
    let mut slot: Option<u8> = Some(1);
    assert!(finish_clipboard_handoff(&mut slot, ContextOutcome::Ran(Ok(true))));
    assert!(!finish_clipboard_handoff(&mut slot, ContextOutcome::Ran(Ok(false))));
    assert!(!finish_clipboard_handoff(&mut slot, ContextOutcome::Refused));
    assert_eq!(slot, Some(1));
    assert!(!finish_clipboard_handoff(&mut slot, ContextOutcome::Ran(Err(error()))));
    assert_eq!(slot, None);
}
