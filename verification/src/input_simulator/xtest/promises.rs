//! What the XTest client promises: the requests of a chord, the report of a failed
//! one, and what the client knows of its server.

use vstd::prelude::*;

use crate::input_simulator::chord_laws::law_failed_chord_releases_in_reverse_order;
use crate::input_simulator::keymap::PasteKeycodes;
use crate::input_simulator::xtest::{
    fake_key, ChordAction, ChordActionView, ChordStage, ChordStep, ChordView, KeyFault,
    KeyFaultView, PasteKey, RefreshAction, RefreshActionView, RefreshEvent, XtestDevice,
    XtestSetupAction, XtestSetupEvent,
};
use crate::input_simulator::{FailureView, PasteChord, PasteFailure};

verus! {

use crate::input_simulator::chord_laws::{
    chord_at, cleaning_up, issued, keys_at_risk, lemma_cleanup_state, lemma_good_prefix,
    lemma_run_inv, still_held,
};
use crate::input_simulator::xtest::{
    absorb, begin_step, chord_advance, chord_verdict, pending_action, refresh_next, settle, without,
};
use crate::text::joined;

// ---------------------------------------------------------------------------
// Keys
// ---------------------------------------------------------------------------
/// The report of a key request is that of its fault: a refused request names what
/// was being done, a failed flush names itself, and a failed wait speaks for itself.
pub proof fn law_key_report_names_the_fault(
    outcome: Result<(), KeyFault>,
    context: &str,
    r: Result<(), String>,
)
    requires
        call_ensures(fake_key, (outcome, context), r),
    ensures
        r is Ok <==> outcome is Ok,
        outcome matches Err(KeyFault::Request(e)) ==> r->Err_0@ == context@ + ": "@ + e@,
        outcome matches Err(KeyFault::Flush(e)) ==> r->Err_0@ == "X11 flush failed: "@ + e@,
        outcome matches Err(KeyFault::State(e)) ==> r->Err_0@ == e@,
{
}

/// Forgetting a key takes out every place of that key, and keeps every other key in
/// its order.
pub proof fn law_forgetting_a_key_keeps_the_others(held: Seq<u8>, last: u8, keycode: u8)
    ensures
        without(Seq::empty(), keycode) == Seq::<u8>::empty(),
        last == keycode ==> without(held.push(last), keycode) == without(held, keycode),
        last != keycode ==> without(held.push(last), keycode) == without(held, keycode).push(last),
{
    reveal(Seq::filter);
    assert(held.push(last).drop_last() =~= held);
    assert(without(Seq::empty(), keycode) =~= Seq::<u8>::empty());
}

/// A chord presses Ctrl, then Shift where it has it, then V, each seen down before
/// the next; it releases V first and Ctrl last, and then sees each up again, in the
/// order of their release.
pub proof fn law_script_of_a_chord(device: XtestDevice, chord: PasteChord, steps: Vec<ChordStep>)
    requires
        call_ensures(XtestDevice::chord_script, (&device, chord), steps),
    ensures
        ({
            let ctrl = device.ctrl_keycode;
            let shift = device.shift_keycode;
            let v = device.v_keycode;
            let s = steps@;
            &&& s == device.script(chord)
            &&& chord == PasteChord::CtrlV ==> {
                &&& s.len() == 8
                &&& s[0] == (ChordStep::Press { key: PasteKey::Ctrl, keycode: ctrl })
                &&& s[1] == (ChordStep::Await { keycode: ctrl, pressed: true })
                &&& s[2] == (ChordStep::Press { key: PasteKey::V, keycode: v })
                &&& s[3] == (ChordStep::Await { keycode: v, pressed: true })
                &&& s[4] == (ChordStep::Release { key: PasteKey::V, keycode: v })
                &&& s[5] == (ChordStep::Release { key: PasteKey::Ctrl, keycode: ctrl })
                &&& s[6] == (ChordStep::Await { keycode: v, pressed: false })
                &&& s[7] == (ChordStep::Await { keycode: ctrl, pressed: false })
            }
            &&& chord == PasteChord::CtrlShiftV ==> {
                &&& s.len() == 12
                &&& s[0] == (ChordStep::Press { key: PasteKey::Ctrl, keycode: ctrl })
                &&& s[1] == (ChordStep::Await { keycode: ctrl, pressed: true })
                &&& s[2] == (ChordStep::Press { key: PasteKey::Shift, keycode: shift })
                &&& s[3] == (ChordStep::Await { keycode: shift, pressed: true })
                &&& s[4] == (ChordStep::Press { key: PasteKey::V, keycode: v })
                &&& s[5] == (ChordStep::Await { keycode: v, pressed: true })
                &&& s[6] == (ChordStep::Release { key: PasteKey::V, keycode: v })
                &&& s[7] == (ChordStep::Release { key: PasteKey::Shift, keycode: shift })
                &&& s[8] == (ChordStep::Release { key: PasteKey::Ctrl, keycode: ctrl })
                &&& s[9] == (ChordStep::Await { keycode: v, pressed: false })
                &&& s[10] == (ChordStep::Await { keycode: shift, pressed: false })
                &&& s[11] == (ChordStep::Await { keycode: ctrl, pressed: false })
            }
        }),
{
}

/// What is said of an action of a run is said of all that it holds.
pub proof fn law_chord_actions_are_seen_whole(action: ChordAction, fault: KeyFault)
    ensures
        match action {
            ChordAction::Press { keycode } => action@ == (ChordActionView::Press { keycode }),
            ChordAction::Release { keycode } => action@ == (ChordActionView::Release { keycode }),
            ChordAction::Await { keycode, pressed } => action@ == (ChordActionView::Await {
                keycode,
                pressed,
            }),
            ChordAction::Finish(Ok(_)) => action@ == ChordActionView::Finish(Ok(())),
            ChordAction::Finish(Err(PasteFailure::Retryable(e))) => action@
                == ChordActionView::Finish(Err(FailureView::Retryable(e@))),
            ChordAction::Finish(Err(PasteFailure::Ambiguous(e))) => action@
                == ChordActionView::Finish(Err(FailureView::Ambiguous(e@))),
        },
        match fault {
            KeyFault::Request(e) => fault@ == KeyFaultView::Request(e@),
            KeyFault::Flush(e) => fault@ == KeyFaultView::Flush(e@),
            KeyFault::State(e) => fault@ == KeyFaultView::State(e@),
        },
{
}

// ---------------------------------------------------------------------------
// The report of a failed chord
// ---------------------------------------------------------------------------
/// What is being done in a step, as a report says it.
pub open spec fn doing(step: ChordStep) -> Seq<char> {
    match step {
        ChordStep::Press { key, .. } => if key == PasteKey::Ctrl {
            "Failed to press Ctrl"@
        } else if key == PasteKey::Shift {
            "Failed to press Shift"@
        } else {
            "Failed to press V"@
        },
        ChordStep::Release { key, .. } => if key == PasteKey::Ctrl {
            "Failed to release Ctrl"@
        } else if key == PasteKey::Shift {
            "Failed to release Shift"@
        } else {
            "Failed to release V"@
        },
        ChordStep::Await { .. } => "Failed to query X11 key state"@,
    }
}

/// The words for a fault that happened while doing something.
pub open spec fn words_for(doing: Seq<char>, fault: KeyFaultView) -> Seq<char> {
    if fault is Request {
        doing + ": "@ + fault->Request_0
    } else if fault is Flush {
        "X11 flush failed: "@ + fault->Flush_0
    } else {
        fault->State_0
    }
}

/// The words for the releases that failed among the first `count` answers.
pub open spec fn release_errors(
    answers: Seq<Result<(), KeyFaultView>>,
    count: int,
) -> Seq<Seq<char>>
    decreases count,
{
    if count <= 0 {
        Seq::empty()
    } else if answers[count - 1] is Err {
        release_errors(answers, count - 1).push(
            words_for("Cleanup failed to release XTest key"@, answers[count - 1]->Err_0),
        )
    } else {
        release_errors(answers, count - 1)
    }
}

/// A run whose step `k` failed with these words, `m` answers later.
spec fn reports(
    s: ChordView,
    script: Seq<ChordStep>,
    k: int,
    words: Seq<char>,
    held: int,
    answers: Seq<Result<(), KeyFaultView>>,
    m: int,
) -> bool {
    &&& s.script == script
    &&& s.position == k
    &&& s.failure == Some(words)
    &&& s.errors == release_errors(
        answers,
        if m < held {
            m
        } else {
            held
        },
    )
}

proof fn lemma_report_goes_on(
    s: ChordView,
    outcome: Result<(), KeyFaultView>,
    k: int,
    words: Seq<char>,
    held: Seq<u8>,
    answers: Seq<Result<(), KeyFaultView>>,
    m: int,
)
    requires
        0 <= m < answers.len(),
        answers[m] == outcome,
        cleaning_up(s, held, answers, m),
        reports(s, s.script, k, words, held.len() as int, answers, m),
    ensures
        reports(
            chord_advance(s, outcome),
            s.script,
            k,
            words,
            held.len() as int,
            answers,
            m + 1,
        ),
{
    let a = absorb(s, outcome);
    let t = settle(a);
    assert(begin_step(t).errors == a.errors);
    if m < held.len() {
        assert(s.stage == ChordStage::Cleaning);
        assert(a.errors =~= release_errors(answers, m + 1));
    } else {
        assert(s.stage == ChordStage::Dropping || s.stage == ChordStage::Finished);
        assert(a.errors == s.errors);
    }
}

proof fn lemma_report_begins(
    s: ChordView,
    outcome: Result<(), KeyFaultView>,
    held: int,
    answers: Seq<Result<(), KeyFaultView>>,
)
    requires
        s.stage == ChordStage::Operating,
        s.errors.len() == 0,
        outcome is Err,
        held >= 0,
    ensures
        reports(
            chord_advance(s, outcome),
            s.script,
            s.position,
            words_for(doing(s.script[s.position]), outcome->Err_0),
            held,
            answers,
            0,
        ),
{
    assert(s.errors =~= Seq::empty());
    assert(doing(s.script[s.position]) == s.script[s.position].context_text());
}

proof fn lemma_report(
    device: XtestDevice,
    chord: PasteChord,
    outcomes: Seq<Result<(), KeyFaultView>>,
    k: int,
    m: int,
)
    requires
        0 <= k < device.script(chord).len(),
        0 <= m,
        k + 1 + m <= outcomes.len(),
        forall|j: int| 0 <= j < k ==> (#[trigger] outcomes[j]) is Ok,
        outcomes[k] is Err,
    ensures
        reports(
            chord_at(device, chord, outcomes, k + 1 + m),
            device.script(chord),
            k,
            words_for(doing(device.script(chord)[k]), outcomes[k]->Err_0),
            keys_at_risk(device.script(chord), k).len() as int,
            outcomes.skip(k + 1),
            m,
        ),
    decreases m,
{
    let script = device.script(chord);
    let held = keys_at_risk(script, k);
    let answers = outcomes.skip(k + 1);
    let words = words_for(doing(script[k]), outcomes[k]->Err_0);
    let before = chord_at(device, chord, outcomes, k + m);
    lemma_run_inv(device, chord, outcomes, k + 1 + m);
    lemma_run_inv(device, chord, outcomes, k + m);
    if m == 0 {
        lemma_good_prefix(device, chord, outcomes, k);
        lemma_report_begins(before, outcomes[k], held.len() as int, answers);
    } else {
        lemma_report(device, chord, outcomes, k, m - 1);
        lemma_cleanup_state(device, chord, outcomes, k, m - 1);
        lemma_report_goes_on(before, outcomes[k + m], k, words, held, answers, m - 1);
    }
}

/// The place of the step that presses V.
pub open spec fn place_of_v(chord: PasteChord) -> int {
    if chord == PasteChord::CtrlV {
        2
    } else {
        4
    }
}

/// A chord whose step `k` is the first to fail is reported, once every key that may
/// be down has been asked to be released and those left have been asked once more:
/// as retryable, in the words of that step, exactly where V was not yet to be
/// pressed and every release worked; otherwise as ambiguous, in the words of the
/// step, followed by those of the releases that failed.
pub proof fn law_failed_chord_is_reported_for_what_it_did(
    device: XtestDevice,
    chord: PasteChord,
    outcomes: Seq<Result<(), KeyFaultView>>,
    k: int,
    m: int,
)
    requires
        0 <= k < device.script(chord).len(),
        k + 1 + m <= outcomes.len(),
        forall|j: int| 0 <= j < k ==> (#[trigger] outcomes[j]) is Ok,
        outcomes[k] is Err,
        ({
            let held = keys_at_risk(device.script(chord), k);
            let left = still_held(held, outcomes.skip(k + 1), held.len() as int);
            m >= held.len() + left.len()
        }),
    ensures
        ({
            let held = keys_at_risk(device.script(chord), k);
            let words = words_for(doing(device.script(chord)[k]), outcomes[k]->Err_0);
            let errors = release_errors(outcomes.skip(k + 1), held.len() as int);
            pending_action(chord_at(device, chord, outcomes, k + 1 + m)) == ChordActionView::Finish(
                Err(
                    if errors.len() > 0 {
                        FailureView::Ambiguous(words + "; "@ + joined(errors, "; "@))
                    } else if k >= place_of_v(chord) {
                        FailureView::Ambiguous(words)
                    } else {
                        FailureView::Retryable(words)
                    },
                ),
            )
        }),
{
    let script = device.script(chord);
    let s = chord_at(device, chord, outcomes, k + 1 + m);
    let v = place_of_v(chord);
    law_failed_chord_releases_in_reverse_order(device, chord, outcomes, k, m);
    lemma_cleanup_state(device, chord, outcomes, k, m);
    lemma_report(device, chord, outcomes, k, m);
    lemma_run_inv(device, chord, outcomes, k + 1 + m);
    assert(s.stage == ChordStage::Finished);
    assert(pending_action(s) == ChordActionView::Finish(chord_verdict(s)));
    assert(issued(s) == k + 1);
    assert(script[v].dispatches_paste());
    assert(forall|i: int|
        0 <= i < script.len() && i != v ==> !(#[trigger] script[i]).dispatches_paste());
    assert(s.sent <==> k >= v) by {
        if k >= v {
            assert(s.script[v].dispatches_paste());
        }
    }
}

// ---------------------------------------------------------------------------
// The client
// ---------------------------------------------------------------------------
/// The client is set up on the root window of the default screen, with version 2.1 of
/// the extension and with the keys that were found; each failure ends it in its own
/// words.
pub proof fn law_client_knows_its_screen_and_keys(event: XtestSetupEvent, action: XtestSetupAction)
    requires
        call_ensures(XtestDevice::create, (event,), action),
    ensures
        match event {
            XtestSetupEvent::Connected(Ok(screens)) => if screens.default_screen
                < screens.roots@.len() {
                action == (XtestSetupAction::QueryVersion {
                    root_window: screens.roots@[screens.default_screen as int],
                    major: 2,
                    minor: 1,
                })
            } else {
                action matches XtestSetupAction::Finish(Err(m)) && m@ == "X11 screen not found"@
            },
            XtestSetupEvent::Connected(Err(e)) => action matches XtestSetupAction::Finish(Err(m))
                && m@ == "X11 connect failed: "@ + e@,
            XtestSetupEvent::Version { root_window, outcome: Ok(_) } => action == (
            XtestSetupAction::ResolveKeycodes { root_window }),
            XtestSetupEvent::Version { outcome: Err(e), .. } => action matches
                XtestSetupAction::Finish(Err(m)) && m@ == "XTest version query failed: "@ + e@,
            XtestSetupEvent::Keycodes { root_window, resolved: Ok(keys) } => action matches
                XtestSetupAction::Finish(Ok(client)) && client.root_window == root_window
                && client.ctrl_keycode == keys.ctrl && client.shift_keycode == keys.shift
                && client.v_keycode == keys.v,
            XtestSetupEvent::Keycodes { resolved: Err(e), .. } => action matches
                XtestSetupAction::Finish(Err(m)) && m@ == e@,
        },
{
}

/// Reading the event queue goes on to its end and remembers every change of the
/// keyboard map; the keys are looked up again exactly where there was one.
pub proof fn law_queue_is_read_to_its_end(event: RefreshEvent)
    ensures
        match event {
            RefreshEvent::Polled { mapping_changed, outcome: Ok(Some(change)) } => refresh_next(
                event,
            ) == (RefreshActionView::Poll { mapping_changed: mapping_changed || change }),
            RefreshEvent::Polled { mapping_changed: true, outcome: Ok(None) } => refresh_next(
                event,
            ) is Resolve,
            RefreshEvent::Polled { mapping_changed: false, outcome: Ok(None) } => refresh_next(
                event,
            ) == RefreshActionView::Finish(Ok(())),
            RefreshEvent::Polled { outcome: Err(e), .. } => refresh_next(event)
                == RefreshActionView::Finish(Err("Failed to poll X11 events: "@ + e@)),
            RefreshEvent::Resolved(Ok(_)) => refresh_next(event) == RefreshActionView::Finish(
                Ok(()),
            ),
            RefreshEvent::Resolved(Err(e)) => refresh_next(event) == RefreshActionView::Finish(
                Err(e@),
            ),
        },
{
}

/// What is said of an action of a refresh is said of all that it holds.
pub proof fn law_refresh_actions_are_seen_whole(action: RefreshAction)
    ensures
        match action {
            RefreshAction::Poll { mapping_changed } => action@ == (RefreshActionView::Poll {
                mapping_changed,
            }),
            RefreshAction::Resolve => action@ is Resolve,
            RefreshAction::Finish(Ok(_)) => action@ == RefreshActionView::Finish(Ok(())),
            RefreshAction::Finish(Err(e)) => action@ == RefreshActionView::Finish(Err(e@)),
        },
{
}

/// A client with other keys has exactly those keys, and keeps its root window.
pub proof fn law_new_keys_replace_the_old(device: XtestDevice, keys: PasteKeycodes)
    ensures
        device.with_keycodes(keys).root_window == device.root_window,
        device.with_keycodes(keys).ctrl_keycode == keys.ctrl,
        device.with_keycodes(keys).shift_keycode == keys.shift,
        device.with_keycodes(keys).v_keycode == keys.v,
{
}

} // verus!
