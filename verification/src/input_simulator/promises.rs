//! What a paste promises: which chord goes out, through which backends, and what a
//! failure allows.

use vstd::prelude::*;

use crate::focus_manager::FocusMemory;
use crate::input_simulator::xdotool::{
    simulate_paste_xdotool, xdotool_arguments, xdotool_failure, XdotoolExit,
};
use crate::input_simulator::{
    choose_chord, init, simulate_paste_keystroke, Backend, PasteAction, PasteChord, PasteEvent,
    PasteFailure, Warmup,
};

verus! {

use crate::focus_manager::promises::{lemma_target, names_target};
use crate::input_simulator::{backends, is_retryable};
use crate::text::promises::{is_core_of, law_trimming_leaves_the_core};
use crate::text::{lossy_text, texts, trimmed};

// ---------------------------------------------------------------------------
// The chord
// ---------------------------------------------------------------------------
/// The chord is Ctrl+Shift+V exactly where one of the patterns names the remembered
/// target, and Ctrl+V otherwise.
pub proof fn law_chord_is_what_the_target_wants(
    memory: FocusMemory,
    patterns: &[String],
    chord: PasteChord,
)
    requires
        call_ensures(choose_chord, (&memory, patterns), chord),
    ensures
        chord == PasteChord::CtrlShiftV <==> names_target(patterns@, memory),
        chord == PasteChord::CtrlV <==> !names_target(patterns@, memory),
{
    lemma_target(memory, patterns@);
}

/// In every session, X11 or not, a paste begins with the chord that the target
/// wants; only the backend depends on the session.
pub proof fn law_paste_begins_with_the_wanted_chord(
    x11_session: bool,
    memory: FocusMemory,
    patterns: &[String],
    action: PasteAction,
)
    requires
        call_ensures(
            simulate_paste_keystroke,
            (x11_session, &memory, patterns, PasteEvent::Begin),
            action,
        ),
    ensures
        action matches PasteAction::Try { backend, chord } && {
            &&& chord == PasteChord::CtrlShiftV <==> names_target(patterns@, memory)
            &&& chord == PasteChord::CtrlV <==> !names_target(patterns@, memory)
            &&& x11_session ==> backend == Backend::Xtest
            &&& !x11_session ==> backend == Backend::Uinput
        },
{
    lemma_target(memory, patterns@);
}

/// A backend that sent the chord ends the paste well. One that left room for another
/// is followed, with the same chord, by the next: under X11 uinput comes after XTest
/// and xdotool after uinput; where there is no next one the paste fails. One that may
/// have emitted input ends the paste, with its name and its error in the report.
pub proof fn law_paste_goes_on_only_where_nothing_was_sent(
    x11_session: bool,
    memory: FocusMemory,
    patterns: &[String],
    backend: Backend,
    chord: PasteChord,
    outcome: Result<(), PasteFailure>,
    action: PasteAction,
)
    requires
        call_ensures(
            simulate_paste_keystroke,
            (x11_session, &memory, patterns, PasteEvent::Tried { backend, chord, outcome }),
            action,
        ),
    ensures
        action == PasteAction::Finish(Ok(())) <==> outcome is Ok,
        action is Try <==> is_retryable(outcome) && x11_session && backend != Backend::Xdotool,
        action matches PasteAction::Try { backend: next, chord: same } ==> {
            &&& same == chord
            &&& backend == Backend::Xtest ==> next == Backend::Uinput
            &&& backend == Backend::Uinput ==> next == Backend::Xdotool
        },
        is_retryable(outcome) && action !is Try ==> (action matches PasteAction::Finish(Err(m)) && m@
            == "All paste methods failed"@),
        outcome matches Err(PasteFailure::Ambiguous(e)) ==> (action matches PasteAction::Finish(
            Err(m),
        ) && {
            let rest = " failed after input may have been emitted; refusing fallback: "@ + e@;
            &&& backend == Backend::Xtest ==> m@ == "XTest"@ + rest
            &&& backend == Backend::Uinput ==> m@ == "uinput"@ + rest
            &&& backend == Backend::Xdotool ==> m@ == "xdotool"@ + rest
        }),
{
    if let Err(PasteFailure::Ambiguous(e)) = outcome {
        let middle = " failed after input may have been emitted; refusing fallback: "@;
        assert(backend.name_text() + middle + e@ =~= backend.name_text() + (middle + e@));
    }
}

/// A paste on its way: it began, and each backend that was tried reported its
/// outcome.
pub open spec fn is_course(
    x11_session: bool,
    memory: FocusMemory,
    patterns: &[String],
    actions: Seq<PasteAction>,
    outcomes: Seq<Result<(), PasteFailure>>,
) -> bool {
    &&& actions.len() > 0
    &&& outcomes.len() == actions.len() - 1
    &&& call_ensures(
        simulate_paste_keystroke,
        (x11_session, &memory, patterns, PasteEvent::Begin),
        actions[0],
    )
    &&& forall|i: int| 0 <= i < outcomes.len() ==> (#[trigger] actions[i]) is Try
    &&& forall|i: int|
        0 <= i < outcomes.len() ==> call_ensures(
            simulate_paste_keystroke,
            (
                x11_session,
                &memory,
                patterns,
                PasteEvent::Tried {
                    backend: actions[i]->backend,
                    chord: actions[i]->chord,
                    outcome: #[trigger] outcomes[i],
                },
            ),
            actions[i + 1],
        )
}

/// Over the whole course of a paste, in every session, every backend that is tried
/// is given the one chord that the target wants; no backend is tried twice; and all
/// that ran before the last reported that nothing was sent.
pub proof fn law_whole_paste_sends_the_wanted_chord(
    x11_session: bool,
    memory: FocusMemory,
    patterns: &[String],
    actions: Seq<PasteAction>,
    outcomes: Seq<Result<(), PasteFailure>>,
    i: int,
)
    requires
        is_course(x11_session, memory, patterns, actions, outcomes),
        0 <= i < actions.len(),
        actions[i] is Try,
    ensures
        actions[i]->chord == PasteChord::CtrlShiftV <==> names_target(patterns@, memory),
        x11_session ==> i < 3 && actions[i]->backend == seq![
            Backend::Xtest,
            Backend::Uinput,
            Backend::Xdotool,
        ][i],
        !x11_session ==> i == 0 && actions[i]->backend == Backend::Uinput,
        forall|j: int| 0 <= j < i ==> is_retryable(#[trigger] outcomes[j]),
    decreases i,
{
    if i == 0 {
        law_paste_begins_with_the_wanted_chord(x11_session, memory, patterns, actions[0]);
    } else {
        law_whole_paste_sends_the_wanted_chord(
            x11_session,
            memory,
            patterns,
            actions,
            outcomes,
            i - 1,
        );
        assert(actions[i - 1] is Try);
        let tried = outcomes[i - 1];
        law_paste_goes_on_only_where_nothing_was_sent(
            x11_session,
            memory,
            patterns,
            actions[i - 1]->backend,
            actions[i - 1]->chord,
            tried,
            actions[i],
        );
    }
}

/// The backend that is warmed up is the one that a paste begins with.
pub proof fn law_warm_up_serves_the_first_paste(
    x11_session: bool,
    memory: FocusMemory,
    patterns: &[String],
    warmup: Warmup,
    action: PasteAction,
)
    requires
        call_ensures(init, (x11_session,), warmup),
        call_ensures(
            simulate_paste_keystroke,
            (x11_session, &memory, patterns, PasteEvent::Begin),
            action,
        ),
    ensures
        action matches PasteAction::Try { backend, .. } && backend == warmup.backend,
        x11_session ==> warmup.thread_name@ == "xtest-paste-warmup"@,
        !x11_session ==> warmup.thread_name@ == "uinput-paste-warmup"@,
        backends(x11_session)[0] == warmup.backend,
{
}

// ---------------------------------------------------------------------------
// xdotool
// ---------------------------------------------------------------------------
/// xdotool is told to clear the modifiers, to wait fifty milliseconds between keys,
/// and to send the chord.
pub proof fn law_xdotool_is_told_the_chord(chord: PasteChord, arguments: Vec<String>)
    requires
        call_ensures(xdotool_arguments, (chord,), arguments),
    ensures
        arguments@.len() == 5,
        arguments@[0]@ == "key"@,
        arguments@[1]@ == "--delay"@,
        arguments@[2]@ == "50"@,
        arguments@[3]@ == "--clearmodifiers"@,
        chord == PasteChord::CtrlV ==> arguments@[4]@ == "ctrl+v"@,
        chord == PasteChord::CtrlShiftV ==> arguments@[4]@ == "ctrl+shift+v"@,
{
    let all = texts(arguments@);
    assert(all.len() == 5);
    assert(all[0] == arguments@[0]@);
    assert(all[1] == arguments@[1]@);
    assert(all[2] == arguments@[2]@);
    assert(all[3] == arguments@[3]@);
    assert(all[4] == arguments@[4]@);
}

/// Only an xdotool that never started leaves room for another backend. One that
/// ended well sent the chord; one that did not may have, and is reported with what it
/// wrote, without its margins.
pub proof fn law_started_xdotool_is_never_retried(
    exit: XdotoolExit,
    r: Result<(), PasteFailure>,
)
    requires
        call_ensures(simulate_paste_xdotool, (exit,), r),
    ensures
        is_retryable(r) <==> exit is NotStarted,
        r is Ok <==> (exit matches XdotoolExit::Ended { success, .. } && success),
        exit matches XdotoolExit::NotStarted(e) ==> (r matches Err(PasteFailure::Retryable(m)) && m@
            == "Failed to start xdotool: "@ + e@),
        exit matches XdotoolExit::Ended { success: false, stderr } ==> (r matches Err(
            PasteFailure::Ambiguous(m),
        ) && exists|core: Seq<char>| #[trigger]
            is_core_of(core, lossy_text(stderr@)) && m@ == "xdotool failed: "@ + core),
{
    if let XdotoolExit::Ended { success: false, stderr } = exit {
        let text = lossy_text(stderr@);
        law_trimming_leaves_the_core(text, trimmed(text));
    }
}

/// A failed run is reported with the text that it wrote, without its margins.
pub proof fn law_xdotool_report_holds_the_error(stderr: &str, r: PasteFailure)
    requires
        call_ensures(xdotool_failure, (stderr,), r),
    ensures
        r matches PasteFailure::Ambiguous(m) && exists|core: Seq<char>| #[trigger]
            is_core_of(core, stderr@) && m@ == "xdotool failed: "@ + core,
{
    law_trimming_leaves_the_core(stderr@, trimmed(stderr@));
}

} // verus!
