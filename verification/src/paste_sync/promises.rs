//! What the barriers promise of their results, for all arguments.

use vstd::prelude::*;

use crate::paste_sync::{
    poll_until, restore_and_settle_focus, settle_clipboard_handoff, sync_error, with_x11_context,
    ClipboardHandoff, ContextOutcome, ContextStep, FocusRestore, FocusSample, PollStep,
    PollStepView, RestoreAction, RestoreActionView, RestoreEvent, SyncRequest,
};

verus! {

use crate::paste_sync::{
    context_after, context_result, context_value, law_focus_settles_on_two_samples_in_a_row,
    restore_next, sample_verdict, stable_after, stable_count,
};

// ---------------------------------------------------------------------------
// The cached connection
// ---------------------------------------------------------------------------
/// Every failed request is reported in its own words, with the whole error behind
/// them.
pub proof fn law_errors_say_what_was_asked_for(request: SyncRequest, error: &str, text: String)
    requires
        call_ensures(sync_error, (request, error), text),
    ensures
        request == SyncRequest::Connect ==> text@ == "X11 connection failed: "@ + error@,
        request == SyncRequest::InternClipboard ==> text@ == "Failed to intern CLIPBOARD: "@
            + error@,
        request == SyncRequest::ClipboardOwner ==> text@ == "Failed to query clipboard owner: "@
            + error@,
        request == SyncRequest::FocusedWindow ==> text@ == "Failed to query X11 focus: "@ + error@,
        request == SyncRequest::SetFocus ==> text@ == "Set focus failed: "@ + error@,
        request == SyncRequest::FocusFlush ==> text@ == "X11 focus flush failed: "@ + error@,
{
}

/// Outside an X11 session nothing is tried; inside one, a connection is made
/// exactly where none is cached.
pub proof fn law_connection_is_made_where_it_is_missing<C>(
    x11_session: bool,
    slot: Option<C>,
    step: ContextStep,
)
    requires
        call_ensures(with_x11_context::<C>, (x11_session, &slot), step),
    ensures
        step == ContextStep::Refuse <==> !x11_session,
        step == ContextStep::Connect <==> x11_session && slot is None,
        step == ContextStep::Operate <==> x11_session && slot is Some,
{
}

/// A connection is lost exactly by an operation that ran on it and failed; nothing
/// else touches it.
pub proof fn law_only_a_failed_operation_loses_the_connection<C, T>(
    slot: Option<C>,
    outcome: ContextOutcome<T>,
)
    ensures
        outcome matches ContextOutcome::Ran(Err(_)) ==> context_after(slot, outcome) is None,
        outcome matches ContextOutcome::Ran(Ok(_)) ==> context_after(slot, outcome) == slot,
        outcome matches ContextOutcome::NotConnected(_) ==> context_after(slot, outcome) == slot,
        outcome is Refused ==> context_after(slot, outcome) == slot,
{
}

/// An operation hands out the value that it ran to, and nothing else; every other
/// outcome is an error that says why.
pub proof fn law_operation_hands_out_what_it_ran_to<T>(outcome: ContextOutcome<T>, value: T)
    ensures
        context_value(outcome) == Some(value) <==> outcome == ContextOutcome::Ran(Ok(value)),
        context_result(outcome) == Ok::<T, Seq<char>>(value) <==> outcome == ContextOutcome::Ran(
            Ok(value),
        ),
        context_value(outcome) is Some <==> context_result(outcome) is Ok,
        outcome matches ContextOutcome::Ran(Err(e)) ==> context_result(outcome) == Err::<
            T,
            Seq<char>,
        >(e@),
        outcome matches ContextOutcome::NotConnected(e) ==> context_result(outcome) == Err::<
            T,
            Seq<char>,
        >(e@),
        outcome is Refused ==> context_result(outcome) == Err::<T, Seq<char>>(
            "X11 synchronization requested outside an X11 session"@,
        ),
{
}

// ---------------------------------------------------------------------------
// Polling
// ---------------------------------------------------------------------------
/// Polling goes on, after three milliseconds, exactly where the condition is not
/// met and time is left; otherwise it ends with what the check said.
pub proof fn law_polling_goes_on_while_unmet_and_in_time(
    check: Result<bool, String>,
    elapsed: u128,
    timeout: u128,
    step: PollStep,
)
    requires
        call_ensures(poll_until, (check, elapsed, timeout), step),
    ensures
        step is Sleep <==> (check matches Ok(met) && !met && elapsed < timeout),
        step matches PollStep::Sleep(nanos) ==> nanos == 3_000_000,
        step matches PollStep::Finish(Ok(met)) ==> (check matches Ok(said) && said == met),
        step matches PollStep::Finish(Err(e)) ==> (check matches Err(said) && said@ == e@),
{
}

// ---------------------------------------------------------------------------
// Focus
// ---------------------------------------------------------------------------
/// A request for focus asks for the window that was given, now, with the parent as
/// the place to revert to; it is flushed before the focus is looked at, and a
/// failure on the way ends it with that failure.
pub proof fn law_focus_is_requested_then_flushed_then_sampled(
    target: u32,
    event: RestoreEvent,
    stable_samples: int,
    timeout: u128,
)
    ensures
        event is Begin ==> (restore_next(target, event, stable_samples, timeout) matches
            RestoreActionView::SetFocus(request) && request.window == target && request.revert_to
            == 2 && request.time == 0),
        event matches RestoreEvent::Requested(Ok(_)) ==> restore_next(
            target,
            event,
            stable_samples,
            timeout,
        ) is Flush,
        event matches RestoreEvent::Flushed(Ok(_)) ==> restore_next(
            target,
            event,
            stable_samples,
            timeout,
        ) is Sample,
        event matches RestoreEvent::Requested(Err(e)) ==> restore_next(
            target,
            event,
            stable_samples,
            timeout,
        ) == RestoreActionView::Poll(PollStepView::Finish(Err("Set focus failed: "@ + e@))),
        event matches RestoreEvent::Flushed(Err(e)) ==> restore_next(
            target,
            event,
            stable_samples,
            timeout,
        ) == RestoreActionView::Poll(PollStepView::Finish(Err("X11 focus flush failed: "@ + e@))),
        event matches RestoreEvent::Sampled { focus: Err(e), .. } ==> restore_next(
            target,
            event,
            stable_samples,
            timeout,
        ) == RestoreActionView::Poll(
            PollStepView::Finish(Err("Failed to query X11 focus: "@ + e@)),
        ),
{
}

/// Every sample of the focus is judged by itself, the one before it and the clock:
/// success where both samples show the target, however late; failure where they do
/// not and the time is up; and another look after three milliseconds otherwise.
pub proof fn law_two_samples_and_the_clock_decide(
    target: u32,
    timeout: u128,
    samples: Seq<FocusSample>,
    k: int,
)
    requires
        0 <= k < samples.len(),
    ensures
        ({
            let settled = k >= 1 && samples[k].window == target && samples[k - 1].window == target;
            let verdict = sample_verdict(target, timeout, samples, k);
            &&& settled ==> verdict == RestoreActionView::Poll(PollStepView::Finish(Ok(true)))
            &&& !settled && samples[k].elapsed >= timeout ==> verdict == RestoreActionView::Poll(
                PollStepView::Finish(Ok(false)),
            )
            &&& !settled && samples[k].elapsed < timeout ==> verdict == RestoreActionView::Poll(
                PollStepView::Sleep(3_000_000),
            )
        }),
{
    let windows = samples.take(k + 1).map_values(|s: FocusSample| s.window);
    law_focus_settles_on_two_samples_in_a_row(target, windows);
    if k >= 1 {
        assert(windows[k] == samples[k].window);
        assert(windows[k - 1] == samples[k - 1].window);
    }
}

/// What is said of an action is said of all that it holds.
pub proof fn law_restore_actions_are_seen_whole(action: RestoreAction)
    ensures
        match action {
            RestoreAction::SetFocus(request) => action@ == RestoreActionView::SetFocus(request),
            RestoreAction::Flush => action@ is Flush,
            RestoreAction::Sample => action@ is Sample,
            RestoreAction::Poll(PollStep::Finish(Ok(met))) => action@ == RestoreActionView::Poll(
                PollStepView::Finish(Ok(met)),
            ),
            RestoreAction::Poll(PollStep::Finish(Err(e))) => action@ == RestoreActionView::Poll(
                PollStepView::Finish(Err(e@)),
            ),
            RestoreAction::Poll(PollStep::Sleep(nanos)) => action@ == RestoreActionView::Poll(
                PollStepView::Sleep(nanos),
            ),
        },
{
}

/// A stray sample starts the count anew, a matching one counts once, and two are
/// enough.
pub proof fn law_count_of_matching_samples(stable_samples: int)
    requires
        0 <= stable_samples <= 2,
    ensures
        stable_after(stable_samples, false) == 0,
        stable_after(stable_samples, true) == if stable_samples == 2 {
            2
        } else {
            stable_samples + 1
        },
{
}

/// Every window but none can be asked to get the focus back.
pub proof fn law_no_window_cannot_be_restored(
    target: u32,
    timeout: u128,
    r: Result<FocusRestore, String>,
)
    requires
        call_ensures(restore_and_settle_focus, (target, timeout), r),
    ensures
        r is Ok <==> target != 0,
        r matches Ok(request) ==> request.target_window == target && request.timeout == timeout
            && request.stable_samples == 0,
        r matches Err(e) ==> e@ == "Cannot restore focus to X11 window 0"@,
{
}

// ---------------------------------------------------------------------------
// Clipboard
// ---------------------------------------------------------------------------
/// A look at the clipboard ends the wait with success exactly where the query
/// worked and the owner is some window other than the owner before, whatever the
/// order of the two; with an error exactly where the query failed; without success
/// where the owner is none or the same and the time is up; and otherwise the wait
/// goes on after three milliseconds.
pub proof fn law_a_new_owner_is_a_handoff(
    handoff: ClipboardHandoff,
    owner: Result<u32, String>,
    elapsed: u128,
    step: PollStep,
)
    requires
        call_ensures(ClipboardHandoff::sample, (&handoff, owner, elapsed), step),
    ensures
        step == PollStep::Finish(Ok(true)) <==> (owner matches Ok(window) && window != 0 && window
            != handoff.owner_before),
        step == PollStep::Finish(Ok(false)) <==> (owner matches Ok(window) && (window == 0 || window
            == handoff.owner_before) && elapsed >= handoff.timeout),
        step == PollStep::Sleep(3_000_000) <==> (owner matches Ok(window) && (window == 0 || window
            == handoff.owner_before) && elapsed < handoff.timeout),
        owner matches Err(e) ==> (step matches PollStep::Finish(Err(m)) && m@
            == "Failed to query clipboard owner: "@ + e@),
{
}

/// A wait begins exactly where the owner before is known, for that owner and time.
pub proof fn law_only_a_known_owner_is_waited_for(
    owner_before: Option<u32>,
    timeout: u128,
    r: Option<ClipboardHandoff>,
)
    requires
        call_ensures(settle_clipboard_handoff, (owner_before, timeout), r),
    ensures
        r is Some <==> owner_before is Some,
        r matches Some(handoff) ==> Some(handoff.owner_before) == owner_before && handoff.timeout
            == timeout,
{
}

} // verus!
