//! Paste synchronization barriers for X11.
//!
//! A single cached X11 connection is used for focus and clipboard checks.
//! Besides avoiding connection setup on every paste, keeping the atom cache and
//! polling on one connection makes the hot path both cheaper and easier to
//! reason about. The functions here decide when that connection is made and
//! given up, and when a barrier has been passed.

use vstd::prelude::*;

use crate::text::concat2;
use crate::x11::{FocusRequest, CURRENT_TIME, NO_WINDOW, REVERT_TO_PARENT};

pub mod promises;

verus! {

use crate::text::result_text;

/// Polling interval for all waiters, in nanoseconds. X11 round trips are local
/// and cheap.
pub const POLL_INTERVAL: u128 = 3_000_000;

/// One matching focus sample can precede a pending window manager transition.
/// Requiring two consecutive samples closes that transient-match race.
pub const FOCUS_STABLE_SAMPLES: u8 = 2;

// ---------------------------------------------------------------------------
// Errors
// ---------------------------------------------------------------------------
/// What the connection was asked for when it failed.
#[derive(Debug, Clone, Copy, PartialEq, Eq, Structural)]
pub enum SyncRequest {
    Connect,
    InternClipboard,
    ClipboardOwner,
    FocusedWindow,
    SetFocus,
    FocusFlush,
}

/// How a failure of a request begins.
pub open spec fn sync_error_prefix(request: SyncRequest) -> Seq<char> {
    match request {
        SyncRequest::Connect => "X11 connection failed: "@,
        SyncRequest::InternClipboard => "Failed to intern CLIPBOARD: "@,
        SyncRequest::ClipboardOwner => "Failed to query clipboard owner: "@,
        SyncRequest::FocusedWindow => "Failed to query X11 focus: "@,
        SyncRequest::SetFocus => "Set focus failed: "@,
        SyncRequest::FocusFlush => "X11 focus flush failed: "@,
    }
}

/// The message for a request that failed with `error`.
pub fn sync_error(request: SyncRequest, error: &str) -> (r: String)
    ensures
        r@ == sync_error_prefix(request) + error@,
{
    let prefix: &'static str = match request {
        SyncRequest::Connect => "X11 connection failed: ",
        SyncRequest::InternClipboard => "Failed to intern CLIPBOARD: ",
        SyncRequest::ClipboardOwner => "Failed to query clipboard owner: ",
        SyncRequest::FocusedWindow => "Failed to query X11 focus: ",
        SyncRequest::SetFocus => "Set focus failed: ",
        SyncRequest::FocusFlush => "X11 focus flush failed: ",
    };
    concat2(prefix, error)
}

// ---------------------------------------------------------------------------
// The cached connection
// ---------------------------------------------------------------------------
/// What an operation on the cached connection needs first.
#[derive(Debug, Clone, Copy, PartialEq, Eq, Structural)]
pub enum ContextStep {
    /// There is no X11 session, so nothing may be tried.
    Refuse,
    /// A connection has to be made.
    Connect,
    /// The operation can run.
    Operate,
}

/// How an operation on the cached connection went.
#[derive(Debug)]
pub enum ContextOutcome<T> {
    /// It was refused.
    Refused,
    /// No connection could be made.
    NotConnected(String),
    /// It ran.
    Ran(Result<T, String>),
}

/// What comes first in a session, with the connection that is cached.
pub open spec fn context_step<C>(x11_session: bool, slot: Option<C>) -> ContextStep {
    if !x11_session {
        ContextStep::Refuse
    } else if slot is None {
        ContextStep::Connect
    } else {
        ContextStep::Operate
    }
}

/// Begins an operation on the cached connection.
pub fn with_x11_context<C>(x11_session: bool, slot: &Option<C>) -> (step: ContextStep)
    ensures
        step == context_step(x11_session, *slot),
{
    if !x11_session {
        ContextStep::Refuse
    } else if slot.is_none() {
        ContextStep::Connect
    } else {
        ContextStep::Operate
    }
}

/// Caches a new connection. Where there is none, says so.
pub fn keep_x11_context<C>(slot: &mut Option<C>, attempt: Result<C, String>) -> (r: Result<
    (),
    String,
>)
    ensures
        match attempt {
            Ok(context) => *final(slot) == Some(context) && r is Ok,
            Err(error) => *final(slot) == *old(slot) && r == Err::<(), String>(error),
        },
{
    match attempt {
        Ok(context) => {
            *slot = Some(context);
            Ok(())
        },
        Err(error) => Err(error),
    }
}

/// The cached connection after an operation. A broken server connection should
/// not poison every later paste, so it is given up when an operation on it
/// failed.
pub open spec fn context_after<C, T>(slot: Option<C>, outcome: ContextOutcome<T>) -> Option<C> {
    match outcome {
        ContextOutcome::Ran(Err(_)) => None,
        _ => slot,
    }
}

/// What an operation on the cached connection comes to.
pub open spec fn context_result<T>(outcome: ContextOutcome<T>) -> Result<T, Seq<char>> {
    match outcome {
        ContextOutcome::Refused => Err("X11 synchronization requested outside an X11 session"@),
        ContextOutcome::NotConnected(error) => Err(error@),
        ContextOutcome::Ran(result) => result_text(result),
    }
}

/// Ends an operation on the cached connection.
pub fn finish_x11_context<C, T>(slot: &mut Option<C>, outcome: ContextOutcome<T>) -> (r: Result<
    T,
    String,
>)
    ensures
        *final(slot) == context_after(*old(slot), outcome),
        result_text(r) == context_result(outcome),
{
    match outcome {
        ContextOutcome::Refused => Err(
            "X11 synchronization requested outside an X11 session".to_string(),
        ),
        ContextOutcome::NotConnected(error) => Err(error),
        ContextOutcome::Ran(Ok(value)) => Ok(value),
        ContextOutcome::Ran(Err(error)) => {
            *slot = None;
            Err(error)
        },
    }
}

/// The name of the thread that warms the cached connection outside the paste
/// path; none outside an X11 session, where there is nothing to warm.
pub fn init(x11_session: bool) -> (r: Option<String>)
    ensures
        x11_session ==> (r matches Some(name) && name@ == "x11-paste-sync-warmup"@),
        !x11_session ==> r is None,
{
    if x11_session {
        Some("x11-paste-sync-warmup".to_string())
    } else {
        None
    }
}

/// The value of an operation that worked.
pub open spec fn context_value<T>(outcome: ContextOutcome<T>) -> Option<T> {
    match outcome {
        ContextOutcome::Ran(Ok(value)) => Some(value),
        _ => None,
    }
}

/// The current owner window of the CLIPBOARD selection, from the query for it.
/// `Some(0)` means that the selection has no owner.
pub fn clipboard_owner<C>(slot: &mut Option<C>, query: ContextOutcome<u32>) -> (r: Option<u32>)
    ensures
        r == context_value(query),
        *final(slot) == context_after(*old(slot), query),
{
    finish_x11_context(slot, query).ok()
}

/// The window that currently has X11 input focus, from the query for it.
pub fn focused_window<C>(slot: &mut Option<C>, query: ContextOutcome<u32>) -> (r: Option<u32>)
    ensures
        r == context_value(query),
        *final(slot) == context_after(*old(slot), query),
{
    finish_x11_context(slot, query).ok()
}

// ---------------------------------------------------------------------------
// Polling
// ---------------------------------------------------------------------------
/// What the program does next while it polls.
#[derive(Debug)]
pub enum PollStep {
    /// The polling is over: whether the condition was met, or an error.
    Finish(Result<bool, String>),
    /// Check again after this many nanoseconds.
    Sleep(u128),
}

/// A [`PollStep`] with the text of its message.
pub enum PollStepView {
    Finish(Result<bool, Seq<char>>),
    Sleep(u128),
}

impl View for PollStep {
    type V = PollStepView;

    open spec fn view(&self) -> PollStepView {
        match self {
            PollStep::Finish(r) => PollStepView::Finish(result_text(*r)),
            PollStep::Sleep(nanos) => PollStepView::Sleep(*nanos),
        }
    }
}

/// What follows a check that came out as `check`, `elapsed` nanoseconds into a
/// polling with this `timeout`: an error and a condition that is met end it, and
/// so does a condition that is not met in time.
pub open spec fn poll_next(
    check: Result<bool, Seq<char>>,
    elapsed: u128,
    timeout: u128,
) -> PollStepView {
    if check == Ok::<bool, Seq<char>>(false) && elapsed < timeout {
        PollStepView::Sleep(POLL_INTERVAL)
    } else {
        PollStepView::Finish(check)
    }
}

/// Judges one check of a polling.
pub fn poll_until(check: Result<bool, String>, elapsed: u128, timeout: u128) -> (step: PollStep)
    ensures
        step@ == poll_next(result_text(check), elapsed, timeout),
{
    match check {
        Err(error) => PollStep::Finish(Err(error)),
        Ok(true) => PollStep::Finish(Ok(true)),
        Ok(false) => if elapsed >= timeout {
            PollStep::Finish(Ok(false))
        } else {
            PollStep::Sleep(POLL_INTERVAL)
        },
    }
}

// ---------------------------------------------------------------------------
// Focus
// ---------------------------------------------------------------------------
/// A request for focus that is being verified.
#[derive(Debug, Clone, Copy, PartialEq, Eq, Structural)]
pub struct FocusRestore {
    pub target_window: u32,
    pub timeout: u128,
    pub stable_samples: u8,
}

/// How many matching samples in a row there are after one more.
pub open spec fn stable_after(stable_samples: int, matches_target: bool) -> int {
    if !matches_target {
        0
    } else if stable_samples < FOCUS_STABLE_SAMPLES {
        stable_samples + 1
    } else {
        stable_samples
    }
}

/// Begins a request for focus on `target_window`. The request and its
/// verification share one connection, so request ordering is guaranteed without a
/// fixed settle delay.
pub fn restore_and_settle_focus(target_window: u32, timeout: u128) -> (r: Result<
    FocusRestore,
    String,
>)
    ensures
        result_text(r) == if target_window == 0 {
            Err("Cannot restore focus to X11 window 0"@)
        } else {
            Ok(FocusRestore { target_window, timeout, stable_samples: 0 })
        },
{
    if target_window == 0 {
        return Err("Cannot restore focus to X11 window 0".to_string());
    }
    Ok(FocusRestore { target_window, timeout, stable_samples: 0 })
}

/// What is known while focus is requested and verified.
#[derive(Debug)]
pub enum RestoreEvent {
    /// The focus is wanted.
    Begin,
    /// The server was asked to move the focus.
    Requested(Result<(), String>),
    /// The request was flushed to the server.
    Flushed(Result<(), String>),
    /// The focused window was asked for, `elapsed` nanoseconds after the flush.
    Sampled { focus: Result<u32, String>, elapsed: u128 },
}

/// What the program does next while focus is requested and verified.
#[derive(Debug)]
pub enum RestoreAction {
    /// Ask the server to move the focus.
    SetFocus(FocusRequest),
    /// Flush the request to the server.
    Flush,
    /// Ask for the focused window.
    Sample,
    /// A sample was judged: sample again after the pause, or stop.
    Poll(PollStep),
}

/// A [`RestoreAction`] with the text of its message.
pub enum RestoreActionView {
    SetFocus(FocusRequest),
    Flush,
    Sample,
    Poll(PollStepView),
}

impl View for RestoreAction {
    type V = RestoreActionView;

    open spec fn view(&self) -> RestoreActionView {
        match self {
            RestoreAction::SetFocus(request) => RestoreActionView::SetFocus(*request),
            RestoreAction::Flush => RestoreActionView::Flush,
            RestoreAction::Sample => RestoreActionView::Sample,
            RestoreAction::Poll(step) => RestoreActionView::Poll(step@),
        }
    }
}

/// The request for focus on `target`: now, reverting to the parent.
pub open spec fn restore_request(target: u32) -> FocusRequest {
    FocusRequest { revert_to: REVERT_TO_PARENT, window: target, time: CURRENT_TIME }
}

/// What follows `event` in a request for focus on `target`, with this many
/// matching samples in a row after it.
pub open spec fn restore_next(
    target: u32,
    event: RestoreEvent,
    stable_samples: int,
    timeout: u128,
) -> RestoreActionView {
    match event {
        RestoreEvent::Begin => RestoreActionView::SetFocus(restore_request(target)),
        RestoreEvent::Requested(Ok(_)) => RestoreActionView::Flush,
        RestoreEvent::Requested(Err(e)) => RestoreActionView::Poll(
            PollStepView::Finish(Err("Set focus failed: "@ + e@)),
        ),
        RestoreEvent::Flushed(Ok(_)) => RestoreActionView::Sample,
        RestoreEvent::Flushed(Err(e)) => RestoreActionView::Poll(
            PollStepView::Finish(Err("X11 focus flush failed: "@ + e@)),
        ),
        RestoreEvent::Sampled { focus: Ok(_), elapsed } => RestoreActionView::Poll(
            poll_next(Ok(stable_samples >= FOCUS_STABLE_SAMPLES), elapsed, timeout),
        ),
        RestoreEvent::Sampled { focus: Err(e), .. } => RestoreActionView::Poll(
            PollStepView::Finish(Err("Failed to query X11 focus: "@ + e@)),
        ),
    }
}

impl FocusRestore {
    /// Takes what is known of the request. The focus has settled once two samples
    /// in a row show the target.
    pub fn advance(&mut self, event: RestoreEvent) -> (action: RestoreAction)
        ensures
            final(self).target_window == old(self).target_window,
            final(self).timeout == old(self).timeout,
            final(self).stable_samples == match event {
                RestoreEvent::Sampled { focus: Ok(window), .. } => stable_after(
                    old(self).stable_samples as int,
                    window == old(self).target_window,
                ),
                _ => old(self).stable_samples as int,
            },
            action@ == restore_next(
                old(self).target_window,
                event,
                final(self).stable_samples as int,
                old(self).timeout,
            ),
    {
        match event {
            RestoreEvent::Begin => RestoreAction::SetFocus(
                FocusRequest {
                    revert_to: REVERT_TO_PARENT,
                    window: self.target_window,
                    time: CURRENT_TIME,
                },
            ),
            RestoreEvent::Requested(Ok(_)) => RestoreAction::Flush,
            RestoreEvent::Requested(Err(error)) => RestoreAction::Poll(
                PollStep::Finish(Err(sync_error(SyncRequest::SetFocus, error.as_str()))),
            ),
            RestoreEvent::Flushed(Ok(_)) => RestoreAction::Sample,
            RestoreEvent::Flushed(Err(error)) => RestoreAction::Poll(
                PollStep::Finish(Err(sync_error(SyncRequest::FocusFlush, error.as_str()))),
            ),
            RestoreEvent::Sampled { focus, elapsed } => {
                let check = match focus {
                    Err(error) => Err(sync_error(SyncRequest::FocusedWindow, error.as_str())),
                    Ok(window) => {
                        if window == self.target_window {
                            if self.stable_samples < FOCUS_STABLE_SAMPLES {
                                self.stable_samples = self.stable_samples + 1;
                            }
                        } else {
                            self.stable_samples = 0;
                        }
                        Ok(self.stable_samples >= FOCUS_STABLE_SAMPLES)
                    },
                };
                RestoreAction::Poll(poll_until(check, elapsed, self.timeout))
            },
        }
    }
}

// ---------------------------------------------------------------------------
// Clipboard
// ---------------------------------------------------------------------------
/// A wait for a new clipboard owner.
#[derive(Debug, Clone, Copy, PartialEq, Eq, Structural)]
pub struct ClipboardHandoff {
    pub owner_before: u32,
    pub timeout: u128,
}

/// Begins to wait for the CLIPBOARD owner to change to a non-empty owner.
/// Without a known owner there is nothing to wait for: the caller can
/// immediately use its fallback instead of paying the full timeout for a
/// condition that cannot be verified.
pub fn settle_clipboard_handoff(owner_before: Option<u32>, timeout: u128) -> (r: Option<
    ClipboardHandoff,
>)
    ensures
        r == match owner_before {
            Some(owner_before) => Some(ClipboardHandoff { owner_before, timeout }),
            None => None,
        },
{
    match owner_before {
        Some(owner_before) => Some(ClipboardHandoff { owner_before, timeout }),
        None => None,
    }
}

impl ClipboardHandoff {
    /// The clipboard has gone over to `owner`.
    pub open spec fn handed_to(self, owner: u32) -> bool {
        owner != 0 && owner != self.owner_before
    }

    /// What one look at the owner says of the handoff.
    pub open spec fn check(self, owner: Result<u32, String>) -> Result<bool, Seq<char>> {
        match owner {
            Ok(owner) => Ok(self.handed_to(owner)),
            Err(e) => Err("Failed to query clipboard owner: "@ + e@),
        }
    }

    /// Judges one look at the owner, `elapsed` nanoseconds after the wait began.
    pub fn sample(&self, owner: Result<u32, String>, elapsed: u128) -> (step: PollStep)
        ensures
            step@ == poll_next(self.check(owner), elapsed, self.timeout),
    {
        let check = match owner {
            Err(error) => Err(sync_error(SyncRequest::ClipboardOwner, error.as_str())),
            Ok(owner) => Ok(owner != NO_WINDOW && owner != self.owner_before),
        };
        poll_until(check, elapsed, self.timeout)
    }
}

/// Ends the wait for a new clipboard owner: an error counts as no handoff.
pub fn finish_clipboard_handoff<C>(slot: &mut Option<C>, outcome: ContextOutcome<bool>) -> (r: bool)
    ensures
        r == (context_value(outcome) == Some(true)),
        *final(slot) == context_after(*old(slot), outcome),
{
    match finish_x11_context(slot, outcome) {
        Ok(changed) => changed,
        Err(_) => false,
    }
}

// ---------------------------------------------------------------------------
// Laws
// ---------------------------------------------------------------------------
/// How many samples in a row show `target` at the end of `samples`, as far as
/// they are counted.
pub open spec fn stable_count(target: u32, samples: Seq<u32>) -> int
    decreases samples.len(),
{
    if samples.len() == 0 {
        0
    } else {
        stable_after(stable_count(target, samples.drop_last()), samples.last() == target)
    }
}

/// The focus counts as settled exactly where the last two samples both show the
/// target: one matching sample is never enough, and a stray sample in between
/// starts the count anew.
pub proof fn law_focus_settles_on_two_samples_in_a_row(target: u32, samples: Seq<u32>)
    ensures
        stable_count(target, samples) >= FOCUS_STABLE_SAMPLES <==> samples.len() >= 2
            && samples[samples.len() - 1] == target && samples[samples.len() - 2] == target,
        0 <= stable_count(target, samples) <= FOCUS_STABLE_SAMPLES,
        stable_count(target, samples) > 0 <==> samples.len() > 0 && samples.last() == target,
    decreases samples.len(),
{
    if samples.len() > 0 {
        law_focus_settles_on_two_samples_in_a_row(target, samples.drop_last());
    }
}

/// One look at the focus: the focused window, and the time since the request.
pub struct FocusSample {
    pub window: u32,
    pub elapsed: u128,
}

/// What the sample at `k` leads to.
pub open spec fn sample_verdict(
    target: u32,
    timeout: u128,
    samples: Seq<FocusSample>,
    k: int,
) -> RestoreActionView {
    restore_next(
        target,
        RestoreEvent::Sampled { focus: Ok(samples[k].window), elapsed: samples[k].elapsed },
        stable_count(target, samples.take(k + 1).map_values(|s: FocusSample| s.window)),
        timeout,
    )
}

/// The verification of a focus request ends with the sample at `k`.
pub open spec fn restore_ends_at(
    target: u32,
    timeout: u128,
    samples: Seq<FocusSample>,
    k: int,
) -> bool {
    &&& 0 <= k < samples.len()
    &&& sample_verdict(target, timeout, samples, k) matches RestoreActionView::Poll(
        PollStepView::Finish(_),
    )
    &&& forall|j: int|
        0 <= j < k ==> (#[trigger] sample_verdict(target, timeout, samples, j)
            == RestoreActionView::Poll(PollStepView::Sleep(POLL_INTERVAL)))
}

/// The samples at `k` and right before it both show `target`.
pub open spec fn settled_at(target: u32, samples: Seq<FocusSample>, k: int) -> bool {
    1 <= k < samples.len() && samples[k].window == target && samples[k - 1].window == target
}

proof fn lemma_settled_at(target: u32, timeout: u128, samples: Seq<FocusSample>, k: int)
    requires
        0 <= k < samples.len(),
    ensures
        sample_verdict(target, timeout, samples, k) == RestoreActionView::Poll(
            poll_next(Ok(settled_at(target, samples, k)), samples[k].elapsed, timeout),
        ),
{
    let windows = samples.take(k + 1).map_values(|s: FocusSample| s.window);
    law_focus_settles_on_two_samples_in_a_row(target, windows);
    if k >= 1 {
        assert(windows[k] == samples[k].window);
        assert(windows[k - 1] == samples[k - 1].window);
    }
}

/// A focus request is verified sample by sample until two in a row show the
/// target, which is success, or until a sample comes too late, which is failure.
/// No sample before the last was late or completed such a pair.
pub proof fn law_focus_request_ends_settled_or_late(
    target: u32,
    timeout: u128,
    samples: Seq<FocusSample>,
    k: int,
)
    requires
        restore_ends_at(target, timeout, samples, k),
    ensures
        sample_verdict(target, timeout, samples, k) == RestoreActionView::Poll(
            PollStepView::Finish(Ok(settled_at(target, samples, k))),
        ),
        settled_at(target, samples, k) || samples[k].elapsed >= timeout,
        forall|j: int|
            0 <= j < k ==> !settled_at(target, samples, j) && (#[trigger] samples[j]).elapsed
                < timeout,
{
    lemma_settled_at(target, timeout, samples, k);
    assert forall|j: int| 0 <= j < k implies !settled_at(target, samples, j) && (
    #[trigger] samples[j]).elapsed < timeout by {
        lemma_settled_at(target, timeout, samples, j);
        assert(sample_verdict(target, timeout, samples, j) == RestoreActionView::Poll(
            PollStepView::Sleep(POLL_INTERVAL),
        ));
    }
}

/// After a failed operation the next one in an X11 session connects again; after
/// one that worked, the connection is still there.
pub proof fn law_failed_operation_reconnects<C, T>(slot: Option<C>, outcome: ContextOutcome<T>)
    ensures
        outcome matches ContextOutcome::Ran(Err(_)) ==> context_step(
            true,
            context_after(slot, outcome),
        ) == ContextStep::Connect,
        outcome matches ContextOutcome::Ran(Ok(_)) ==> context_after(slot, outcome) == slot,
{
}

/// One look at the clipboard: its owner as far as the query worked, and the time
/// since the wait began.
pub struct OwnerSample {
    pub owner: Result<u32, String>,
    pub elapsed: u128,
}

impl ClipboardHandoff {
    /// What the sample leads to.
    pub open spec fn verdict(self, sample: OwnerSample) -> PollStepView {
        poll_next(self.check(sample.owner), sample.elapsed, self.timeout)
    }

    /// The wait ends with the sample at `k`.
    pub open spec fn ends_at(self, samples: Seq<OwnerSample>, k: int) -> bool {
        &&& 0 <= k < samples.len()
        &&& self.verdict(samples[k]) is Finish
        &&& forall|j: int|
            0 <= j < k ==> self.verdict(#[trigger] samples[j]) == PollStepView::Sleep(
                POLL_INTERVAL,
            )
    }

    /// The sample shows a new, non-empty owner.
    pub open spec fn shown_by(self, sample: OwnerSample) -> bool {
        sample.owner matches Ok(owner) && self.handed_to(owner)
    }
}

/// A wait for the clipboard goes on until a sample shows a new, non-empty owner,
/// fails, or comes too late. No sample before the last did any of these, and the
/// wait reports a handoff exactly where the last one shows such an owner.
pub proof fn law_handoff_is_reported_where_the_last_sample_shows_it(
    handoff: ClipboardHandoff,
    samples: Seq<OwnerSample>,
    k: int,
    result: Result<bool, String>,
)
    requires
        handoff.ends_at(samples, k),
        handoff.verdict(samples[k]) == PollStepView::Finish(result_text(result)),
    ensures
        result_text(result) == handoff.check(samples[k].owner),
        context_value(ContextOutcome::Ran(result)) == Some(true) <==> handoff.shown_by(samples[k]),
        handoff.shown_by(samples[k]) || samples[k].owner is Err || samples[k].elapsed
            >= handoff.timeout,
        forall|j: int|
            0 <= j < k ==> !handoff.shown_by(#[trigger] samples[j]) && samples[j].owner is Ok
                && samples[j].elapsed < handoff.timeout,
{
    assert forall|j: int| 0 <= j < k implies !handoff.shown_by(#[trigger] samples[j])
        && samples[j].owner is Ok && samples[j].elapsed < handoff.timeout by {
        assert(handoff.verdict(samples[j]) == PollStepView::Sleep(POLL_INTERVAL));
    }
}

/// How an operation comes out that would come out as `operation` once it ran, in
/// a session with this slot, where a new connection would come out as `attempt`.
pub open spec fn context_outcome<C, T>(
    x11_session: bool,
    slot: Option<C>,
    attempt: Result<C, String>,
    operation: Result<T, String>,
) -> ContextOutcome<T> {
    match context_step(x11_session, slot) {
        ContextStep::Refuse => ContextOutcome::Refused,
        ContextStep::Connect => match attempt {
            Ok(_) => ContextOutcome::Ran(operation),
            Err(error) => ContextOutcome::NotConnected(error),
        },
        ContextStep::Operate => ContextOutcome::Ran(operation),
    }
}

/// An operation succeeds exactly in an X11 session, with a connection that was
/// cached or could be made, and where it works on that connection.
pub proof fn law_operation_needs_session_and_connection<C, T>(
    x11_session: bool,
    slot: Option<C>,
    attempt: Result<C, String>,
    operation: Result<T, String>,
)
    ensures
        context_result(context_outcome(x11_session, slot, attempt, operation)) is Ok
            <==> x11_session && (slot is Some || attempt is Ok) && operation is Ok,
        context_value(context_outcome(x11_session, slot, attempt, operation)) == match context_result(
            context_outcome(x11_session, slot, attempt, operation),
        ) {
            Ok(value) => Some(value),
            Err(_) => None,
        },
{
}

} // verus!
