//! Sending the paste chord: which chord, through which backend, and what a
//! failure allows.

use vstd::prelude::*;

use crate::focus_manager::{target_matches_any_pattern, FocusMemory};
use crate::text::concat3;

pub mod chord_laws;
pub mod device_slot;
pub mod keymap;
pub mod node_search;
pub mod promises;
pub mod uinput;
pub mod uinput_device;
pub mod xdotool;
pub mod xtest;

verus! {

use crate::focus_manager::{any_pattern_matches, HintView, MemoryView};
use crate::text::{result_text, texts};

/// A key chord that pastes.
#[derive(Debug, Clone, Copy, PartialEq, Eq, Structural)]
pub enum PasteChord {
    CtrlV,
    CtrlShiftV,
}

impl PasteChord {
    /// The name of the chord.
    pub open spec fn label_text(self) -> Seq<char> {
        match self {
            PasteChord::CtrlV => "Ctrl+V"@,
            PasteChord::CtrlShiftV => "Ctrl+Shift+V"@,
        }
    }

    /// The chord as it is shown to people.
    pub fn label(self) -> (r: &'static str)
        ensures
            r@ == self.label_text(),
    {
        match self {
            PasteChord::CtrlV => "Ctrl+V",
            PasteChord::CtrlShiftV => "Ctrl+Shift+V",
        }
    }
}

/// Why a backend did not send the chord.
#[derive(Debug)]
pub enum PasteFailure {
    /// No paste key was attempted, so another backend may safely run.
    Retryable(String),
    /// Input may already have reached the target; retrying could paste twice.
    Ambiguous(String),
}

/// A [`PasteFailure`] with the text of its message.
pub enum FailureView {
    Retryable(Seq<char>),
    Ambiguous(Seq<char>),
}

impl View for PasteFailure {
    type V = FailureView;

    open spec fn view(&self) -> FailureView {
        match self {
            PasteFailure::Retryable(e) => FailureView::Retryable(e@),
            PasteFailure::Ambiguous(e) => FailureView::Ambiguous(e@),
        }
    }
}

/// What a backend reported, with the text of its message.
pub open spec fn paste_outcome(r: Result<(), PasteFailure>) -> Result<(), FailureView> {
    match r {
        Ok(_) => Ok(()),
        Err(f) => Err(f@),
    }
}

// ---------------------------------------------------------------------------
// Backends
// ---------------------------------------------------------------------------
/// A way to send a chord.
#[derive(Debug, Clone, Copy, PartialEq, Eq, Structural)]
pub enum Backend {
    Xtest,
    Uinput,
    Xdotool,
}

impl Backend {
    /// The name of the backend.
    pub open spec fn name_text(self) -> Seq<char> {
        match self {
            Backend::Xtest => "XTest"@,
            Backend::Uinput => "uinput"@,
            Backend::Xdotool => "xdotool"@,
        }
    }

    /// The backend as it is shown to people.
    pub fn name(self) -> (r: &'static str)
        ensures
            r@ == self.name_text(),
    {
        match self {
            Backend::Xtest => "XTest",
            Backend::Uinput => "uinput",
            Backend::Xdotool => "xdotool",
        }
    }
}

/// The backends of a session, in the order in which they are tried. XTest is the
/// primary one under X11: it uses one native connection and verifies that Ctrl
/// is down before V. xdotool is the last resort.
pub open spec fn backends(x11_session: bool) -> Seq<Backend> {
    if x11_session {
        seq![Backend::Xtest, Backend::Uinput, Backend::Xdotool]
    } else {
        seq![Backend::Uinput]
    }
}

/// The backend that is tried after `backend` left room for another.
pub open spec fn fallback(x11_session: bool, backend: Backend) -> Option<Backend> {
    match backend {
        Backend::Xtest if x11_session => Some(Backend::Uinput),
        Backend::Uinput if x11_session => Some(Backend::Xdotool),
        _ => None,
    }
}

/// What is warmed up outside the paste hot path.
#[derive(Debug)]
pub struct Warmup {
    /// The thread that does it.
    pub thread_name: &'static str,
    /// The backend whose device is created.
    pub backend: Backend,
}

/// Names the backend to warm up: the one that the first paste will try.
pub fn init(x11_session: bool) -> (r: Warmup)
    ensures
        r.backend == backends(x11_session)[0],
        r.thread_name@ == if x11_session {
            "xtest-paste-warmup"@
        } else {
            "uinput-paste-warmup"@
        },
{
    if x11_session {
        Warmup { thread_name: "xtest-paste-warmup", backend: Backend::Xtest }
    } else {
        Warmup { thread_name: "uinput-paste-warmup", backend: Backend::Uinput }
    }
}

// ---------------------------------------------------------------------------
// Pasting
// ---------------------------------------------------------------------------
/// The chord that the remembered target wants: Ctrl+Shift+V where one of the
/// patterns names it, Ctrl+V otherwise.
pub open spec fn wanted_chord(
    memory: MemoryView,
    ctrl_shift_v_targets: Seq<Seq<char>>,
) -> PasteChord {
    if any_pattern_matches(ctrl_shift_v_targets, memory.hint) {
        PasteChord::CtrlShiftV
    } else {
        PasteChord::CtrlV
    }
}

/// Chooses the chord for the remembered target.
pub fn choose_chord(memory: &FocusMemory, ctrl_shift_v_targets: &[String]) -> (r: PasteChord)
    ensures
        r == wanted_chord(memory@, texts(ctrl_shift_v_targets@)),
{
    if target_matches_any_pattern(memory, ctrl_shift_v_targets) {
        PasteChord::CtrlShiftV
    } else {
        PasteChord::CtrlV
    }
}

/// What is known while a paste is simulated.
#[derive(Debug)]
pub enum PasteEvent {
    /// A paste is wanted.
    Begin,
    /// A backend was tried.
    Tried { backend: Backend, chord: PasteChord, outcome: Result<(), PasteFailure> },
}

/// What the program does next while a paste is simulated.
#[derive(Debug)]
pub enum PasteAction {
    /// Send the chord through this backend.
    Try { backend: Backend, chord: PasteChord },
    /// The paste was sent, or could not be.
    Finish(Result<(), String>),
}

/// A [`PasteAction`] with the text of its message.
pub enum PasteActionView {
    Try { backend: Backend, chord: PasteChord },
    Finish(Result<(), Seq<char>>),
}

impl View for PasteAction {
    type V = PasteActionView;

    open spec fn view(&self) -> PasteActionView {
        match self {
            PasteAction::Try { backend, chord } => PasteActionView::Try {
                backend: *backend,
                chord: *chord,
            },
            PasteAction::Finish(r) => PasteActionView::Finish(result_text(*r)),
        }
    }
}

/// How a paste ends after `backend` reported `failure` and no other may run.
pub open spec fn refusal(backend: Backend, failure: Seq<char>) -> Seq<char> {
    backend.name_text() + " failed after input may have been emitted; refusing fallback: "@
        + failure
}

/// What follows `event`. A backend that surely sent nothing is followed by the
/// next one; any other outcome ends the paste.
pub open spec fn paste_next(
    x11_session: bool,
    wanted: PasteChord,
    event: PasteEvent,
) -> PasteActionView {
    match event {
        PasteEvent::Begin => PasteActionView::Try {
            backend: backends(x11_session)[0],
            chord: wanted,
        },
        PasteEvent::Tried { outcome: Ok(_), .. } => PasteActionView::Finish(Ok(())),
        PasteEvent::Tried { backend, chord, outcome: Err(PasteFailure::Retryable(_)) } => {
            match fallback(x11_session, backend) {
                Some(next) => PasteActionView::Try { backend: next, chord },
                None => PasteActionView::Finish(Err("All paste methods failed"@)),
            }
        },
        PasteEvent::Tried { backend, outcome: Err(PasteFailure::Ambiguous(e)), .. } => {
            PasteActionView::Finish(Err(refusal(backend, e@)))
        },
    }
}

/// Simulates a paste into the remembered target, one step at a time.
pub fn simulate_paste_keystroke(
    x11_session: bool,
    memory: &FocusMemory,
    ctrl_shift_v_targets: &[String],
    event: PasteEvent,
) -> (action: PasteAction)
    ensures
        action@ == paste_next(
            x11_session,
            wanted_chord(memory@, texts(ctrl_shift_v_targets@)),
            event,
        ),
{
    match event {
        PasteEvent::Begin => {
            let chord = choose_chord(memory, ctrl_shift_v_targets);
            let backend = if x11_session {
                Backend::Xtest
            } else {
                Backend::Uinput
            };
            PasteAction::Try { backend, chord }
        },
        PasteEvent::Tried { backend, chord, outcome } => match outcome {
            Ok(_) => PasteAction::Finish(Ok(())),
            Err(PasteFailure::Retryable(_)) => {
                if x11_session && backend == Backend::Xtest {
                    PasteAction::Try { backend: Backend::Uinput, chord }
                } else if x11_session && backend == Backend::Uinput {
                    PasteAction::Try { backend: Backend::Xdotool, chord }
                } else {
                    PasteAction::Finish(Err("All paste methods failed".to_string()))
                }
            },
            Err(PasteFailure::Ambiguous(error)) => PasteAction::Finish(
                Err(
                    concat3(
                        backend.name(),
                        " failed after input may have been emitted; refusing fallback: ",
                        error.as_str(),
                    ),
                ),
            ),
        },
    }
}

// ---------------------------------------------------------------------------
// Laws
// ---------------------------------------------------------------------------
/// The backends that a paste tries from `action` on, and how it ends, where each
/// backend reports what `outcomes` says. At most `steps` backends are tried.
pub open spec fn paste_course(
    x11_session: bool,
    wanted: PasteChord,
    outcomes: spec_fn(Backend) -> Result<(), PasteFailure>,
    action: PasteActionView,
    steps: nat,
) -> (Seq<Backend>, PasteActionView)
    decreases steps,
{
    match action {
        PasteActionView::Try { backend, chord } if steps > 0 => {
            let next = paste_next(
                x11_session,
                wanted,
                PasteEvent::Tried { backend, chord, outcome: outcomes(backend) },
            );
            let (tried, end) = paste_course(
                x11_session,
                wanted,
                outcomes,
                next,
                (steps - 1) as nat,
            );
            (seq![backend] + tried, end)
        },
        _ => (Seq::empty(), action),
    }
}

/// The whole course of a paste.
pub open spec fn whole_course(
    x11_session: bool,
    wanted: PasteChord,
    outcomes: spec_fn(Backend) -> Result<(), PasteFailure>,
) -> (Seq<Backend>, PasteActionView) {
    paste_course(
        x11_session,
        wanted,
        outcomes,
        paste_next(x11_session, wanted, PasteEvent::Begin),
        backends(x11_session).len(),
    )
}

/// The backend left room for another.
pub open spec fn is_retryable(outcome: Result<(), PasteFailure>) -> bool {
    outcome matches Err(PasteFailure::Retryable(_))
}

/// A paste tries the backends of the session in their order, up to the first that
/// did not leave room for another. Where all leave room, all are tried.
pub proof fn law_backends_are_tried_in_order(
    x11_session: bool,
    wanted: PasteChord,
    outcomes: spec_fn(Backend) -> Result<(), PasteFailure>,
    k: int,
)
    requires
        0 <= k < backends(x11_session).len(),
        forall|i: int| 0 <= i < k ==> is_retryable(outcomes(#[trigger] backends(x11_session)[i])),
        is_retryable(outcomes(backends(x11_session)[k])) ==> k == backends(x11_session).len() - 1,
    ensures
        whole_course(x11_session, wanted, outcomes).0 == backends(x11_session).take(k + 1),
{
    reveal_with_fuel(paste_course, 4);
    let list = backends(x11_session);
    if k > 0 {
        assert(is_retryable(outcomes(list[0])));
    }
    if k > 1 {
        assert(is_retryable(outcomes(list[1])));
    }
    assert(whole_course(x11_session, wanted, outcomes).0 =~= list.take(k + 1));
}

/// Nothing is pasted twice: once a backend may have emitted input, no other runs.
pub proof fn law_no_backend_runs_after_input(
    x11_session: bool,
    wanted: PasteChord,
    outcomes: spec_fn(Backend) -> Result<(), PasteFailure>,
    i: int,
)
    requires
        0 <= i < whole_course(x11_session, wanted, outcomes).0.len() - 1,
    ensures
        is_retryable(outcomes(whole_course(x11_session, wanted, outcomes).0[i])),
{
    reveal_with_fuel(paste_course, 4);
}

/// How a paste ends whose last backend reported `outcome`.
pub open spec fn paste_result(backend: Backend, outcome: Result<(), FailureView>) -> Result<
    (),
    Seq<char>,
> {
    match outcome {
        Ok(_) => Ok(()),
        Err(FailureView::Retryable(_)) => Err("All paste methods failed"@),
        Err(FailureView::Ambiguous(e)) => Err(refusal(backend, e)),
    }
}

/// Every paste comes to an end, after at least one backend, and it comes out as
/// its last backend did: it succeeds exactly where that one sent the chord.
pub proof fn law_paste_comes_out_as_its_last_backend(
    x11_session: bool,
    wanted: PasteChord,
    outcomes: spec_fn(Backend) -> Result<(), PasteFailure>,
)
    ensures
        ({
            let (tried, end) = whole_course(x11_session, wanted, outcomes);
            &&& tried.len() > 0
            &&& end == PasteActionView::Finish(
                paste_result(tried.last(), paste_outcome(outcomes(tried.last()))),
            )
        }),
{
    reveal_with_fuel(paste_course, 4);
}

/// One paste sends one chord: a fallback sends what the backend before it could
/// not.
pub proof fn law_fallback_sends_the_same_chord(
    x11_session: bool,
    wanted: PasteChord,
    backend: Backend,
    chord: PasteChord,
    outcome: Result<(), PasteFailure>,
)
    ensures
        paste_next(x11_session, wanted, PasteEvent::Tried { backend, chord, outcome }) matches
            PasteActionView::Try { chord: next, .. } ==> next == chord,
{
}

/// A target of which nothing is known gets Ctrl+V, and so does every target where
/// no pattern is set.
pub proof fn law_ctrl_v_is_the_default(
    window: u32,
    hint: Option<HintView>,
    ctrl_shift_v_targets: Seq<Seq<char>>,
)
    ensures
        wanted_chord(MemoryView { window, hint: None }, ctrl_shift_v_targets) == PasteChord::CtrlV,
        wanted_chord(MemoryView { window, hint }, Seq::empty()) == PasteChord::CtrlV,
{
}

} // verus!
