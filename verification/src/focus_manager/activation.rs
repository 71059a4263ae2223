//! X11 window activation using EWMH protocols, with direct input focus as the
//! fallback.

use vstd::prelude::*;

use crate::focus_manager::window_search::WINDOW_MAP_TIMEOUT;
use crate::text::{concat2, concat3};
use crate::x11::{FocusRequest, Screens, CURRENT_TIME, REVERT_TO_POINTER_ROOT};

pub mod promises;

verus! {

use crate::text::result_text;

/// The pause after an activation by title that lets the window manager process
/// it, in nanoseconds.
pub const ACTIVATION_PAUSE: u128 = 20_000_000;

/// The pause before a robust activation verifies the focus, in nanoseconds.
pub const ROBUST_ACTIVATION_PAUSE: u128 = 30_000_000;

// ---------------------------------------------------------------------------
// Activating a window by its id
// ---------------------------------------------------------------------------
/// A client message.
#[derive(Debug, Clone, Copy)]
pub struct ClientMessage {
    pub response_type: u8,
    pub format: u8,
    pub sequence: u16,
    pub window: u32,
    pub type_: u32,
    pub data: [u32; 5],
}

/// A client message and where it goes.
#[derive(Debug, Clone, Copy)]
pub struct ActivationRequest {
    pub propagate: bool,
    pub destination: u32,
    pub event_mask: u32,
    pub message: ClientMessage,
}

/// The bits of the event masks `SubstructureNotify` (bit 19) and
/// `SubstructureRedirect` (bit 20).
pub open spec fn substructure_mask() -> u32 {
    0x180000u32
}

/// `EventMask::SUBSTRUCTURE_REDIRECT` and `EventMask::SUBSTRUCTURE_NOTIFY` of
/// x11rb, combined with `|` and turned into a number: bits 20 and 19.
#[verifier::external_body]
fn substructure_event_mask() -> (r: u32)
    ensures
        r == substructure_mask(),
{
    u32::from(
        x11rb::protocol::xproto::EventMask::SUBSTRUCTURE_REDIRECT
            | x11rb::protocol::xproto::EventMask::SUBSTRUCTURE_NOTIFY,
    )
}

/// An [`ActivationRequest`] with the sequence of its data.
#[verifier::ext_equal]
pub struct RequestView {
    pub propagate: bool,
    pub destination: u32,
    pub event_mask: u32,
    pub response_type: u8,
    pub format: u8,
    pub sequence: u16,
    pub window: u32,
    pub type_: u32,
    pub data: Seq<u32>,
}

impl View for ActivationRequest {
    type V = RequestView;

    open spec fn view(&self) -> RequestView {
        RequestView {
            propagate: self.propagate,
            destination: self.destination,
            event_mask: self.event_mask,
            response_type: self.message.response_type,
            format: self.message.format,
            sequence: self.message.sequence,
            window: self.message.window,
            type_: self.message.type_,
            data: self.message.data@,
        }
    }
}

/// The request that asks the window manager of `root` to activate `window`: an
/// application's request, at the current time, with no active window of its own.
pub open spec fn activation_request(root: u32, window: u32, net_active_window: u32) -> RequestView {
    RequestView {
        propagate: false,
        destination: root,
        event_mask: substructure_mask(),
        response_type: 33,
        format: 32,
        sequence: 0,
        window,
        type_: net_active_window,
        data: seq![1u32, 0, 0, 0, 0],
    }
}

/// How an atom could not be had.
#[derive(Debug)]
pub enum AtomFault {
    /// The request failed.
    Request(String),
    /// The reply failed.
    Reply(String),
}

/// What is known while a window is activated.
#[derive(Debug)]
pub enum ActivateEvent {
    /// A connection was asked for.
    Connected(Result<Screens, String>),
    /// The atom `_NET_ACTIVE_WINDOW` was asked for.
    Interned { root: u32, atom: Result<u32, AtomFault> },
    /// The request was sent.
    Sent(Result<(), String>),
    /// The connection was flushed.
    Flushed(Result<(), String>),
}

/// What the program does next while a window is activated.
#[derive(Debug)]
pub enum ActivateAction {
    /// Ask for the atom `_NET_ACTIVE_WINDOW`.
    InternAtom { root: u32 },
    /// Send this request.
    Send(ActivationRequest),
    /// Flush the connection.
    Flush,
    /// The request is on its way, or could not be sent.
    Finish(Result<(), String>),
}

/// An [`ActivateAction`] with the text of its message.
pub enum ActivateActionView {
    InternAtom { root: u32 },
    Send(RequestView),
    Flush,
    Finish(Result<(), Seq<char>>),
}

impl View for ActivateAction {
    type V = ActivateActionView;

    open spec fn view(&self) -> ActivateActionView {
        match self {
            ActivateAction::InternAtom { root } => ActivateActionView::InternAtom { root: *root },
            ActivateAction::Send(request) => ActivateActionView::Send(request@),
            ActivateAction::Flush => ActivateActionView::Flush,
            ActivateAction::Finish(r) => ActivateActionView::Finish(result_text(*r)),
        }
    }
}

/// What follows `event` while `window` is activated.
pub open spec fn activate_next(window: u32, event: ActivateEvent) -> ActivateActionView {
    match event {
        ActivateEvent::Connected(Ok(screens)) => match screens.default_root() {
            Some(root) => ActivateActionView::InternAtom { root },
            None => ActivateActionView::Finish(Err("Failed to get screen"@)),
        },
        ActivateEvent::Connected(Err(e)) => ActivateActionView::Finish(
            Err("X11 connect failed: "@ + e@),
        ),
        ActivateEvent::Interned { root, atom: Ok(atom) } => ActivateActionView::Send(
            activation_request(root, window, atom),
        ),
        ActivateEvent::Interned { atom: Err(AtomFault::Request(e)), .. } => {
            ActivateActionView::Finish(Err("Failed to intern atom: "@ + e@))
        },
        ActivateEvent::Interned { atom: Err(AtomFault::Reply(e)), .. } => {
            ActivateActionView::Finish(Err("Failed to get atom reply: "@ + e@))
        },
        ActivateEvent::Sent(Ok(_)) => ActivateActionView::Flush,
        ActivateEvent::Sent(Err(e)) => ActivateActionView::Finish(
            Err("Failed to send event: "@ + e@),
        ),
        ActivateEvent::Flushed(Ok(_)) => ActivateActionView::Finish(Ok(())),
        ActivateEvent::Flushed(Err(e)) => ActivateActionView::Finish(
            Err("Failed to flush: "@ + e@),
        ),
    }
}

/// Activates a window using the EWMH `_NET_ACTIVE_WINDOW` protocol, one step at
/// a time. This is the proper way to request focus and is respected by window
/// managers even with focus stealing prevention enabled.
pub fn x11_activate_window_by_id(window_id: u32, event: ActivateEvent) -> (action: ActivateAction)
    ensures
        action@ == activate_next(window_id, event),
{
    match event {
        ActivateEvent::Connected(Ok(screens)) => match screens.root() {
            Some(root) => ActivateAction::InternAtom { root },
            None => ActivateAction::Finish(Err("Failed to get screen".to_string())),
        },
        ActivateEvent::Connected(Err(error)) => ActivateAction::Finish(
            Err(concat2("X11 connect failed: ", error.as_str())),
        ),
        ActivateEvent::Interned { root, atom: Ok(atom) } => {
            let data: [u32; 5] = [1, 0, 0, 0, 0];
            assert(data@ =~= seq![1u32, 0, 0, 0, 0]);
            let message = ClientMessage {
                response_type: 33,
                format: 32,
                sequence: 0,
                window: window_id,
                type_: atom,
                data,
            };
            ActivateAction::Send(
                ActivationRequest {
                    propagate: false,
                    destination: root,
                    event_mask: substructure_event_mask(),
                    message,
                },
            )
        },
        ActivateEvent::Interned { root, atom: Err(AtomFault::Request(error)) } => {
            ActivateAction::Finish(Err(concat2("Failed to intern atom: ", error.as_str())))
        },
        ActivateEvent::Interned { root, atom: Err(AtomFault::Reply(error)) } => {
            ActivateAction::Finish(Err(concat2("Failed to get atom reply: ", error.as_str())))
        },
        ActivateEvent::Sent(Ok(_)) => ActivateAction::Flush,
        ActivateEvent::Sent(Err(error)) => ActivateAction::Finish(
            Err(concat2("Failed to send event: ", error.as_str())),
        ),
        ActivateEvent::Flushed(Ok(_)) => ActivateAction::Finish(Ok(())),
        ActivateEvent::Flushed(Err(error)) => ActivateAction::Finish(
            Err(concat2("Failed to flush: ", error.as_str())),
        ),
    }
}

// ---------------------------------------------------------------------------
// Forcing input focus
// ---------------------------------------------------------------------------
/// What is known while input focus is forced.
#[derive(Debug)]
pub enum ForceEvent {
    /// A connection was asked for.
    Connected(Result<(), String>),
    /// The server was asked to set the focus.
    Requested(Result<(), String>),
    /// The connection was flushed.
    Flushed(Result<(), String>),
}

/// What the program does next while input focus is forced.
#[derive(Debug)]
pub enum ForceAction {
    /// Ask the server to set the focus.
    SetFocus(FocusRequest),
    /// Flush the connection.
    Flush,
    /// The focus was set, or could not be set.
    Finish(Result<(), String>),
}

/// A [`ForceAction`] with the text of its message.
pub enum ForceActionView {
    SetFocus(FocusRequest),
    Flush,
    Finish(Result<(), Seq<char>>),
}

impl View for ForceAction {
    type V = ForceActionView;

    open spec fn view(&self) -> ForceActionView {
        match self {
            ForceAction::SetFocus(request) => ForceActionView::SetFocus(*request),
            ForceAction::Flush => ForceActionView::Flush,
            ForceAction::Finish(r) => ForceActionView::Finish(result_text(*r)),
        }
    }
}

/// The request that forces input focus to `window`: now, reverting to the
/// pointer's root window.
pub open spec fn force_request(window: u32) -> FocusRequest {
    FocusRequest { revert_to: REVERT_TO_POINTER_ROOT, window, time: CURRENT_TIME }
}

/// What follows `event` while input focus is forced to `window`.
pub open spec fn force_next(window: u32, event: ForceEvent) -> ForceActionView {
    match event {
        ForceEvent::Connected(Ok(_)) => ForceActionView::SetFocus(force_request(window)),
        ForceEvent::Connected(Err(e)) => ForceActionView::Finish(
            Err("X11 connect failed: "@ + e@),
        ),
        ForceEvent::Requested(Ok(_)) => ForceActionView::Flush,
        ForceEvent::Requested(Err(e)) => ForceActionView::Finish(
            Err("set_input_focus failed: "@ + e@),
        ),
        ForceEvent::Flushed(Ok(_)) => ForceActionView::Finish(Ok(())),
        ForceEvent::Flushed(Err(e)) => ForceActionView::Finish(Err("Flush failed: "@ + e@)),
    }
}

/// Sets input focus directly, one step at a time. It is a fallback for when
/// `_NET_ACTIVE_WINDOW` doesn't work.
pub fn x11_force_input_focus(window_id: u32, event: ForceEvent) -> (action: ForceAction)
    ensures
        action@ == force_next(window_id, event),
{
    match event {
        ForceEvent::Connected(Ok(_)) => ForceAction::SetFocus(
            FocusRequest {
                revert_to: REVERT_TO_POINTER_ROOT,
                window: window_id,
                time: CURRENT_TIME,
            },
        ),
        ForceEvent::Connected(Err(error)) => ForceAction::Finish(
            Err(concat2("X11 connect failed: ", error.as_str())),
        ),
        ForceEvent::Requested(Ok(_)) => ForceAction::Flush,
        ForceEvent::Requested(Err(error)) => ForceAction::Finish(
            Err(concat2("set_input_focus failed: ", error.as_str())),
        ),
        ForceEvent::Flushed(Ok(_)) => ForceAction::Finish(Ok(())),
        ForceEvent::Flushed(Err(error)) => ForceAction::Finish(
            Err(concat2("Flush failed: ", error.as_str())),
        ),
    }
}

// ---------------------------------------------------------------------------
// Activating a window by its title
// ---------------------------------------------------------------------------
/// What is known while a window is activated by its title.
#[derive(Debug)]
pub enum TitleActivationEvent {
    /// The activation is wanted.
    Begin,
    /// The window was waited for.
    Waited(Option<u32>),
    /// The window was activated by its id.
    Activated(Result<(), String>),
    /// The pause is over.
    Paused,
}

/// What the program does next while a window is activated by its title.
#[derive(Debug)]
pub enum TitleActivationAction {
    /// Wait for the window, for this many nanoseconds at most.
    Wait { timeout: u128 },
    /// Activate this window by its id.
    Activate { window: u32 },
    /// Pause for this many nanoseconds.
    Pause(u128),
    /// The window is activated, or could not be.
    Finish(Result<(), String>),
}

/// A [`TitleActivationAction`] with the text of its message.
pub enum TitleActivationActionView {
    Wait { timeout: u128 },
    Activate { window: u32 },
    Pause(u128),
    Finish(Result<(), Seq<char>>),
}

impl View for TitleActivationAction {
    type V = TitleActivationActionView;

    open spec fn view(&self) -> TitleActivationActionView {
        match self {
            TitleActivationAction::Wait { timeout } => TitleActivationActionView::Wait {
                timeout: *timeout,
            },
            TitleActivationAction::Activate { window } => TitleActivationActionView::Activate {
                window: *window,
            },
            TitleActivationAction::Pause(nanos) => TitleActivationActionView::Pause(*nanos),
            TitleActivationAction::Finish(r) => TitleActivationActionView::Finish(
                result_text(*r),
            ),
        }
    }
}

/// What follows `event` while the window with this title is activated.
pub open spec fn title_activation_next(
    title: Seq<char>,
    event: TitleActivationEvent,
) -> TitleActivationActionView {
    match event {
        TitleActivationEvent::Begin => TitleActivationActionView::Wait {
            timeout: WINDOW_MAP_TIMEOUT,
        },
        TitleActivationEvent::Waited(Some(window)) => TitleActivationActionView::Activate {
            window,
        },
        TitleActivationEvent::Waited(None) => TitleActivationActionView::Finish(
            Err("Window '"@ + title + "' not found within timeout"@),
        ),
        TitleActivationEvent::Activated(Ok(_)) => TitleActivationActionView::Pause(
            ACTIVATION_PAUSE,
        ),
        TitleActivationEvent::Activated(Err(e)) => TitleActivationActionView::Finish(Err(e@)),
        TitleActivationEvent::Paused => TitleActivationActionView::Finish(Ok(())),
    }
}

/// Activates a window by its title, one step at a time: the window is waited
/// for, activated by its id, and given a moment.
pub fn x11_activate_window_by_title(title: &str, event: TitleActivationEvent) -> (action:
    TitleActivationAction)
    ensures
        action@ == title_activation_next(title@, event),
{
    match event {
        TitleActivationEvent::Begin => TitleActivationAction::Wait { timeout: WINDOW_MAP_TIMEOUT },
        TitleActivationEvent::Waited(Some(window)) => TitleActivationAction::Activate { window },
        TitleActivationEvent::Waited(None) => TitleActivationAction::Finish(
            Err(concat3("Window '", title, "' not found within timeout")),
        ),
        TitleActivationEvent::Activated(Ok(_)) => TitleActivationAction::Pause(ACTIVATION_PAUSE),
        TitleActivationEvent::Activated(Err(error)) => TitleActivationAction::Finish(Err(error)),
        TitleActivationEvent::Paused => TitleActivationAction::Finish(Ok(())),
    }
}

// ---------------------------------------------------------------------------
// Robust activation
// ---------------------------------------------------------------------------
/// What is known during a robust activation.
#[derive(Debug)]
pub enum RobustEvent {
    /// The activation is wanted.
    Begin,
    /// The window was waited for.
    Waited(Option<u32>),
    /// This window was activated by its id, with whatever success.
    Activated { window: u32, outcome: Result<(), String> },
    /// The pause is over.
    Paused { window: u32 },
    /// The focused window was asked for.
    Focus { window: u32, current: Option<u32> },
    /// Input focus was forced.
    Forced(Result<(), String>),
}

/// What the program does next during a robust activation.
#[derive(Debug)]
pub enum RobustAction {
    /// Wait for the window, for this many nanoseconds at most.
    Wait { timeout: u128 },
    /// Activate this window by its id.
    Activate { window: u32 },
    /// Pause for this many nanoseconds.
    Pause { window: u32, nanos: u128 },
    /// Ask for the focused window.
    QueryFocus { window: u32 },
    /// Force input focus to this window.
    Force { window: u32 },
    /// The window has focus, or could not get it.
    Finish(Result<(), String>),
}

/// A [`RobustAction`] with the text of its message.
pub enum RobustActionView {
    Wait { timeout: u128 },
    Activate { window: u32 },
    Pause { window: u32, nanos: u128 },
    QueryFocus { window: u32 },
    Force { window: u32 },
    Finish(Result<(), Seq<char>>),
}

impl View for RobustAction {
    type V = RobustActionView;

    open spec fn view(&self) -> RobustActionView {
        match self {
            RobustAction::Wait { timeout } => RobustActionView::Wait { timeout: *timeout },
            RobustAction::Activate { window } => RobustActionView::Activate { window: *window },
            RobustAction::Pause { window, nanos } => RobustActionView::Pause {
                window: *window,
                nanos: *nanos,
            },
            RobustAction::QueryFocus { window } => RobustActionView::QueryFocus {
                window: *window,
            },
            RobustAction::Force { window } => RobustActionView::Force { window: *window },
            RobustAction::Finish(r) => RobustActionView::Finish(result_text(*r)),
        }
    }
}

/// What follows `event` in a robust activation of the window with this title.
pub open spec fn robust_next(title: Seq<char>, event: RobustEvent) -> RobustActionView {
    match event {
        RobustEvent::Begin => RobustActionView::Wait { timeout: WINDOW_MAP_TIMEOUT },
        RobustEvent::Waited(Some(window)) => RobustActionView::Activate { window },
        RobustEvent::Waited(None) => RobustActionView::Finish(
            Err("Window '"@ + title + "' not found"@),
        ),
        RobustEvent::Activated { window, .. } => RobustActionView::Pause {
            window,
            nanos: ROBUST_ACTIVATION_PAUSE,
        },
        RobustEvent::Paused { window } => RobustActionView::QueryFocus { window },
        RobustEvent::Focus { window, current } => if current == Some(window) {
            RobustActionView::Finish(Ok(()))
        } else {
            RobustActionView::Force { window }
        },
        RobustEvent::Forced(outcome) => RobustActionView::Finish(result_text(outcome)),
    }
}

/// Combined activation strategy that tries multiple methods, one step at a time:
/// wait for the window, ask the window manager, and force input focus where the
/// focus did not arrive or cannot be told.
pub fn x11_robust_activate(title: &str, event: RobustEvent) -> (action: RobustAction)
    ensures
        action@ == robust_next(title@, event),
{
    match event {
        RobustEvent::Begin => RobustAction::Wait { timeout: WINDOW_MAP_TIMEOUT },
        RobustEvent::Waited(Some(window)) => RobustAction::Activate { window },
        RobustEvent::Waited(None) => RobustAction::Finish(
            Err(concat3("Window '", title, "' not found")),
        ),
        RobustEvent::Activated { window, .. } => RobustAction::Pause {
            window,
            nanos: ROBUST_ACTIVATION_PAUSE,
        },
        RobustEvent::Paused { window } => RobustAction::QueryFocus { window },
        RobustEvent::Focus { window, current } => {
            let acquired = match current {
                Some(focus) => focus == window,
                None => false,
            };
            if acquired {
                RobustAction::Finish(Ok(()))
            } else {
                RobustAction::Force { window }
            }
        },
        RobustEvent::Forced(outcome) => RobustAction::Finish(outcome),
    }
}

// ---------------------------------------------------------------------------
// Laws
// ---------------------------------------------------------------------------
/// What the outside answers in the course of an activation by id.
pub struct ActivateAnswers {
    pub connected: Result<Screens, String>,
    pub atom: Result<u32, AtomFault>,
    pub sent: Result<(), String>,
    pub flushed: Result<(), String>,
}

/// The event that reports the outcome of `action`.
pub open spec fn activate_report(
    answers: ActivateAnswers,
    action: ActivateActionView,
) -> ActivateEvent {
    match action {
        ActivateActionView::InternAtom { root } => ActivateEvent::Interned {
            root,
            atom: answers.atom,
        },
        ActivateActionView::Send(_) => ActivateEvent::Sent(answers.sent),
        _ => ActivateEvent::Flushed(answers.flushed),
    }
}

/// The actions of an activation from `action` on, and where it ends.
pub open spec fn activate_course(
    window: u32,
    answers: ActivateAnswers,
    action: ActivateActionView,
    steps: nat,
) -> (Seq<ActivateActionView>, ActivateActionView)
    decreases steps,
{
    if steps == 0 || action is Finish {
        (Seq::empty(), action)
    } else {
        let (rest, end) = activate_course(
            window,
            answers,
            activate_next(window, activate_report(answers, action)),
            (steps - 1) as nat,
        );
        (seq![action] + rest, end)
    }
}

/// An activation ends, and it succeeds exactly where the server has a screen and
/// answered everything well. Then exactly one message went out: the request to
/// activate this window, to the root window. More than one never goes out.
pub proof fn law_activation_sends_exactly_one_request(window: u32, answers: ActivateAnswers)
    ensures
        ({
            let first = activate_next(window, ActivateEvent::Connected(answers.connected));
            let (actions, end) = activate_course(window, answers, first, 3);
            let good = {
                &&& answers.connected matches Ok(screens) && screens.default_root() is Some
                &&& answers.atom is Ok
                &&& answers.sent is Ok
                &&& answers.flushed is Ok
            };
            let root = answers.connected->Ok_0.default_root()->0;
            &&& end is Finish
            &&& end == ActivateActionView::Finish(Ok(())) <==> good
            &&& good ==> actions == seq![
                ActivateActionView::InternAtom { root },
                ActivateActionView::Send(activation_request(root, window, answers.atom->Ok_0)),
                ActivateActionView::Flush,
            ]
            &&& forall|i: int|
                0 <= i < actions.len() && (#[trigger] actions[i]) is Send ==> i == 1
        }),
{
    let first = activate_next(window, ActivateEvent::Connected(answers.connected));
    reveal_with_fuel(activate_course, 4);
    let (actions, end) = activate_course(window, answers, first, 3);
    if end == ActivateActionView::Finish(Ok(())) {
        let root = answers.connected->Ok_0.default_root()->0;
        assert(actions =~= seq![
            ActivateActionView::InternAtom { root },
            ActivateActionView::Send(activation_request(root, window, answers.atom->Ok_0)),
            ActivateActionView::Flush,
        ]);
    }
}

/// What the outside answers while input focus is forced.
pub struct ForceAnswers {
    pub connected: Result<(), String>,
    pub requested: Result<(), String>,
    pub flushed: Result<(), String>,
}

/// The actions of forcing input focus from `action` on, and where it ends.
pub open spec fn force_course(
    window: u32,
    answers: ForceAnswers,
    action: ForceActionView,
    steps: nat,
) -> (Seq<ForceActionView>, ForceActionView)
    decreases steps,
{
    if steps == 0 || action is Finish {
        (Seq::empty(), action)
    } else {
        let event = if action is SetFocus {
            ForceEvent::Requested(answers.requested)
        } else {
            ForceEvent::Flushed(answers.flushed)
        };
        let (rest, end) = force_course(
            window,
            answers,
            force_next(window, event),
            (steps - 1) as nat,
        );
        (seq![action] + rest, end)
    }
}

/// Forcing input focus ends, and it succeeds exactly where every answer was good.
/// Then exactly one request went out, for this window; more than one never does.
pub proof fn law_forced_focus_sends_one_request(window: u32, answers: ForceAnswers)
    ensures
        ({
            let first = force_next(window, ForceEvent::Connected(answers.connected));
            let (actions, end) = force_course(window, answers, first, 2);
            let good = answers.connected is Ok && answers.requested is Ok && answers.flushed is Ok;
            &&& end is Finish
            &&& end == ForceActionView::Finish(Ok(())) <==> good
            &&& good ==> actions == seq![
                ForceActionView::SetFocus(force_request(window)),
                ForceActionView::Flush,
            ]
            &&& forall|i: int|
                0 <= i < actions.len() && (#[trigger] actions[i]) is SetFocus ==> i == 0
        }),
{
    let first = force_next(window, ForceEvent::Connected(answers.connected));
    reveal_with_fuel(force_course, 3);
    let (actions, end) = force_course(window, answers, first, 2);
    if end == ForceActionView::Finish(Ok(())) {
        assert(actions =~= seq![
            ForceActionView::SetFocus(force_request(window)),
            ForceActionView::Flush,
        ]);
    }
}

/// What the outside answers while a window is activated by its title.
pub struct TitleAnswers {
    pub found: Option<u32>,
    pub activated: Result<(), String>,
}

/// The actions of an activation by title from `action` on, and where it ends.
pub open spec fn title_activation_course(
    title: Seq<char>,
    answers: TitleAnswers,
    action: TitleActivationActionView,
    steps: nat,
) -> (Seq<TitleActivationActionView>, TitleActivationActionView)
    decreases steps,
{
    if steps == 0 || action is Finish {
        (Seq::empty(), action)
    } else {
        let event = match action {
            TitleActivationActionView::Wait { .. } => TitleActivationEvent::Waited(answers.found),
            TitleActivationActionView::Activate { .. } => TitleActivationEvent::Activated(
                answers.activated,
            ),
            _ => TitleActivationEvent::Paused,
        };
        let (rest, end) = title_activation_course(
            title,
            answers,
            title_activation_next(title, event),
            (steps - 1) as nat,
        );
        (seq![action] + rest, end)
    }
}

/// An activation by title waits for the window once, activates the window that
/// was found once, and pauses once that worked. It succeeds exactly where the
/// window was found and activated.
pub proof fn law_title_activation_activates_the_found_window(
    title: Seq<char>,
    answers: TitleAnswers,
)
    ensures
        ({
            let wait = TitleActivationActionView::Wait { timeout: WINDOW_MAP_TIMEOUT };
            let pause = TitleActivationActionView::Pause(ACTIVATION_PAUSE);
            let first = title_activation_next(title, TitleActivationEvent::Begin);
            title_activation_course(title, answers, first, 3) == match answers.found {
                None => (
                    seq![wait],
                    TitleActivationActionView::Finish(
                        Err("Window '"@ + title + "' not found within timeout"@),
                    ),
                ),
                Some(window) => (
                    if answers.activated is Ok {
                        seq![wait, TitleActivationActionView::Activate { window }, pause]
                    } else {
                        seq![wait, TitleActivationActionView::Activate { window }]
                    },
                    TitleActivationActionView::Finish(result_text(answers.activated)),
                ),
            }
        }),
{
    let wait = TitleActivationActionView::Wait { timeout: WINDOW_MAP_TIMEOUT };
    let pause = TitleActivationActionView::Pause(ACTIVATION_PAUSE);
    let first = title_activation_next(title, TitleActivationEvent::Begin);
    reveal_with_fuel(title_activation_course, 4);
    let (actions, end) = title_activation_course(title, answers, first, 3);
    match answers.found {
        None => {
            assert(actions =~= seq![wait]);
        },
        Some(window) => {
            if answers.activated is Ok {
                assert(actions =~= seq![
                    wait,
                    TitleActivationActionView::Activate { window },
                    pause,
                ]);
            } else {
                assert(actions =~= seq![wait, TitleActivationActionView::Activate { window }]);
            }
        },
    }
}

/// What the outside answers in the course of a robust activation.
pub struct RobustAnswers {
    pub found: Option<u32>,
    pub activated: Result<(), String>,
    pub focus: Option<u32>,
    pub forced: Result<(), String>,
}

/// The event that reports the outcome of `action`.
pub open spec fn robust_report(answers: RobustAnswers, action: RobustActionView) -> RobustEvent {
    match action {
        RobustActionView::Wait { .. } => RobustEvent::Waited(answers.found),
        RobustActionView::Activate { window } => RobustEvent::Activated {
            window,
            outcome: answers.activated,
        },
        RobustActionView::Pause { window, .. } => RobustEvent::Paused { window },
        RobustActionView::QueryFocus { window } => RobustEvent::Focus {
            window,
            current: answers.focus,
        },
        _ => RobustEvent::Forced(answers.forced),
    }
}

/// The actions of a robust activation from `action` on, and where it ends.
pub open spec fn robust_course(
    title: Seq<char>,
    answers: RobustAnswers,
    action: RobustActionView,
    steps: nat,
) -> (Seq<RobustActionView>, RobustActionView)
    decreases steps,
{
    if steps == 0 || action is Finish {
        (Seq::empty(), action)
    } else {
        let (rest, end) = robust_course(
            title,
            answers,
            robust_next(title, robust_report(answers, action)),
            (steps - 1) as nat,
        );
        (seq![action] + rest, end)
    }
}

/// What a robust activation does with a window that was found, up to the look at
/// the focus.
pub open spec fn robust_attempt(window: u32) -> Seq<RobustActionView> {
    seq![
        RobustActionView::Wait { timeout: WINDOW_MAP_TIMEOUT },
        RobustActionView::Activate { window },
        RobustActionView::Pause { window, nanos: ROBUST_ACTIVATION_PAUSE },
        RobustActionView::QueryFocus { window },
    ]
}

/// A robust activation fails where the window does not appear. Otherwise it asks
/// the window manager once, pauses and looks at the focus, whatever the window
/// manager said. It succeeds where the window has the focus; else it forces the
/// focus, once, and comes out as that does.
pub proof fn law_robust_activation_outcome(title: Seq<char>, answers: RobustAnswers)
    ensures
        robust_course(title, answers, robust_next(title, RobustEvent::Begin), 5)
            == match answers.found {
            None => (
                seq![RobustActionView::Wait { timeout: WINDOW_MAP_TIMEOUT }],
                RobustActionView::Finish(Err("Window '"@ + title + "' not found"@)),
            ),
            Some(window) => if answers.focus == Some(window) {
                (robust_attempt(window), RobustActionView::Finish(Ok(())))
            } else {
                (
                    robust_attempt(window).push(RobustActionView::Force { window }),
                    RobustActionView::Finish(result_text(answers.forced)),
                )
            },
        },
{
    reveal_with_fuel(robust_course, 6);
    let first = robust_next(title, RobustEvent::Begin);
    let (actions, end) = robust_course(title, answers, first, 5);
    match answers.found {
        None => {
            assert(actions =~= seq![RobustActionView::Wait { timeout: WINDOW_MAP_TIMEOUT }]);
        },
        Some(window) => {
            if answers.focus == Some(window) {
                assert(actions =~= robust_attempt(window));
            } else {
                assert(actions =~= robust_attempt(window).push(
                    RobustActionView::Force { window },
                ));
            }
        },
    }
}

} // verus!
