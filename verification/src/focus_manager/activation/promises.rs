//! What the activations promise: what goes out, to which window, and what they come
//! to.

use vstd::prelude::*;

use crate::focus_manager::activation::{
    x11_activate_window_by_id, x11_activate_window_by_title, x11_force_input_focus,
    x11_robust_activate, ActivateAction, ActivateEvent, AtomFault, ForceAction, ForceEvent,
    RobustAction, RobustEvent, TitleActivationAction, TitleActivationEvent,
};

verus! {

/// The only message that an activation sends is an application's request, at the
/// current time, to make exactly the given window active; it goes to the root window
/// that the atom was asked for with, and only once the atom is known.
pub proof fn law_activation_request_names_the_window(
    window: u32,
    event: ActivateEvent,
    action: ActivateAction,
)
    requires
        call_ensures(x11_activate_window_by_id, (window, event), action),
    ensures
        action is Send <==> (event matches ActivateEvent::Interned { atom, .. } && atom is Ok),
        action matches ActivateAction::Send(request) ==> {
            &&& request.message.window == window
            &&& request.message.type_ == event->atom->Ok_0
            &&& request.destination == event->root
            &&& !request.propagate
            &&& request.event_mask == 0x18_0000
            &&& request.message.response_type == 33
            &&& request.message.format == 32
            &&& request.message.sequence == 0
            &&& request.message.data@.len() == 5
            &&& request.message.data@[0] == 1
            &&& forall|i: int| 1 <= i < 5 ==> (#[trigger] request.message.data@[i]) == 0
        },
{
    if action is Send {
        let data = action->Send_0.message.data@;
        assert(data == seq![1u32, 0, 0, 0, 0]);
        assert forall|i: int| 1 <= i < 5 implies (#[trigger] data[i]) == 0 by {}
    }
}

/// An activation goes from the connection to the atom, to the message, to the flush;
/// it takes the root window of the default screen; and it stops with the first
/// failure, in that failure's words.
pub proof fn law_activation_stops_with_the_first_failure(
    window: u32,
    event: ActivateEvent,
    action: ActivateAction,
)
    requires
        call_ensures(x11_activate_window_by_id, (window, event), action),
    ensures
        match event {
            ActivateEvent::Connected(Ok(screens)) => if screens.default_screen
                < screens.roots@.len() {
                action matches ActivateAction::InternAtom { root } && root
                    == screens.roots@[screens.default_screen as int]
            } else {
                action matches ActivateAction::Finish(Err(m)) && m@ == "Failed to get screen"@
            },
            ActivateEvent::Connected(Err(e)) => action matches ActivateAction::Finish(Err(m)) && m@
                == "X11 connect failed: "@ + e@,
            ActivateEvent::Interned { atom: Ok(_), .. } => action is Send,
            ActivateEvent::Interned { atom: Err(AtomFault::Request(e)), .. } => action matches
                ActivateAction::Finish(Err(m)) && m@ == "Failed to intern atom: "@ + e@,
            ActivateEvent::Interned { atom: Err(AtomFault::Reply(e)), .. } => action matches
                ActivateAction::Finish(Err(m)) && m@ == "Failed to get atom reply: "@ + e@,
            ActivateEvent::Sent(Ok(_)) => action is Flush,
            ActivateEvent::Sent(Err(e)) => action matches ActivateAction::Finish(Err(m)) && m@
                == "Failed to send event: "@ + e@,
            ActivateEvent::Flushed(Ok(_)) => action == ActivateAction::Finish(Ok(())),
            ActivateEvent::Flushed(Err(e)) => action matches ActivateAction::Finish(Err(m)) && m@
                == "Failed to flush: "@ + e@,
        },
{
}

/// Forced focus goes to exactly the given window, now, with the pointer's root
/// window as the place to revert to; it is flushed, and stops with the first
/// failure.
pub proof fn law_forced_focus_goes_to_the_window(
    window: u32,
    event: ForceEvent,
    action: ForceAction,
)
    requires
        call_ensures(x11_force_input_focus, (window, event), action),
    ensures
        action is SetFocus <==> (event matches ForceEvent::Connected(r) && r is Ok),
        action matches ForceAction::SetFocus(request) ==> request.window == window
            && request.revert_to == 1 && request.time == 0,
        action is Flush <==> (event matches ForceEvent::Requested(r) && r is Ok),
        action == ForceAction::Finish(Ok(())) <==> (event matches ForceEvent::Flushed(r) && r is Ok),
        event matches ForceEvent::Connected(Err(e)) ==> (action matches ForceAction::Finish(Err(m))
            && m@ == "X11 connect failed: "@ + e@),
        event matches ForceEvent::Requested(Err(e)) ==> (action matches ForceAction::Finish(Err(m))
            && m@ == "set_input_focus failed: "@ + e@),
        event matches ForceEvent::Flushed(Err(e)) ==> (action matches ForceAction::Finish(Err(m))
            && m@ == "Flush failed: "@ + e@),
{
}

/// Activation by title waits half a second at most, activates exactly the window
/// that was found, pauses for twenty milliseconds where that worked, and comes out
/// as the activation did; a window that was not found is named in the error.
pub proof fn law_title_activation_follows_the_found_window(
    title: &str,
    event: TitleActivationEvent,
    action: TitleActivationAction,
)
    requires
        call_ensures(x11_activate_window_by_title, (title, event), action),
    ensures
        event is Begin <==> action is Wait,
        action matches TitleActivationAction::Wait { timeout } ==> timeout == 500_000_000,
        action is Activate <==> (event matches TitleActivationEvent::Waited(found)
            && found is Some),
        action matches TitleActivationAction::Activate { window } ==> event
            == TitleActivationEvent::Waited(Some(window)),
        event == TitleActivationEvent::Waited(None) ==> (action matches
            TitleActivationAction::Finish(Err(m)) && m@ == "Window '"@ + title@
            + "' not found within timeout"@),
        action is Pause <==> (event matches TitleActivationEvent::Activated(r) && r is Ok),
        action matches TitleActivationAction::Pause(nanos) ==> nanos == 20_000_000,
        event matches TitleActivationEvent::Activated(Err(e)) ==> (action matches
            TitleActivationAction::Finish(Err(m)) && m@ == e@),
        action == TitleActivationAction::Finish(Ok(())) <==> event is Paused,
{
}

/// Robust activation waits half a second at most, asks the window manager for the
/// found window, goes on after thirty milliseconds whatever that came to, and then
/// forces the focus exactly where it is on another window or cannot be told. One
/// window is meant from the first step to the last.
pub proof fn law_robust_activation_forces_what_did_not_arrive(
    title: &str,
    event: RobustEvent,
    action: RobustAction,
)
    requires
        call_ensures(x11_robust_activate, (title, event), action),
    ensures
        event is Begin ==> (action matches RobustAction::Wait { timeout } && timeout
            == 500_000_000),
        event matches RobustEvent::Waited(Some(window)) ==> action == (RobustAction::Activate {
            window,
        }),
        event == RobustEvent::Waited(None) ==> (action matches RobustAction::Finish(Err(m)) && m@
            == "Window '"@ + title@ + "' not found"@),
        event matches RobustEvent::Activated { window, .. } ==> action == (RobustAction::Pause {
            window,
            nanos: 30_000_000,
        }),
        event matches RobustEvent::Paused { window } ==> action == (RobustAction::QueryFocus {
            window,
        }),
        event matches RobustEvent::Focus { window, current } ==> {
            &&& current == Some(window) ==> action == RobustAction::Finish(Ok(()))
            &&& current != Some(window) ==> action == (RobustAction::Force { window })
        },
        event matches RobustEvent::Forced(Ok(_)) ==> action == RobustAction::Finish(Ok(())),
        event matches RobustEvent::Forced(Err(e)) ==> (action matches RobustAction::Finish(Err(m))
            && m@ == e@),
{
}

} // verus!
