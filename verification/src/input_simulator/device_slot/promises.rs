//! What the device slots promise, step by step.

use vstd::prelude::*;

use crate::input_simulator::device_slot::{
    UinputPasteAction, UinputPasteActionView, UinputPasteEvent, XtestPasteAction,
    XtestPasteActionView, XtestPasteEvent,
};
use crate::input_simulator::{FailureView, PasteFailure};

verus! {

use crate::input_simulator::device_slot::{
    uinput_paste_next, uinput_slot_after, xtest_paste_next, xtest_slot_after,
};
use crate::input_simulator::paste_outcome;

/// A backend's report is seen whole.
pub proof fn law_reports_are_seen_whole(r: Result<(), PasteFailure>)
    ensures
        r is Ok ==> paste_outcome(r) == Ok::<(), FailureView>(()),
        r matches Err(PasteFailure::Retryable(e)) ==> paste_outcome(r) == Err::<(), FailureView>(
            FailureView::Retryable(e@),
        ),
        r matches Err(PasteFailure::Ambiguous(e)) ==> paste_outcome(r) == Err::<(), FailureView>(
            FailureView::Ambiguous(e@),
        ),
{
}

/// What is said of an action is said of all that it holds.
pub proof fn law_paste_actions_are_seen_whole<D>(
    xtest: XtestPasteAction,
    uinput: UinputPasteAction<D>,
)
    ensures
        match xtest {
            XtestPasteAction::Create => xtest@ is Create,
            XtestPasteAction::Refresh => xtest@ is Refresh,
            XtestPasteAction::Send => xtest@ is Send,
            XtestPasteAction::Finish(r) => xtest@ == XtestPasteActionView::Finish(
                paste_outcome(r),
            ),
        },
        match uinput {
            UinputPasteAction::SendExisting => uinput@ is SendExisting,
            UinputPasteAction::Create => uinput@ is Create,
            UinputPasteAction::SendNew { device } => uinput@ == (UinputPasteActionView::SendNew {
                device,
            }),
            UinputPasteAction::Finish(r) => uinput@ == UinputPasteActionView::<D>::Finish(
                paste_outcome(r),
            ),
        },
{
}

/// The XTest slot changes in three ways only: a device that was created is put in,
/// and a device whose refresh or chord failed is taken out.
pub proof fn law_xtest_slot_changes_in_three_ways<D>(slot: Option<D>, event: XtestPasteEvent<D>)
    ensures
        match event {
            XtestPasteEvent::Created(Ok(device)) => xtest_slot_after(slot, event) == Some(device),
            XtestPasteEvent::Refreshed(Err(_)) => xtest_slot_after(slot, event) is None,
            XtestPasteEvent::Sent(Err(_)) => xtest_slot_after(slot, event) is None,
            XtestPasteEvent::Begin => xtest_slot_after(slot, event) == slot,
            XtestPasteEvent::Created(Err(_)) => xtest_slot_after(slot, event) == slot,
            XtestPasteEvent::Refreshed(Ok(_)) => xtest_slot_after(slot, event) == slot,
            XtestPasteEvent::Sent(Ok(_)) => xtest_slot_after(slot, event) == slot,
        },
{
}

/// An attempt through XTest creates a device exactly where none is kept, brings the
/// keys up to date before each chord, and hands on the report of the chord as it is;
/// a failure before the chord leaves room for another backend.
pub proof fn law_xtest_attempt_goes_step_by_step<D>(slot: Option<D>, event: XtestPasteEvent<D>)
    ensures
        match event {
            XtestPasteEvent::Begin => {
                &&& slot is None ==> xtest_paste_next(slot, event) is Create
                &&& slot is Some ==> xtest_paste_next(slot, event) is Refresh
            },
            XtestPasteEvent::Created(Ok(_)) => xtest_paste_next(slot, event) is Refresh,
            XtestPasteEvent::Refreshed(Ok(_)) => xtest_paste_next(slot, event) is Send,
            XtestPasteEvent::Created(Err(e)) => xtest_paste_next(slot, event)
                == XtestPasteActionView::Finish(Err(FailureView::Retryable(e@))),
            XtestPasteEvent::Refreshed(Err(e)) => xtest_paste_next(slot, event)
                == XtestPasteActionView::Finish(Err(FailureView::Retryable(e@))),
            XtestPasteEvent::Sent(r) => xtest_paste_next(slot, event)
                == XtestPasteActionView::Finish(paste_outcome(r)),
        },
{
}

/// The uinput slot changes in two ways only: a new device that sent its chord is put
/// in, and a kept device whose chord failed is taken out.
pub proof fn law_uinput_slot_changes_in_two_ways<D>(slot: Option<D>, event: UinputPasteEvent<D>)
    ensures
        match event {
            UinputPasteEvent::SentExisting(Err(_)) => uinput_slot_after(slot, event) is None,
            UinputPasteEvent::SentNew { device, outcome: Ok(_) } => uinput_slot_after(slot, event)
                == Some(device),
            UinputPasteEvent::Begin => uinput_slot_after(slot, event) == slot,
            UinputPasteEvent::SentExisting(Ok(_)) => uinput_slot_after(slot, event) == slot,
            UinputPasteEvent::Created(_) => uinput_slot_after(slot, event) == slot,
            UinputPasteEvent::SentNew { outcome: Err(_), .. } => uinput_slot_after(slot, event)
                == slot,
        },
{
}

/// An attempt through uinput uses the kept device where there is one and creates one
/// exactly where there is none; a device that could not be created leaves room for
/// another backend, and a chord that failed never does.
pub proof fn law_uinput_attempt_goes_step_by_step<D>(slot: Option<D>, event: UinputPasteEvent<D>)
    ensures
        match event {
            UinputPasteEvent::Begin => {
                &&& slot is None ==> uinput_paste_next(slot, event) is Create
                &&& slot is Some ==> uinput_paste_next(slot, event) is SendExisting
            },
            UinputPasteEvent::Created(Ok(device)) => uinput_paste_next(slot, event) == (
            UinputPasteActionView::SendNew { device }),
            UinputPasteEvent::Created(Err(e)) => uinput_paste_next(slot, event)
                == UinputPasteActionView::<D>::Finish(Err(FailureView::Retryable(e@))),
            UinputPasteEvent::SentExisting(Ok(_)) => uinput_paste_next(slot, event)
                == UinputPasteActionView::<D>::Finish(Ok(())),
            UinputPasteEvent::SentNew { outcome: Ok(_), .. } => uinput_paste_next(slot, event)
                == UinputPasteActionView::<D>::Finish(Ok(())),
            UinputPasteEvent::SentExisting(Err(e)) => uinput_paste_next(slot, event)
                == UinputPasteActionView::<D>::Finish(Err(FailureView::Ambiguous(e@))),
            UinputPasteEvent::SentNew { outcome: Err(e), .. } => uinput_paste_next(slot, event)
                == UinputPasteActionView::<D>::Finish(Err(FailureView::Ambiguous(e@))),
        },
{
}

} // verus!
