//! One persistent device per backend: when it is created, when it is reused and
//! when it is given up.

use vstd::prelude::*;

use crate::input_simulator::{FailureView, PasteFailure, paste_outcome};

pub mod promises;

verus! {

// ---------------------------------------------------------------------------
// XTest
// ---------------------------------------------------------------------------
/// What is known while a chord is sent through XTest.
pub enum XtestPasteEvent<D> {
    /// The chord is wanted.
    Begin,
    /// A device was asked for.
    Created(Result<D, String>),
    /// The key codes of the device were brought up to date.
    Refreshed(Result<(), String>),
    /// The chord was sent on the device.
    Sent(Result<(), PasteFailure>),
}

/// What the program does next while a chord is sent through XTest.
pub enum XtestPasteAction {
    /// Create a device.
    Create,
    /// Bring the key codes of the device in the slot up to date.
    Refresh,
    /// Send the chord on the device in the slot.
    Send,
    /// The attempt is over.
    Finish(Result<(), PasteFailure>),
}

/// An [`XtestPasteAction`] with the text of its message.
pub enum XtestPasteActionView {
    Create,
    Refresh,
    Send,
    Finish(Result<(), FailureView>),
}

impl View for XtestPasteAction {
    type V = XtestPasteActionView;

    open spec fn view(&self) -> XtestPasteActionView {
        match self {
            XtestPasteAction::Create => XtestPasteActionView::Create,
            XtestPasteAction::Refresh => XtestPasteActionView::Refresh,
            XtestPasteAction::Send => XtestPasteActionView::Send,
            XtestPasteAction::Finish(r) => XtestPasteActionView::Finish(paste_outcome(*r)),
        }
    }
}

/// The device slot after `event`: a new device goes in, and a device that failed
/// goes out, so that the next attempt connects anew.
pub open spec fn xtest_slot_after<D>(slot: Option<D>, event: XtestPasteEvent<D>) -> Option<D> {
    match event {
        XtestPasteEvent::Created(Ok(device)) => Some(device),
        XtestPasteEvent::Refreshed(Err(_)) => None,
        XtestPasteEvent::Sent(Err(_)) => None,
        _ => slot,
    }
}

/// What follows `event`. Before V can have been pressed every failure is
/// retryable.
pub open spec fn xtest_paste_next<D>(
    slot: Option<D>,
    event: XtestPasteEvent<D>,
) -> XtestPasteActionView {
    match event {
        XtestPasteEvent::Begin => if slot is Some {
            XtestPasteActionView::Refresh
        } else {
            XtestPasteActionView::Create
        },
        XtestPasteEvent::Created(Ok(_)) => XtestPasteActionView::Refresh,
        XtestPasteEvent::Created(Err(e)) => XtestPasteActionView::Finish(
            Err(FailureView::Retryable(e@)),
        ),
        XtestPasteEvent::Refreshed(Ok(_)) => XtestPasteActionView::Send,
        XtestPasteEvent::Refreshed(Err(e)) => XtestPasteActionView::Finish(
            Err(FailureView::Retryable(e@)),
        ),
        XtestPasteEvent::Sent(outcome) => XtestPasteActionView::Finish(paste_outcome(outcome)),
    }
}

/// Sends a chord through XTest, one step at a time. `slot` keeps the device from
/// one paste to the next.
pub fn simulate_paste_xtest<D>(slot: &mut Option<D>, event: XtestPasteEvent<D>) -> (action:
    XtestPasteAction)
    ensures
        *final(slot) == xtest_slot_after(*old(slot), event),
        action@ == xtest_paste_next(*old(slot), event),
{
    match event {
        XtestPasteEvent::Begin => if slot.is_some() {
            XtestPasteAction::Refresh
        } else {
            XtestPasteAction::Create
        },
        XtestPasteEvent::Created(Ok(device)) => {
            *slot = Some(device);
            XtestPasteAction::Refresh
        },
        XtestPasteEvent::Created(Err(error)) => XtestPasteAction::Finish(
            Err(PasteFailure::Retryable(error)),
        ),
        XtestPasteEvent::Refreshed(Ok(_)) => XtestPasteAction::Send,
        XtestPasteEvent::Refreshed(Err(error)) => {
            *slot = None;
            XtestPasteAction::Finish(Err(PasteFailure::Retryable(error)))
        },
        XtestPasteEvent::Sent(outcome) => {
            if outcome.is_err() {
                *slot = None;
            }
            XtestPasteAction::Finish(outcome)
        },
    }
}

// ---------------------------------------------------------------------------
// uinput
// ---------------------------------------------------------------------------
/// What is known while a chord is sent through uinput.
pub enum UinputPasteEvent<D> {
    /// The chord is wanted.
    Begin,
    /// The chord was sent on the device in the slot.
    SentExisting(Result<(), String>),
    /// A device was asked for.
    Created(Result<D, String>),
    /// The chord was sent on a new device.
    SentNew { device: D, outcome: Result<(), String> },
}

/// What the program does next while a chord is sent through uinput.
pub enum UinputPasteAction<D> {
    /// Send the chord on the device in the slot.
    SendExisting,
    /// Create a device.
    Create,
    /// Send the chord on this new device.
    SendNew { device: D },
    /// The attempt is over.
    Finish(Result<(), PasteFailure>),
}

/// A [`UinputPasteAction`] with the text of its message.
pub enum UinputPasteActionView<D> {
    SendExisting,
    Create,
    SendNew { device: D },
    Finish(Result<(), FailureView>),
}

impl<D> View for UinputPasteAction<D> {
    type V = UinputPasteActionView<D>;

    open spec fn view(&self) -> UinputPasteActionView<D> {
        match self {
            UinputPasteAction::SendExisting => UinputPasteActionView::SendExisting,
            UinputPasteAction::Create => UinputPasteActionView::Create,
            UinputPasteAction::SendNew { device } => UinputPasteActionView::SendNew {
                device: *device,
            },
            UinputPasteAction::Finish(r) => UinputPasteActionView::Finish(paste_outcome(*r)),
        }
    }
}

/// The device slot after `event`: a new device goes in once it has sent a chord,
/// and a device that failed goes out.
pub open spec fn uinput_slot_after<D>(slot: Option<D>, event: UinputPasteEvent<D>) -> Option<D> {
    match event {
        UinputPasteEvent::SentExisting(Err(_)) => None,
        UinputPasteEvent::SentNew { device, outcome: Ok(_) } => Some(device),
        _ => slot,
    }
}

/// What follows `event`. Only a device that could not be created leaves the
/// attempt retryable; once a chord has been started, its failure is ambiguous.
pub open spec fn uinput_paste_next<D>(
    slot: Option<D>,
    event: UinputPasteEvent<D>,
) -> UinputPasteActionView<D> {
    match event {
        UinputPasteEvent::Begin => if slot is Some {
            UinputPasteActionView::SendExisting
        } else {
            UinputPasteActionView::Create
        },
        UinputPasteEvent::SentExisting(Ok(_)) => UinputPasteActionView::Finish(Ok(())),
        UinputPasteEvent::SentExisting(Err(e)) => UinputPasteActionView::Finish(
            Err(FailureView::Ambiguous(e@)),
        ),
        UinputPasteEvent::Created(Ok(device)) => UinputPasteActionView::SendNew { device },
        UinputPasteEvent::Created(Err(e)) => UinputPasteActionView::Finish(
            Err(FailureView::Retryable(e@)),
        ),
        UinputPasteEvent::SentNew { outcome: Ok(_), .. } => UinputPasteActionView::Finish(Ok(())),
        UinputPasteEvent::SentNew { outcome: Err(e), .. } => UinputPasteActionView::Finish(
            Err(FailureView::Ambiguous(e@)),
        ),
    }
}

/// Sends a chord through uinput, one step at a time. `slot` keeps the device from
/// one paste to the next.
pub fn simulate_paste_uinput<D>(slot: &mut Option<D>, event: UinputPasteEvent<D>) -> (action:
    UinputPasteAction<D>)
    ensures
        *final(slot) == uinput_slot_after(*old(slot), event),
        action@ == uinput_paste_next(*old(slot), event),
{
    match event {
        UinputPasteEvent::Begin => if slot.is_some() {
            UinputPasteAction::SendExisting
        } else {
            UinputPasteAction::Create
        },
        UinputPasteEvent::SentExisting(Ok(_)) => UinputPasteAction::Finish(Ok(())),
        UinputPasteEvent::SentExisting(Err(error)) => {
            *slot = None;
            UinputPasteAction::Finish(Err(PasteFailure::Ambiguous(error)))
        },
        UinputPasteEvent::Created(Ok(device)) => UinputPasteAction::SendNew { device },
        UinputPasteEvent::Created(Err(error)) => UinputPasteAction::Finish(
            Err(PasteFailure::Retryable(error)),
        ),
        UinputPasteEvent::SentNew { device, outcome: Ok(_) } => {
            *slot = Some(device);
            UinputPasteAction::Finish(Ok(()))
        },
        UinputPasteEvent::SentNew { device, outcome: Err(error) } => UinputPasteAction::Finish(
            Err(PasteFailure::Ambiguous(error)),
        ),
    }
}

// ---------------------------------------------------------------------------
// Warming up
// ---------------------------------------------------------------------------
/// Whether a warm-up has a device to create: not where there is one already.
pub fn warm_up_needed<D>(slot: &Option<D>) -> (r: bool)
    ensures
        r == (slot is None),
{
    slot.is_none()
}

/// Ends a warm-up: a device that was created is kept; a failure leaves the slot
/// as it is, so that the first paste tries again. The failure is handed back for
/// the log.
pub fn finish_warm_up<D>(slot: &mut Option<D>, created: Result<D, String>) -> (r: Option<String>)
    ensures
        match created {
            Ok(device) => *final(slot) == Some(device) && r is None,
            Err(error) => *final(slot) == *old(slot) && r == Some(error),
        },
{
    match created {
        Ok(device) => {
            *slot = Some(device);
            None
        },
        Err(error) => Some(error),
    }
}

// ---------------------------------------------------------------------------
// Laws
// ---------------------------------------------------------------------------
/// A device that has sent its chord stays, and the next paste uses it without
/// creating another.
pub proof fn law_working_device_is_reused<D>(device: D, sent: Result<(), PasteFailure>)
    requires
        sent is Ok,
    ensures
        xtest_slot_after(Some(device), XtestPasteEvent::Sent(sent)) == Some(device),
        xtest_paste_next(Some(device), XtestPasteEvent::Begin) == XtestPasteActionView::Refresh,
        uinput_slot_after(None, UinputPasteEvent::SentNew { device, outcome: Ok(()) }) == Some(
            device,
        ),
        uinput_slot_after(Some(device), UinputPasteEvent::SentExisting(Ok(()))) == Some(device),
        uinput_paste_next(Some(device), UinputPasteEvent::Begin) == (
        UinputPasteActionView::<D>::SendExisting),
{
}

/// A device that failed is given up, and the next paste creates a new one.
pub proof fn law_failed_device_is_replaced<D>(
    slot: Option<D>,
    refreshed: Result<(), String>,
    sent: Result<(), PasteFailure>,
    written: Result<(), String>,
)
    requires
        refreshed is Err,
        sent is Err,
        written is Err,
    ensures
        xtest_paste_next(
            xtest_slot_after(slot, XtestPasteEvent::Refreshed(refreshed)),
            XtestPasteEvent::Begin,
        ) == XtestPasteActionView::Create,
        xtest_paste_next(
            xtest_slot_after(slot, XtestPasteEvent::Sent(sent)),
            XtestPasteEvent::Begin,
        ) == XtestPasteActionView::Create,
        uinput_paste_next(
            uinput_slot_after(slot, UinputPasteEvent::SentExisting(written)),
            UinputPasteEvent::Begin,
        ) == (UinputPasteActionView::<D>::Create),
{
}

/// An attempt that is reported as retryable sent nothing on a device of its own:
/// with uinput no device could be created, with XTest none could be created or
/// brought up to date, or the chord itself was reported as retryable.
pub proof fn law_retryable_attempt_sent_nothing<D>(
    slot: Option<D>,
    uinput: UinputPasteEvent<D>,
    xtest: XtestPasteEvent<D>,
    message: Seq<char>,
)
    ensures
        uinput_paste_next(slot, uinput) == (UinputPasteActionView::<D>::Finish(
            Err(FailureView::Retryable(message)),
        )) ==> uinput matches UinputPasteEvent::Created(Err(_)),
        xtest_paste_next(slot, xtest) == XtestPasteActionView::Finish(
            Err(FailureView::Retryable(message)),
        ) ==> (xtest matches XtestPasteEvent::Created(Err(_)) || xtest matches
            XtestPasteEvent::Refreshed(Err(_)) || xtest matches XtestPasteEvent::Sent(
            Err(PasteFailure::Retryable(_)),
        )),
{
}

/// What the outside answers while a chord is sent through XTest.
pub struct XtestPasteAnswers<D> {
    pub created: Result<D, String>,
    pub refreshed: Result<(), String>,
    pub sent: Result<(), PasteFailure>,
}

/// The slot at the end of an attempt through XTest that goes on with `action`, and
/// where the attempt ends.
pub open spec fn xtest_paste_course<D>(
    slot: Option<D>,
    answers: XtestPasteAnswers<D>,
    action: XtestPasteActionView,
    steps: nat,
) -> (Option<D>, XtestPasteActionView)
    decreases steps,
{
    if steps == 0 || action is Finish {
        (slot, action)
    } else {
        let event = match action {
            XtestPasteActionView::Create => XtestPasteEvent::Created(answers.created),
            XtestPasteActionView::Refresh => XtestPasteEvent::Refreshed(answers.refreshed),
            _ => XtestPasteEvent::Sent(answers.sent),
        };
        xtest_paste_course(
            xtest_slot_after(slot, event),
            answers,
            xtest_paste_next(slot, event),
            (steps - 1) as nat,
        )
    }
}

/// An attempt through XTest takes the device in the slot, or else a new one, brings
/// its key codes up to date and sends the chord on it. It ends with the first
/// answer that is not good. The device stays only where the chord was sent.
pub proof fn law_xtest_attempt_outcome<D>(slot: Option<D>, answers: XtestPasteAnswers<D>)
    ensures
        xtest_paste_course(
            slot,
            answers,
            xtest_paste_next(slot, XtestPasteEvent::Begin),
            3,
        ) == if slot is None && answers.created is Err {
            (
                None,
                XtestPasteActionView::Finish(
                    Err(FailureView::Retryable(answers.created->Err_0@)),
                ),
            )
        } else if answers.refreshed is Err {
            (
                None,
                XtestPasteActionView::Finish(
                    Err(FailureView::Retryable(answers.refreshed->Err_0@)),
                ),
            )
        } else {
            (
                if answers.sent is Err {
                    None
                } else if slot is Some {
                    slot
                } else {
                    Some(answers.created->Ok_0)
                },
                XtestPasteActionView::Finish(paste_outcome(answers.sent)),
            )
        },
{
    reveal_with_fuel(xtest_paste_course, 4);
}

/// What the outside answers while a chord is sent through uinput.
pub struct UinputPasteAnswers<D> {
    pub created: Result<D, String>,
    pub sent: Result<(), String>,
}

/// The slot at the end of an attempt through uinput that goes on with `action`, and
/// where the attempt ends.
pub open spec fn uinput_paste_course<D>(
    slot: Option<D>,
    answers: UinputPasteAnswers<D>,
    action: UinputPasteActionView<D>,
    steps: nat,
) -> (Option<D>, UinputPasteActionView<D>)
    decreases steps,
{
    if steps == 0 || action is Finish {
        (slot, action)
    } else {
        let event = match action {
            UinputPasteActionView::SendExisting => UinputPasteEvent::SentExisting(answers.sent),
            UinputPasteActionView::SendNew { device } => UinputPasteEvent::SentNew {
                device,
                outcome: answers.sent,
            },
            _ => UinputPasteEvent::Created(answers.created),
        };
        uinput_paste_course(
            uinput_slot_after(slot, event),
            answers,
            uinput_paste_next(slot, event),
            (steps - 1) as nat,
        )
    }
}

/// An attempt through uinput takes the device in the slot, or else a new one, and
/// sends the chord on it. Only a device that could not be created leaves room for
/// another backend. A device is in the slot afterwards only where it sent the chord.
pub proof fn law_uinput_attempt_outcome<D>(slot: Option<D>, answers: UinputPasteAnswers<D>)
    ensures
        uinput_paste_course(
            slot,
            answers,
            uinput_paste_next(slot, UinputPasteEvent::Begin),
            2,
        ) == if slot is None && answers.created is Err {
            (
                None,
                UinputPasteActionView::<D>::Finish(
                    Err(FailureView::Retryable(answers.created->Err_0@)),
                ),
            )
        } else {
            match answers.sent {
                Ok(_) => (
                    if slot is Some {
                        slot
                    } else {
                        Some(answers.created->Ok_0)
                    },
                    UinputPasteActionView::<D>::Finish(Ok(())),
                ),
                Err(e) => (
                    None,
                    UinputPasteActionView::<D>::Finish(Err(FailureView::Ambiguous(e@))),
                ),
            }
        },
{
    reveal_with_fuel(uinput_paste_course, 3);
}

} // verus!
