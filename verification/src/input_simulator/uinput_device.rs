//! Bringing the virtual keyboard up: its name and set-up record, the requests
//! that create it, and the wait for its event node.

use vstd::prelude::*;
use vstd::utf8::{encode_utf8, is_ascii_chars};

use crate::input_simulator::uinput::{EV_KEY, KEY_LEFTCTRL, KEY_LEFTSHIFT, KEY_V};
use crate::text::{concat2, concat3, decimal_text};

pub mod promises;

verus! {

use crate::text::{decimal, digit, opt_text, result_text};

/// How long the event node is waited for, in nanoseconds. The kernel creates a
/// uinput device synchronously, but udev/libinput and the compositor discover it
/// asynchronously. Device readiness is paid once at startup, never for every
/// paste.
pub const DEVICE_READY_TIMEOUT: u128 = 2_000_000_000;

/// The pause between two looks for the event node, in nanoseconds.
pub const DEVICE_READY_POLL_INTERVAL: u128 = 5_000_000;

/// The pause that lets the compositor attach to a new device, in nanoseconds.
pub const DEVICE_DISCOVERY_GRACE: u128 = 100_000_000;

pub const UI_SET_EVBIT: u64 = 0x40045564;

pub const UI_SET_KEYBIT: u64 = 0x40045565;

pub const UI_DEV_SETUP: u64 = 0x405c5503;

pub const UI_DEV_CREATE: u64 = 0x5501;

pub const UI_DEV_DESTROY: u64 = 0x5502;

// ---------------------------------------------------------------------------
// Name and set-up record
// ---------------------------------------------------------------------------
/// The name of the device of the process `process_id`.
pub open spec fn device_name_text(process_id: u32) -> Seq<char> {
    "win11-clipboard-paste-"@ + decimal(process_id as nat)
}

/// The name of the device of the process `process_id`.
pub fn device_name(process_id: u32) -> (r: String)
    ensures
        r@ == device_name_text(process_id),
{
    concat2("win11-clipboard-paste-", decimal_text(process_id).as_str())
}

/// What the kernel is told about a new device.
#[derive(Debug, Clone, Copy)]
pub struct UinputSetup {
    pub bustype: u16,
    pub vendor: u16,
    pub product: u16,
    pub version: u16,
    pub name: [u8; 80],
    pub ff_effects_max: u32,
}

/// `bytes`, filled up with zeros to `size` bytes.
pub open spec fn zero_padded(bytes: Seq<u8>, size: nat) -> Seq<u8> {
    Seq::new(
        size,
        |i: int|
            if i < bytes.len() {
                bytes[i]
            } else {
                0u8
            },
    )
}

proof fn lemma_decimal_is_ascii(n: nat)
    ensures
        is_ascii_chars(decimal(n)),
    decreases n,
{
    if n >= 10 {
        lemma_decimal_is_ascii(n / 10);
    }
}

proof fn lemma_decimal_len(n: nat, digits: nat)
    requires
        n < vstd::arithmetic::power::pow(10, digits),
        digits >= 1,
    ensures
        decimal(n).len() <= digits,
    decreases digits,
{
    vstd::arithmetic::power::lemma_pow1(10);
    if n >= 10 {
        assert(digits > 1);
        assert(vstd::arithmetic::power::pow(10, digits) == 10 * vstd::arithmetic::power::pow(
            10,
            (digits - 1) as nat,
        )) by {
            reveal(vstd::arithmetic::power::pow);
        }
        lemma_decimal_len(n / 10, (digits - 1) as nat);
    }
}

/// A device name is ASCII and fits its field with a terminating zero to spare.
pub proof fn law_device_name_fits_its_field(process_id: u32)
    ensures
        is_ascii_chars(device_name_text(process_id)),
        encode_utf8(device_name_text(process_id)).len() == device_name_text(process_id).len(),
        device_name_text(process_id).len() <= 32,
{
    reveal_strlit("win11-clipboard-paste-");
    lemma_decimal_is_ascii(process_id as nat);
    assert(vstd::arithmetic::power::pow(10, 10) == 10_000_000_000) by {
        reveal_with_fuel(vstd::arithmetic::power::pow, 11);
    }
    lemma_decimal_len(process_id as nat, 10);
    let name = device_name_text(process_id);
    assert(is_ascii_chars(name));
    vstd::utf8::is_ascii_chars_encode_utf8(name);
}

/// The set-up record of the device of the process `process_id`.
pub fn uinput_setup(process_id: u32) -> (r: UinputSetup)
    ensures
        r.bustype == 0x03,
        r.vendor == 0x1234,
        r.product == 0x5678,
        r.version == 0x0001,
        r.ff_effects_max == 0,
        r.name@ == zero_padded(encode_utf8(device_name_text(process_id)), 80),
{
    let name_text = device_name(process_id);
    let bytes = name_text.as_str().as_bytes();
    proof {
        law_device_name_fits_its_field(process_id);
    }
    let mut name: [u8; 80] = [0;80];
    let mut i: usize = 0;
    while i < bytes.len()
        invariant
            i <= bytes@.len() <= 32,
            forall|j: int| 0 <= j < i ==> name@[j] == bytes@[j],
            forall|j: int| i <= j < 80 ==> name@[j] == 0,
        decreases bytes@.len() - i,
    {
        name[i] = bytes[i];
        i += 1;
    }
    assert(name@ =~= zero_padded(bytes@, 80));
    UinputSetup {
        bustype: 0x03,
        vendor: 0x1234,
        product: 0x5678,
        version: 0x0001,
        name,
        ff_effects_max: 0,
    }
}

// ---------------------------------------------------------------------------
// Creating the device
// ---------------------------------------------------------------------------
/// One request on the way to a working device.
#[derive(Debug)]
pub enum SetupStep {
    /// Open `/dev/uinput` for writing.
    Open,
    /// Allow key events.
    EnableKeys,
    /// Allow the Ctrl key.
    EnableCtrl,
    /// Allow the Shift key.
    EnableShift,
    /// Allow the V key.
    EnableV,
    /// Hand the set-up record over.
    Configure,
    /// Create the device.
    Create,
    /// Wait for the device's event node.
    AwaitNode,
    /// Destroy the device again; its event node was not found, with this message.
    Destroy { error: String },
    /// Let the compositor attach, for this many nanoseconds. The event node is an
    /// observable udev barrier; this one-time grace is outside the hot path.
    Settle { nanos: u128 },
}

/// What the program does next while it creates the device.
#[derive(Debug)]
pub enum SetupAction {
    /// Carry out this request.
    Perform(SetupStep),
    /// The device is ready, or it could not be created.
    Finish(Result<(), String>),
}

/// What a failure of a request is reported as.
pub open spec fn setup_context(step: SetupStep) -> Seq<char> {
    match step {
        SetupStep::Open => "Failed to open /dev/uinput"@,
        SetupStep::EnableKeys => "Failed to enable EV_KEY"@,
        SetupStep::EnableCtrl => "Failed to enable KEY_LEFTCTRL"@,
        SetupStep::EnableShift => "Failed to enable KEY_LEFTSHIFT"@,
        SetupStep::EnableV => "Failed to enable KEY_V"@,
        SetupStep::Configure => "Failed to configure uinput device"@,
        SetupStep::Create => "Failed to create uinput device"@,
        _ => Seq::empty(),
    }
}

/// The request that follows `step` once it was carried out.
pub open spec fn setup_after(step: SetupStep) -> Option<SetupStep> {
    match step {
        SetupStep::Open => Some(SetupStep::EnableKeys),
        SetupStep::EnableKeys => Some(SetupStep::EnableCtrl),
        SetupStep::EnableCtrl => Some(SetupStep::EnableShift),
        SetupStep::EnableShift => Some(SetupStep::EnableV),
        SetupStep::EnableV => Some(SetupStep::Configure),
        SetupStep::Configure => Some(SetupStep::Create),
        SetupStep::Create => Some(SetupStep::AwaitNode),
        SetupStep::AwaitNode => Some(SetupStep::Settle { nanos: DEVICE_DISCOVERY_GRACE }),
        _ => None,
    }
}

/// A [`SetupAction`] with the text of its message.
pub enum SetupActionView {
    Perform(SetupStep),
    Finish(Result<(), Seq<char>>),
}

impl View for SetupAction {
    type V = SetupActionView;

    open spec fn view(&self) -> SetupActionView {
        match self {
            SetupAction::Perform(step) => SetupActionView::Perform(*step),
            SetupAction::Finish(r) => SetupActionView::Finish(result_text(*r)),
        }
    }
}

/// What follows once `step` was carried out with this answer.
pub open spec fn setup_next(step: SetupStep, outcome: Result<(), String>) -> SetupActionView {
    match (step, outcome) {
        (SetupStep::AwaitNode, Err(error)) => SetupActionView::Perform(
            SetupStep::Destroy { error },
        ),
        (SetupStep::Destroy { error }, _) => SetupActionView::Finish(Err(error@)),
        (SetupStep::Settle { .. }, _) => SetupActionView::Finish(Ok(())),
        (_, Ok(_)) => SetupActionView::Perform(setup_after(step)->0),
        (_, Err(error)) => SetupActionView::Finish(Err(setup_context(step) + ": "@ + error@)),
    }
}

/// What an operating system error is reported as when it happened while doing
/// `context`.
pub fn last_os_error(context: &str, error: &str) -> (r: String)
    ensures
        r@ == context@ + ": "@ + error@,
{
    concat3(context, ": ", error)
}

/// The numbers of the device request that `step` makes, where it makes one: the
/// request itself and, where it takes one, its argument.
pub fn setup_request(step: &SetupStep) -> (r: Option<(u64, Option<u16>)>)
    ensures
        r == match step {
            SetupStep::EnableKeys => Some((UI_SET_EVBIT, Some(EV_KEY))),
            SetupStep::EnableCtrl => Some((UI_SET_KEYBIT, Some(KEY_LEFTCTRL))),
            SetupStep::EnableShift => Some((UI_SET_KEYBIT, Some(KEY_LEFTSHIFT))),
            SetupStep::EnableV => Some((UI_SET_KEYBIT, Some(KEY_V))),
            SetupStep::Configure => Some((UI_DEV_SETUP, None::<u16>)),
            SetupStep::Create => Some((UI_DEV_CREATE, None::<u16>)),
            SetupStep::Destroy { .. } => Some((UI_DEV_DESTROY, None::<u16>)),
            _ => None,
        },
{
    match step {
        SetupStep::EnableKeys => Some((UI_SET_EVBIT, Some(EV_KEY))),
        SetupStep::EnableCtrl => Some((UI_SET_KEYBIT, Some(KEY_LEFTCTRL))),
        SetupStep::EnableShift => Some((UI_SET_KEYBIT, Some(KEY_LEFTSHIFT))),
        SetupStep::EnableV => Some((UI_SET_KEYBIT, Some(KEY_V))),
        SetupStep::Configure => Some((UI_DEV_SETUP, None)),
        SetupStep::Create => Some((UI_DEV_CREATE, None)),
        SetupStep::Destroy { .. } => Some((UI_DEV_DESTROY, None)),
        _ => None,
    }
}

/// The virtual keyboard. Recreating it for every paste allowed the compositor to
/// attach after Ctrl but before V, which produced a literal `v` under load, so
/// one device is kept.
pub struct UinputDevice {}

impl UinputDevice {
    /// Creates the device, one request after the other. `performed` is the
    /// request that was carried out last, with its answer. A device whose event
    /// node does not show up is destroyed again; every other failure leaves
    /// nothing to undo.
    pub fn create(performed: Option<(SetupStep, Result<(), String>)>) -> (action: SetupAction)
        ensures
            action@ == match performed {
                None => SetupActionView::Perform(SetupStep::Open),
                Some((step, outcome)) => setup_next(step, outcome),
            },
    {
        let (step, outcome) = match performed {
            None => return SetupAction::Perform(SetupStep::Open),
            Some(pair) => pair,
        };
        let (context, next): (&str, SetupStep) = match step {
            SetupStep::Open => ("Failed to open /dev/uinput", SetupStep::EnableKeys),
            SetupStep::EnableKeys => ("Failed to enable EV_KEY", SetupStep::EnableCtrl),
            SetupStep::EnableCtrl => ("Failed to enable KEY_LEFTCTRL", SetupStep::EnableShift),
            SetupStep::EnableShift => ("Failed to enable KEY_LEFTSHIFT", SetupStep::EnableV),
            SetupStep::EnableV => ("Failed to enable KEY_V", SetupStep::Configure),
            SetupStep::Configure => ("Failed to configure uinput device", SetupStep::Create),
            SetupStep::Create => ("Failed to create uinput device", SetupStep::AwaitNode),
            SetupStep::AwaitNode => {
                return match outcome {
                    Ok(_) => SetupAction::Perform(
                        SetupStep::Settle { nanos: DEVICE_DISCOVERY_GRACE },
                    ),
                    Err(error) => SetupAction::Perform(SetupStep::Destroy { error }),
                };
            },
            SetupStep::Destroy { error } => {
                return SetupAction::Finish(Err(error));
            },
            SetupStep::Settle { .. } => {
                return SetupAction::Finish(Ok(()));
            },
        };
        match outcome {
            Ok(_) => SetupAction::Perform(next),
            Err(error) => SetupAction::Finish(Err(last_os_error(context, error.as_str()))),
        }
    }
}

/// The requests of a creation from `action` on, and where it ends, where each
/// request is answered as `answers` says.
pub open spec fn setup_course(
    answers: spec_fn(SetupStep) -> Result<(), String>,
    action: SetupActionView,
    steps: nat,
) -> (Seq<SetupStep>, SetupActionView)
    decreases steps,
{
    match action {
        SetupActionView::Perform(step) if steps > 0 => {
            let (rest, end) = setup_course(
                answers,
                setup_next(step, answers(step)),
                (steps - 1) as nat,
            );
            (seq![step] + rest, end)
        },
        _ => (Seq::empty(), action),
    }
}

/// The requests that bring a device up, in their order.
pub open spec fn setup_requests() -> Seq<SetupStep> {
    seq![
        SetupStep::Open,
        SetupStep::EnableKeys,
        SetupStep::EnableCtrl,
        SetupStep::EnableShift,
        SetupStep::EnableV,
        SetupStep::Configure,
        SetupStep::Create,
        SetupStep::AwaitNode,
    ]
}

/// A creation makes its requests in order, up to the first that fails. A device
/// whose event node does not show up is destroyed again before the creation
/// fails; a failure before that leaves nothing to destroy.
pub proof fn law_failed_creation_leaves_no_device(
    answers: spec_fn(SetupStep) -> Result<(), String>,
    k: int,
)
    requires
        0 <= k < setup_requests().len(),
        forall|i: int| 0 <= i < k ==> answers(#[trigger] setup_requests()[i]) is Ok,
        answers(setup_requests()[k]) is Err,
    ensures
        ({
            let (performed, end) = setup_course(
                answers,
                SetupActionView::Perform(SetupStep::Open),
                9,
            );
            let error = answers(setup_requests()[k])->Err_0;
            if setup_requests()[k] == SetupStep::AwaitNode {
                &&& performed == setup_requests().push(SetupStep::Destroy { error })
                &&& end == SetupActionView::Finish(Err(error@))
            } else {
                &&& performed == setup_requests().take(k + 1)
                &&& end == SetupActionView::Finish(
                    Err(setup_context(setup_requests()[k]) + ": "@ + error@),
                )
            }
        }),
{
    reveal_with_fuel(setup_course, 10);
    let list = setup_requests();
    assert(forall|i: int| 0 <= i < k ==> answers(#[trigger] list[i]) is Ok);
    assert(k > 0 ==> answers(list[0]) is Ok);
    assert(k > 1 ==> answers(list[1]) is Ok);
    assert(k > 2 ==> answers(list[2]) is Ok);
    assert(k > 3 ==> answers(list[3]) is Ok);
    assert(k > 4 ==> answers(list[4]) is Ok);
    assert(k > 5 ==> answers(list[5]) is Ok);
    assert(k > 6 ==> answers(list[6]) is Ok);
    let (performed, end) = setup_course(answers, SetupActionView::Perform(SetupStep::Open), 9);
    if k == 7 {
        assert(performed =~= list.push(
            SetupStep::Destroy { error: answers(list[k])->Err_0 },
        ));
    } else {
        assert(performed =~= list.take(k + 1));
    }
}

/// Where every request is answered well, all are made in order, the compositor
/// gets its time to attach, and the device is ready.
pub proof fn law_good_answers_create_the_device(answers: spec_fn(SetupStep) -> Result<(), String>)
    requires
        forall|i: int|
            0 <= i < setup_requests().len() ==> answers(#[trigger] setup_requests()[i]) is Ok,
    ensures
        setup_course(answers, SetupActionView::Perform(SetupStep::Open), 9) == (
            setup_requests().push(SetupStep::Settle { nanos: DEVICE_DISCOVERY_GRACE }),
            SetupActionView::Finish(Ok(())),
        ),
{
    reveal_with_fuel(setup_course, 10);
    let list = setup_requests();
    assert(answers(list[0]) is Ok);
    assert(answers(list[1]) is Ok);
    assert(answers(list[2]) is Ok);
    assert(answers(list[3]) is Ok);
    assert(answers(list[4]) is Ok);
    assert(answers(list[5]) is Ok);
    assert(answers(list[6]) is Ok);
    assert(answers(list[7]) is Ok);
    let (performed, end) = setup_course(answers, SetupActionView::Perform(SetupStep::Open), 9);
    assert(performed =~= list.push(SetupStep::Settle { nanos: DEVICE_DISCOVERY_GRACE }));
}

// ---------------------------------------------------------------------------
// Waiting for the event node
// ---------------------------------------------------------------------------
/// What the program does next while it waits for the event node.
#[derive(Debug)]
pub enum NodeWait {
    /// The wait is over: the path of the node, or why there is none.
    Finish(Result<String, String>),
    /// Look again after this many nanoseconds.
    Sleep(u128),
}

/// A [`NodeWait`] with the text of its path or message.
pub enum NodeWaitView {
    Finish(Result<Seq<char>, Seq<char>>),
    Sleep(u128),
}

impl View for NodeWait {
    type V = NodeWaitView;

    open spec fn view(&self) -> NodeWaitView {
        match self {
            NodeWait::Finish(Ok(path)) => NodeWaitView::Finish(Ok(path@)),
            NodeWait::Finish(Err(error)) => NodeWaitView::Finish(Err(error@)),
            NodeWait::Sleep(nanos) => NodeWaitView::Sleep(*nanos),
        }
    }
}

/// One look for the event node: its path, if it was there, and the time since the
/// wait began.
pub struct NodeSample {
    pub found: Option<Seq<char>>,
    pub elapsed: u128,
}

/// What follows a sample: the wait goes on where the node is not there and time is
/// left.
pub open spec fn node_wait_next(device_name: Seq<char>, sample: NodeSample) -> NodeWaitView {
    match sample.found {
        Some(path) => NodeWaitView::Finish(Ok(path)),
        None => if sample.elapsed >= DEVICE_READY_TIMEOUT {
            NodeWaitView::Finish(
                Err("Timed out waiting for '"@ + device_name + "' to appear in /dev/input"@),
            )
        } else {
            NodeWaitView::Sleep(DEVICE_READY_POLL_INTERVAL)
        },
    }
}

/// Judges one look for the event node of `device_name`, `elapsed` nanoseconds
/// after the wait began.
pub fn wait_for_uinput_device(device_name: &str, found: Option<String>, elapsed: u128) -> (step:
    NodeWait)
    ensures
        step@ == node_wait_next(device_name@, NodeSample { found: opt_text(found), elapsed }),
{
    match found {
        Some(path) => NodeWait::Finish(Ok(path)),
        None => if elapsed >= DEVICE_READY_TIMEOUT {
            NodeWait::Finish(
                Err(concat3("Timed out waiting for '", device_name, "' to appear in /dev/input")),
            )
        } else {
            NodeWait::Sleep(DEVICE_READY_POLL_INTERVAL)
        },
    }
}

/// The wait for the event node ends with the sample at `k`: the first after which
/// it does not go on.
pub open spec fn node_wait_ends_at(
    device_name: Seq<char>,
    samples: Seq<NodeSample>,
    k: int,
) -> bool {
    &&& 0 <= k < samples.len()
    &&& node_wait_next(device_name, samples[k]) is Finish
    &&& forall|j: int|
        0 <= j < k ==> node_wait_next(device_name, #[trigger] samples[j]) is Sleep
}

/// The wait for the event node ends with the first sample that shows the node, or
/// that came at or past the timeout. It comes out with the node of that sample,
/// however late, and fails where there is none.
pub proof fn law_node_wait_ends_with_the_node_or_too_late(
    device_name: Seq<char>,
    samples: Seq<NodeSample>,
    k: int,
)
    ensures
        node_wait_ends_at(device_name, samples, k) <==> {
            &&& 0 <= k < samples.len()
            &&& samples[k].found is Some || samples[k].elapsed >= DEVICE_READY_TIMEOUT
            &&& forall|j: int|
                0 <= j < k ==> (#[trigger] samples[j]).found is None && samples[j].elapsed
                    < DEVICE_READY_TIMEOUT
        },
        node_wait_ends_at(device_name, samples, k) ==> node_wait_next(device_name, samples[k])
            == NodeWaitView::Finish(
            match samples[k].found {
                Some(path) => Ok(path),
                None => Err(
                    "Timed out waiting for '"@ + device_name + "' to appear in /dev/input"@,
                ),
            },
        ),
{
    if node_wait_ends_at(device_name, samples, k) {
        assert forall|j: int| 0 <= j < k implies (#[trigger] samples[j]).found is None
            && samples[j].elapsed < DEVICE_READY_TIMEOUT by {
            assert(node_wait_next(device_name, samples[j]) is Sleep);
        }
    }
}

} // verus!
