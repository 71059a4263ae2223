//! What bringing the keyboard up promises: its name, its record, its requests and its
//! wait.

use vstd::prelude::*;
use vstd::utf8::encode_utf8;

use crate::input_simulator::uinput_device::{
    device_name, last_os_error, setup_request, uinput_setup, wait_for_uinput_device, NodeWait,
    SetupAction, SetupStep, UinputDevice, UinputSetup,
};
use crate::text::promises::law_decimal_text_stands_for_the_number;

verus! {

use crate::text::decimal;
use crate::text::promises::number_of;

/// The name of a device is the fixed name and the number of its process, in decimal
/// digits without leading zeros.
pub proof fn law_device_is_named_after_its_process(process_id: u32, name: String, number: String)
    requires
        call_ensures(device_name, (process_id,), name),
        call_ensures(crate::text::decimal_text, (process_id,), number),
    ensures
        name@ == "win11-clipboard-paste-"@ + number@,
        number_of(number@) == process_id,
        number@[0] == '0' ==> process_id == 0 && number@.len() == 1,
{
    law_decimal_text_stands_for_the_number(process_id, number);
    assert(number@ == decimal(process_id as nat));
}

/// The record of a device holds the bytes of its whole name, from the first on, and
/// zeros behind them; the other fields are the same for every process.
pub proof fn law_record_holds_the_whole_name(process_id: u32, setup: UinputSetup, name: String)
    requires
        call_ensures(uinput_setup, (process_id,), setup),
        call_ensures(device_name, (process_id,), name),
    ensures
        setup.name@.len() == 80,
        encode_utf8(name@).len() < 80,
        forall|i: int|
            0 <= i < 80 ==> (#[trigger] setup.name@[i]) == if i < encode_utf8(name@).len() {
                encode_utf8(name@)[i]
            } else {
                0
            },
        setup.bustype == 3,
        setup.vendor == 0x1234,
        setup.product == 0x5678,
        setup.version == 1,
        setup.ff_effects_max == 0,
{
    crate::input_simulator::uinput_device::law_device_name_fits_its_field(process_id);
}

/// The requests to the kernel, by their numbers: key events are allowed, then
/// exactly the keys of the chord; the record is handed over; the device is created,
/// or destroyed. No other step makes a request.
pub proof fn law_requests_to_the_kernel(step: SetupStep, r: Option<(u64, Option<u16>)>)
    requires
        call_ensures(setup_request, (&step,), r),
    ensures
        step is EnableKeys ==> r == Some((0x40045564u64, Some(1u16))),
        step is EnableCtrl ==> r == Some((0x40045565u64, Some(29u16))),
        step is EnableShift ==> r == Some((0x40045565u64, Some(42u16))),
        step is EnableV ==> r == Some((0x40045565u64, Some(47u16))),
        step is Configure ==> r == Some((0x405c5503u64, None::<u16>)),
        step is Create ==> r == Some((0x5501u64, None::<u16>)),
        step is Destroy ==> r == Some((0x5502u64, None::<u16>)),
        step is Open || step is AwaitNode || step is Settle ==> r is None,
{
}

/// A creation takes its steps in their order while each works. A device whose node
/// did not show up is destroyed and the creation fails with that; every other failure
/// ends it with the step and the error.
pub proof fn law_creation_takes_its_steps_in_order(
    step: SetupStep,
    outcome: Result<(), String>,
    action: SetupAction,
)
    requires
        call_ensures(UinputDevice::create, (Some((step, outcome)),), action),
    ensures
        outcome is Ok ==> match step {
            SetupStep::Open => action == SetupAction::Perform(SetupStep::EnableKeys),
            SetupStep::EnableKeys => action == SetupAction::Perform(SetupStep::EnableCtrl),
            SetupStep::EnableCtrl => action == SetupAction::Perform(SetupStep::EnableShift),
            SetupStep::EnableShift => action == SetupAction::Perform(SetupStep::EnableV),
            SetupStep::EnableV => action == SetupAction::Perform(SetupStep::Configure),
            SetupStep::Configure => action == SetupAction::Perform(SetupStep::Create),
            SetupStep::Create => action == SetupAction::Perform(SetupStep::AwaitNode),
            SetupStep::AwaitNode => action == SetupAction::Perform(
                SetupStep::Settle { nanos: 100_000_000 },
            ),
            _ => true,
        },
        step is Settle ==> action == SetupAction::Finish(Ok(())),
        step matches SetupStep::Destroy { error } ==> (action matches SetupAction::Finish(Err(m))
            && m@ == error@),
        step is AwaitNode && outcome is Err ==> action == SetupAction::Perform(
            SetupStep::Destroy { error: outcome->Err_0 },
        ),
        outcome matches Err(e) ==> {
            let failed = |words: Seq<char>|
                action matches SetupAction::Finish(Err(m)) && m@ == words + ": "@ + e@;
            &&& step is Open ==> failed("Failed to open /dev/uinput"@)
            &&& step is EnableKeys ==> failed("Failed to enable EV_KEY"@)
            &&& step is EnableCtrl ==> failed("Failed to enable KEY_LEFTCTRL"@)
            &&& step is EnableShift ==> failed("Failed to enable KEY_LEFTSHIFT"@)
            &&& step is EnableV ==> failed("Failed to enable KEY_V"@)
            &&& step is Configure ==> failed("Failed to configure uinput device"@)
            &&& step is Create ==> failed("Failed to create uinput device"@)
        },
{
}

/// A creation begins by opening the device file.
pub proof fn law_creation_begins_with_the_file(action: SetupAction)
    requires
        call_ensures(UinputDevice::create, (None::<(SetupStep, Result<(), String>)>,), action),
    ensures
        action == SetupAction::Perform(SetupStep::Open),
{
}

/// An error of the system is reported behind what was being done.
pub proof fn law_system_error_names_what_was_done(context: &str, error: &str, r: String)
    requires
        call_ensures(last_os_error, (context, error), r),
    ensures
        r@ == context@ + ": "@ + error@,
{
}

/// A look for the node ends the wait with the node exactly where it is there,
/// however late; without one where two seconds have passed; and otherwise the wait
/// goes on after five milliseconds.
pub proof fn law_look_for_the_node_decides_the_wait(
    name: &str,
    found: Option<String>,
    elapsed: u128,
    step: NodeWait,
)
    requires
        call_ensures(wait_for_uinput_device, (name, found, elapsed), step),
    ensures
        found matches Some(path) ==> (step matches NodeWait::Finish(Ok(p)) && p@ == path@),
        found is None && elapsed >= 2_000_000_000 ==> (step matches NodeWait::Finish(Err(m)) && m@
            == "Timed out waiting for '"@ + name@ + "' to appear in /dev/input"@),
        found is None && elapsed < 2_000_000_000 ==> step == NodeWait::Sleep(5_000_000),
{
}

} // verus!
