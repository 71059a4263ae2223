//! The uinput backend: a persistent virtual keyboard that writes the chord as
//! kernel input events.

use vstd::prelude::*;

use crate::input_simulator::PasteChord;
use crate::text::concat2;

pub mod promises;

verus! {

use crate::machine::lowest_byte_first;
use crate::text::result_text;

pub const EV_SYN: u16 = 0x00;

pub const EV_KEY: u16 = 0x01;

pub const SYN_REPORT: u16 = 0x00;

pub const KEY_LEFTCTRL: u16 = 29;

pub const KEY_LEFTSHIFT: u16 = 42;

pub const KEY_V: u16 = 47;

/// The pause between writing the modifiers and writing V, in nanoseconds. Both
/// belong to one frame.
pub const UINPUT_MODIFIER_SETTLE: u128 = 12_000_000;

/// How long V is held down, in nanoseconds.
pub const UINPUT_KEY_HOLD: u128 = 18_000_000;

// ---------------------------------------------------------------------------
// Input events
// ---------------------------------------------------------------------------
/// A kernel input event, apart from its time stamp, which is always zero here.
#[derive(Debug, Clone, Copy, PartialEq, Eq, Structural)]
pub struct InputEvent {
    pub type_: u16,
    pub code: u16,
    pub value: i32,
}

/// An input event.
pub fn input_event(type_: u16, code: u16, value: i32) -> (r: InputEvent)
    ensures
        r == (InputEvent { type_, code, value }),
{
    InputEvent { type_, code, value }
}

/// The event that ends a frame.
pub fn sync_event() -> (r: InputEvent)
    ensures
        r == sync(),
{
    input_event(EV_SYN, SYN_REPORT, 0)
}

/// The event that ends a frame.
pub open spec fn sync() -> InputEvent {
    InputEvent { type_: EV_SYN, code: SYN_REPORT, value: 0 }
}

/// A key goes down.
pub open spec fn key_down(code: u16) -> InputEvent {
    InputEvent { type_: EV_KEY, code, value: 1 }
}

/// A key goes up.
pub open spec fn key_up(code: u16) -> InputEvent {
    InputEvent { type_: EV_KEY, code, value: 0 }
}

/// The events of a chord: one frame in which all its keys go down, and one in
/// which they go up again, V first and Ctrl last.
pub open spec fn chord_events(chord: PasteChord) -> Seq<InputEvent> {
    match chord {
        PasteChord::CtrlV => seq![
            key_down(KEY_LEFTCTRL),
            key_down(KEY_V),
            sync(),
            key_up(KEY_V),
            key_up(KEY_LEFTCTRL),
            sync(),
        ],
        PasteChord::CtrlShiftV => seq![
            key_down(KEY_LEFTCTRL),
            key_down(KEY_LEFTSHIFT),
            key_down(KEY_V),
            sync(),
            key_up(KEY_V),
            key_up(KEY_LEFTSHIFT),
            key_up(KEY_LEFTCTRL),
            sync(),
        ],
    }
}

/// All events of a chord, in the order in which they are written.
pub fn paste_sequence(chord: PasteChord) -> (r: Vec<InputEvent>)
    ensures
        r@ == chord_events(chord),
{
    let with_shift = chord == PasteChord::CtrlShiftV;
    let mut events: Vec<InputEvent> = Vec::new();
    events.push(input_event(EV_KEY, KEY_LEFTCTRL, 1));
    if with_shift {
        events.push(input_event(EV_KEY, KEY_LEFTSHIFT, 1));
    }
    events.push(input_event(EV_KEY, KEY_V, 1));
    events.push(sync_event());
    events.push(input_event(EV_KEY, KEY_V, 0));
    if with_shift {
        events.push(input_event(EV_KEY, KEY_LEFTSHIFT, 0));
    }
    events.push(input_event(EV_KEY, KEY_LEFTCTRL, 0));
    events.push(sync_event());
    assert(events@ =~= chord_events(chord));
    events
}

/// The frame that lets go of every key that the keyboard has.
pub open spec fn release_events() -> Seq<InputEvent> {
    seq![key_up(KEY_V), key_up(KEY_LEFTSHIFT), key_up(KEY_LEFTCTRL), sync()]
}

/// The frame that lets go of every key that the keyboard has.
pub fn release_all_keys() -> (r: Vec<InputEvent>)
    ensures
        r@ == release_events(),
{
    let mut events: Vec<InputEvent> = Vec::new();
    events.push(input_event(EV_KEY, KEY_V, 0));
    events.push(input_event(EV_KEY, KEY_LEFTSHIFT, 0));
    events.push(input_event(EV_KEY, KEY_LEFTCTRL, 0));
    events.push(sync_event());
    assert(events@ =~= release_events());
    events
}

// ---------------------------------------------------------------------------
// Events as bytes
// ---------------------------------------------------------------------------
/// The C struct that the kernel reads input events as.
#[verifier::external_type_specification]
#[verifier::external_body]
pub struct ExInputEvent(libc::input_event);

/// `core::mem::size_of` on `libc::input_event`: the size that the platform gives
/// the struct. Its fields after the time stamp, two of two bytes and one of
/// four, make it eight bytes at the least.
#[verifier::external_body]
fn input_event_size() -> (size: usize)
    ensures
        size as nat == vstd::layout::size_of::<libc::input_event>(),
        size >= 8,
{
    core::mem::size_of::<libc::input_event>()
}

/// `u16::to_ne_bytes`: the two bytes of the number, in the byte order of the
/// machine.
#[verifier::external_body]
fn u16_native_bytes(x: u16) -> (r: [u8; 2])
    ensures
        r@ == u16_bytes(x, lowest_byte_first()),
{
    x.to_ne_bytes()
}

/// The bytes of `x`, lowest first where `little` holds, highest first otherwise.
pub open spec fn u16_bytes(x: u16, little: bool) -> Seq<u8> {
    let low = (x % 256) as u8;
    let high = (x / 256) as u8;
    if little {
        seq![low, high]
    } else {
        seq![high, low]
    }
}

/// The bytes of `x`, lowest first where `little` holds, highest first otherwise.
pub open spec fn u32_bytes(x: u32, little: bool) -> Seq<u8> {
    let low = (x % 0x10000) as u16;
    let high = (x / 0x10000) as u16;
    if little {
        u16_bytes(low, true) + u16_bytes(high, true)
    } else {
        u16_bytes(high, false) + u16_bytes(low, false)
    }
}

/// An event as a C struct of `size` bytes: the time stamp, all zero, then type,
/// code and value.
pub open spec fn event_record(event: InputEvent, size: nat, little: bool) -> Seq<u8> {
    Seq::new((size - 8) as nat, |i: int| 0u8) + u16_bytes(event.type_, little) + u16_bytes(
        event.code,
        little,
    ) + u32_bytes(event.value as u32, little)
}

/// The records of `events`, one after the other.
pub open spec fn event_records(events: Seq<InputEvent>, size: nat, little: bool) -> Seq<u8>
    decreases events.len(),
{
    if events.len() == 0 {
        Seq::empty()
    } else {
        event_records(events.drop_last(), size, little) + event_record(events.last(), size, little)
    }
}

fn push_u16(bytes: &mut Vec<u8>, x: u16, little: bool)
    ensures
        final(bytes)@ == old(bytes)@ + u16_bytes(x, little),
{
    let low: u8 = (x % 256) as u8;
    let high: u8 = (x / 256) as u8;
    if little {
        bytes.push(low);
        bytes.push(high);
    } else {
        bytes.push(high);
        bytes.push(low);
    }
    assert(bytes@ =~= old(bytes)@ + u16_bytes(x, little));
}

fn push_u32(bytes: &mut Vec<u8>, x: u32, little: bool)
    ensures
        final(bytes)@ == old(bytes)@ + u32_bytes(x, little),
{
    let low: u16 = (x % 0x10000) as u16;
    let high: u16 = (x / 0x10000) as u16;
    if little {
        push_u16(bytes, low, true);
        push_u16(bytes, high, true);
    } else {
        push_u16(bytes, high, false);
        push_u16(bytes, low, false);
    }
    assert(bytes@ =~= old(bytes)@ + u32_bytes(x, little));
}

/// Appends the record of `event`, of `size` bytes and in the given byte order.
pub fn push_event_record(bytes: &mut Vec<u8>, event: InputEvent, size: usize, little: bool)
    requires
        size >= 8,
    ensures
        final(bytes)@ == old(bytes)@ + event_record(event, size as nat, little),
{
    let stamp: usize = size - 8;
    let mut i: usize = 0;
    while i < stamp
        invariant
            i <= stamp,
            bytes@ == old(bytes)@ + Seq::new(i as nat, |i: int| 0u8),
        decreases stamp - i,
    {
        bytes.push(0);
        assert(Seq::new(i as nat, |i: int| 0u8).push(0u8) =~= Seq::new(
            (i + 1) as nat,
            |i: int| 0u8,
        ));
        assert(bytes@ =~= old(bytes)@ + Seq::new((i + 1) as nat, |i: int| 0u8));
        i += 1;
    }
    push_u16(bytes, event.type_, little);
    push_u16(bytes, event.code, little);
    push_u32(bytes, event.value as u32, little);
    assert(bytes@ =~= old(bytes)@ + event_record(event, size as nat, little));
}

/// The length of a list of records.
pub proof fn lemma_event_records_len(events: Seq<InputEvent>, size: nat, little: bool)
    requires
        size >= 8,
    ensures
        event_records(events, size, little).len() == events.len() * size,
    decreases events.len(),
{
    if events.len() > 0 {
        lemma_event_records_len(events.drop_last(), size, little);
        assert(event_record(events.last(), size, little).len() == size);
        assert((events.len() - 1) * size + size == events.len() * size) by (nonlinear_arith);
    } else {
        assert(0 * size == 0) by (nonlinear_arith);
    }
}

/// Whether the bytes of the number 1 stand with the lowest byte first.
pub fn starts_with_lowest_byte(one: &[u8; 2]) -> (little: bool)
    ensures
        little == (one@ == u16_bytes(1, true)),
{
    let little = one[0] == 1 && one[1] == 0;
    proof {
        assert(u16_bytes(1, true) =~= seq![1u8, 0u8]);
        if little {
            assert(one@ =~= u16_bytes(1, true));
        }
    }
    little
}

/// The events as the bytes that the kernel reads: one platform-sized record per
/// event, in the byte order of the machine.
pub fn input_events_as_bytes(events: &[InputEvent]) -> (r: Vec<u8>)
    ensures
        r@ == event_records(
            events@,
            vstd::layout::size_of::<libc::input_event>(),
            lowest_byte_first(),
        ),
        r@.len() == events@.len() * vstd::layout::size_of::<libc::input_event>(),
{
    let size: usize = input_event_size();
    let little = starts_with_lowest_byte(&u16_native_bytes(1));
    assert(little == lowest_byte_first()) by {
        assert(u16_bytes(1, true)[0] == 1 && u16_bytes(1, false)[0] == 0);
    }
    let mut bytes: Vec<u8> = Vec::new();
    let mut i: usize = 0;
    while i < events.len()
        invariant
            i <= events.len(),
            size >= 8,
            bytes@ == event_records(events@.take(i as int), size as nat, little),
        decreases events.len() - i,
    {
        push_event_record(&mut bytes, events[i], size, little);
        proof {
            assert(events@.take(i + 1).drop_last() =~= events@.take(i as int));
        }
        i += 1;
    }
    proof {
        assert(events@.take(i as int) =~= events@);
        lemma_event_records_len(events@, size as nat, little);
    }
    bytes
}

// ---------------------------------------------------------------------------
// Writing the chord
// ---------------------------------------------------------------------------
/// One step of writing a chord.
#[derive(Debug)]
pub enum WriteStep {
    /// Write these events.
    Write(Vec<InputEvent>),
    /// Pause for this many nanoseconds.
    Sleep(u128),
}

/// A [`WriteStep`] with the sequence of its events.
pub enum WriteStepView {
    Write(Seq<InputEvent>),
    Sleep(u128),
}

impl View for WriteStep {
    type V = WriteStepView;

    open spec fn view(&self) -> WriteStepView {
        match self {
            WriteStep::Write(events) => WriteStepView::Write(events@),
            WriteStep::Sleep(nanos) => WriteStepView::Sleep(*nanos),
        }
    }
}

/// The steps of writing `chord`: the modifiers are written and a pause follows;
/// then V is written with the sync that completes the first frame, so that all
/// keys of the chord go down together; after a hold the second frame lets go of
/// everything. No sync stands between the modifiers and V: the pause falls inside
/// the first frame.
pub open spec fn write_plan(chord: PasteChord) -> Seq<WriteStepView> {
    seq![
        WriteStepView::Write(
            match chord {
                PasteChord::CtrlV => seq![key_down(KEY_LEFTCTRL)],
                PasteChord::CtrlShiftV => seq![key_down(KEY_LEFTCTRL), key_down(KEY_LEFTSHIFT)],
            },
        ),
        WriteStepView::Sleep(UINPUT_MODIFIER_SETTLE),
        WriteStepView::Write(seq![key_down(KEY_V), sync()]),
        WriteStepView::Sleep(UINPUT_KEY_HOLD),
        WriteStepView::Write(
            match chord {
                PasteChord::CtrlV => seq![key_up(KEY_V), key_up(KEY_LEFTCTRL), sync()],
                PasteChord::CtrlShiftV => seq![
                    key_up(KEY_V),
                    key_up(KEY_LEFTSHIFT),
                    key_up(KEY_LEFTCTRL),
                    sync(),
                ],
            },
        ),
    ]
}

/// All events of the writes among `steps`, in order.
pub open spec fn written(steps: Seq<WriteStepView>) -> Seq<InputEvent>
    decreases steps.len(),
{
    if steps.len() == 0 {
        Seq::empty()
    } else {
        match steps.last() {
            WriteStepView::Write(events) => written(steps.drop_last()) + events,
            WriteStepView::Sleep(_) => written(steps.drop_last()),
        }
    }
}

/// The step at `position` of writing `chord`.
pub fn write_paste_chord(chord: PasteChord, position: usize) -> (r: Option<WriteStep>)
    ensures
        r is Some <==> position < write_plan(chord).len(),
        r matches Some(step) ==> step@ == write_plan(chord)[position as int],
{
    let with_shift = chord == PasteChord::CtrlShiftV;
    let mut events: Vec<InputEvent> = Vec::new();
    if position == 0 {
        events.push(input_event(EV_KEY, KEY_LEFTCTRL, 1));
        if with_shift {
            events.push(input_event(EV_KEY, KEY_LEFTSHIFT, 1));
        }
        assert(WriteStepView::Write(events@) == write_plan(chord)[0]) by {
            assert(events@ =~= write_plan(chord)[0]->Write_0);
        }
        Some(WriteStep::Write(events))
    } else if position == 1 {
        Some(WriteStep::Sleep(UINPUT_MODIFIER_SETTLE))
    } else if position == 2 {
        events.push(input_event(EV_KEY, KEY_V, 1));
        events.push(sync_event());
        assert(WriteStepView::Write(events@) == write_plan(chord)[2]) by {
            assert(events@ =~= write_plan(chord)[2]->Write_0);
        }
        Some(WriteStep::Write(events))
    } else if position == 3 {
        Some(WriteStep::Sleep(UINPUT_KEY_HOLD))
    } else if position == 4 {
        events.push(input_event(EV_KEY, KEY_V, 0));
        if with_shift {
            events.push(input_event(EV_KEY, KEY_LEFTSHIFT, 0));
        }
        events.push(input_event(EV_KEY, KEY_LEFTCTRL, 0));
        events.push(sync_event());
        assert(WriteStepView::Write(events@) == write_plan(chord)[4]) by {
            assert(events@ =~= write_plan(chord)[4]->Write_0);
        }
        Some(WriteStep::Write(events))
    } else {
        None
    }
}

/// What is known while a chord is written.
#[derive(Debug)]
pub enum SendEvent {
    /// Nothing has been written yet.
    Begin,
    /// The step at this position was carried out.
    Stepped { position: usize, outcome: Result<(), String> },
    /// The keys were let go after a failure with this message.
    Released { error: String },
}

/// What the program does next while a chord is written.
#[derive(Debug)]
pub enum SendAction {
    /// Carry out the step at this position.
    Step { position: usize, step: WriteStep },
    /// Write the frame that lets go of every key; the chord failed with this
    /// message.
    Release { events: Vec<InputEvent>, error: String },
    /// The chord is over.
    Finish(Result<(), String>),
}

/// A [`SendEvent`] with the text of its message.
pub enum SendEventView {
    Begin,
    Stepped { position: int, outcome: Result<(), Seq<char>> },
    Released { error: Seq<char> },
}

impl View for SendEvent {
    type V = SendEventView;

    open spec fn view(&self) -> SendEventView {
        match self {
            SendEvent::Begin => SendEventView::Begin,
            SendEvent::Stepped { position, outcome } => SendEventView::Stepped {
                position: *position as int,
                outcome: result_text(*outcome),
            },
            SendEvent::Released { error } => SendEventView::Released { error: error@ },
        }
    }
}

/// A [`SendAction`] with the sequence of its events and the text of its message.
pub enum SendActionView {
    Step { position: int, step: WriteStepView },
    Release { events: Seq<InputEvent>, error: Seq<char> },
    Finish(Result<(), Seq<char>>),
}

impl View for SendAction {
    type V = SendActionView;

    open spec fn view(&self) -> SendActionView {
        match self {
            SendAction::Step { position, step } => SendActionView::Step {
                position: *position as int,
                step: step@,
            },
            SendAction::Release { events, error } => SendActionView::Release {
                events: events@,
                error: error@,
            },
            SendAction::Finish(r) => SendActionView::Finish(result_text(*r)),
        }
    }
}

/// The step at `position` is to be carried out, or the chord is over.
pub open spec fn send_at(chord: PasteChord, position: int) -> SendActionView {
    if 0 <= position < write_plan(chord).len() {
        SendActionView::Step { position, step: write_plan(chord)[position] }
    } else {
        SendActionView::Finish(Ok(()))
    }
}

/// The frame that lets go of every key is to be written after a failed write.
pub open spec fn send_failed(error: Seq<char>) -> SendActionView {
    SendActionView::Release {
        events: release_events(),
        error: "Failed to write uinput sequence: "@ + error,
    }
}

/// What follows `event` while `chord` is sent.
pub open spec fn send_next(chord: PasteChord, event: SendEventView) -> SendActionView {
    match event {
        SendEventView::Begin => send_at(chord, 0),
        SendEventView::Stepped { position, outcome: Ok(_) } => send_at(chord, position + 1),
        SendEventView::Stepped { outcome: Err(e), .. } => send_failed(e),
        SendEventView::Released { error } => SendActionView::Finish(Err(error)),
    }
}

/// Sends `chord`: its steps are carried out in order. After a failed write every
/// key is let go, and the chord fails whether or not that worked.
pub fn send_paste_chord(chord: PasteChord, event: SendEvent) -> (action: SendAction)
    ensures
        action@ == send_next(chord, event@),
{
    let position: usize = match event {
        SendEvent::Begin => 0,
        SendEvent::Stepped { position, outcome } => match outcome {
            Ok(_) => {
                if position >= 5 {
                    return SendAction::Finish(Ok(()));
                }
                position + 1
            },
            Err(error) => {
                return SendAction::Release {
                    events: release_all_keys(),
                    error: concat2("Failed to write uinput sequence: ", error.as_str()),
                };
            },
        },
        SendEvent::Released { error } => {
            return SendAction::Finish(Err(error));
        },
    };
    match write_paste_chord(chord, position) {
        Some(step) => SendAction::Step { position, step },
        None => SendAction::Finish(Ok(())),
    }
}

// ---------------------------------------------------------------------------
// Laws
// ---------------------------------------------------------------------------
/// What is written for a chord, all writes together, is its paste sequence: two
/// complete frames.
pub proof fn law_writes_make_up_the_paste_sequence(chord: PasteChord)
    ensures
        written(write_plan(chord)) == chord_events(chord),
{
    let plan = write_plan(chord);
    reveal_with_fuel(written, 6);
    assert(plan.drop_last().drop_last().drop_last().drop_last().drop_last() =~= Seq::empty());
    assert(written(plan) =~= chord_events(chord));
}

/// The keys that are down once `events` have been played on a keyboard on which
/// `down` were down.
pub open spec fn keys_down(events: Seq<InputEvent>, down: Set<u16>) -> Set<u16>
    decreases events.len(),
{
    if events.len() == 0 {
        down
    } else {
        let before = keys_down(events.drop_last(), down);
        let event = events.last();
        if event.type_ != EV_KEY {
            before
        } else if event.value == 0 {
            before.remove(event.code)
        } else {
            before.insert(event.code)
        }
    }
}

/// The keys of the virtual keyboard.
pub open spec fn paste_keys() -> Set<u16> {
    set![KEY_LEFTCTRL, KEY_LEFTSHIFT, KEY_V]
}

proof fn lemma_keys_down_step(chord: PasteChord, n: int)
    requires
        0 <= n < chord_events(chord).len(),
    ensures
        chord_keys_down(chord, n + 1) == ({
            let event = chord_events(chord)[n];
            let before = chord_keys_down(chord, n);
            if event.type_ != EV_KEY {
                before
            } else if event.value == 0 {
                before.remove(event.code)
            } else {
                before.insert(event.code)
            }
        }),
{
    assert(chord_events(chord).take(n + 1).drop_last() =~= chord_events(chord).take(n));
}

proof fn lemma_ctrl_v_prefixes()
    ensures
        chord_keys_down(PasteChord::CtrlV, 0) == Set::<u16>::empty(),
        chord_keys_down(PasteChord::CtrlV, 1) == set![KEY_LEFTCTRL],
        chord_keys_down(PasteChord::CtrlV, 2) == set![KEY_LEFTCTRL, KEY_V],
        chord_keys_down(PasteChord::CtrlV, 3) == set![KEY_LEFTCTRL, KEY_V],
        chord_keys_down(PasteChord::CtrlV, 4) == set![KEY_LEFTCTRL],
        chord_keys_down(PasteChord::CtrlV, 5) == Set::<u16>::empty(),
        chord_keys_down(PasteChord::CtrlV, 6) == Set::<u16>::empty(),
{
    let chord = PasteChord::CtrlV;
    assert(chord_events(chord).take(0) =~= Seq::empty());
    lemma_keys_down_step(chord, 0);
    assert(chord_keys_down(chord, 1) =~= set![KEY_LEFTCTRL]);
    lemma_keys_down_step(chord, 1);
    assert(chord_keys_down(chord, 2) =~= set![KEY_LEFTCTRL, KEY_V]);
    lemma_keys_down_step(chord, 2);
    lemma_keys_down_step(chord, 3);
    assert(chord_keys_down(chord, 4) =~= set![KEY_LEFTCTRL]);
    lemma_keys_down_step(chord, 4);
    assert(chord_keys_down(chord, 5) =~= Set::<u16>::empty());
    lemma_keys_down_step(chord, 5);
}

proof fn lemma_ctrl_shift_v_prefixes()
    ensures
        chord_keys_down(PasteChord::CtrlShiftV, 0) == Set::<u16>::empty(),
        chord_keys_down(PasteChord::CtrlShiftV, 1) == set![KEY_LEFTCTRL],
        chord_keys_down(PasteChord::CtrlShiftV, 2) == set![KEY_LEFTCTRL, KEY_LEFTSHIFT],
        chord_keys_down(PasteChord::CtrlShiftV, 3) == set![KEY_LEFTCTRL, KEY_LEFTSHIFT, KEY_V],
        chord_keys_down(PasteChord::CtrlShiftV, 4) == set![KEY_LEFTCTRL, KEY_LEFTSHIFT, KEY_V],
        chord_keys_down(PasteChord::CtrlShiftV, 5) == set![KEY_LEFTCTRL, KEY_LEFTSHIFT],
        chord_keys_down(PasteChord::CtrlShiftV, 6) == set![KEY_LEFTCTRL],
        chord_keys_down(PasteChord::CtrlShiftV, 7) == Set::<u16>::empty(),
        chord_keys_down(PasteChord::CtrlShiftV, 8) == Set::<u16>::empty(),
{
    let chord = PasteChord::CtrlShiftV;
    assert(chord_events(chord).take(0) =~= Seq::empty());
    lemma_keys_down_step(chord, 0);
    assert(chord_keys_down(chord, 1) =~= set![KEY_LEFTCTRL]);
    lemma_keys_down_step(chord, 1);
    assert(chord_keys_down(chord, 2) =~= set![KEY_LEFTCTRL, KEY_LEFTSHIFT]);
    lemma_keys_down_step(chord, 2);
    assert(chord_keys_down(chord, 3) =~= set![KEY_LEFTCTRL, KEY_LEFTSHIFT, KEY_V]);
    lemma_keys_down_step(chord, 3);
    lemma_keys_down_step(chord, 4);
    assert(chord_keys_down(chord, 5) =~= set![KEY_LEFTCTRL, KEY_LEFTSHIFT]);
    lemma_keys_down_step(chord, 5);
    assert(chord_keys_down(chord, 6) =~= set![KEY_LEFTCTRL]);
    lemma_keys_down_step(chord, 6);
    assert(chord_keys_down(chord, 7) =~= Set::<u16>::empty());
    lemma_keys_down_step(chord, 7);
}

/// A whole chord leaves every key as it was found: up.
pub proof fn law_paste_sequence_leaves_no_key_down(chord: PasteChord)
    ensures
        keys_down(chord_events(chord), Set::empty()) == Set::<u16>::empty(),
{
    match chord {
        PasteChord::CtrlV => {
            lemma_ctrl_v_prefixes();
            assert(chord_events(chord).take(6) =~= chord_events(chord));
        },
        PasteChord::CtrlShiftV => {
            lemma_ctrl_shift_v_prefixes();
            assert(chord_events(chord).take(8) =~= chord_events(chord));
        },
    }
}

/// Whatever part of a chord was written, letting go of all keys leaves none of
/// the keyboard's keys down.
pub proof fn law_release_leaves_no_key_down(down: Set<u16>)
    requires
        down.subset_of(paste_keys()),
    ensures
        keys_down(release_events(), down) == Set::<u16>::empty(),
{
    let events = release_events();
    reveal_with_fuel(keys_down, 5);
    assert(events.drop_last() =~= seq![key_up(KEY_V), key_up(KEY_LEFTSHIFT), key_up(KEY_LEFTCTRL)]);
    assert(events.drop_last().drop_last() =~= seq![key_up(KEY_V), key_up(KEY_LEFTSHIFT)]);
    assert(events.drop_last().drop_last().drop_last() =~= seq![key_up(KEY_V)]);
    assert(events.drop_last().drop_last().drop_last().drop_last() =~= Seq::empty());
    assert(keys_down(events, down) =~= Set::<u16>::empty());
}

/// The keys of the chord that are down after its first `n` events.
pub open spec fn chord_keys_down(chord: PasteChord, n: int) -> Set<u16> {
    keys_down(chord_events(chord).take(n), Set::empty())
}

proof fn lemma_keys_down_in_two_parts(
    first: Seq<InputEvent>,
    second: Seq<InputEvent>,
    down: Set<u16>,
)
    ensures
        keys_down(first + second, down) == keys_down(second, keys_down(first, down)),
    decreases second.len(),
{
    if second.len() == 0 {
        assert(first + second =~= first);
    } else {
        assert((first + second).drop_last() =~= first + second.drop_last());
        lemma_keys_down_in_two_parts(first, second.drop_last(), down);
    }
}

/// A chord that failed leaves no key down, however many of its events were played
/// before all keys were let go.
pub proof fn law_failed_chord_leaves_no_key_down(chord: PasteChord, n: int)
    requires
        0 <= n <= chord_events(chord).len(),
    ensures
        keys_down(chord_events(chord).take(n) + release_events(), Set::empty()) == Set::<
            u16,
        >::empty(),
{
    match chord {
        PasteChord::CtrlV => lemma_ctrl_v_prefixes(),
        PasteChord::CtrlShiftV => lemma_ctrl_shift_v_prefixes(),
    }
    lemma_keys_down_in_two_parts(chord_events(chord).take(n), release_events(), Set::empty());
    law_release_leaves_no_key_down(chord_keys_down(chord, n));
}

/// At every moment at which V is down, the modifiers of the chord are down too.
pub proof fn law_modifiers_are_held_around_v(chord: PasteChord, n: int)
    requires
        0 <= n <= chord_events(chord).len(),
        chord_keys_down(chord, n).contains(KEY_V),
    ensures
        chord_keys_down(chord, n).contains(KEY_LEFTCTRL),
        chord == PasteChord::CtrlShiftV ==> chord_keys_down(chord, n).contains(KEY_LEFTSHIFT),
{
    match chord {
        PasteChord::CtrlV => lemma_ctrl_v_prefixes(),
        PasteChord::CtrlShiftV => lemma_ctrl_shift_v_prefixes(),
    }
}

/// The actions of sending `chord` from `action` on, and where it ends, where the
/// step at each position is answered as `answers` says.
pub open spec fn send_course(
    chord: PasteChord,
    answers: spec_fn(int) -> Result<(), Seq<char>>,
    action: SendActionView,
    steps: nat,
) -> (Seq<SendActionView>, SendActionView)
    decreases steps,
{
    if steps == 0 || action is Finish {
        (Seq::empty(), action)
    } else {
        let event = match action {
            SendActionView::Step { position, .. } => SendEventView::Stepped {
                position,
                outcome: answers(position),
            },
            SendActionView::Release { error, .. } => SendEventView::Released { error },
            SendActionView::Finish(_) => SendEventView::Begin,
        };
        let (rest, end) = send_course(
            chord,
            answers,
            send_next(chord, event),
            (steps - 1) as nat,
        );
        (seq![action] + rest, end)
    }
}

/// The first `n` steps of `chord`.
pub open spec fn first_steps(chord: PasteChord, n: nat) -> Seq<SendActionView> {
    Seq::new(n, |i: int| send_at(chord, i))
}

proof fn lemma_send_course(
    chord: PasteChord,
    answers: spec_fn(int) -> Result<(), Seq<char>>,
    from: int,
    k: int,
    steps: nat,
)
    requires
        0 <= from <= k <= write_plan(chord).len(),
        steps >= k - from + 2,
        forall|i: int| from <= i < k ==> (#[trigger] answers(i)) is Ok,
        k < write_plan(chord).len() ==> answers(k) is Err,
    ensures
        k < write_plan(chord).len() ==> ({
            let (actions, end) = send_course(chord, answers, send_at(chord, from), steps);
            &&& actions == Seq::new((k + 1 - from) as nat, |i: int| send_at(chord, from + i)).push(
                send_failed(answers(k)->Err_0),
            )
            &&& end == SendActionView::Finish(Err(send_failed(answers(k)->Err_0)->error))
        }),
        k == write_plan(chord).len() ==> send_course(
            chord,
            answers,
            send_at(chord, from),
            steps,
        ) == (
            Seq::new((k - from) as nat, |i: int| send_at(chord, from + i)),
            SendActionView::Finish(Ok(())),
        ),
    decreases k - from,
{
    let (actions, end) = send_course(chord, answers, send_at(chord, from), steps);
    if from < k {
        assert(answers(from) is Ok);
        lemma_send_course(chord, answers, from + 1, k, (steps - 1) as nat);
        let (rest, _) = send_course(
            chord,
            answers,
            send_at(chord, from + 1),
            (steps - 1) as nat,
        );
        assert(actions =~= seq![send_at(chord, from)] + rest);
        if k < write_plan(chord).len() {
            assert(actions =~= Seq::new(
                (k + 1 - from) as nat,
                |i: int| send_at(chord, from + i),
            ).push(send_failed(answers(k)->Err_0)));
        } else {
            assert(actions =~= Seq::new((k - from) as nat, |i: int| send_at(chord, from + i)));
        }
    } else if k < write_plan(chord).len() {
        reveal_with_fuel(send_course, 3);
        assert(actions =~= Seq::new((k + 1 - from) as nat, |i: int| send_at(chord, from + i)).push(
            send_failed(answers(k)->Err_0),
        ));
    } else {
        assert(actions =~= Seq::new((k - from) as nat, |i: int| send_at(chord, from + i)));
    }
}

/// A chord is sent step by step. Where all steps succeed, so does the chord, and
/// nothing else is written; after the first that fails, every key is let go once,
/// and the chord fails with the error of that step.
pub proof fn law_chord_is_sent_or_let_go(
    chord: PasteChord,
    answers: spec_fn(int) -> Result<(), Seq<char>>,
    k: int,
)
    requires
        0 <= k <= write_plan(chord).len(),
        forall|i: int| 0 <= i < k ==> (#[trigger] answers(i)) is Ok,
        k < write_plan(chord).len() ==> answers(k) is Err,
    ensures
        send_course(chord, answers, send_next(chord, SendEventView::Begin), 7) == if k
            < write_plan(chord).len() {
            (
                first_steps(chord, (k + 1) as nat).push(send_failed(answers(k)->Err_0)),
                SendActionView::Finish(
                    Err("Failed to write uinput sequence: "@ + answers(k)->Err_0),
                ),
            )
        } else {
            (first_steps(chord, k as nat), SendActionView::Finish(Ok(())))
        },
{
    lemma_send_course(chord, answers, 0, k, 7);
    let (actions, end) = send_course(chord, answers, send_at(chord, 0), 7);
    if k < write_plan(chord).len() {
        assert(actions =~= first_steps(chord, (k + 1) as nat).push(
            send_failed(answers(k)->Err_0),
        ));
    } else {
        assert(actions =~= first_steps(chord, k as nat));
    }
}

} // verus!
