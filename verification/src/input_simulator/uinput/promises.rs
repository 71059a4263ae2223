//! What the virtual keyboard promises: the bytes of its events, and what is written
//! in which order.

use vstd::endian::{endianness, Endian};
use vstd::prelude::*;

use crate::input_simulator::uinput::{
    input_events_as_bytes, paste_sequence, release_all_keys, send_paste_chord,
    starts_with_lowest_byte, sync_event, write_paste_chord, InputEvent, SendAction, SendEvent,
    WriteStep, EV_KEY, EV_SYN, KEY_LEFTCTRL, KEY_LEFTSHIFT, KEY_V, SYN_REPORT,
};
use crate::input_simulator::PasteChord;

verus! {

use crate::input_simulator::uinput::{
    event_record, event_records, lemma_event_records_len, u16_bytes, u32_bytes,
};
use crate::machine::lowest_byte_first;

// ---------------------------------------------------------------------------
// Bytes
// ---------------------------------------------------------------------------
/// The two bytes from `at` on make the number `n`.
pub open spec fn two_bytes_make(bytes: Seq<u8>, at: int, n: int, little: bool) -> bool {
    n == if little {
        bytes[at] + 0x100 * bytes[at + 1]
    } else {
        bytes[at + 1] + 0x100 * bytes[at]
    }
}

/// The four bytes from `at` on make the number `n`.
pub open spec fn four_bytes_make(bytes: Seq<u8>, at: int, n: int, little: bool) -> bool {
    n == if little {
        bytes[at] + 0x100 * bytes[at + 1] + 0x1_0000 * bytes[at + 2] + 0x100_0000 * bytes[at + 3]
    } else {
        bytes[at + 3] + 0x100 * bytes[at + 2] + 0x1_0000 * bytes[at + 1] + 0x100_0000 * bytes[at]
    }
}

/// `value` as it stands in four bytes: two's complement.
pub open spec fn in_four_bytes(value: i32) -> int {
    if value >= 0 {
        value as int
    } else {
        value + 0x1_0000_0000
    }
}

/// The `size` bytes from `at` on are the record of `event`: zeros for its time, and
/// then its type, its code and its value.
pub open spec fn is_record_at(
    bytes: Seq<u8>,
    at: int,
    size: int,
    event: InputEvent,
    little: bool,
) -> bool {
    &&& 0 <= at
    &&& at + size <= bytes.len()
    &&& forall|i: int| at <= i < at + size - 8 ==> (#[trigger] bytes[i]) == 0
    &&& two_bytes_make(bytes, at + size - 8, event.type_ as int, little)
    &&& two_bytes_make(bytes, at + size - 6, event.code as int, little)
    &&& four_bytes_make(bytes, at + size - 4, in_four_bytes(event.value), little)
}

proof fn lemma_two_bytes(x: u16, little: bool)
    ensures
        u16_bytes(x, little).len() == 2,
        two_bytes_make(u16_bytes(x, little), 0, x as int, little),
{
}

proof fn lemma_four_bytes(x: u32, little: bool)
    ensures
        u32_bytes(x, little).len() == 4,
        four_bytes_make(u32_bytes(x, little), 0, x as int, little),
{
    let low = (x % 0x10000) as u16;
    let high = (x / 0x10000) as u16;
    lemma_two_bytes(low, little);
    lemma_two_bytes(high, little);
}

proof fn lemma_record(event: InputEvent, size: nat, little: bool)
    requires
        size >= 8,
    ensures
        event_record(event, size, little).len() == size,
        is_record_at(event_record(event, size, little), 0, size as int, event, little),
{
    let r = event_record(event, size, little);
    let value = event.value;
    lemma_two_bytes(event.type_, little);
    lemma_two_bytes(event.code, little);
    lemma_four_bytes(value as u32, little);
    assert(value as u32 == in_four_bytes(value)) by {
        assert(value >= 0 ==> value as u32 == value) by (bit_vector);
        assert(value < 0 ==> value as u32 == value + 0x1_0000_0000) by (bit_vector);
    }
    let n = size as int;
    assert(r[n - 8] == u16_bytes(event.type_, little)[0]);
    assert(r[n - 7] == u16_bytes(event.type_, little)[1]);
    assert(r[n - 6] == u16_bytes(event.code, little)[0]);
    assert(r[n - 5] == u16_bytes(event.code, little)[1]);
    assert(r[n - 4] == u32_bytes(value as u32, little)[0]);
    assert(r[n - 3] == u32_bytes(value as u32, little)[1]);
    assert(r[n - 2] == u32_bytes(value as u32, little)[2]);
    assert(r[n - 1] == u32_bytes(value as u32, little)[3]);
}

proof fn lemma_record_inside(
    whole: Seq<u8>,
    part: Seq<u8>,
    at: int,
    from: int,
    size: int,
    event: InputEvent,
    little: bool,
)
    requires
        is_record_at(part, from, size, event, little),
        size >= 8,
        0 <= at,
        at + part.len() <= whole.len(),
        forall|i: int| 0 <= i < part.len() ==> whole[at + i] == #[trigger] part[i],
    ensures
        is_record_at(whole, at + from, size, event, little),
{
    assert forall|i: int| at + from <= i < at + from + size - 8 implies (#[trigger] whole[i])
        == 0 by {
        assert(part[i - at] == 0);
    }
    let n = from + size;
    assert(whole[at + n - 8] == part[n - 8]);
    assert(whole[at + n - 7] == part[n - 7]);
    assert(whole[at + n - 6] == part[n - 6]);
    assert(whole[at + n - 5] == part[n - 5]);
    assert(whole[at + n - 4] == part[n - 4]);
    assert(whole[at + n - 3] == part[n - 3]);
    assert(whole[at + n - 2] == part[n - 2]);
    assert(whole[at + n - 1] == part[n - 1]);
}

proof fn lemma_records(events: Seq<InputEvent>, size: nat, little: bool, k: int)
    requires
        size >= 8,
        0 <= k < events.len(),
    ensures
        is_record_at(
            event_records(events, size, little),
            k * size,
            size as int,
            events[k],
            little,
        ),
    decreases events.len(),
{
    let front = event_records(events.drop_last(), size, little);
    let last = event_record(events.last(), size, little);
    let all = event_records(events, size, little);
    lemma_event_records_len(events.drop_last(), size, little);
    lemma_event_records_len(events, size, little);
    lemma_record(events.last(), size, little);
    if k == events.len() - 1 {
        assert(front.len() == k * size);
        lemma_record_inside(all, last, k * size, 0, size as int, events[k], little);
    } else {
        lemma_records(events.drop_last(), size, little, k);
        lemma_record_inside(all, front, 0, k * size, size as int, events[k], little);
    }
}

/// The bytes of a list of events are their records, one after the other, as large as
/// the platform has them and in the byte order of the machine: the record of the
/// event at `k` stands at `k` times that size, and nothing else is there.
pub proof fn law_bytes_hold_every_event_in_its_place(
    events: &[InputEvent],
    bytes: Vec<u8>,
    size: nat,
    k: int,
)
    requires
        call_ensures(input_events_as_bytes, (events,), bytes),
        size == vstd::layout::size_of::<libc::input_event>(),
        size >= 8,
        0 <= k < events@.len(),
    ensures
        bytes@.len() == events@.len() * size,
        is_record_at(
            bytes@,
            k * size,
            size as int,
            events@[k],
            endianness() == Endian::Little,
        ),
{
    lemma_records(events@, size, lowest_byte_first(), k);
}

/// One event as a record of any size: zeros, then type, code and value.
pub proof fn law_record_of_an_event(event: InputEvent, size: nat, little: bool)
    requires
        size >= 8,
    ensures
        event_record(event, size, little).len() == size,
        is_record_at(event_record(event, size, little), 0, size as int, event, little),
{
    lemma_record(event, size, little);
}

/// The machine keeps the lowest byte first exactly where it writes the number 1 as a
/// one and then a zero.
pub proof fn law_one_tells_the_byte_order(one: [u8; 2], little: bool)
    requires
        call_ensures(starts_with_lowest_byte, (&one,), little),
    ensures
        little <==> one@[0] == 1 && one@[1] == 0,
        lowest_byte_first() <==> endianness() == Endian::Little,
{
    let first = u16_bytes(1, true);
    assert(first.len() == 2 && first[0] == 1 && first[1] == 0);
    if one@[0] == 1 && one@[1] == 0 {
        assert(one@ =~= first);
    }
}

// ---------------------------------------------------------------------------
// Events
// ---------------------------------------------------------------------------
/// The numbers that the kernel has for the events and keys.
pub proof fn law_kernel_numbers()
    ensures
        EV_SYN == 0,
        EV_KEY == 1,
        SYN_REPORT == 0,
        KEY_LEFTCTRL == 29,
        KEY_LEFTSHIFT == 42,
        KEY_V == 47,
{
}

/// The event of a key.
pub open spec fn key(code: u16, value: i32) -> InputEvent {
    InputEvent { type_: 1, code, value }
}

/// The event that ends a frame.
pub open spec fn frame_end() -> InputEvent {
    InputEvent { type_: 0, code: 0, value: 0 }
}

/// A chord is two frames: in the first its keys go down, V last; in the second they
/// go up in the reverse order. Shift is among them exactly in Ctrl+Shift+V.
pub proof fn law_chord_is_two_frames(chord: PasteChord, events: Vec<InputEvent>, end: InputEvent)
    requires
        call_ensures(paste_sequence, (chord,), events),
        call_ensures(sync_event, (), end),
    ensures
        end == frame_end(),
        chord == PasteChord::CtrlV ==> events@ == seq![
            key(29, 1),
            key(47, 1),
            frame_end(),
            key(47, 0),
            key(29, 0),
            frame_end(),
        ],
        chord == PasteChord::CtrlShiftV ==> events@ == seq![
            key(29, 1),
            key(42, 1),
            key(47, 1),
            frame_end(),
            key(47, 0),
            key(42, 0),
            key(29, 0),
            frame_end(),
        ],
{
}

/// Letting go of all keys releases each key of the keyboard, in one frame.
pub proof fn law_all_keys_are_let_go(events: Vec<InputEvent>)
    requires
        call_ensures(release_all_keys, (), events),
    ensures
        events@ == seq![key(47, 0), key(42, 0), key(29, 0), frame_end()],
{
}

/// A chord is written in three writes with two pauses between: the modifiers, twelve
/// milliseconds, V and the end of its frame, eighteen milliseconds, and the frame
/// that lets go. There are no other steps.
pub proof fn law_chord_is_written_in_three_parts(
    chord: PasteChord,
    position: usize,
    step: Option<WriteStep>,
)
    requires
        call_ensures(write_paste_chord, (chord, position), step),
    ensures
        step is Some <==> position < 5,
        position == 0 ==> (step matches Some(WriteStep::Write(events)) && events@ == if chord
            == PasteChord::CtrlV {
            seq![key(29, 1)]
        } else {
            seq![key(29, 1), key(42, 1)]
        }),
        position == 1 ==> step == Some(WriteStep::Sleep(12_000_000)),
        position == 2 ==> (step matches Some(WriteStep::Write(events)) && events@ == seq![
            key(47, 1),
            frame_end(),
        ]),
        position == 3 ==> step == Some(WriteStep::Sleep(18_000_000)),
        position == 4 ==> (step matches Some(WriteStep::Write(events)) && events@ == if chord
            == PasteChord::CtrlV {
            seq![key(47, 0), key(29, 0), frame_end()]
        } else {
            seq![key(47, 0), key(42, 0), key(29, 0), frame_end()]
        }),
{
}

/// Sending goes from step to step while each works, and ends well after the last.
/// After a step that failed every key is let go, and whatever that came to, the chord
/// fails with the error of the step.
pub proof fn law_sending_goes_step_by_step(
    chord: PasteChord,
    event: SendEvent,
    action: SendAction,
    position: usize,
    step: Option<WriteStep>,
)
    requires
        call_ensures(send_paste_chord, (chord, event), action),
        call_ensures(write_paste_chord, (chord, position), step),
        match event {
            SendEvent::Begin => position == 0,
            SendEvent::Stepped { position: done, .. } => position == done + 1,
            SendEvent::Released { .. } => true,
        },
    ensures
        match event {
            SendEvent::Stepped { outcome: Err(e), .. } => action matches SendAction::Release {
                events,
                error,
            } && events@ == seq![key(47, 0), key(42, 0), key(29, 0), frame_end()] && error@
                == "Failed to write uinput sequence: "@ + e@,
            SendEvent::Released { error } => action matches SendAction::Finish(Err(m)) && m@
                == error@,
            _ => match step {
                Some(next) => action matches SendAction::Step { position: at, step: now } && at
                    == position && now@ == next@,
                None => action == SendAction::Finish(Ok(())),
            },
        },
{
}

/// A write holds its events and a pause its length.
pub proof fn law_write_steps_are_seen_whole(step: WriteStep, other: WriteStep)
    requires
        step@ == other@,
    ensures
        step matches WriteStep::Write(events) ==> (other matches WriteStep::Write(same) && same@
            == events@),
        step matches WriteStep::Sleep(nanos) ==> other == WriteStep::Sleep(nanos),
{
}

} // verus!
