//! X11 key codes: which code carries a symbol in the active keyboard map, and
//! whether a key is down.

use vstd::prelude::*;

use crate::text::{concat2, decimal_text};

pub mod promises;

verus! {

use crate::text::{decimal, result_text};

pub const XK_CONTROL_L: u32 = 0xffe3;

pub const XK_CONTROL_R: u32 = 0xffe4;

pub const XK_SHIFT_L: u32 = 0xffe1;

pub const XK_SHIFT_R: u32 = 0xffe2;

pub const XK_LOWER_V: u32 = 0x0076;

pub const XK_UPPER_V: u32 = 0x0056;

/// How long a key state is waited for, in nanoseconds. Key-state checks are
/// round trips to the X server and normally finish immediately; this is only a
/// failure ceiling for a stalled server.
pub const X11_KEY_STATE_TIMEOUT: u128 = 250_000_000;

/// The pause between two looks at a key state, in nanoseconds.
pub const X11_KEY_STATE_POLL_INTERVAL: u128 = 1_000_000;

// ---------------------------------------------------------------------------
// Looking a symbol up
// ---------------------------------------------------------------------------
/// `i` is the first place in `keysyms` that holds one of `wanted`.
pub open spec fn is_first_wanted(keysyms: Seq<u32>, wanted: Seq<u32>, i: int) -> bool {
    &&& 0 <= i < keysyms.len()
    &&& wanted.contains(keysyms[i])
    &&& forall|j: int| 0 <= j < i ==> !wanted.contains(#[trigger] keysyms[j])
}

/// The lowest key code that carries one of `wanted`. The symbols stand in rows
/// of `keysyms_per_keycode`, one row per key code from `first_keycode` on; the
/// last row may be cut short.
pub open spec fn keycode_of(
    keysyms: Seq<u32>,
    keysyms_per_keycode: u8,
    first_keycode: u8,
    wanted: Seq<u32>,
) -> Option<u8> {
    if keysyms_per_keycode == 0 || !(exists|i: int| is_first_wanted(keysyms, wanted, i)) {
        None
    } else {
        let i = choose|i: int| is_first_wanted(keysyms, wanted, i);
        let keycode = first_keycode + i / (keysyms_per_keycode as int);
        if keycode <= 0xff {
            Some(keycode as u8)
        } else {
            None
        }
    }
}

fn is_wanted(wanted: &[u32], symbol: u32) -> (r: bool)
    ensures
        r == wanted@.contains(symbol),
{
    let mut i: usize = 0;
    while i < wanted.len()
        invariant
            i <= wanted.len(),
            forall|j: int| 0 <= j < i ==> wanted@[j] != symbol,
        decreases wanted.len() - i,
    {
        if wanted[i] == symbol {
            assert(wanted@[i as int] == symbol);
            return true;
        }
        i += 1;
    }
    false
}

/// Finds the lowest key code that carries one of the wanted symbols.
pub fn find_keycode(
    keysyms: &[u32],
    keysyms_per_keycode: u8,
    first_keycode: u8,
    wanted: &[u32],
) -> (r: Option<u8>)
    ensures
        r == keycode_of(keysyms@, keysyms_per_keycode, first_keycode, wanted@),
{
    let width: usize = keysyms_per_keycode as usize;
    if width == 0 {
        return None;
    }
    let mut i: usize = 0;
    while i < keysyms.len()
        invariant
            i <= keysyms.len(),
            forall|j: int| 0 <= j < i ==> !wanted@.contains(#[trigger] keysyms@[j]),
            width == keysyms_per_keycode as usize,
            width > 0,
        decreases keysyms.len() - i,
    {
        if is_wanted(wanted, keysyms[i]) {
            let offset: usize = i / width;
            proof {
                assert(is_first_wanted(keysyms@, wanted@, i as int));
                let c = choose|c: int| is_first_wanted(keysyms@, wanted@, c);
                assert(is_first_wanted(keysyms@, wanted@, c));
                assert(c == i) by {
                    if c < i {
                        assert(wanted@.contains(keysyms@[c]));
                    }
                    if i < c {
                        assert(wanted@.contains(keysyms@[i as int]));
                    }
                }
            }
            if offset > 0xff {
                return None;
            }
            return first_keycode.checked_add(offset as u8);
        }
        i += 1;
    }
    proof {
        assert(forall|c: int| !is_first_wanted(keysyms@, wanted@, c));
    }
    None
}

// ---------------------------------------------------------------------------
// The keys of the chord
// ---------------------------------------------------------------------------
/// The key codes of Ctrl, Shift and V.
#[derive(Debug, Clone, Copy, PartialEq, Eq, Structural)]
pub struct PasteKeycodes {
    pub ctrl: u8,
    pub shift: u8,
    pub v: u8,
}

/// The server's keyboard map, from its lowest key code on.
#[derive(Debug)]
pub struct KeyboardMapping {
    pub keysyms: Vec<u32>,
    pub keysyms_per_keycode: u8,
}

/// What is known while the keys of the chord are looked up.
#[derive(Debug)]
pub enum KeymapEvent {
    /// The range of key codes that the server announced.
    Range { min_keycode: u8, max_keycode: u8 },
    /// The answer to the query for the map from `first_keycode` on.
    Mapping { first_keycode: u8, outcome: Result<KeyboardMapping, String> },
}

/// What the program does next while the keys of the chord are looked up.
#[derive(Debug)]
pub enum KeymapAction {
    /// Ask for the map of `keycode_count` key codes from `first_keycode` on.
    Query { first_keycode: u8, keycode_count: u8 },
    /// The look-up is over.
    Finish(Result<PasteKeycodes, String>),
}

/// The keys of the chord in a keyboard map, or which one it lacks.
pub open spec fn paste_keycodes(mapping: KeyboardMapping, first_keycode: u8) -> Result<
    PasteKeycodes,
    Seq<char>,
> {
    let per = mapping.keysyms_per_keycode;
    let keysyms = mapping.keysyms@;
    match keycode_of(keysyms, per, first_keycode, seq![XK_CONTROL_L, XK_CONTROL_R]) {
        None => Err("Ctrl key not found in the active X11 keymap"@),
        Some(ctrl) => match keycode_of(keysyms, per, first_keycode, seq![XK_SHIFT_L, XK_SHIFT_R]) {
            None => Err("Shift key not found in the active X11 keymap"@),
            Some(shift) => match keycode_of(
                keysyms,
                per,
                first_keycode,
                seq![XK_LOWER_V, XK_UPPER_V],
            ) {
                None => Err("V key not found in the active X11 keymap"@),
                Some(v) => Ok(PasteKeycodes { ctrl, shift, v }),
            },
        },
    }
}

fn keycodes_in(mapping: &KeyboardMapping, first_keycode: u8) -> (r: Result<PasteKeycodes, String>)
    ensures
        result_text(r) == paste_keycodes(*mapping, first_keycode),
{
    let keysyms = mapping.keysyms.as_slice();
    let per: u8 = mapping.keysyms_per_keycode;
    let wanted_ctrl: [u32; 2] = [XK_CONTROL_L, XK_CONTROL_R];
    let wanted_shift: [u32; 2] = [XK_SHIFT_L, XK_SHIFT_R];
    let wanted_v: [u32; 2] = [XK_LOWER_V, XK_UPPER_V];
    proof {
        assert(wanted_ctrl@ =~= seq![XK_CONTROL_L, XK_CONTROL_R]);
        assert(wanted_shift@ =~= seq![XK_SHIFT_L, XK_SHIFT_R]);
        assert(wanted_v@ =~= seq![XK_LOWER_V, XK_UPPER_V]);
    }
    let ctrl: u8 = match find_keycode(keysyms, per, first_keycode, wanted_ctrl.as_slice()) {
        Some(keycode) => keycode,
        None => return Err("Ctrl key not found in the active X11 keymap".to_string()),
    };
    let shift: u8 = match find_keycode(keysyms, per, first_keycode, wanted_shift.as_slice()) {
        Some(keycode) => keycode,
        None => return Err("Shift key not found in the active X11 keymap".to_string()),
    };
    let v: u8 = match find_keycode(keysyms, per, first_keycode, wanted_v.as_slice()) {
        Some(keycode) => keycode,
        None => return Err("V key not found in the active X11 keymap".to_string()),
    };
    Ok(PasteKeycodes { ctrl, shift, v })
}

/// A [`KeymapAction`] with the text of its message.
pub enum KeymapActionView {
    Query { first_keycode: u8, keycode_count: u8 },
    Finish(Result<PasteKeycodes, Seq<char>>),
}

impl View for KeymapAction {
    type V = KeymapActionView;

    open spec fn view(&self) -> KeymapActionView {
        match self {
            KeymapAction::Query { first_keycode, keycode_count } => KeymapActionView::Query {
                first_keycode: *first_keycode,
                keycode_count: *keycode_count,
            },
            KeymapAction::Finish(r) => KeymapActionView::Finish(result_text(*r)),
        }
    }
}

/// What follows `event` while the keys of the chord are looked up.
pub open spec fn keymap_next(event: KeymapEvent) -> KeymapActionView {
    match event {
        KeymapEvent::Range { min_keycode, max_keycode } => {
            let count = max_keycode - min_keycode + 1;
            if 1 <= count <= 0xff {
                KeymapActionView::Query { first_keycode: min_keycode, keycode_count: count as u8 }
            } else {
                KeymapActionView::Finish(Err("Invalid X11 keycode range"@))
            }
        },
        KeymapEvent::Mapping { first_keycode, outcome: Ok(mapping) } => KeymapActionView::Finish(
            paste_keycodes(mapping, first_keycode),
        ),
        KeymapEvent::Mapping { outcome: Err(e), .. } => KeymapActionView::Finish(
            Err("Failed to query X11 keymap: "@ + e@),
        ),
    }
}

/// Looks up the keys of the chord: first the map of the announced key codes is
/// asked for, then Ctrl, Shift and V are found in it.
pub fn resolve_paste_keycodes(event: KeymapEvent) -> (action: KeymapAction)
    ensures
        action@ == keymap_next(event),
{
    match event {
        KeymapEvent::Range { min_keycode, max_keycode } => {
            if max_keycode < min_keycode || max_keycode - min_keycode == 0xff {
                KeymapAction::Finish(Err("Invalid X11 keycode range".to_string()))
            } else {
                KeymapAction::Query {
                    first_keycode: min_keycode,
                    keycode_count: max_keycode - min_keycode + 1,
                }
            }
        },
        KeymapEvent::Mapping { first_keycode, outcome } => match outcome {
            Ok(mapping) => KeymapAction::Finish(keycodes_in(&mapping, first_keycode)),
            Err(error) => KeymapAction::Finish(
                Err(concat2("Failed to query X11 keymap: ", error.as_str())),
            ),
        },
    }
}

// ---------------------------------------------------------------------------
// Key states
// ---------------------------------------------------------------------------
/// The bit of `keycode` in a bit map of all key codes: eight codes to a byte,
/// the lowest code in the lowest bit.
pub open spec fn keymap_bit(keymap: Seq<u8>, keycode: u8) -> bool {
    (keymap[keycode as int / 8] >> (keycode % 8)) & 1 == 1
}

/// Whether the key with this code is down.
pub fn key_is_pressed(keymap: &[u8; 32], keycode: u8) -> (r: bool)
    ensures
        r == keymap_bit(keymap@, keycode),
{
    let byte: usize = (keycode / 8) as usize;
    let bit: u8 = keycode % 8;
    let cell: u8 = keymap[byte];
    proof {
        assert((cell & (1u8 << bit) != 0) == ((cell >> bit) & 1 == 1)) by (bit_vector)
            requires
                bit < 8,
        ;
    }
    cell & (1u8 << bit) != 0
}

/// What the program does next while it waits for a key state.
#[derive(Debug)]
pub enum KeyWait {
    /// The wait is over.
    Finish(Result<(), String>),
    /// Look again after this many nanoseconds.
    Sleep(u128),
}

/// A [`KeyWait`] with the text of its message.
pub enum KeyWaitView {
    Finish(Result<(), Seq<char>>),
    Sleep(u128),
}

impl View for KeyWait {
    type V = KeyWaitView;

    open spec fn view(&self) -> KeyWaitView {
        match self {
            KeyWait::Finish(r) => KeyWaitView::Finish(result_text(*r)),
            KeyWait::Sleep(nanos) => KeyWaitView::Sleep(*nanos),
        }
    }
}

/// One look at the key states: what the server showed, and the time since the
/// wait began.
pub struct KeySample {
    pub keymap: Result<[u8; 32], String>,
    pub elapsed: u128,
}

/// How an awaited key state is called.
pub open spec fn state_name(pressed: bool) -> Seq<char> {
    if pressed {
        "pressed"@
    } else {
        "released"@
    }
}

/// The sample shows the key in the awaited state.
pub open spec fn shows_state(keycode: u8, expected_pressed: bool, sample: KeySample) -> bool {
    sample.keymap matches Ok(keys) && keymap_bit(keys@, keycode) == expected_pressed
}

/// What a sample says of the awaited state if the wait is to end with it.
pub open spec fn key_wait_result(
    keycode: u8,
    expected_pressed: bool,
    sample: KeySample,
) -> Result<(), Seq<char>> {
    match sample.keymap {
        Err(e) => Err("Failed to query X11 key state: "@ + e@),
        Ok(_) => if shows_state(keycode, expected_pressed, sample) {
            Ok(())
        } else {
            Err(
                "Timed out waiting for X11 key "@ + decimal(keycode as nat) + " to become "@
                    + state_name(expected_pressed),
            )
        },
    }
}

/// What follows a sample: the wait goes on where the server shows another state
/// and time is left.
pub open spec fn key_wait_next(
    keycode: u8,
    expected_pressed: bool,
    sample: KeySample,
) -> KeyWaitView {
    if sample.keymap is Ok && !shows_state(keycode, expected_pressed, sample) && sample.elapsed
        < X11_KEY_STATE_TIMEOUT {
        KeyWaitView::Sleep(X11_KEY_STATE_POLL_INTERVAL)
    } else {
        KeyWaitView::Finish(key_wait_result(keycode, expected_pressed, sample))
    }
}

/// Judges one look at the key states, `elapsed` nanoseconds after the wait for
/// `keycode` began.
pub fn wait_for_x11_key_state(
    keycode: u8,
    expected_pressed: bool,
    keymap: Result<[u8; 32], String>,
    elapsed: u128,
) -> (step: KeyWait)
    ensures
        step@ == key_wait_next(keycode, expected_pressed, KeySample { keymap, elapsed }),
{
    match keymap {
        Err(error) => KeyWait::Finish(
            Err(concat2("Failed to query X11 key state: ", error.as_str())),
        ),
        Ok(keys) => {
            if key_is_pressed(&keys, keycode) == expected_pressed {
                return KeyWait::Finish(Ok(()));
            }
            if elapsed >= X11_KEY_STATE_TIMEOUT {
                let mut message = concat2(
                    "Timed out waiting for X11 key ",
                    decimal_text(keycode as u32).as_str(),
                );
                message.append(" to become ");
                message.append(
                    if expected_pressed {
                        "pressed"
                    } else {
                        "released"
                    },
                );
                return KeyWait::Finish(Err(message));
            }
            KeyWait::Sleep(X11_KEY_STATE_POLL_INTERVAL)
        },
    }
}

// ---------------------------------------------------------------------------
// Laws
// ---------------------------------------------------------------------------
/// The row of symbols `row` has one of `wanted`, where a row holds `width`
/// symbols.
pub open spec fn row_carries(keysyms: Seq<u32>, width: u8, row: int, wanted: Seq<u32>) -> bool {
    exists|i: int|
        0 <= i < keysyms.len() && i / (width as int) == row && wanted.contains(
            #[trigger] keysyms[i],
        )
}

proof fn lemma_some_symbol_is_first(keysyms: Seq<u32>, wanted: Seq<u32>, i: int)
    requires
        0 <= i < keysyms.len(),
        wanted.contains(keysyms[i]),
    ensures
        exists|c: int| c <= i && is_first_wanted(keysyms, wanted, c),
    decreases i,
{
    if forall|j: int| 0 <= j < i ==> !wanted.contains(#[trigger] keysyms[j]) {
        assert(is_first_wanted(keysyms, wanted, i));
    } else {
        let j = choose|j: int| 0 <= j < i && wanted.contains(#[trigger] keysyms[j]);
        lemma_some_symbol_is_first(keysyms, wanted, j);
    }
}

/// The key code that is found carries one of the wanted symbols, and no lower one
/// does. Where none is found, no key code up to the highest carries one.
pub proof fn law_lowest_carrying_keycode_is_found(
    keysyms: Seq<u32>,
    width: u8,
    first_keycode: u8,
    wanted: Seq<u32>,
    keycode: u8,
)
    requires
        width > 0,
        first_keycode <= keycode,
    ensures
        keycode_of(keysyms, width, first_keycode, wanted) == Some(keycode) <==> {
            &&& row_carries(keysyms, width, keycode - first_keycode, wanted)
            &&& forall|row: int|
                0 <= row < keycode - first_keycode ==> !row_carries(keysyms, width, row, wanted)
        },
        keycode_of(keysyms, width, first_keycode, wanted) is None ==> !row_carries(
            keysyms,
            width,
            keycode - first_keycode,
            wanted,
        ),
        keycode_of(keysyms, width, first_keycode, wanted) matches Some(found) ==> found
            >= first_keycode,
{
    let w = width as int;
    let row = keycode - first_keycode;
    let found = keycode_of(keysyms, width, first_keycode, wanted);
    if exists|c: int| is_first_wanted(keysyms, wanted, c) {
        let c = choose|c: int| is_first_wanted(keysyms, wanted, c);
        assert(0 <= c / w) by {
            vstd::arithmetic::div_mod::lemma_div_pos_is_pos(c, w);
        }
        assert(row_carries(keysyms, width, c / w, wanted));
        assert forall|r: int| 0 <= r < c / w implies !row_carries(keysyms, width, r, wanted) by {
            if row_carries(keysyms, width, r, wanted) {
                let i = choose|i: int|
                    0 <= i < keysyms.len() && i / w == r && wanted.contains(#[trigger] keysyms[i]);
                assert(c <= i);
                vstd::arithmetic::div_mod::lemma_div_is_ordered(c, i, w);
            }
        }
    } else {
        assert forall|r: int| !row_carries(keysyms, width, r, wanted) by {
            if row_carries(keysyms, width, r, wanted) {
                let i = choose|i: int|
                    0 <= i < keysyms.len() && i / w == r && wanted.contains(#[trigger] keysyms[i]);
                lemma_some_symbol_is_first(keysyms, wanted, i);
            }
        }
    }
}

/// The lower of two key codes, as far as there are any.
pub open spec fn lower_keycode(a: Option<u8>, b: Option<u8>) -> Option<u8> {
    match (a, b) {
        (Some(x), Some(y)) => if x <= y {
            Some(x)
        } else {
            Some(y)
        },
        (Some(x), None) => Some(x),
        (None, _) => b,
    }
}

proof fn lemma_keycode_of_first(
    keysyms: Seq<u32>,
    width: u8,
    first_keycode: u8,
    wanted: Seq<u32>,
    i: int,
)
    requires
        width > 0,
        is_first_wanted(keysyms, wanted, i),
    ensures
        keycode_of(keysyms, width, first_keycode, wanted) == ({
            let keycode = first_keycode + i / (width as int);
            if keycode <= 0xff {
                Some(keycode as u8)
            } else {
                None
            }
        }),
        i / (width as int) >= 0,
{
    let c = choose|c: int| is_first_wanted(keysyms, wanted, c);
    assert(is_first_wanted(keysyms, wanted, c));
    if c < i {
        assert(wanted.contains(keysyms[c]));
    }
    if i < c {
        assert(wanted.contains(keysyms[i]));
    }
    vstd::arithmetic::div_mod::lemma_div_pos_is_pos(i, width as int);
}

/// The order of the wanted symbols does not matter, nor do repeats: lists with the
/// same symbols give the same key code.
pub proof fn law_same_symbols_give_the_same_keycode(
    keysyms: Seq<u32>,
    width: u8,
    first_keycode: u8,
    wanted: Seq<u32>,
    other: Seq<u32>,
)
    requires
        forall|symbol: u32| wanted.contains(symbol) == #[trigger] other.contains(symbol),
    ensures
        keycode_of(keysyms, width, first_keycode, wanted) == keycode_of(
            keysyms,
            width,
            first_keycode,
            other,
        ),
{
    assert forall|i: int| is_first_wanted(keysyms, wanted, i) == is_first_wanted(keysyms, other, i)
        by {
        if 0 <= i < keysyms.len() {
            assert(wanted.contains(keysyms[i]) == other.contains(keysyms[i]));
        }
        if is_first_wanted(keysyms, wanted, i) {
            assert forall|j: int| 0 <= j < i implies !other.contains(#[trigger] keysyms[j]) by {
                assert(!wanted.contains(keysyms[j]));
            }
        }
        if is_first_wanted(keysyms, other, i) {
            assert forall|j: int| 0 <= j < i implies !wanted.contains(#[trigger] keysyms[j]) by {
                assert(!other.contains(keysyms[j]));
            }
        }
    }
    if width > 0 && exists|i: int| is_first_wanted(keysyms, wanted, i) {
        let i = choose|i: int| is_first_wanted(keysyms, wanted, i);
        assert(is_first_wanted(keysyms, other, i));
        lemma_keycode_of_first(keysyms, width, first_keycode, wanted, i);
        lemma_keycode_of_first(keysyms, width, first_keycode, other, i);
    }
}

/// Two lists of wanted symbols joined give the lower of the key codes that each
/// gives.
pub proof fn law_joined_symbols_give_the_lower_keycode(
    keysyms: Seq<u32>,
    width: u8,
    first_keycode: u8,
    wanted: Seq<u32>,
    more: Seq<u32>,
)
    ensures
        keycode_of(keysyms, width, first_keycode, wanted + more) == lower_keycode(
            keycode_of(keysyms, width, first_keycode, wanted),
            keycode_of(keysyms, width, first_keycode, more),
        ),
{
    let all = wanted + more;
    assert forall|symbol: u32| #[trigger]
        all.contains(symbol) == (wanted.contains(symbol) || more.contains(symbol)) by {
        if wanted.contains(symbol) {
            let i = choose|i: int| 0 <= i < wanted.len() && wanted[i] == symbol;
            assert(all[i] == symbol);
        }
        if more.contains(symbol) {
            let i = choose|i: int| 0 <= i < more.len() && more[i] == symbol;
            assert(all[wanted.len() + i] == symbol);
        }
    }
    if width > 0 {
        let in_wanted = exists|i: int| is_first_wanted(keysyms, wanted, i);
        let in_more = exists|i: int| is_first_wanted(keysyms, more, i);
        let i = choose|i: int| is_first_wanted(keysyms, wanted, i);
        let j = choose|j: int| is_first_wanted(keysyms, more, j);
        if in_wanted {
            lemma_keycode_of_first(keysyms, width, first_keycode, wanted, i);
        } else {
            assert forall|k: int| 0 <= k < keysyms.len() implies !wanted.contains(
                #[trigger] keysyms[k],
            ) by {
                if wanted.contains(keysyms[k]) {
                    lemma_some_symbol_is_first(keysyms, wanted, k);
                }
            }
        }
        if in_more {
            lemma_keycode_of_first(keysyms, width, first_keycode, more, j);
        } else {
            assert forall|k: int| 0 <= k < keysyms.len() implies !more.contains(
                #[trigger] keysyms[k],
            ) by {
                if more.contains(keysyms[k]) {
                    lemma_some_symbol_is_first(keysyms, more, k);
                }
            }
        }
        if in_wanted && (!in_more || i <= j) {
            assert(is_first_wanted(keysyms, all, i));
            lemma_keycode_of_first(keysyms, width, first_keycode, all, i);
            if in_more {
                vstd::arithmetic::div_mod::lemma_div_is_ordered(i, j, width as int);
            }
        } else if in_more {
            assert(is_first_wanted(keysyms, all, j));
            lemma_keycode_of_first(keysyms, width, first_keycode, all, j);
            if in_wanted {
                vstd::arithmetic::div_mod::lemma_div_is_ordered(j, i, width as int);
            }
        } else {
            assert forall|k: int| !is_first_wanted(keysyms, all, k) by {
                if is_first_wanted(keysyms, all, k) {
                    assert(all.contains(keysyms[k]));
                }
            }
        }
    }
}

/// Each key has a bit of its own: setting the bit of one key changes the state of
/// no other.
pub proof fn law_keys_have_their_own_bits(keymap: Seq<u8>, pressed: u8, keycode: u8)
    requires
        keymap.len() == 32,
    ensures
        keymap_bit(
            keymap.update(
                pressed as int / 8,
                keymap[pressed as int / 8] | (1u8 << (pressed % 8)),
            ),
            keycode,
        ) == (keycode == pressed || keymap_bit(keymap, keycode)),
{
    let cell = keymap[pressed as int / 8];
    let set = pressed % 8;
    let bit = keycode % 8;
    assert(((cell | (1u8 << set)) >> bit) & 1 == 1 <==> (bit == set || (cell >> bit) & 1 == 1))
        by (bit_vector)
        requires
            set < 8,
            bit < 8,
    ;
}

/// The wait for a key state ends with the sample at `k`: the first after which it
/// does not go on.
pub open spec fn key_wait_ends_at(
    keycode: u8,
    expected_pressed: bool,
    samples: Seq<KeySample>,
    k: int,
) -> bool {
    &&& 0 <= k < samples.len()
    &&& key_wait_next(keycode, expected_pressed, samples[k]) is Finish
    &&& forall|j: int|
        0 <= j < k ==> key_wait_next(keycode, expected_pressed, #[trigger] samples[j]) is Sleep
}

/// The wait for a key state ends with the first sample that shows the state, that
/// failed, or that came at or past the timeout, and comes out as that sample says:
/// well exactly where it shows the state, however late.
pub proof fn law_key_wait_ends_with_the_state_or_too_late(
    keycode: u8,
    expected_pressed: bool,
    samples: Seq<KeySample>,
    k: int,
)
    ensures
        key_wait_ends_at(keycode, expected_pressed, samples, k) <==> {
            &&& 0 <= k < samples.len()
            &&& shows_state(keycode, expected_pressed, samples[k]) || samples[k].keymap is Err
                || samples[k].elapsed >= X11_KEY_STATE_TIMEOUT
            &&& forall|j: int|
                0 <= j < k ==> !shows_state(keycode, expected_pressed, #[trigger] samples[j])
                    && samples[j].keymap is Ok && samples[j].elapsed < X11_KEY_STATE_TIMEOUT
        },
        key_wait_ends_at(keycode, expected_pressed, samples, k) ==> {
            &&& key_wait_next(keycode, expected_pressed, samples[k]) == KeyWaitView::Finish(
                key_wait_result(keycode, expected_pressed, samples[k]),
            )
            &&& key_wait_result(keycode, expected_pressed, samples[k]) is Ok <==> shows_state(
                keycode,
                expected_pressed,
                samples[k],
            )
        },
{
    if key_wait_ends_at(keycode, expected_pressed, samples, k) {
        assert forall|j: int| 0 <= j < k implies !shows_state(
            keycode,
            expected_pressed,
            #[trigger] samples[j],
        ) && samples[j].keymap is Ok && samples[j].elapsed < X11_KEY_STATE_TIMEOUT by {
            assert(key_wait_next(keycode, expected_pressed, samples[j]) is Sleep);
        }
    }
}

/// The keys of the chord are found exactly where the announced range can be
/// queried, the query works and the map carries Ctrl, Shift and V; the map is asked
/// for once, over the whole range.
pub proof fn law_keys_are_resolved_from_one_query(
    min_keycode: u8,
    max_keycode: u8,
    outcome: Result<KeyboardMapping, String>,
)
    ensures
        ({
            let first = keymap_next(KeymapEvent::Range { min_keycode, max_keycode });
            let second = keymap_next(
                KeymapEvent::Mapping { first_keycode: min_keycode, outcome },
            );
            &&& first is Query <==> min_keycode <= max_keycode && max_keycode - min_keycode < 0xff
            &&& first is Query ==> first == (KeymapActionView::Query {
                first_keycode: min_keycode,
                keycode_count: (max_keycode - min_keycode + 1) as u8,
            })
            &&& first !is Query ==> first == KeymapActionView::Finish(
                Err("Invalid X11 keycode range"@),
            )
            &&& second is Finish
            &&& second->Finish_0 is Ok <==> (outcome matches Ok(mapping) && paste_keycodes(
                mapping,
                min_keycode,
            ) is Ok)
        }),
{
}

} // verus!
