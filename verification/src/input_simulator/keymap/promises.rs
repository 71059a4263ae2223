//! What the key look-ups promise: which code is found in a map, and when a key
//! counts as down.

use vstd::arithmetic::div_mod::{
    lemma_fundamental_div_mod,
    lemma_fundamental_div_mod_converse, lemma_mod_bound,
};
use vstd::prelude::*;

use crate::input_simulator::keymap::{
    find_keycode, key_is_pressed, resolve_paste_keycodes, wait_for_x11_key_state, KeyWait,
    KeyboardMapping, KeymapAction, KeymapEvent, XK_CONTROL_L, XK_CONTROL_R,
    XK_LOWER_V, XK_SHIFT_L, XK_SHIFT_R, XK_UPPER_V,
};

verus! {

use crate::input_simulator::keymap::{
    keycode_of, keymap_bit, law_lowest_carrying_keycode_is_found, row_carries,
};
use crate::text::decimal;

// ---------------------------------------------------------------------------
// Looking a symbol up
// ---------------------------------------------------------------------------
/// The row of a key holds one of `wanted`, where the rows are `width` symbols wide
/// and stand one after the other.
pub open spec fn row_holds(keysyms: Seq<u32>, width: u8, row: int, wanted: Seq<u32>) -> bool {
    exists|i: int|
        {
            &&& row * width <= i < row * width + width
            &&& 0 <= i < keysyms.len()
            &&& wanted.contains(#[trigger] keysyms[i])
        }
}

/// `keycode` is the lowest code, from `first_keycode` on, whose row holds one of
/// `wanted`.
pub open spec fn is_lowest_with(
    keycode: u8,
    keysyms: Seq<u32>,
    width: u8,
    first_keycode: u8,
    wanted: Seq<u32>,
) -> bool {
    &&& width > 0
    &&& first_keycode <= keycode
    &&& row_holds(keysyms, width, keycode - first_keycode, wanted)
    &&& forall|row: int|
        0 <= row < keycode - first_keycode ==> !#[trigger] row_holds(keysyms, width, row, wanted)
}

/// No code up to the highest has one of `wanted` in its row.
pub open spec fn is_missing(
    keysyms: Seq<u32>,
    width: u8,
    first_keycode: u8,
    wanted: Seq<u32>,
) -> bool {
    width == 0 || forall|row: int|
        0 <= row <= 255 - first_keycode ==> !#[trigger] row_holds(keysyms, width, row, wanted)
}

proof fn lemma_rows(keysyms: Seq<u32>, width: u8, row: int, wanted: Seq<u32>)
    requires
        width > 0,
    ensures
        row_holds(keysyms, width, row, wanted) <==> row_carries(keysyms, width, row, wanted),
{
    let w = width as int;
    if row_holds(keysyms, width, row, wanted) {
        let i = choose|i: int|
            {
                &&& row * width <= i < row * width + width
                &&& 0 <= i < keysyms.len()
                &&& wanted.contains(#[trigger] keysyms[i])
            };
        lemma_fundamental_div_mod_converse(i, w, row, i - row * w);
        assert(i / w == row);
    }
    if row_carries(keysyms, width, row, wanted) {
        let i = choose|i: int|
            0 <= i < keysyms.len() && i / w == row && wanted.contains(#[trigger] keysyms[i]);
        lemma_fundamental_div_mod(i, w);
        lemma_mod_bound(i, w);
        assert(w * row == row * w) by (nonlinear_arith);
        assert(row * width <= i < row * width + width);
    }
}

proof fn lemma_lookup(keysyms: Seq<u32>, width: u8, first_keycode: u8, wanted: Seq<u32>)
    ensures
        match keycode_of(keysyms, width, first_keycode, wanted) {
            Some(keycode) => is_lowest_with(keycode, keysyms, width, first_keycode, wanted),
            None => is_missing(keysyms, width, first_keycode, wanted),
        },
{
    if width > 0 {
        assert forall|row: int|
            row_holds(keysyms, width, row, wanted) <==> #[trigger] row_carries(
                keysyms,
                width,
                row,
                wanted,
            ) by {
            lemma_rows(keysyms, width, row, wanted);
        }
        match keycode_of(keysyms, width, first_keycode, wanted) {
            Some(keycode) => {
                law_lowest_carrying_keycode_is_found(
                    keysyms,
                    width,
                    first_keycode,
                    wanted,
                    first_keycode,
                );
                law_lowest_carrying_keycode_is_found(
                    keysyms,
                    width,
                    first_keycode,
                    wanted,
                    keycode,
                );
                lemma_rows(keysyms, width, keycode - first_keycode, wanted);
                assert forall|row: int| 0 <= row < keycode - first_keycode implies
                    !#[trigger] row_holds(keysyms, width, row, wanted) by {
                    lemma_rows(keysyms, width, row, wanted);
                }
            },
            None => {
                assert forall|row: int| 0 <= row <= 255 - first_keycode implies
                    !#[trigger] row_holds(keysyms, width, row, wanted) by {
                    law_lowest_carrying_keycode_is_found(
                        keysyms,
                        width,
                        first_keycode,
                        wanted,
                        (first_keycode + row) as u8,
                    );
                    lemma_rows(keysyms, width, row, wanted);
                }
            },
        }
    }
}

/// A look-up finds the lowest code whose row holds one of the wanted symbols, the
/// rows being as wide as it is told, and finds none exactly where there is none.
pub proof fn law_lookup_finds_the_lowest_row(
    keysyms: &[u32],
    keysyms_per_keycode: u8,
    first_keycode: u8,
    wanted: &[u32],
    r: Option<u8>,
)
    requires
        call_ensures(find_keycode, (keysyms, keysyms_per_keycode, first_keycode, wanted), r),
    ensures
        match r {
            Some(keycode) => is_lowest_with(
                keycode,
                keysyms@,
                keysyms_per_keycode,
                first_keycode,
                wanted@,
            ),
            None => is_missing(keysyms@, keysyms_per_keycode, first_keycode, wanted@),
        },
{
    lemma_lookup(keysyms@, keysyms_per_keycode, first_keycode, wanted@);
}

/// Where the keys of a map are resolved, each code is the lowest whose row of the
/// map, as wide as the map itself says, holds one of the two symbols of that key:
/// the left or right Ctrl, the left or right Shift, the small or capital V. They are
/// resolved exactly where all three are there; otherwise the first that is missing
/// is named.
pub proof fn law_keys_come_from_the_map(
    first_keycode: u8,
    mapping: KeyboardMapping,
    action: KeymapAction,
)
    requires
        call_ensures(
            resolve_paste_keycodes,
            (KeymapEvent::Mapping { first_keycode, outcome: Ok(mapping) },),
            action,
        ),
    ensures
        ({
            let symbols = mapping.keysyms@;
            let width = mapping.keysyms_per_keycode;
            let ctrl = seq![0xffe3u32, 0xffe4u32];
            let shift = seq![0xffe1u32, 0xffe2u32];
            let v = seq![0x76u32, 0x56u32];
            match action {
                KeymapAction::Finish(Ok(codes)) => {
                    &&& is_lowest_with(codes.ctrl, symbols, width, first_keycode, ctrl)
                    &&& is_lowest_with(codes.shift, symbols, width, first_keycode, shift)
                    &&& is_lowest_with(codes.v, symbols, width, first_keycode, v)
                },
                KeymapAction::Finish(Err(m)) => {
                    ||| is_missing(symbols, width, first_keycode, ctrl) && m@
                        == "Ctrl key not found in the active X11 keymap"@
                    ||| !is_missing(symbols, width, first_keycode, ctrl) && is_missing(
                        symbols,
                        width,
                        first_keycode,
                        shift,
                    ) && m@ == "Shift key not found in the active X11 keymap"@
                    ||| !is_missing(symbols, width, first_keycode, ctrl) && !is_missing(
                        symbols,
                        width,
                        first_keycode,
                        shift,
                    ) && is_missing(symbols, width, first_keycode, v) && m@
                        == "V key not found in the active X11 keymap"@
                },
                _ => false,
            }
        }),
{
    let symbols = mapping.keysyms@;
    let width = mapping.keysyms_per_keycode;
    lemma_lookup(symbols, width, first_keycode, seq![XK_CONTROL_L, XK_CONTROL_R]);
    lemma_lookup(symbols, width, first_keycode, seq![XK_SHIFT_L, XK_SHIFT_R]);
    lemma_lookup(symbols, width, first_keycode, seq![XK_LOWER_V, XK_UPPER_V]);
    lemma_lowest_is_not_missing(symbols, width, first_keycode, seq![XK_CONTROL_L, XK_CONTROL_R]);
    lemma_lowest_is_not_missing(symbols, width, first_keycode, seq![XK_SHIFT_L, XK_SHIFT_R]);
}

proof fn lemma_lowest_is_not_missing(
    keysyms: Seq<u32>,
    width: u8,
    first_keycode: u8,
    wanted: Seq<u32>,
)
    ensures
        keycode_of(keysyms, width, first_keycode, wanted) is Some ==> !is_missing(
            keysyms,
            width,
            first_keycode,
            wanted,
        ),
{
    lemma_lookup(keysyms, width, first_keycode, wanted);
    if let Some(keycode) = keycode_of(keysyms, width, first_keycode, wanted) {
        assert(row_holds(keysyms, width, keycode - first_keycode, wanted));
    }
}

/// The map is asked for over exactly the codes that the server announced, as long as
/// their number fits a byte; a map that could not be had is an error with its cause.
pub proof fn law_map_is_asked_for_over_the_announced_codes(
    min_keycode: u8,
    max_keycode: u8,
    first_keycode: u8,
    error: String,
    asked: KeymapAction,
    failed: KeymapAction,
)
    requires
        call_ensures(
            resolve_paste_keycodes,
            (KeymapEvent::Range { min_keycode, max_keycode },),
            asked,
        ),
        call_ensures(
            resolve_paste_keycodes,
            (KeymapEvent::Mapping { first_keycode, outcome: Err(error) },),
            failed,
        ),
    ensures
        match asked {
            KeymapAction::Query { first_keycode, keycode_count } => first_keycode == min_keycode
                && first_keycode + keycode_count == max_keycode + 1 && keycode_count > 0,
            KeymapAction::Finish(Err(m)) => (max_keycode < min_keycode || (min_keycode == 0
                && max_keycode == 255)) && m@ == "Invalid X11 keycode range"@,
            _ => false,
        },
        failed matches KeymapAction::Finish(Err(m)) && m@ == "Failed to query X11 keymap: "@
            + error@,
{
}

// ---------------------------------------------------------------------------
// Key states
// ---------------------------------------------------------------------------
/// The value of a bit of a byte.
pub open spec fn bit_value(bit: int) -> int {
    if bit == 0 {
        1
    } else if bit == 1 {
        2
    } else if bit == 2 {
        4
    } else if bit == 3 {
        8
    } else if bit == 4 {
        16
    } else if bit == 5 {
        32
    } else if bit == 6 {
        64
    } else {
        128
    }
}

/// The key `keycode` is down in a map of 32 bytes with eight keys each, the lowest
/// key in the bit of the lowest value.
pub open spec fn is_down(keymap: Seq<u8>, keycode: u8) -> bool {
    (keymap[keycode as int / 8] as int / bit_value(keycode as int % 8)) % 2 == 1
}

proof fn lemma_is_down(keymap: Seq<u8>, keycode: u8)
    requires
        keymap.len() == 32,
    ensures
        keymap_bit(keymap, keycode) <==> is_down(keymap, keycode),
{
    let cell = keymap[keycode as int / 8];
    let bit = keycode % 8;
    assert((cell >> 0u8) & 1 == 1 <==> (cell / 1) % 2 == 1) by (bit_vector);
    assert((cell >> 1u8) & 1 == 1 <==> (cell / 2) % 2 == 1) by (bit_vector);
    assert((cell >> 2u8) & 1 == 1 <==> (cell / 4) % 2 == 1) by (bit_vector);
    assert((cell >> 3u8) & 1 == 1 <==> (cell / 8) % 2 == 1) by (bit_vector);
    assert((cell >> 4u8) & 1 == 1 <==> (cell / 16) % 2 == 1) by (bit_vector);
    assert((cell >> 5u8) & 1 == 1 <==> (cell / 32) % 2 == 1) by (bit_vector);
    assert((cell >> 6u8) & 1 == 1 <==> (cell / 64) % 2 == 1) by (bit_vector);
    assert((cell >> 7u8) & 1 == 1 <==> (cell / 128) % 2 == 1) by (bit_vector);
}

/// A key counts as down exactly where its own bit is set.
pub proof fn law_key_is_down_where_its_bit_is_set(keymap: [u8; 32], keycode: u8, r: bool)
    requires
        call_ensures(key_is_pressed, (&keymap, keycode), r),
    ensures
        r <==> is_down(keymap@, keycode),
{
    lemma_is_down(keymap@, keycode);
}

/// A look at a key ends the wait well exactly where the key is in the awaited state,
/// however late; it ends it badly where the query failed, or where the state is
/// another and a quarter of a second has passed; and otherwise the wait goes on
/// after a millisecond.
pub proof fn law_look_at_a_key_decides_the_wait(
    keycode: u8,
    expected_pressed: bool,
    keymap: Result<[u8; 32], String>,
    elapsed: u128,
    step: KeyWait,
)
    requires
        call_ensures(wait_for_x11_key_state, (keycode, expected_pressed, keymap, elapsed), step),
    ensures
        step == KeyWait::Finish(Ok(())) <==> (keymap matches Ok(keys) && is_down(keys@, keycode)
            == expected_pressed),
        step is Sleep <==> (keymap matches Ok(keys) && is_down(keys@, keycode) != expected_pressed
            && elapsed < 250_000_000),
        step matches KeyWait::Sleep(nanos) ==> nanos == 1_000_000,
        keymap matches Err(e) ==> (step matches KeyWait::Finish(Err(m)) && m@
            == "Failed to query X11 key state: "@ + e@),
        keymap is Ok && step is Finish && step->Finish_0 is Err ==> {
            let m = step->Finish_0->Err_0@;
            let start = "Timed out waiting for X11 key "@ + decimal(keycode as nat);
            &&& expected_pressed ==> m == start + " to become "@ + "pressed"@
            &&& !expected_pressed ==> m == start + " to become "@ + "released"@
        },
{
    if let Ok(keys) = keymap {
        lemma_is_down(keys@, keycode);
    }
}

} // verus!
