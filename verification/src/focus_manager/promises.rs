//! What the target's memory, its matching and its reading promise, for all windows,
//! texts and patterns.

use vstd::prelude::*;
use vstd::utf8::{decode_utf8, valid_utf8};

use crate::focus_manager::{
    non_empty, restore_focused_window, target_matches_any_pattern, x11_window_class,
    x11_window_hint, x11_window_title, CaptureAction, CaptureEvent, FocusMemory, MemoryView,
    TargetWindowHint, TitleAction, TitleEvent,
};
use crate::paste_sync::FocusRestore;

verus! {

use crate::focus_manager::{
    any_pattern_matches, capture_after, capture_next, found_in, hint_saved, hint_view, last_named,
    pattern_matches,
};
use crate::text::promises::{
    blank_between, is_core_of, law_blank_is_white_space_alone,
    law_lower_case_changes_ascii_capitals_alone, law_parts_make_up_the_text,
    law_trimming_leaves_the_core,
};
use crate::text::{
    ascii_lowercase, is_blank, is_white_space, joined, nul_parts, occurs_in, texts, trimmed,
};

// ---------------------------------------------------------------------------
// Saving
// ---------------------------------------------------------------------------
/// Outside X11 a capture does nothing. Inside, it forgets everything before it asks
/// for the focused window, takes that window as it is told, asks what is known of
/// exactly that window, and takes that as it is told.
pub proof fn law_capture_step_by_step(memory: MemoryView, event: CaptureEvent)
    ensures
        ({
            let after = capture_after(memory, event);
            let action = capture_next(event);
            match event {
                CaptureEvent::Begin { x11_session: false } => after == memory && action
                    == CaptureAction::Finish,
                CaptureEvent::Begin { x11_session: true } => after.window == 0 && after.hint is None
                    && action == CaptureAction::QueryFocus,
                CaptureEvent::Focus(Some(window)) => after.window == window && after.hint
                    == memory.hint && action == CaptureAction::QueryHint(window),
                CaptureEvent::Focus(None) => after == memory && action == CaptureAction::Finish,
                CaptureEvent::Hint(hint) => {
                    &&& after.window == memory.window
                    &&& after.hint is Some <==> hint is Some
                    &&& hint matches Some(told) ==> {
                        &&& told.app_id is Some <==> after.hint->0.app_id is Some
                        &&& told.title is Some <==> after.hint->0.title is Some
                        &&& told.app_id matches Some(t) ==> after.hint->0.app_id == Some(t@)
                        &&& told.title matches Some(t) ==> after.hint->0.title == Some(t@)
                    }
                    &&& action == CaptureAction::Finish
                },
            }
        }),
{
}

/// A new memory is a memory of no window and of no hint.
pub proof fn law_new_memory_is_empty(memory: FocusMemory)
    requires
        call_ensures(FocusMemory::new, (), memory),
    ensures
        memory.last_focused_window == 0,
        memory.target_hint is None,
{
}

/// What is said of a memory is said of the window and of both texts that it holds.
pub proof fn law_memory_is_seen_whole(memory: FocusMemory)
    ensures
        memory@.window == memory.last_focused_window,
        memory@.hint is Some <==> memory.target_hint is Some,
        memory.target_hint matches Some(hint) ==> {
            &&& memory@.hint->0.app_id is Some <==> hint.app_id is Some
            &&& memory@.hint->0.title is Some <==> hint.title is Some
            &&& hint.app_id matches Some(t) ==> memory@.hint->0.app_id == Some(t@)
            &&& hint.title matches Some(t) ==> memory@.hint->0.title == Some(t@)
        },
{
}

/// A text is kept without its surrounding white space, and it is kept exactly where
/// it has a character that is not white space.
pub proof fn law_visible_text_is_kept_without_its_margins(value: String, r: Option<String>)
    requires
        call_ensures(non_empty, (value,), r),
    ensures
        r is None <==> blank_between(value@, 0, value@.len() as int),
        r matches Some(text) ==> is_core_of(text@, value@) && text@.len() > 0,
{
    law_blank_is_white_space_alone(value@);
    law_trimming_leaves_the_core(value@, trimmed(value@));
}

/// The text that is kept of an optional value.
pub open spec fn is_kept_of(kept: Option<Seq<char>>, value: Option<Seq<char>>) -> bool {
    match value {
        None => kept is None,
        Some(text) => if blank_between(text, 0, text.len() as int) {
            kept is None
        } else {
            kept matches Some(core) && is_core_of(core, text) && core.len() > 0
        },
    }
}

/// Saving a hint keeps the window. Where both values are missing or blank the hint
/// stays as it was; otherwise it holds what is kept of each value, and nothing of
/// the hint before.
pub proof fn law_saved_hint_is_what_was_told(
    memory: MemoryView,
    app_id: Option<Seq<char>>,
    title: Option<Seq<char>>,
)
    ensures
        ({
            let after = hint_saved(memory, app_id, title);
            &&& after.window == memory.window
            &&& is_kept_of(None, app_id) && is_kept_of(None, title) ==> after.hint == memory.hint
            &&& !(is_kept_of(None, app_id) && is_kept_of(None, title)) ==> {
                &&& after.hint is Some
                &&& is_kept_of(after.hint->0.app_id, app_id)
                &&& is_kept_of(after.hint->0.title, title)
            }
        }),
{
    if app_id is Some {
        law_blank_is_white_space_alone(app_id->0);
        law_trimming_leaves_the_core(app_id->0, trimmed(app_id->0));
    }
    if title is Some {
        law_blank_is_white_space_alone(title->0);
        law_trimming_leaves_the_core(title->0, trimmed(title->0));
    }
}

// ---------------------------------------------------------------------------
// Matching
// ---------------------------------------------------------------------------
/// Two characters are the same, or the same ASCII letter in another case.
pub open spec fn same_letter(a: char, b: char) -> bool {
    let x = a as u32;
    let y = b as u32;
    ||| x == y
    ||| 65 <= x <= 90 && y == x + 32
    ||| 65 <= y <= 90 && x == y + 32
}

/// `core` can be read in `value` from `at` on, whatever the ASCII case.
pub open spec fn reads_at(core: Seq<char>, value: Seq<char>, at: int) -> bool {
    &&& 0 <= at <= value.len() - core.len()
    &&& forall|j: int| 0 <= j < core.len() ==> same_letter(#[trigger] core[j], value[at + j])
}

/// `core` can be read somewhere in `value`.
pub open spec fn reads_in(core: Seq<char>, value: Option<String>) -> bool {
    value matches Some(text) && exists|at: int| reads_at(core, text@, at)
}

/// `pattern` names the target with this hint: what stands between its margins is
/// something, and can be read in the application id or in the title.
pub open spec fn names(pattern: String, hint: TargetWindowHint) -> bool {
    exists|core: Seq<char>|
        {
            &&& #[trigger] is_core_of(core, pattern@)
            &&& core.len() > 0
            &&& reads_in(core, hint.app_id) || reads_in(core, hint.title)
        }
}

/// One of `patterns` names the remembered target.
pub open spec fn names_target(patterns: Seq<String>, memory: FocusMemory) -> bool {
    memory.target_hint matches Some(hint) && exists|i: int|
        0 <= i < patterns.len() && names(#[trigger] patterns[i], hint)
}

proof fn lemma_lower_case_agrees(core: Seq<char>, value: Seq<char>, at: int)
    requires
        0 <= at <= value.len() - core.len(),
    ensures
        reads_at(core, value, at) <==> ascii_lowercase(value).subrange(at, at + core.len())
            == ascii_lowercase(core),
{
    law_lower_case_changes_ascii_capitals_alone(core);
    law_lower_case_changes_ascii_capitals_alone(value);
    let part = ascii_lowercase(value).subrange(at, at + core.len());
    let low = ascii_lowercase(core);
    assert forall|j: int| 0 <= j < core.len() implies (same_letter(#[trigger] core[j], value[at + j])
        <==> part[j] == low[j]) by {
        assert(part[j] == ascii_lowercase(value)[at + j]);
        assert((low[j] as u32 == part[j] as u32) <==> low[j] == part[j]);
    }
    if reads_at(core, value, at) {
        assert forall|j: int| 0 <= j < core.len() implies part[j] == low[j] by {
            assert(same_letter(core[j], value[at + j]));
        }
        assert(part =~= low);
    }
    if part == low {
        assert forall|j: int| 0 <= j < core.len() implies same_letter(
            #[trigger] core[j],
            value[at + j],
        ) by {
            assert(part[j] == low[j]);
        }
    }
}

proof fn lemma_found_is_read(core: Seq<char>, value: Option<String>)
    ensures
        reads_in(core, value) <==> found_in(ascii_lowercase(core), crate::text::opt_text(value)),
{
    if value is Some {
        let text = value->0@;
        let low = ascii_lowercase(core);
        law_lower_case_changes_ascii_capitals_alone(core);
        law_lower_case_changes_ascii_capitals_alone(text);
        if reads_in(core, value) {
            let at = choose|at: int| reads_at(core, text, at);
            lemma_lower_case_agrees(core, text, at);
            assert(ascii_lowercase(text).subrange(at, at + low.len()) == low);
        }
        if occurs_in(low, ascii_lowercase(text)) {
            let at = choose|at: int|
                0 <= at <= ascii_lowercase(text).len() - low.len() && #[trigger] ascii_lowercase(
                    text,
                ).subrange(at, at + low.len()) == low;
            lemma_lower_case_agrees(core, text, at);
            assert(reads_at(core, text, at));
        }
    }
}

proof fn lemma_names(pattern: String, hint: TargetWindowHint)
    ensures
        names(pattern, hint) <==> pattern_matches(pattern@, hint@),
{
    let core = trimmed(pattern@);
    law_trimming_leaves_the_core(pattern@, core);
    law_lower_case_changes_ascii_capitals_alone(core);
    lemma_found_is_read(core, hint.app_id);
    lemma_found_is_read(core, hint.title);
    if names(pattern, hint) {
        let other = choose|other: Seq<char>|
            {
                &&& #[trigger] is_core_of(other, pattern@)
                &&& other.len() > 0
                &&& reads_in(other, hint.app_id) || reads_in(other, hint.title)
            };
        law_trimming_leaves_the_core(pattern@, other);
    }
}

/// A target is matched exactly where something is remembered of it and one of the
/// patterns, without its margins, is not empty and can be read in the application
/// id or in the title, whatever the ASCII case.
pub proof fn law_match_is_a_pattern_read_in_the_hint(
    memory: FocusMemory,
    patterns: &[String],
    r: bool,
)
    requires
        call_ensures(target_matches_any_pattern, (&memory, patterns), r),
    ensures
        r <==> names_target(patterns@, memory),
{
    lemma_target(memory, patterns@);
}

/// The patterns name the remembered target in one way of saying it exactly where
/// they do in the other.
pub proof fn lemma_target(memory: FocusMemory, patterns: Seq<String>)
    ensures
        any_pattern_matches(texts(patterns), memory@.hint) <==> names_target(patterns, memory),
{
    if memory.target_hint is Some {
        let hint = memory.target_hint->0;
        assert(memory@.hint == Some(hint@));
        assert forall|i: int| 0 <= i < patterns.len() implies (names(#[trigger] patterns[i], hint)
            <==> pattern_matches(texts(patterns)[i], hint@)) by {
            lemma_names(patterns[i], hint);
        }
        if names_target(patterns, memory) {
            let i = choose|i: int| 0 <= i < patterns.len() && names(#[trigger] patterns[i], hint);
            assert(pattern_matches(texts(patterns)[i], hint@));
        }
        if any_pattern_matches(texts(patterns), memory@.hint) {
            let i = choose|i: int|
                0 <= i < texts(patterns).len() && pattern_matches(
                    #[trigger] texts(patterns)[i],
                    hint@,
                );
            assert(names(patterns[i], hint));
        }
    }
}

// ---------------------------------------------------------------------------
// Restoring
// ---------------------------------------------------------------------------
/// The focus goes back to the window that was saved, and to no other; without one
/// there is nothing to restore.
pub proof fn law_focus_goes_back_to_the_saved_window(
    memory: FocusMemory,
    r: Result<FocusRestore, String>,
)
    requires
        call_ensures(restore_focused_window, (&memory,), r),
    ensures
        r is Ok <==> memory.last_focused_window != 0,
        r matches Ok(request) ==> request.target_window == memory.last_focused_window
            && request.timeout == 750_000_000 && request.stable_samples == 0,
        r matches Err(e) ==> e@ == "No previous window saved"@,
{
}

// ---------------------------------------------------------------------------
// What a window says of itself
// ---------------------------------------------------------------------------
/// Nothing but white space and NUL characters.
pub open spec fn says_nothing(s: Seq<char>) -> bool {
    forall|i: int| 0 <= i < s.len() ==> (#[trigger] s[i] == '\0' || is_white_space(s[i]))
}

/// `part` stands in `text` between NUL characters or the ends, says something, and
/// what comes after it says nothing.
pub open spec fn is_last_speaking_part(part: Seq<char>, text: Seq<char>) -> bool {
    &&& !part.contains('\0')
    &&& !blank_between(part, 0, part.len() as int)
    &&& exists|before: Seq<char>, after: Seq<char>|
        {
            &&& text == #[trigger] (before + part + after)
            &&& before.len() > 0 ==> before.last() == '\0'
            &&& after.len() > 0 ==> after.first() == '\0'
            &&& says_nothing(after)
        }
}

proof fn lemma_last_named_in(parts: Seq<Seq<char>>)
    requires
        parts.len() > 0,
        forall|i: int| 0 <= i < parts.len() ==> !(#[trigger] parts[i]).contains('\0'),
    ensures
        match last_named(parts) {
            Some(part) => is_last_speaking_part(part, joined(parts, seq!['\0'])),
            None => says_nothing(joined(parts, seq!['\0'])),
        },
    decreases parts.len(),
{
    let nul = seq!['\0'];
    let text = joined(parts, nul);
    let last = parts.last();
    law_blank_is_white_space_alone(last);
    assert(!parts[parts.len() - 1].contains('\0'));
    if parts.len() == 1 {
        if is_blank(last) {
            assert(last_named(parts.drop_last()) is None);
        } else {
            let none = Seq::<char>::empty();
            assert(text =~= none + last + none);
        }
    } else {
        let front = joined(parts.drop_last(), nul);
        assert(text == front + nul + last);
        if !is_blank(last) {
            let before = front + nul;
            let none = Seq::<char>::empty();
            assert(before.last() == '\0');
            assert(text =~= before + last + none);
        } else {
            let rest = parts.drop_last();
            assert forall|i: int| 0 <= i < rest.len() implies !(#[trigger] rest[i]).contains(
                '\0',
            ) by {
                assert(rest[i] == parts[i]);
            }
            lemma_last_named_in(rest);
            let end = nul + last;
            assert forall|i: int| 0 <= i < end.len() implies (#[trigger] end[i] == '\0'
                || is_white_space(end[i])) by {
                if i > 0 {
                    assert(end[i] == last[i - 1]);
                }
            }
            match last_named(rest) {
                Some(part) => {
                    let (before, after) = choose|before: Seq<char>, after: Seq<char>|
                        {
                            &&& front == #[trigger] (before + part + after)
                            &&& before.len() > 0 ==> before.last() == '\0'
                            &&& after.len() > 0 ==> after.first() == '\0'
                            &&& says_nothing(after)
                        };
                    let longer = after + end;
                    assert(text =~= before + part + longer);
                    assert(longer.first() == '\0');
                    assert forall|i: int| 0 <= i < longer.len() implies (#[trigger] longer[i]
                        == '\0' || is_white_space(longer[i])) by {
                        if i < after.len() {
                            assert(longer[i] == after[i]);
                        } else {
                            assert(longer[i] == end[i - after.len()]);
                        }
                    }
                },
                None => {
                    assert(text =~= front + end);
                    assert forall|i: int| 0 <= i < text.len() implies (#[trigger] text[i] == '\0'
                        || is_white_space(text[i])) by {
                        if i < front.len() {
                            assert(text[i] == front[i]);
                        } else {
                            assert(text[i] == end[i - front.len()]);
                        }
                    }
                },
            }
        }
    }
}

/// The class of a window is the last of the NUL-separated parts of its `WM_CLASS`
/// that is not blank, as it stands; there is none exactly where the value could not
/// be read, is not UTF-8, or says nothing.
pub proof fn law_class_is_the_last_speaking_part(value: Option<Vec<u8>>, r: Option<String>)
    requires
        call_ensures(x11_window_class, (value,), r),
    ensures
        r is Some <==> (value matches Some(bytes) && valid_utf8(bytes@) && !says_nothing(
            decode_utf8(bytes@),
        )),
        r matches Some(class) ==> is_last_speaking_part(class@, decode_utf8(value->0@)),
{
    if value is Some && valid_utf8(value->0@) {
        let text = decode_utf8(value->0@);
        law_parts_make_up_the_text(text);
        lemma_last_named_in(nul_parts(text));
        if let Some(part) = last_named(nul_parts(text)) {
            let (before, after) = choose|before: Seq<char>, after: Seq<char>|
                {
                    &&& text == #[trigger] (before + part + after)
                    &&& before.len() > 0 ==> before.last() == '\0'
                    &&& after.len() > 0 ==> after.first() == '\0'
                    &&& says_nothing(after)
                };
            let i = choose|i: int| 0 <= i < part.len() && !is_white_space(#[trigger] part[i]);
            assert(text[before.len() + i] == part[i]);
            assert(part[i] != '\0') by {
                if part[i] == '\0' {
                    assert(part.contains('\0'));
                }
            }
        }
    }
}

/// There is only one such part.
pub proof fn law_there_is_one_last_speaking_part(a: Seq<char>, b: Seq<char>, text: Seq<char>)
    requires
        is_last_speaking_part(a, text),
        is_last_speaking_part(b, text),
    ensures
        a == b,
{
    let (a0, a1) = choose|before: Seq<char>, after: Seq<char>|
        {
            &&& text == #[trigger] (before + a + after)
            &&& before.len() > 0 ==> before.last() == '\0'
            &&& after.len() > 0 ==> after.first() == '\0'
            &&& says_nothing(after)
        };
    let (b0, b1) = choose|before: Seq<char>, after: Seq<char>|
        {
            &&& text == #[trigger] (before + b + after)
            &&& before.len() > 0 ==> before.last() == '\0'
            &&& after.len() > 0 ==> after.first() == '\0'
            &&& says_nothing(after)
        };
    lemma_no_later_part(a, a0, a1, b, b0, b1);
    lemma_no_later_part(b, b0, b1, a, a0, a1);
    assert(a =~= text.subrange(a0.len() as int, (a0.len() + a.len()) as int));
    assert(b =~= text.subrange(b0.len() as int, (b0.len() + b.len()) as int));
}

proof fn lemma_no_later_part(
    a: Seq<char>,
    a0: Seq<char>,
    a1: Seq<char>,
    b: Seq<char>,
    b0: Seq<char>,
    b1: Seq<char>,
)
    requires
        a0 + a + a1 == b0 + b + b1,
        !a.contains('\0'),
        !b.contains('\0'),
        !blank_between(a, 0, a.len() as int),
        !blank_between(b, 0, b.len() as int),
        a0.len() > 0 ==> a0.last() == '\0',
        b0.len() > 0 ==> b0.last() == '\0',
        a1.len() > 0 ==> a1.first() == '\0',
        b1.len() > 0 ==> b1.first() == '\0',
        says_nothing(a1),
        says_nothing(b1),
    ensures
        b0.len() <= a0.len(),
        a0.len() == b0.len() ==> a.len() <= b.len(),
{
    let text = a0 + a + a1;
    let i = choose|i: int| 0 <= i < b.len() && !is_white_space(#[trigger] b[i]);
    let j = choose|j: int| 0 <= j < a.len() && !is_white_space(#[trigger] a[j]);
    assert(b[i] != '\0') by {
        assert(b.contains(b[i]));
    }
    assert(text[b0.len() + i] == b[i]);
    assert(text.len() == b0.len() + b.len() + b1.len());
    // What `b` says does not stand after `a`.
    assert(b0.len() + i < a0.len() + a.len()) by {
        if b0.len() + i >= a0.len() + a.len() {
            let at = b0.len() + i - a0.len() - a.len();
            assert(text[b0.len() + i] == a1[at]);
        }
    }
    if b0.len() > a0.len() {
        let at = b0.len() - 1;
        assert(text[at] == '\0');
        assert(a[at - a0.len()] == '\0');
        assert(a.contains('\0'));
    }
    if a0.len() == b0.len() && a.len() > b.len() {
        let at = b0.len() + b.len();
        assert(text[at as int] == a[b.len() as int]);
        assert(b1[0] == '\0');
        assert(a.contains('\0'));
    }
}

/// The names of a window are read one after the other: the UTF-8 name counts, as it
/// stands, exactly where it is UTF-8 and not blank; otherwise the legacy name
/// counts, without its margins, where it is UTF-8 and not blank.
pub proof fn law_title_is_the_first_name_that_says_something(event: TitleEvent, action: TitleAction)
    requires
        call_ensures(x11_window_title, (event,), action),
    ensures
        event matches TitleEvent::Atoms { interned } ==> {
            &&& interned ==> action is AskNetWmName
            &&& !interned ==> action == TitleAction::Finish(None)
        },
        event matches TitleEvent::NetWmName(value) ==> {
            let text = decode_utf8(value->0@);
            let speaks = value is Some && valid_utf8(value->0@) && !blank_between(
                text,
                0,
                text.len() as int,
            );
            &&& speaks ==> (action matches TitleAction::Finish(Some(title)) && title@ == text)
            &&& !speaks ==> action is AskWmName
        },
        event matches TitleEvent::WmName(value) ==> {
            let text = decode_utf8(value->0@);
            let speaks = value is Some && valid_utf8(value->0@) && !blank_between(
                text,
                0,
                text.len() as int,
            );
            &&& speaks ==> (action matches TitleAction::Finish(Some(title)) && is_core_of(
                title@,
                text,
            ) && title@.len() > 0)
            &&& !speaks ==> action == TitleAction::Finish(None)
        },
{
    match event {
        TitleEvent::NetWmName(Some(bytes)) => {
            law_blank_is_white_space_alone(decode_utf8(bytes@));
        },
        TitleEvent::WmName(Some(bytes)) => {
            let text = decode_utf8(bytes@);
            law_blank_is_white_space_alone(text);
            law_trimming_leaves_the_core(text, trimmed(text));
        },
        _ => {},
    }
}

/// A hint holds the class and the title as they are, and there is one exactly where
/// there is one of the two.
pub proof fn law_hint_holds_class_and_title(
    app_id: Option<String>,
    title: Option<String>,
    r: Option<TargetWindowHint>,
)
    requires
        call_ensures(x11_window_hint, (app_id, title), r),
    ensures
        r is Some <==> app_id is Some || title is Some,
        r matches Some(hint) ==> {
            &&& hint.app_id is Some <==> app_id is Some
            &&& hint.title is Some <==> title is Some
            &&& app_id is Some ==> hint.app_id->0@ == app_id->0@
            &&& title is Some ==> hint.title->0@ == title->0@
        },
        hint_view(r) is Some <==> r is Some,
{
}

} // verus!
