//! Tracks and restores window focus for proper paste injection on X11: the
//! window that had focus, what is known of it, and whether it is one of the
//! targets that want another chord.

use vstd::prelude::*;

use crate::paste_sync::{self, ContextOutcome, FocusRestore};
use crate::text::{contains_text, split_nul, text_from_utf8};

pub mod activation;
pub mod promises;
pub mod window_search;

verus! {

use crate::paste_sync::{context_after, context_value};
use crate::text::{
    ascii_lower, ascii_lowercase, is_blank, is_white_space, nul_parts, occurs_in, opt_text,
    result_text, texts, trimmed, trimmed_end, trimmed_start, utf8_text,
};

/// Failure ceiling for focus restoration, in nanoseconds. Fast systems return
/// after two confirmed samples; constrained systems are allowed more time
/// without imposing that time on every paste.
pub const FOCUS_RESTORE_TIMEOUT: u128 = 750_000_000;

// ---------------------------------------------------------------------------
// What is remembered
// ---------------------------------------------------------------------------
/// What is known of the target window.
#[derive(Debug)]
pub struct TargetWindowHint {
    pub app_id: Option<String>,
    pub title: Option<String>,
}

/// A [`TargetWindowHint`] with the text of its strings.
pub struct HintView {
    pub app_id: Option<Seq<char>>,
    pub title: Option<Seq<char>>,
}

impl View for TargetWindowHint {
    type V = HintView;

    open spec fn view(&self) -> HintView {
        HintView { app_id: opt_text(self.app_id), title: opt_text(self.title) }
    }
}

impl HintView {
    /// A hint says something, and what it says is not blank.
    pub open spec fn well_formed(self) -> bool {
        &&& self.app_id is Some || self.title is Some
        &&& self.app_id matches Some(t) ==> !is_blank(t)
        &&& self.title matches Some(t) ==> !is_blank(t)
    }
}

/// The text of an optional hint.
pub open spec fn hint_view(hint: Option<TargetWindowHint>) -> Option<HintView> {
    match hint {
        Some(h) => Some(h@),
        None => None,
    }
}

/// The window that had focus before the popup opened, and what is known of it.
#[derive(Debug)]
pub struct FocusMemory {
    /// The window, or 0 where none is saved.
    pub last_focused_window: u32,
    pub target_hint: Option<TargetWindowHint>,
}

/// A [`FocusMemory`] with the text of its hint.
pub struct MemoryView {
    pub window: u32,
    pub hint: Option<HintView>,
}

impl View for FocusMemory {
    type V = MemoryView;

    open spec fn view(&self) -> MemoryView {
        MemoryView { window: self.last_focused_window, hint: hint_view(self.target_hint) }
    }
}

impl MemoryView {
    /// A memory of nothing.
    pub open spec fn nothing() -> MemoryView {
        MemoryView { window: 0, hint: None }
    }

    /// A hint that is remembered says something.
    pub open spec fn well_formed(self) -> bool {
        self.hint matches Some(h) ==> h.well_formed()
    }
}

impl FocusMemory {
    /// A memory of nothing.
    pub fn new() -> (r: FocusMemory)
        ensures
            r@ == MemoryView::nothing(),
    {
        FocusMemory { last_focused_window: 0, target_hint: None }
    }
}

// ---------------------------------------------------------------------------
// Saving
// ---------------------------------------------------------------------------
/// What is known while the focused window is saved.
#[derive(Debug)]
pub enum CaptureEvent {
    /// The popup is about to open.
    Begin { x11_session: bool },
    /// The focused window was asked for.
    Focus(Option<u32>),
    /// What is known of that window was asked for.
    Hint(Option<TargetWindowHint>),
}

/// What the program does next while the focused window is saved.
#[derive(Debug, Clone, Copy, PartialEq, Eq, Structural)]
pub enum CaptureAction {
    /// Ask for the focused window.
    QueryFocus,
    /// Ask what is known of this window.
    QueryHint(u32),
    /// Nothing is left to do.
    Finish,
}

/// What is remembered after `event`.
pub open spec fn capture_after(memory: MemoryView, event: CaptureEvent) -> MemoryView {
    match event {
        CaptureEvent::Begin { x11_session } => if x11_session {
            MemoryView::nothing()
        } else {
            memory
        },
        CaptureEvent::Focus(Some(window)) => MemoryView { window, ..memory },
        CaptureEvent::Focus(None) => memory,
        CaptureEvent::Hint(hint) => MemoryView { hint: hint_view(hint), ..memory },
    }
}

/// What follows `event`.
pub open spec fn capture_next(event: CaptureEvent) -> CaptureAction {
    match event {
        CaptureEvent::Begin { x11_session } => if x11_session {
            CaptureAction::QueryFocus
        } else {
            CaptureAction::Finish
        },
        CaptureEvent::Focus(Some(window)) => CaptureAction::QueryHint(window),
        CaptureEvent::Focus(None) => CaptureAction::Finish,
        CaptureEvent::Hint(_) => CaptureAction::Finish,
    }
}

/// Saves the focused window, one step at a time. Whatever was saved for an older
/// popup invocation is forgotten before the window is asked for: pasting nowhere
/// is safer than redirecting input to a stale application window.
pub fn save_focused_window(memory: &mut FocusMemory, event: CaptureEvent) -> (action: CaptureAction)
    ensures
        final(memory)@ == capture_after(old(memory)@, event),
        action == capture_next(event),
{
    match event {
        CaptureEvent::Begin { x11_session } => {
            if !x11_session {
                return CaptureAction::Finish;
            }
            memory.target_hint = None;
            memory.last_focused_window = 0;
            CaptureAction::QueryFocus
        },
        CaptureEvent::Focus(Some(window)) => {
            memory.last_focused_window = window;
            CaptureAction::QueryHint(window)
        },
        CaptureEvent::Focus(None) => CaptureAction::Finish,
        CaptureEvent::Hint(hint) => {
            memory.target_hint = hint;
            CaptureAction::Finish
        },
    }
}

/// Forgets what is known of the target window.
pub fn clear_target_hint(memory: &mut FocusMemory)
    ensures
        final(memory)@ == (MemoryView { hint: None, ..old(memory)@ }),
{
    memory.target_hint = None;
}

/// `value` without surrounding white space, or nothing where that leaves nothing.
pub open spec fn non_empty_text(value: Seq<char>) -> Option<Seq<char>> {
    if is_blank(value) {
        None
    } else {
        Some(trimmed(value))
    }
}

/// `value` without surrounding white space, or nothing where that leaves nothing.
pub fn non_empty(value: String) -> (r: Option<String>)
    ensures
        opt_text(r) == non_empty_text(value@),
{
    let trimmed_value = value.as_str().trim();
    if trimmed_value.is_empty() {
        None
    } else {
        Some(trimmed_value.to_string())
    }
}

/// The hint that an application id and a title make.
pub open spec fn normalized_hint(app_id: Option<Seq<char>>, title: Option<Seq<char>>) -> HintView {
    HintView {
        app_id: match app_id {
            Some(t) => non_empty_text(t),
            None => None,
        },
        title: match title {
            Some(t) => non_empty_text(t),
            None => None,
        },
    }
}

/// What is remembered once an application id and a title have been saved.
pub open spec fn hint_saved(
    memory: MemoryView,
    app_id: Option<Seq<char>>,
    title: Option<Seq<char>>,
) -> MemoryView {
    let hint = normalized_hint(app_id, title);
    if hint.app_id is Some || hint.title is Some {
        MemoryView { hint: Some(hint), ..memory }
    } else {
        memory
    }
}

/// Saves what is known of the target window. Where both values are missing or
/// blank, what was known before stays.
pub fn save_target_hint(memory: &mut FocusMemory, app_id: Option<String>, title: Option<String>)
    ensures
        final(memory)@ == hint_saved(old(memory)@, opt_text(app_id), opt_text(title)),
{
    let normalized_app_id = match app_id {
        Some(text) => non_empty(text),
        None => None,
    };
    let normalized_title = match title {
        Some(text) => non_empty(text),
        None => None,
    };
    if normalized_app_id.is_some() || normalized_title.is_some() {
        memory.target_hint = Some(
            TargetWindowHint { app_id: normalized_app_id, title: normalized_title },
        );
    }
}

// ---------------------------------------------------------------------------
// Matching
// ---------------------------------------------------------------------------
/// `pattern`, a lower-case text, stands in `value` if ASCII case is ignored.
pub open spec fn found_in(pattern: Seq<char>, value: Option<Seq<char>>) -> bool {
    value matches Some(v) && occurs_in(pattern, ascii_lowercase(v))
}

/// `pattern` names the target that `hint` describes: trimmed, it is not empty and
/// stands in the application id or in the title, whatever the ASCII case.
pub open spec fn pattern_matches(pattern: Seq<char>, hint: HintView) -> bool {
    let wanted = ascii_lowercase(trimmed(pattern));
    wanted.len() > 0 && (found_in(wanted, hint.app_id) || found_in(wanted, hint.title))
}

/// One of `patterns` names the target that `hint` describes.
pub open spec fn any_pattern_matches(patterns: Seq<Seq<char>>, hint: Option<HintView>) -> bool {
    hint matches Some(h) && exists|i: int|
        0 <= i < patterns.len() && pattern_matches(#[trigger] patterns[i], h)
}

fn value_contains(value: &Option<String>, pattern: &str) -> (r: bool)
    ensures
        r == found_in(pattern@, opt_text(*value)),
{
    match value {
        Some(text) => contains_text(text.as_str().to_ascii_lowercase().as_str(), pattern),
        None => false,
    }
}

/// Whether the remembered target is one that `patterns` name.
pub fn target_matches_any_pattern(memory: &FocusMemory, patterns: &[String]) -> (r: bool)
    ensures
        r == any_pattern_matches(texts(patterns@), memory@.hint),
{
    let hint = match &memory.target_hint {
        Some(hint) => hint,
        None => return false,
    };
    let mut i: usize = 0;
    while i < patterns.len()
        invariant
            i <= patterns.len(),
            memory@.hint == Some(hint@),
            forall|j: int| 0 <= j < i ==> !pattern_matches(#[trigger] texts(patterns@)[j], hint@),
        decreases patterns.len() - i,
    {
        let pattern = patterns[i].as_str().trim().to_ascii_lowercase();
        assert(texts(patterns@)[i as int] == patterns@[i as int]@);
        if !pattern.as_str().is_empty() {
            if value_contains(&hint.app_id, pattern.as_str()) || value_contains(
                &hint.title,
                pattern.as_str(),
            ) {
                assert(pattern_matches(texts(patterns@)[i as int], hint@));
                return true;
            }
        }
        i += 1;
    }
    false
}

// ---------------------------------------------------------------------------
// Restoring
// ---------------------------------------------------------------------------
/// Begins to give the focus back to the saved window.
pub fn restore_focused_window(memory: &FocusMemory) -> (r: Result<FocusRestore, String>)
    ensures
        result_text(r) == if memory.last_focused_window == 0 {
            Err("No previous window saved"@)
        } else {
            Ok(
                FocusRestore {
                    target_window: memory.last_focused_window,
                    timeout: FOCUS_RESTORE_TIMEOUT,
                    stable_samples: 0,
                },
            )
        },
{
    if memory.last_focused_window == 0 {
        return Err("No previous window saved".to_string());
    }
    paste_sync::restore_and_settle_focus(memory.last_focused_window, FOCUS_RESTORE_TIMEOUT)
}

/// The window that currently has X11 input focus, from the query for it.
pub fn get_focused_window<C>(slot: &mut Option<C>, query: ContextOutcome<u32>) -> (r: Option<u32>)
    ensures
        r == context_value(query),
        *final(slot) == context_after(*old(slot), query),
{
    paste_sync::focused_window(slot, query)
}

// ---------------------------------------------------------------------------
// What a window says of itself
// ---------------------------------------------------------------------------
/// The last of `parts` that is not blank.
pub open spec fn last_named(parts: Seq<Seq<char>>) -> Option<Seq<char>>
    decreases parts.len(),
{
    if parts.len() == 0 {
        None
    } else if !is_blank(parts.last()) {
        Some(parts.last())
    } else {
        last_named(parts.drop_last())
    }
}

/// The class in the value of a `WM_CLASS` property: the last of its NUL-separated
/// parts that is not blank.
pub open spec fn window_class(value: Option<Seq<u8>>) -> Option<Seq<char>> {
    match value {
        Some(bytes) => match utf8_text(bytes) {
            Some(raw) => last_named(nul_parts(raw)),
            None => None,
        },
        None => None,
    }
}

/// The bytes of an optional property value.
pub open spec fn opt_bytes(value: Option<Vec<u8>>) -> Option<Seq<u8>> {
    match value {
        Some(bytes) => Some(bytes@),
        None => None,
    }
}

/// The class of a window, from the value of its `WM_CLASS` property where that
/// could be read.
pub fn x11_window_class(value: Option<Vec<u8>>) -> (r: Option<String>)
    ensures
        opt_text(r) == window_class(opt_bytes(value)),
{
    let raw = match value {
        Some(bytes) => match text_from_utf8(bytes) {
            Some(raw) => raw,
            None => return None,
        },
        None => return None,
    };
    let mut parts = split_nul(raw.as_str());
    loop
        invariant
            last_named(texts(parts@)) == window_class(opt_bytes(value)),
        decreases parts.len(),
    {
        let ghost before = parts@;
        match parts.pop() {
            None => {
                return None;
            },
            Some(part) => {
                assert(texts(before).last() == part@);
                assert(texts(parts@) =~= texts(before).drop_last());
                if !part.as_str().trim().is_empty() {
                    return Some(part);
                }
            },
        }
    }
}

/// What is known while the title of a window is read.
#[derive(Debug)]
pub enum TitleEvent {
    /// The atoms `_NET_WM_NAME` and `UTF8_STRING` were asked for.
    Atoms { interned: bool },
    /// The value of `_NET_WM_NAME`, where it could be read.
    NetWmName(Option<Vec<u8>>),
    /// The value of `WM_NAME`, where it could be read.
    WmName(Option<Vec<u8>>),
}

/// What the program does next while the title of a window is read.
#[derive(Debug)]
pub enum TitleAction {
    /// Ask for `_NET_WM_NAME`.
    AskNetWmName,
    /// Ask for `WM_NAME`.
    AskWmName,
    /// The title, where the window has one.
    Finish(Option<String>),
}

/// The text of a property value that could be read and is UTF-8.
pub open spec fn property_text(value: Option<Seq<u8>>) -> Option<Seq<char>> {
    match value {
        Some(bytes) => utf8_text(bytes),
        None => None,
    }
}

/// A [`TitleAction`] with the text of its title.
pub enum TitleActionView {
    AskNetWmName,
    AskWmName,
    Finish(Option<Seq<char>>),
}

impl View for TitleAction {
    type V = TitleActionView;

    open spec fn view(&self) -> TitleActionView {
        match self {
            TitleAction::AskNetWmName => TitleActionView::AskNetWmName,
            TitleAction::AskWmName => TitleActionView::AskWmName,
            TitleAction::Finish(title) => TitleActionView::Finish(opt_text(*title)),
        }
    }
}

/// What follows `event` while the title of a window is read.
pub open spec fn title_next(event: TitleEvent) -> TitleActionView {
    match event {
        TitleEvent::Atoms { interned } => if interned {
            TitleActionView::AskNetWmName
        } else {
            TitleActionView::Finish(None)
        },
        TitleEvent::NetWmName(value) => match property_text(opt_bytes(value)) {
            Some(name) if !is_blank(name) => TitleActionView::Finish(Some(name)),
            _ => TitleActionView::AskWmName,
        },
        TitleEvent::WmName(value) => TitleActionView::Finish(
            match property_text(opt_bytes(value)) {
                Some(name) => non_empty_text(name),
                None => None,
            },
        ),
    }
}

/// Reads the title of a window: `_NET_WM_NAME` as it stands unless it is blank,
/// otherwise `WM_NAME` without surrounding white space.
pub fn x11_window_title(event: TitleEvent) -> (action: TitleAction)
    ensures
        action@ == title_next(event),
{
    match event {
        TitleEvent::Atoms { interned } => if interned {
            TitleAction::AskNetWmName
        } else {
            TitleAction::Finish(None)
        },
        TitleEvent::NetWmName(value) => {
            if let Some(bytes) = value {
                if let Some(name) = text_from_utf8(bytes) {
                    if !name.as_str().trim().is_empty() {
                        return TitleAction::Finish(Some(name));
                    }
                }
            }
            TitleAction::AskWmName
        },
        TitleEvent::WmName(value) => {
            if let Some(bytes) = value {
                if let Some(name) = text_from_utf8(bytes) {
                    return TitleAction::Finish(non_empty(name));
                }
            }
            TitleAction::Finish(None)
        },
    }
}

/// The hint that a window's class and title make: none where the window says
/// nothing.
pub fn x11_window_hint(app_id: Option<String>, title: Option<String>) -> (r: Option<
    TargetWindowHint,
>)
    ensures
        hint_view(r) == if app_id is Some || title is Some {
            Some(HintView { app_id: opt_text(app_id), title: opt_text(title) })
        } else {
            None
        },
{
    if app_id.is_some() || title.is_some() {
        Some(TargetWindowHint { app_id, title })
    } else {
        None
    }
}

// ---------------------------------------------------------------------------
// Laws
// ---------------------------------------------------------------------------
proof fn lemma_trimmed_start_first(s: Seq<char>)
    ensures
        trimmed_start(s).len() > 0 ==> !is_white_space(trimmed_start(s).first()),
        trimmed_start(s).len() <= s.len(),
    decreases s.len(),
{
    if s.len() > 0 && is_white_space(s.first()) {
        lemma_trimmed_start_first(s.drop_first());
    }
}

proof fn lemma_trimmed_end_last(s: Seq<char>)
    ensures
        trimmed_end(s).len() > 0 ==> !is_white_space(trimmed_end(s).last()),
        trimmed_end(s).len() > 0 ==> trimmed_end(s).first() == s.first(),
        trimmed_end(s).len() <= s.len(),
    decreases s.len(),
{
    if s.len() > 0 && is_white_space(s.last()) {
        lemma_trimmed_end_last(s.drop_last());
    }
}

/// Trimming twice is trimming once.
pub proof fn lemma_trimmed_idempotent(s: Seq<char>)
    ensures
        trimmed(trimmed(s)) == trimmed(s),
{
    lemma_trimmed_start_first(s);
    lemma_trimmed_end_last(trimmed_start(s));
}

/// Where the focused window cannot be asked for, nothing of an older popup
/// invocation is kept: there is no window to restore and no hint to match.
pub proof fn law_stale_target_is_never_kept(memory: MemoryView)
    ensures
        capture_after(
            capture_after(memory, CaptureEvent::Begin { x11_session: true }),
            CaptureEvent::Focus(None),
        ) == MemoryView::nothing(),
{
}

/// Where the focused window is known, exactly that window and what is known of
/// it are remembered, whatever was remembered before.
pub proof fn law_capture_remembers_the_focused_window(
    memory: MemoryView,
    window: u32,
    hint: Option<TargetWindowHint>,
)
    ensures
        capture_after(
            capture_after(
                capture_after(memory, CaptureEvent::Begin { x11_session: true }),
                CaptureEvent::Focus(Some(window)),
            ),
            CaptureEvent::Hint(hint),
        ) == (MemoryView { window, hint: hint_view(hint) }),
{
}

/// Everything that changes the memory keeps its hint well formed.
pub proof fn law_hints_stay_well_formed(
    memory: MemoryView,
    event: CaptureEvent,
    app_id: Option<Seq<char>>,
    title: Option<Seq<char>>,
)
    requires
        memory.well_formed(),
        event matches CaptureEvent::Hint(Some(h)) ==> h@.well_formed(),
    ensures
        capture_after(memory, event).well_formed(),
        hint_saved(memory, app_id, title).well_formed(),
        (MemoryView { hint: None, ..memory }).well_formed(),
{
    if app_id is Some {
        lemma_trimmed_idempotent(app_id->0);
    }
    if title is Some {
        lemma_trimmed_idempotent(title->0);
    }
}

/// Once the hint is cleared, no pattern matches.
pub proof fn law_no_hint_matches_no_pattern(patterns: Seq<Seq<char>>)
    ensures
        !any_pattern_matches(patterns, None),
{
}

/// A blank pattern matches no target.
pub proof fn law_blank_pattern_matches_nothing(pattern: Seq<char>, hint: HintView)
    requires
        is_blank(pattern),
    ensures
        !pattern_matches(pattern, hint),
{
}

/// Two lists of patterns together name exactly the targets that one of them
/// names: their order does not matter, and no pattern takes a match away.
pub proof fn law_joined_patterns_match_what_either_matches(
    patterns: Seq<Seq<char>>,
    more: Seq<Seq<char>>,
    hint: Option<HintView>,
)
    ensures
        any_pattern_matches(patterns + more, hint) == (any_pattern_matches(patterns, hint)
            || any_pattern_matches(more, hint)),
{
    if hint is Some {
        let h = hint->0;
        let all = patterns + more;
        if any_pattern_matches(patterns, hint) {
            let i = choose|i: int|
                0 <= i < patterns.len() && pattern_matches(#[trigger] patterns[i], h);
            assert(all[i] == patterns[i]);
        }
        if any_pattern_matches(more, hint) {
            let i = choose|i: int| 0 <= i < more.len() && pattern_matches(#[trigger] more[i], h);
            assert(all[patterns.len() + i] == more[i]);
        }
        if any_pattern_matches(all, hint) {
            let i = choose|i: int| 0 <= i < all.len() && pattern_matches(#[trigger] all[i], h);
            if i < patterns.len() {
                assert(patterns[i] == all[i]);
            } else {
                assert(more[i - patterns.len()] == all[i]);
            }
        }
    }
}

proof fn lemma_lower_keeps_white_space(c: char)
    ensures
        is_white_space(ascii_lower(c)) == is_white_space(c),
        ascii_lower(ascii_lower(c)) == ascii_lower(c),
{
}

proof fn lemma_lower_trimmed_start(s: Seq<char>)
    ensures
        trimmed_start(ascii_lowercase(s)) == ascii_lowercase(trimmed_start(s)),
    decreases s.len(),
{
    if s.len() > 0 {
        lemma_lower_keeps_white_space(s.first());
        if is_white_space(s.first()) {
            lemma_lower_trimmed_start(s.drop_first());
            assert(ascii_lowercase(s).drop_first() =~= ascii_lowercase(s.drop_first()));
        }
    }
}

proof fn lemma_lower_trimmed_end(s: Seq<char>)
    ensures
        trimmed_end(ascii_lowercase(s)) == ascii_lowercase(trimmed_end(s)),
    decreases s.len(),
{
    if s.len() > 0 {
        lemma_lower_keeps_white_space(s.last());
        if is_white_space(s.last()) {
            lemma_lower_trimmed_end(s.drop_last());
            assert(ascii_lowercase(s).drop_last() =~= ascii_lowercase(s.drop_last()));
        }
    }
}

proof fn lemma_lower_trimmed(s: Seq<char>)
    ensures
        trimmed(ascii_lowercase(s)) == ascii_lowercase(trimmed(s)),
{
    lemma_lower_trimmed_start(s);
    lemma_lower_trimmed_end(trimmed_start(s));
}

/// The lower-case forms of optional texts agree.
pub open spec fn same_but_for_case(a: Option<Seq<char>>, b: Option<Seq<char>>) -> bool {
    match (a, b) {
        (Some(x), Some(y)) => ascii_lowercase(x) == ascii_lowercase(y),
        (None, None) => true,
        _ => false,
    }
}

/// The case of ASCII letters never decides a match, neither in a pattern nor in
/// what is known of the target.
pub proof fn law_ascii_case_does_not_matter(
    pattern: Seq<char>,
    other_pattern: Seq<char>,
    hint: HintView,
    other_hint: HintView,
)
    requires
        ascii_lowercase(pattern) == ascii_lowercase(other_pattern),
        same_but_for_case(hint.app_id, other_hint.app_id),
        same_but_for_case(hint.title, other_hint.title),
    ensures
        pattern_matches(pattern, hint) == pattern_matches(other_pattern, other_hint),
{
    lemma_lower_trimmed(pattern);
    lemma_lower_trimmed(other_pattern);
}

/// `s` is made of white space alone.
pub open spec fn all_white_space(s: Seq<char>) -> bool {
    forall|i: int| 0 <= i < s.len() ==> is_white_space(#[trigger] s[i])
}

proof fn lemma_leading_space(space: Seq<char>, s: Seq<char>)
    requires
        all_white_space(space),
    ensures
        trimmed_start(space + s) == trimmed_start(s),
    decreases space.len(),
{
    if space.len() > 0 {
        let rest = space.drop_first();
        assert forall|i: int| 0 <= i < rest.len() implies is_white_space(#[trigger] rest[i]) by {
            assert(rest[i] == space[i + 1]);
        }
        lemma_leading_space(rest, s);
        assert((space + s).first() == space[0]);
        assert((space + s).drop_first() =~= rest + s);
    } else {
        assert(space + s =~= s);
    }
}

proof fn lemma_trailing_space(s: Seq<char>, space: Seq<char>)
    requires
        all_white_space(space),
    ensures
        trimmed_end(s + space) == trimmed_end(s),
    decreases space.len(),
{
    if space.len() > 0 {
        let rest = space.drop_last();
        assert forall|i: int| 0 <= i < rest.len() implies is_white_space(#[trigger] rest[i]) by {
            assert(rest[i] == space[i]);
        }
        lemma_trailing_space(s, rest);
        assert((s + space).last() == space.last());
        assert((s + space).drop_last() =~= s + rest);
    } else {
        assert(s + space =~= s);
    }
}

proof fn lemma_start_then_space(s: Seq<char>, space: Seq<char>)
    requires
        all_white_space(space),
    ensures
        trimmed_end(trimmed_start(s + space)) == trimmed_end(trimmed_start(s)),
    decreases s.len(),
{
    if s.len() == 0 {
        assert(s + space =~= space + s);
        lemma_leading_space(space, s);
    } else if is_white_space(s.first()) {
        assert((s + space).first() == s.first());
        assert((s + space).drop_first() =~= s.drop_first() + space);
        lemma_start_then_space(s.drop_first(), space);
    } else {
        assert((s + space).first() == s.first());
        lemma_trailing_space(s, space);
    }
}

/// White space around a pattern never decides a match.
pub proof fn law_space_around_a_pattern_does_not_matter(
    before: Seq<char>,
    pattern: Seq<char>,
    after: Seq<char>,
    hint: HintView,
)
    requires
        all_white_space(before),
        all_white_space(after),
    ensures
        pattern_matches(before + pattern + after, hint) == pattern_matches(pattern, hint),
{
    assert(before + pattern + after =~= before + (pattern + after));
    lemma_leading_space(before, pattern + after);
    lemma_start_then_space(pattern, after);
}

/// The title of a window with these two properties.
pub open spec fn window_title(
    net_wm_name: Option<Seq<u8>>,
    wm_name: Option<Seq<u8>>,
) -> Option<Seq<char>> {
    match property_text(net_wm_name) {
        Some(name) if !is_blank(name) => Some(name),
        _ => match property_text(wm_name) {
            Some(name) => non_empty_text(name),
            None => None,
        },
    }
}

/// Where reading a title gets to from `action` on, on a window with these two
/// properties, with at most `steps` answers.
pub open spec fn title_course(
    net_wm_name: Option<Vec<u8>>,
    wm_name: Option<Vec<u8>>,
    action: TitleActionView,
    steps: nat,
) -> TitleActionView
    decreases steps,
{
    if steps == 0 {
        action
    } else {
        match action {
            TitleActionView::AskNetWmName => title_course(
                net_wm_name,
                wm_name,
                title_next(TitleEvent::NetWmName(net_wm_name)),
                (steps - 1) as nat,
            ),
            TitleActionView::AskWmName => title_course(
                net_wm_name,
                wm_name,
                title_next(TitleEvent::WmName(wm_name)),
                (steps - 1) as nat,
            ),
            TitleActionView::Finish(_) => action,
        }
    }
}

/// Reading a title ends after at most two answers. With the atoms at hand it ends
/// with the title that the window's two properties make, without them with none.
pub proof fn law_title_is_read_from_two_properties(
    net_wm_name: Option<Vec<u8>>,
    wm_name: Option<Vec<u8>>,
    interned: bool,
)
    ensures
        title_course(net_wm_name, wm_name, title_next(TitleEvent::Atoms { interned }), 2)
            == TitleActionView::Finish(
            if interned {
                window_title(opt_bytes(net_wm_name), opt_bytes(wm_name))
            } else {
                None
            },
        ),
{
    reveal_with_fuel(title_course, 3);
}

proof fn lemma_last_named(parts: Seq<Seq<char>>)
    ensures
        last_named(parts) matches Some(t) ==> !is_blank(t),
    decreases parts.len(),
{
    if parts.len() > 0 && is_blank(parts.last()) {
        lemma_last_named(parts.drop_last());
    }
}

/// Whatever properties a window has, a hint that is made of them is well formed:
/// what the window says is never blank.
pub proof fn law_window_hints_are_well_formed(
    wm_class: Option<Seq<u8>>,
    net_wm_name: Option<Seq<u8>>,
    wm_name: Option<Seq<u8>>,
)
    ensures
        ({
            let hint = HintView {
                app_id: window_class(wm_class),
                title: window_title(net_wm_name, wm_name),
            };
            hint.app_id is Some || hint.title is Some ==> hint.well_formed()
        }),
{
    if wm_class is Some && utf8_text(wm_class->0) is Some {
        lemma_last_named(nul_parts(utf8_text(wm_class->0)->0));
    }
    if wm_name is Some && utf8_text(wm_name->0) is Some {
        lemma_trimmed_idempotent(utf8_text(wm_name->0)->0);
    }
}

} // verus!
