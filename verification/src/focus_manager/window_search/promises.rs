//! What the search for a window promises: which windows it looks at, and which one
//! it finds.

use vstd::endian::{endianness, Endian};
use vstd::prelude::*;
use vstd::utf8::{decode_utf8, valid_utf8};

use crate::focus_manager::window_search::{
    client_windows, find_window_by_title, wait_for_window_by_title, PropertyValue, SearchAction,
    SearchStage, SearchView, WaitAction, WaitEvent, WindowNames, WindowSearch,
};

verus! {

use crate::focus_manager::window_search::{
    first_titled, law_search_finds_the_first_titled_window, listed_windows, named_reply,
    search_action, search_advance, search_ready, search_run, search_start, shows_title, word, words,
};
use crate::text::occurs_in;
use crate::text::promises::law_occurring_is_standing_between_two_parts;

// ---------------------------------------------------------------------------
// The list of windows
// ---------------------------------------------------------------------------
/// The four bytes from `at` on make the number `n` in the byte order of the machine.
pub open spec fn bytes_make(bytes: Seq<u8>, at: int, n: u32) -> bool {
    if endianness() == Endian::Little {
        n == bytes[at] + 0x100 * bytes[at + 1] + 0x1_0000 * bytes[at + 2] + 0x100_0000 * bytes[at
            + 3]
    } else {
        n == bytes[at + 3] + 0x100 * bytes[at + 2] + 0x1_0000 * bytes[at + 1] + 0x100_0000
            * bytes[at]
    }
}

/// `windows` are all the windows of a client list: for a value of format 32 one for
/// every four bytes, in their order; none for any other.
pub open spec fn is_client_list(windows: Seq<u32>, list: Option<PropertyValue>) -> bool {
    if list is Some && list->0.format == 32 {
        &&& windows.len() == list->0.value@.len() / 4
        &&& forall|i: int|
            0 <= i < windows.len() ==> bytes_make(list->0.value@, 4 * i, #[trigger] windows[i])
    } else {
        windows.len() == 0
    }
}

proof fn lemma_word(a: u8, b: u8, c: u8, d: u8)
    ensures
        word(a, b, c, d, true) == a + 0x100 * b + 0x1_0000 * c + 0x100_0000 * d,
        word(a, b, c, d, false) == d + 0x100 * c + 0x1_0000 * b + 0x100_0000 * a,
{
    assert(0 <= a + 0x100 * b + 0x1_0000 * c + 0x100_0000 * d <= 0xffff_ffff);
    assert(0 <= d + 0x100 * c + 0x1_0000 * b + 0x100_0000 * a <= 0xffff_ffff);
}

proof fn lemma_words(bytes: Seq<u8>, i: int)
    requires
        0 <= i < bytes.len() / 4,
    ensures
        bytes_make(bytes, 4 * i, words(bytes, endianness() == Endian::Little)[i]),
{
    let little = endianness() == Endian::Little;
    let a = bytes[4 * i];
    let b = bytes[4 * i + 1];
    let c = bytes[4 * i + 2];
    let d = bytes[4 * i + 3];
    lemma_word(a, b, c, d);
    assert(words(bytes, little)[i] == word(a, b, c, d, little));
}

proof fn lemma_listed(windows: Seq<u32>, list: Option<PropertyValue>)
    ensures
        is_client_list(windows, list) <==> windows == listed_windows(list),
{
    let listed = listed_windows(list);
    if list is Some && list->0.format == 32 {
        let bytes = list->0.value@;
        assert forall|i: int| 0 <= i < listed.len() implies bytes_make(
            bytes,
            4 * i,
            #[trigger] listed[i],
        ) by {
            lemma_words(bytes, i);
        }
        if is_client_list(windows, list) {
            assert forall|i: int| 0 <= i < windows.len() implies windows[i] == listed[i] by {
                assert(bytes_make(bytes, 4 * i, windows[i]));
                assert(bytes_make(bytes, 4 * i, listed[i]));
            }
            assert(windows =~= listed);
        }
    } else {
        if windows.len() == 0 {
            assert(windows =~= listed);
        }
    }
}

/// The windows that are read are all the windows of the list.
pub proof fn law_all_windows_of_the_list_are_read(list: Option<PropertyValue>, r: Vec<u32>)
    requires
        call_ensures(client_windows, (list,), r),
    ensures
        is_client_list(r@, list),
{
    lemma_listed(r@, list);
}

// ---------------------------------------------------------------------------
// The search
// ---------------------------------------------------------------------------
/// What the windows of a server are called: the two names of each, as far as they
/// can be read.
pub struct ServerNames {
    pub net_wm_name: spec_fn(u32) -> Option<Seq<u8>>,
    pub wm_name: spec_fn(u32) -> Option<Seq<u8>>,
}

/// The answer that the server gives to a question.
pub open spec fn server_reply(server: ServerNames, question: SearchAction) -> Option<Seq<u8>> {
    match question {
        SearchAction::AskNetWmName { window } => (server.net_wm_name)(window),
        SearchAction::AskWmName { window } => (server.wm_name)(window),
        SearchAction::Finish(_) => None,
    }
}

/// Where a search that goes on from `s` gets to with `steps` answers of the server,
/// each to the question that was asked.
pub open spec fn search_course(server: ServerNames, s: SearchView, steps: nat) -> SearchView
    decreases steps,
{
    if steps == 0 {
        s
    } else {
        search_course(
            server,
            search_advance(s, server_reply(server, search_action(s))),
            (steps - 1) as nat,
        )
    }
}

/// A name that could be read is UTF-8 and has `title` somewhere in it.
pub open spec fn carries_title(name: Option<Seq<u8>>, title: Seq<char>) -> bool {
    name matches Some(bytes) && valid_utf8(bytes) && exists|before: Seq<char>, after: Seq<char>|
        decode_utf8(bytes) == #[trigger] (before + title + after)
}

/// One of the names of the window has `title` somewhere in it.
pub open spec fn is_titled(server: ServerNames, window: u32, title: Seq<char>) -> bool {
    carries_title((server.net_wm_name)(window), title) || carries_title(
        (server.wm_name)(window),
        title,
    )
}

proof fn lemma_carries(name: Option<Seq<u8>>, title: Seq<char>)
    ensures
        carries_title(name, title) <==> shows_title(name, title),
{
    if name is Some && valid_utf8(name->0) {
        law_occurring_is_standing_between_two_parts(title, decode_utf8(name->0));
    }
}

/// The names of the windows of a list, in the order of the list.
spec fn names_in_order(server: ServerNames, windows: Seq<u32>) -> Seq<WindowNames> {
    Seq::new(
        windows.len(),
        |i: int|
            WindowNames {
                net_wm_name: (server.net_wm_name)(windows[i]),
                wm_name: (server.wm_name)(windows[i]),
            },
    )
}

proof fn lemma_course_is_run(server: ServerNames, s: SearchView, steps: nat)
    requires
        search_ready(s),
    ensures
        search_course(server, s, steps) == search_run(
            names_in_order(server, s.windows),
            s,
            steps,
        ),
    decreases steps,
{
    if steps > 0 {
        let names = names_in_order(server, s.windows);
        let reply = server_reply(server, search_action(s));
        if s.stage != SearchStage::Done {
            assert(reply == named_reply(names, s));
        }
        let t = search_advance(s, reply);
        assert(t == search_advance(s, named_reply(names, s)));
        lemma_course_is_run(server, t, (steps - 1) as nat);
    }
}

proof fn lemma_first_titled(
    server: ServerNames,
    windows: Seq<u32>,
    title: Seq<char>,
    from: int,
)
    requires
        0 <= from <= windows.len(),
    ensures
        match first_titled(windows, names_in_order(server, windows), title, from) {
            Some(w) => exists|k: int|
                {
                    &&& from <= k < windows.len()
                    &&& #[trigger] windows[k] == w
                    &&& is_titled(server, windows[k], title)
                    &&& forall|j: int|
                        from <= j < k ==> !is_titled(server, #[trigger] windows[j], title)
                },
            None => forall|j: int|
                from <= j < windows.len() ==> !is_titled(server, #[trigger] windows[j], title),
        },
    decreases windows.len() - from,
{
    if from < windows.len() {
        let names = names_in_order(server, windows);
        lemma_carries(names[from].net_wm_name, title);
        lemma_carries(names[from].wm_name, title);
        if !is_titled(server, windows[from], title) {
            lemma_first_titled(server, windows, title, from + 1);
        }
    }
}

/// A search over a client list ends, after at most two questions per window. It
/// ends with the first window of the list of which a name has the title in it; and
/// with none exactly where no window of the whole list has such a name.
pub proof fn law_search_covers_the_whole_list(
    title: &str,
    list: Option<PropertyValue>,
    search: WindowSearch,
    server: ServerNames,
    windows: Seq<u32>,
    steps: nat,
)
    requires
        call_ensures(find_window_by_title, (title, list), search),
        is_client_list(windows, list),
        steps >= 2 * windows.len(),
    ensures
        match search_action(search_course(server, search@, steps)) {
            SearchAction::Finish(Some(found)) => exists|k: int|
                {
                    &&& 0 <= k < windows.len()
                    &&& #[trigger] windows[k] == found
                    &&& is_titled(server, windows[k], title@)
                    &&& forall|j: int|
                        0 <= j < k ==> !is_titled(server, #[trigger] windows[j], title@)
                },
            SearchAction::Finish(None) => forall|j: int|
                0 <= j < windows.len() ==> !is_titled(server, #[trigger] windows[j], title@),
            _ => false,
        },
{
    lemma_listed(windows, list);
    let s = search_start(title@, windows);
    assert(search@ == s);
    lemma_course_is_run(server, s, steps);
    law_search_finds_the_first_titled_window(
        title@,
        windows,
        names_in_order(server, windows),
        steps,
    );
    lemma_first_titled(server, windows, title@, 0);
}

/// Every question of a search is about a window of the list.
pub proof fn law_search_asks_about_listed_windows(s: SearchView, value: Option<Seq<u8>>)
    requires
        search_ready(s),
    ensures
        search_advance(s, value).windows == s.windows,
        search_ready(search_advance(s, value)),
        search_action(s) matches SearchAction::AskNetWmName { window } ==> s.windows.contains(
            window,
        ),
        search_action(s) matches SearchAction::AskWmName { window } ==> s.windows.contains(window),
{
}

// ---------------------------------------------------------------------------
// The wait
// ---------------------------------------------------------------------------
/// A search is made exactly while time is left; the wait ends with the window that a
/// search found, or with none once the time is up; after a search in vain it pauses
/// for ten milliseconds.
pub proof fn law_wait_searches_while_time_is_left(
    timeout: u128,
    event: WaitEvent,
    action: WaitAction,
)
    requires
        call_ensures(wait_for_window_by_title, (timeout, event), action),
    ensures
        action == WaitAction::Search <==> (event matches WaitEvent::Tick { elapsed } && elapsed
            < timeout),
        action == WaitAction::Finish(None) <==> (event matches WaitEvent::Tick { elapsed } && elapsed
            >= timeout),
        event matches WaitEvent::Searched(Some(window)) ==> action == WaitAction::Finish(
            Some(window),
        ),
        event == WaitEvent::Searched(None) ==> action == WaitAction::Sleep(10_000_000),
{
}

} // verus!
