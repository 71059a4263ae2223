//! The search for a window by its title, and the wait for it to appear.

use vstd::prelude::*;

use crate::text::{contains_text, text_from_utf8};

pub mod promises;

verus! {

use crate::focus_manager::{opt_bytes, property_text};
use crate::machine::lowest_byte_first;
use crate::text::occurs_in;

/// How long a window is waited for, in nanoseconds.
pub const WINDOW_MAP_TIMEOUT: u128 = 500_000_000;

/// The pause between two searches for a window, in nanoseconds.
pub const WINDOW_MAP_POLL_INTERVAL: u128 = 10_000_000;

// ---------------------------------------------------------------------------
// The list of windows
// ---------------------------------------------------------------------------
/// The number that four bytes make, lowest byte first where `little` holds,
/// highest byte first otherwise.
pub open spec fn word(a: u8, b: u8, c: u8, d: u8, little: bool) -> u32 {
    if little {
        (a + 0x100 * b + 0x10000 * c + 0x1000000 * d) as u32
    } else {
        (d + 0x100 * c + 0x10000 * b + 0x1000000 * a) as u32
    }
}

/// The numbers that `bytes` make, four bytes to a number; what is left over at
/// the end is dropped.
pub open spec fn words(bytes: Seq<u8>, little: bool) -> Seq<u32> {
    Seq::new(
        bytes.len() / 4,
        |i: int|
            word(bytes[4 * i], bytes[4 * i + 1], bytes[4 * i + 2], bytes[4 * i + 3], little),
    )
}

/// `GetPropertyReply::value32` of x11rb, on a reply with this format and value:
/// nothing unless the format is 32, otherwise the value as a list of numbers in
/// the byte order of the machine.
#[verifier::external_body]
fn property_value32(format: u8, value: Vec<u8>) -> (r: Option<Vec<u32>>)
    ensures
        r is Some <==> format == 32,
        r is Some ==> r->0@ == words(value@, lowest_byte_first()),
{
    let reply = x11rb::protocol::xproto::GetPropertyReply {
        format,
        sequence: 0,
        length: 0,
        type_: 0,
        bytes_after: 0,
        value_len: 0,
        value,
    };
    reply.value32().map(|numbers| numbers.collect())
}

/// A property value with its format.
#[derive(Debug)]
pub struct PropertyValue {
    pub format: u8,
    pub value: Vec<u8>,
}

/// The client windows in a property value: none where it could not be read or has
/// another format, otherwise its numbers in the byte order of the machine.
pub open spec fn listed_windows(list: Option<PropertyValue>) -> Seq<u32> {
    match list {
        Some(property) if property.format == 32 => words(property.value@, lowest_byte_first()),
        _ => Seq::empty(),
    }
}

/// The client windows in the value of `_NET_CLIENT_LIST`, where that could be
/// read.
pub fn client_windows(list: Option<PropertyValue>) -> (r: Vec<u32>)
    ensures
        r@ == listed_windows(list),
{
    match list {
        Some(property) => match property_value32(property.format, property.value) {
            Some(windows) => windows,
            None => Vec::new(),
        },
        None => Vec::new(),
    }
}

// ---------------------------------------------------------------------------
// The search
// ---------------------------------------------------------------------------
/// What the search is waiting for.
#[derive(Debug, Clone, Copy, PartialEq, Eq, Structural)]
pub enum SearchStage {
    NetWmName,
    WmName,
    Done,
}

/// What the search asks for next.
#[derive(Debug, Clone, Copy, PartialEq, Eq, Structural)]
pub enum SearchAction {
    /// The value of this window's `_NET_WM_NAME`.
    AskNetWmName { window: u32 },
    /// The value of this window's `WM_NAME`.
    AskWmName { window: u32 },
    /// The search is over: the window, or nothing.
    Finish(Option<u32>),
}

/// The state of a search: the window at `index` is being looked at.
#[verifier::ext_equal]
pub struct SearchView {
    pub title: Seq<char>,
    pub windows: Seq<u32>,
    pub index: int,
    pub stage: SearchStage,
    pub found: Option<u32>,
}

/// A state in which the question under way is well defined.
pub open spec fn search_ready(s: SearchView) -> bool {
    s.stage != SearchStage::Done ==> 0 <= s.index < s.windows.len()
}

/// The question under way in `s`.
pub open spec fn search_action(s: SearchView) -> SearchAction {
    match s.stage {
        SearchStage::NetWmName => SearchAction::AskNetWmName { window: s.windows[s.index] },
        SearchStage::WmName => SearchAction::AskWmName { window: s.windows[s.index] },
        SearchStage::Done => SearchAction::Finish(s.found),
    }
}

/// The search moves on to the window at `index`, or ends empty-handed.
pub open spec fn at_window(s: SearchView, index: int) -> SearchView {
    if index < s.windows.len() {
        SearchView { index, stage: SearchStage::NetWmName, ..s }
    } else {
        SearchView { stage: SearchStage::Done, found: None, ..s }
    }
}

/// A search for `title` among `windows`, before its first answer.
pub open spec fn search_start(title: Seq<char>, windows: Seq<u32>) -> SearchView {
    at_window(
        SearchView { title, windows, index: 0, stage: SearchStage::NetWmName, found: None },
        0,
    )
}

/// A property value that could be read, is UTF-8 and contains `title`.
pub open spec fn shows_title(value: Option<Seq<u8>>, title: Seq<char>) -> bool {
    property_text(value) matches Some(name) && occurs_in(title, name)
}

/// One step of the search: the answer to the question under way is taken. The
/// legacy name is asked for only where the UTF-8 name does not show the title.
pub open spec fn search_advance(s: SearchView, value: Option<Seq<u8>>) -> SearchView {
    if s.stage == SearchStage::Done {
        s
    } else if shows_title(value, s.title) {
        SearchView { stage: SearchStage::Done, found: Some(s.windows[s.index]), ..s }
    } else if s.stage == SearchStage::NetWmName {
        SearchView { stage: SearchStage::WmName, ..s }
    } else {
        at_window(s, s.index + 1)
    }
}

/// A search for a window on its way.
#[derive(Debug)]
pub struct WindowSearch {
    title: String,
    windows: Vec<u32>,
    index: usize,
    stage: SearchStage,
    found: Option<u32>,
}

impl View for WindowSearch {
    type V = SearchView;

    closed spec fn view(&self) -> SearchView {
        SearchView {
            title: self.title@,
            windows: self.windows@,
            index: self.index as int,
            stage: self.stage,
            found: self.found,
        }
    }
}

/// Starts the search for a window whose title contains `title` among the windows
/// of a `_NET_CLIENT_LIST`; `None` where that could not be read.
pub fn find_window_by_title(title: &str, list: Option<PropertyValue>) -> (search: WindowSearch)
    ensures
        search_ready(search@),
        search@ == search_start(title@, listed_windows(list)),
{
    let windows = client_windows(list);
    let stage = if windows.len() > 0 {
        SearchStage::NetWmName
    } else {
        SearchStage::Done
    };
    WindowSearch { title: title.to_string(), windows, index: 0, stage, found: None }
}

impl WindowSearch {
    /// The question under way.
    pub fn action(&self) -> (r: SearchAction)
        requires
            search_ready(self@),
        ensures
            r == search_action(self@),
    {
        match self.stage {
            SearchStage::NetWmName => SearchAction::AskNetWmName {
                window: self.windows[self.index],
            },
            SearchStage::WmName => SearchAction::AskWmName { window: self.windows[self.index] },
            SearchStage::Done => SearchAction::Finish(self.found),
        }
    }

    /// Takes the answer to the question under way, the value of the property
    /// where it could be read, and says what to ask next.
    pub fn advance(&mut self, value: Option<Vec<u8>>) -> (action: SearchAction)
        requires
            search_ready(old(self)@),
        ensures
            final(self)@ == search_advance(old(self)@, opt_bytes(value)),
            search_ready(final(self)@),
            action == search_action(final(self)@),
    {
        let shown = match value {
            Some(bytes) => match text_from_utf8(bytes) {
                Some(name) => contains_text(name.as_str(), self.title.as_str()),
                None => false,
            },
            None => false,
        };
        match self.stage {
            SearchStage::Done => {},
            _ => {
                assert(self.index < self.windows.len());
                if shown {
                    self.found = Some(self.windows[self.index]);
                    self.stage = SearchStage::Done;
                } else if self.stage == SearchStage::NetWmName {
                    self.stage = SearchStage::WmName;
                } else if self.index + 1 < self.windows.len() {
                    self.index = self.index + 1;
                    self.stage = SearchStage::NetWmName;
                } else {
                    self.stage = SearchStage::Done;
                    self.found = None;
                }
            },
        }
        self.action()
    }
}

// ---------------------------------------------------------------------------
// The wait
// ---------------------------------------------------------------------------
/// What is known while a window is waited for.
#[derive(Debug, Clone, Copy, PartialEq, Eq, Structural)]
pub enum WaitEvent {
    /// This many nanoseconds have passed since the wait began.
    Tick { elapsed: u128 },
    /// A search was made.
    Searched(Option<u32>),
}

/// What the program does next while a window is waited for.
#[derive(Debug, Clone, Copy, PartialEq, Eq, Structural)]
pub enum WaitAction {
    /// Search for the window.
    Search,
    /// Pause for this many nanoseconds.
    Sleep(u128),
    /// The wait is over: the window, or nothing.
    Finish(Option<u32>),
}

/// What follows `event` in a wait with this `timeout`.
pub open spec fn wait_next(timeout: u128, event: WaitEvent) -> WaitAction {
    match event {
        WaitEvent::Tick { elapsed } => if elapsed < timeout {
            WaitAction::Search
        } else {
            WaitAction::Finish(None)
        },
        WaitEvent::Searched(Some(window)) => WaitAction::Finish(Some(window)),
        WaitEvent::Searched(None) => WaitAction::Sleep(WINDOW_MAP_POLL_INTERVAL),
    }
}

/// Waits for a window to appear and be mapped, one step at a time: a search, and
/// where it fails a pause, again and again until the timeout is exceeded.
pub fn wait_for_window_by_title(timeout: u128, event: WaitEvent) -> (action: WaitAction)
    ensures
        action == wait_next(timeout, event),
{
    match event {
        WaitEvent::Tick { elapsed } => if elapsed < timeout {
            WaitAction::Search
        } else {
            WaitAction::Finish(None)
        },
        WaitEvent::Searched(Some(window)) => WaitAction::Finish(Some(window)),
        WaitEvent::Searched(None) => WaitAction::Sleep(WINDOW_MAP_POLL_INTERVAL),
    }
}

// ---------------------------------------------------------------------------
// Laws
// ---------------------------------------------------------------------------
/// The two names of a window, as far as they can be read.
pub struct WindowNames {
    pub net_wm_name: Option<Seq<u8>>,
    pub wm_name: Option<Seq<u8>>,
}

/// The first window from `from` on of which one of the names shows `title`.
pub open spec fn first_titled(
    windows: Seq<u32>,
    names: Seq<WindowNames>,
    title: Seq<char>,
    from: int,
) -> Option<u32>
    decreases windows.len() - from,
{
    if from < 0 || from >= windows.len() {
        None
    } else if shows_title(names[from].net_wm_name, title) || shows_title(
        names[from].wm_name,
        title,
    ) {
        Some(windows[from])
    } else {
        first_titled(windows, names, title, from + 1)
    }
}

/// The answer to the question under way where the windows have these names.
pub open spec fn named_reply(names: Seq<WindowNames>, s: SearchView) -> Option<Seq<u8>> {
    if s.stage == SearchStage::NetWmName {
        names[s.index].net_wm_name
    } else {
        names[s.index].wm_name
    }
}

/// Where a search that goes on from `s` gets to with `steps` answers.
pub open spec fn search_run(names: Seq<WindowNames>, s: SearchView, steps: nat) -> SearchView
    decreases steps,
{
    if steps == 0 {
        s
    } else {
        search_run(names, search_advance(s, named_reply(names, s)), (steps - 1) as nat)
    }
}

/// What is left to be found from `s` on.
pub open spec fn search_expected(names: Seq<WindowNames>, s: SearchView) -> Option<u32> {
    match s.stage {
        SearchStage::NetWmName => first_titled(s.windows, names, s.title, s.index),
        SearchStage::WmName => if shows_title(names[s.index].wm_name, s.title) {
            Some(s.windows[s.index])
        } else {
            first_titled(s.windows, names, s.title, s.index + 1)
        },
        SearchStage::Done => s.found,
    }
}

/// How many answers a search can still take from `s` on.
pub open spec fn search_remaining(s: SearchView) -> int {
    match s.stage {
        SearchStage::NetWmName => 2 * (s.windows.len() - s.index),
        SearchStage::WmName => 2 * (s.windows.len() - s.index) - 1,
        SearchStage::Done => 0,
    }
}

proof fn lemma_search_run(names: Seq<WindowNames>, s: SearchView, steps: nat)
    requires
        search_ready(s),
        steps >= search_remaining(s),
    ensures
        search_run(names, s, steps).stage == SearchStage::Done,
        search_run(names, s, steps).found == search_expected(names, s),
    decreases steps,
{
    if s.stage == SearchStage::Done {
        if steps > 0 {
            lemma_search_run(names, s, (steps - 1) as nat);
        }
    } else {
        let t = search_advance(s, named_reply(names, s));
        assert(search_expected(names, t) == search_expected(names, s));
        lemma_search_run(names, t, (steps - 1) as nat);
    }
}

/// A search ends after at most two answers per window, and it ends with the
/// first window of the list of which one of the names contains the title.
pub proof fn law_search_finds_the_first_titled_window(
    title: Seq<char>,
    windows: Seq<u32>,
    names: Seq<WindowNames>,
    steps: nat,
)
    requires
        names.len() == windows.len(),
        steps >= 2 * windows.len(),
    ensures
        search_action(search_run(names, search_start(title, windows), steps))
            == SearchAction::Finish(first_titled(windows, names, title, 0)),
{
    lemma_search_run(names, search_start(title, windows), steps);
}

/// One round of a wait: when it began, and what its search found.
pub struct WaitRound {
    pub elapsed: u128,
    pub found: Option<u32>,
}

/// How a wait that has come to the round at `from` ends, if these rounds suffice
/// for that.
pub open spec fn wait_course(timeout: u128, rounds: Seq<WaitRound>, from: int) -> Option<
    Option<u32>,
>
    decreases rounds.len() - from,
{
    if from < 0 || from >= rounds.len() {
        None
    } else {
        match wait_next(timeout, WaitEvent::Tick { elapsed: rounds[from].elapsed }) {
            WaitAction::Search => match wait_next(
                timeout,
                WaitEvent::Searched(rounds[from].found),
            ) {
                WaitAction::Finish(found) => Some(found),
                _ => wait_course(timeout, rounds, from + 1),
            },
            WaitAction::Finish(found) => Some(found),
            WaitAction::Sleep(_) => None,
        }
    }
}

/// A wait goes on as long as time is left and no search finds the window. It ends
/// with the window of the first search that finds one, or empty-handed at the
/// first round that would begin too late.
pub proof fn law_wait_ends_with_a_window_or_too_late(
    timeout: u128,
    rounds: Seq<WaitRound>,
    from: int,
    k: int,
)
    requires
        0 <= from <= k < rounds.len(),
        forall|j: int|
            from <= j < k ==> (#[trigger] rounds[j]).elapsed < timeout && rounds[j].found is None,
        rounds[k].elapsed >= timeout || rounds[k].found is Some,
    ensures
        wait_course(timeout, rounds, from) == Some(
            if rounds[k].elapsed < timeout {
                rounds[k].found
            } else {
                None
            },
        ),
    decreases k - from,
{
    if from < k {
        assert(rounds[from].elapsed < timeout && rounds[from].found is None);
        law_wait_ends_with_a_window_or_too_late(timeout, rounds, from + 1, k);
    }
}

} // verus!
