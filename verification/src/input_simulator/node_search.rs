//! The search for a device's event node: the entries of `/sys/class/input` are
//! looked through for the device's name, and the entry's children for a node
//! that exists under `/dev/input`.

use vstd::prelude::*;

use crate::text::{concat2, starts_with_text};

pub mod promises;

verus! {

use crate::text::{opt_text, texts, trimmed};

/// The path of an event node with this file name.
pub open spec fn node_path(file_name: Seq<char>) -> Seq<char> {
    "/dev/input/"@ + file_name
}

/// A child with this name is an event node.
pub open spec fn is_event_name(file_name: Seq<char>) -> bool {
    "event"@.is_prefix_of(file_name)
}

/// What the search asks for next.
#[derive(Debug)]
pub enum NodeAction {
    /// The contents of the entry's `name` file.
    ReadName { entry: usize },
    /// The file names in the entry's directory.
    ListChildren { entry: usize },
    /// Whether this path exists.
    CheckPath { path: String },
    /// The search is over: the path of the node, or nothing.
    Finish(Option<String>),
}

/// A [`NodeAction`] with the text of its paths.
pub enum NodeActionView {
    ReadName { entry: int },
    ListChildren { entry: int },
    CheckPath { path: Seq<char> },
    Finish(Option<Seq<char>>),
}

impl View for NodeAction {
    type V = NodeActionView;

    open spec fn view(&self) -> NodeActionView {
        match self {
            NodeAction::ReadName { entry } => NodeActionView::ReadName { entry: *entry as int },
            NodeAction::ListChildren { entry } => NodeActionView::ListChildren {
                entry: *entry as int,
            },
            NodeAction::CheckPath { path } => NodeActionView::CheckPath { path: path@ },
            NodeAction::Finish(found) => NodeActionView::Finish(opt_text(*found)),
        }
    }
}

/// An answer to the search. What could not be read is `None`; an answer to
/// another question than the one asked counts as unreadable.
#[derive(Debug)]
pub enum NodeReply {
    Name(Option<String>),
    Children(Option<Vec<String>>),
    Exists(bool),
}

/// A [`NodeReply`] with the text of its strings.
pub enum NodeReplyView {
    Name(Option<Seq<char>>),
    Children(Option<Seq<Seq<char>>>),
    Exists(bool),
}

impl View for NodeReply {
    type V = NodeReplyView;

    open spec fn view(&self) -> NodeReplyView {
        match self {
            NodeReply::Name(name) => NodeReplyView::Name(opt_text(*name)),
            NodeReply::Children(Some(children)) => NodeReplyView::Children(Some(texts(children@))),
            NodeReply::Children(None) => NodeReplyView::Children(None),
            NodeReply::Exists(exists) => NodeReplyView::Exists(*exists),
        }
    }
}

/// What the search is waiting for.
#[derive(Debug, Clone, Copy, PartialEq, Eq, Structural)]
pub enum NodeStage {
    Name,
    Children,
    Exists,
    Done,
}

/// The state of a search: the entry that is being looked at, and its children
/// up to the one at `child` once they are listed.
#[verifier::ext_equal]
pub struct NodeSearchView {
    pub device_name: Seq<char>,
    pub entries: int,
    pub entry: int,
    pub children: Seq<Seq<char>>,
    pub child: int,
    pub stage: NodeStage,
    pub found: Option<Seq<char>>,
}

/// A state in which the question under way is well defined.
pub open spec fn node_ready(s: NodeSearchView) -> bool {
    &&& s.stage != NodeStage::Done ==> 0 <= s.entry < s.entries
    &&& s.stage == NodeStage::Exists ==> 0 <= s.child < s.children.len()
}

/// The question under way in `s`.
pub open spec fn node_action(s: NodeSearchView) -> NodeActionView {
    match s.stage {
        NodeStage::Name => NodeActionView::ReadName { entry: s.entry },
        NodeStage::Children => NodeActionView::ListChildren { entry: s.entry },
        NodeStage::Exists => NodeActionView::CheckPath { path: node_path(s.children[s.child]) },
        NodeStage::Done => NodeActionView::Finish(s.found),
    }
}

/// The search moves on to the entry `entry`, or ends empty-handed.
pub open spec fn at_entry(s: NodeSearchView, entry: int) -> NodeSearchView {
    if entry < s.entries {
        NodeSearchView { entry, stage: NodeStage::Name, ..s }
    } else {
        NodeSearchView { stage: NodeStage::Done, found: None, ..s }
    }
}

/// The first event node among `children` from `from` on.
pub open spec fn next_event_child(children: Seq<Seq<char>>, from: int) -> Option<int>
    decreases children.len() - from,
{
    if from < 0 || from >= children.len() {
        None
    } else if is_event_name(children[from]) {
        Some(from)
    } else {
        next_event_child(children, from + 1)
    }
}

/// The search moves on to the next event node among `children` from `from` on,
/// or to the next entry.
pub open spec fn at_child(s: NodeSearchView, children: Seq<Seq<char>>, from: int) -> NodeSearchView {
    let listed = NodeSearchView { children, ..s };
    match next_event_child(children, from) {
        Some(child) => NodeSearchView { child, stage: NodeStage::Exists, ..listed },
        None => at_entry(listed, s.entry + 1),
    }
}

/// One step of the search: the answer to the question under way is taken.
pub open spec fn node_advance(s: NodeSearchView, reply: NodeReplyView) -> NodeSearchView {
    match s.stage {
        NodeStage::Name => match reply {
            NodeReplyView::Name(Some(name)) if trimmed(name) == s.device_name => NodeSearchView {
                stage: NodeStage::Children,
                ..s
            },
            _ => at_entry(s, s.entry + 1),
        },
        NodeStage::Children => match reply {
            NodeReplyView::Children(Some(children)) => at_child(s, children, 0),
            _ => at_entry(s, s.entry + 1),
        },
        NodeStage::Exists => match reply {
            NodeReplyView::Exists(true) => NodeSearchView {
                stage: NodeStage::Done,
                found: Some(node_path(s.children[s.child])),
                ..s
            },
            _ => at_child(s, s.children, s.child + 1),
        },
        NodeStage::Done => s,
    }
}

/// A search for `device_name` among `entries` entries, before its first answer.
pub open spec fn node_start(device_name: Seq<char>, entries: int) -> NodeSearchView {
    at_entry(
        NodeSearchView {
            device_name,
            entries,
            entry: 0,
            children: Seq::empty(),
            child: 0,
            stage: NodeStage::Name,
            found: None,
        },
        0,
    )
}

/// A search for an event node on its way.
#[derive(Debug)]
pub struct NodeSearch {
    device_name: String,
    entries: usize,
    entry: usize,
    children: Vec<String>,
    child: usize,
    stage: NodeStage,
    found: Option<String>,
}

impl View for NodeSearch {
    type V = NodeSearchView;

    closed spec fn view(&self) -> NodeSearchView {
        NodeSearchView {
            device_name: self.device_name@,
            entries: self.entries as int,
            entry: self.entry as int,
            children: texts(self.children@),
            child: self.child as int,
            stage: self.stage,
            found: opt_text(self.found),
        }
    }
}

/// Starts the search for the event node of `device_name` among the entries of
/// `/sys/class/input`, of which there are `entries`; `None` where that directory
/// could not be read.
pub fn find_uinput_event_node(device_name: &str, entries: Option<usize>) -> (search: NodeSearch)
    ensures
        search@ == node_start(
            device_name@,
            match entries {
                Some(n) => n as int,
                None => 0,
            },
        ),
        node_ready(search@),
{
    let count: usize = match entries {
        Some(n) => n,
        None => 0,
    };
    let search = NodeSearch {
        device_name: device_name.to_string(),
        entries: count,
        entry: 0,
        children: Vec::new(),
        child: 0,
        stage: if count > 0 {
            NodeStage::Name
        } else {
            NodeStage::Done
        },
        found: None,
    };
    assert(search@.children =~= Seq::<Seq<char>>::empty());
    search
}

impl NodeSearch {
    /// The question under way.
    pub fn action(&self) -> (r: NodeAction)
        requires
            node_ready(self@),
        ensures
            r@ == node_action(self@),
    {
        match self.stage {
            NodeStage::Name => NodeAction::ReadName { entry: self.entry },
            NodeStage::Children => NodeAction::ListChildren { entry: self.entry },
            NodeStage::Exists => NodeAction::CheckPath { path: self.child_path() },
            NodeStage::Done => NodeAction::Finish(self.found.clone()),
        }
    }

    fn child_path(&self) -> (r: String)
        requires
            0 <= self@.child < self@.children.len(),
        ensures
            r@ == node_path(self@.children[self@.child]),
    {
        concat2("/dev/input/", self.children[self.child].as_str())
    }

    fn next_entry(&mut self)
        requires
            0 <= old(self)@.entry < old(self)@.entries,
        ensures
            final(self)@ == at_entry(old(self)@, old(self)@.entry + 1),
            node_ready(final(self)@),
    {
        if self.entry + 1 < self.entries {
            self.entry = self.entry + 1;
            self.stage = NodeStage::Name;
        } else {
            self.stage = NodeStage::Done;
            self.found = None;
        }
    }

    fn next_child(&mut self, from: usize)
        requires
            0 <= old(self)@.entry < old(self)@.entries,
        ensures
            final(self)@ == at_child(old(self)@, old(self)@.children, from as int),
            node_ready(final(self)@),
    {
        let mut i: usize = from;
        while i < self.children.len()
            invariant
                *self == *old(self),
                0 <= self@.entry < self@.entries,
                i >= from,
                next_event_child(texts(self.children@), from as int) == next_event_child(
                    texts(self.children@),
                    i as int,
                ),
            decreases self.children.len() - i,
        {
            assert(texts(self.children@)[i as int] == self.children@[i as int]@);
            if starts_with_text(self.children[i].as_str(), "event") {
                self.child = i;
                self.stage = NodeStage::Exists;
                return;
            }
            i += 1;
        }
        assert(next_event_child(texts(self.children@), i as int) is None);
        self.next_entry();
    }

    /// Takes the answer to the question under way and says what to ask next.
    pub fn advance(&mut self, reply: NodeReply) -> (action: NodeAction)
        requires
            node_ready(old(self)@),
        ensures
            final(self)@ == node_advance(old(self)@, reply@),
            node_ready(final(self)@),
            action@ == node_action(final(self)@),
    {
        match self.stage {
            NodeStage::Name => {
                let is_device = match &reply {
                    NodeReply::Name(Some(name)) => name.as_str().trim().to_string()
                        == self.device_name,
                    _ => false,
                };
                if is_device {
                    self.stage = NodeStage::Children;
                } else {
                    self.next_entry();
                }
            },
            NodeStage::Children => match reply {
                NodeReply::Children(Some(children)) => {
                    self.children = children;
                    self.next_child(0);
                },
                _ => {
                    self.next_entry();
                },
            },
            NodeStage::Exists => match reply {
                NodeReply::Exists(true) => {
                    self.found = Some(self.child_path());
                    self.stage = NodeStage::Done;
                },
                _ => {
                    assert(self.child < self.children.len());
                    let from: usize = self.child + 1;
                    self.next_child(from);
                },
            },
            NodeStage::Done => {},
        }
        self.action()
    }
}

// ---------------------------------------------------------------------------
// Laws
// ---------------------------------------------------------------------------
/// An entry of `/sys/class/input`, as far as it can be read.
pub struct ClassEntry {
    pub name: Option<Seq<char>>,
    pub children: Option<Seq<Seq<char>>>,
}

/// The file system that a search meets: the entries, and which paths exist.
pub struct InputTree {
    pub entries: Seq<ClassEntry>,
    pub exists: spec_fn(Seq<char>) -> bool,
}

/// The path of the first existing event node among `children` from `from` on.
pub open spec fn first_child_node(tree: InputTree, children: Seq<Seq<char>>, from: int) -> Option<
    Seq<char>,
>
    decreases children.len() - from,
{
    if from < 0 || from >= children.len() {
        None
    } else if is_event_name(children[from]) && (tree.exists)(node_path(children[from])) {
        Some(node_path(children[from]))
    } else {
        first_child_node(tree, children, from + 1)
    }
}

/// The path of the first existing event node of an entry with the device's name,
/// among the entries from `from` on.
pub open spec fn first_device_node(tree: InputTree, device_name: Seq<char>, from: int) -> Option<
    Seq<char>,
>
    decreases tree.entries.len() - from,
{
    if from < 0 || from >= tree.entries.len() {
        None
    } else {
        let entry = tree.entries[from];
        let here = if entry.name is Some && trimmed(entry.name->0) == device_name
            && entry.children is Some {
            first_child_node(tree, entry.children->0, 0)
        } else {
            None
        };
        if here is Some {
            here
        } else {
            first_device_node(tree, device_name, from + 1)
        }
    }
}

/// The answer that `tree` gives to the question under way.
pub open spec fn tree_reply(tree: InputTree, s: NodeSearchView) -> NodeReplyView {
    match s.stage {
        NodeStage::Name => NodeReplyView::Name(tree.entries[s.entry].name),
        NodeStage::Children => NodeReplyView::Children(tree.entries[s.entry].children),
        NodeStage::Exists => NodeReplyView::Exists(
            (tree.exists)(node_path(s.children[s.child])),
        ),
        NodeStage::Done => NodeReplyView::Exists(false),
    }
}

/// Where a search that goes on from `s` gets to with `steps` answers of `tree`.
pub open spec fn node_run(tree: InputTree, s: NodeSearchView, steps: nat) -> NodeSearchView
    decreases steps,
{
    if steps == 0 {
        s
    } else {
        node_run(tree, node_advance(s, tree_reply(tree, s)), (steps - 1) as nat)
    }
}

/// What is left to be found from `s` on.
pub open spec fn node_expected(tree: InputTree, s: NodeSearchView) -> Option<Seq<char>> {
    let later = first_device_node(tree, s.device_name, s.entry + 1);
    match s.stage {
        NodeStage::Name => first_device_node(tree, s.device_name, s.entry),
        NodeStage::Children => match tree.entries[s.entry].children {
            Some(children) => match first_child_node(tree, children, 0) {
                Some(path) => Some(path),
                None => later,
            },
            None => later,
        },
        NodeStage::Exists => match first_child_node(tree, s.children, s.child) {
            Some(path) => Some(path),
            None => later,
        },
        NodeStage::Done => s.found,
    }
}

/// The longest list of children in the first `n` entries.
pub open spec fn longest_listing(tree: InputTree, n: int) -> int
    decreases n,
{
    if n <= 0 || n > tree.entries.len() {
        0
    } else {
        let before = longest_listing(tree, n - 1);
        match tree.entries[n - 1].children {
            Some(children) => if children.len() > before {
                children.len() as int
            } else {
                before
            },
            None => before,
        }
    }
}

proof fn lemma_longest_listing(tree: InputTree, n: int, i: int)
    requires
        0 <= i < n <= tree.entries.len(),
        tree.entries[i].children is Some,
    ensures
        tree.entries[i].children->0.len() <= longest_listing(tree, n),
    decreases n,
{
    if i < n - 1 {
        lemma_longest_listing(tree, n - 1, i);
    }
}

proof fn lemma_next_event_child(tree: InputTree, children: Seq<Seq<char>>, from: int)
    requires
        0 <= from,
    ensures
        match next_event_child(children, from) {
            Some(i) => from <= i < children.len() && first_child_node(tree, children, from)
                == first_child_node(tree, children, i) && is_event_name(children[i]),
            None => first_child_node(tree, children, from) is None,
        },
    decreases children.len() - from,
{
    if from < children.len() && !is_event_name(children[from]) {
        lemma_next_event_child(tree, children, from + 1);
    }
}

/// How many answers a search can still take from `s` on.
pub open spec fn node_remaining(tree: InputTree, s: NodeSearchView) -> int {
    let width = longest_listing(tree, tree.entries.len() as int) + 2;
    let later = (tree.entries.len() - s.entry - 1) * width;
    match s.stage {
        NodeStage::Name => later + width,
        NodeStage::Children => later + width - 1,
        NodeStage::Exists => later + (s.children.len() - s.child),
        NodeStage::Done => 0,
    }
}

/// A search state that belongs to `tree`.
pub open spec fn node_inv(tree: InputTree, s: NodeSearchView) -> bool {
    &&& node_ready(s)
    &&& s.entries == tree.entries.len()
    &&& s.stage == NodeStage::Exists ==> is_event_name(s.children[s.child]) && s.children.len()
        <= longest_listing(tree, tree.entries.len() as int)
    &&& s.stage == NodeStage::Children ==> {
        let name = tree.entries[s.entry].name;
        name is Some && trimmed(name->0) == s.device_name
    }
}

proof fn lemma_longest_nonnegative(tree: InputTree, n: int)
    ensures
        longest_listing(tree, n) >= 0,
    decreases n,
{
    if 0 < n <= tree.entries.len() {
        lemma_longest_nonnegative(tree, n - 1);
    }
}

proof fn lemma_later_entries(tree: InputTree, s: NodeSearchView)
    requires
        0 <= s.entry < tree.entries.len(),
    ensures
        ({
            let width = longest_listing(tree, tree.entries.len() as int) + 2;
            let here = (tree.entries.len() - s.entry - 1) * width;
            &&& width >= 2
            &&& here >= 0
            &&& s.entry + 1 < tree.entries.len() ==> here == (tree.entries.len() - (s.entry + 1)
                - 1) * width + width
        }),
{
    lemma_longest_nonnegative(tree, tree.entries.len() as int);
    let width = longest_listing(tree, tree.entries.len() as int) + 2;
    let left = tree.entries.len() - s.entry - 1;
    assert(left * width >= 0) by (nonlinear_arith)
        requires
            left >= 0,
            width >= 2,
    ;
    assert(left * width == (left - 1) * width + width) by (nonlinear_arith);
}

/// Every answer of `tree` keeps what is left to be found, and brings the search
/// nearer to its end.
proof fn lemma_node_step(tree: InputTree, s: NodeSearchView)
    requires
        node_inv(tree, s),
        s.stage != NodeStage::Done,
    ensures
        ({
            let t = node_advance(s, tree_reply(tree, s));
            &&& node_inv(tree, t)
            &&& t.device_name == s.device_name
            &&& node_expected(tree, t) == node_expected(tree, s)
            &&& 0 <= node_remaining(tree, t) < node_remaining(tree, s)
        }),
{
    lemma_later_entries(tree, s);
    let entry = tree.entries[s.entry];
    match s.stage {
        NodeStage::Name => {
            assert(s.entry + 1 == tree.entries.len() ==> first_device_node(
                tree,
                s.device_name,
                s.entry + 1,
            ) is None);
        },
        NodeStage::Children => {
            if entry.children is Some {
                lemma_next_event_child(tree, entry.children->0, 0);
                lemma_longest_listing(tree, tree.entries.len() as int, s.entry);
            }
        },
        NodeStage::Exists => {
            lemma_next_event_child(tree, s.children, s.child + 1);
        },
        NodeStage::Done => {},
    }
}

proof fn lemma_node_run(tree: InputTree, s: NodeSearchView, steps: nat)
    requires
        node_inv(tree, s),
        steps >= node_remaining(tree, s),
    ensures
        node_run(tree, s, steps).stage == NodeStage::Done,
        node_run(tree, s, steps).found == node_expected(tree, s),
    decreases steps,
{
    if s.stage == NodeStage::Done {
        if steps > 0 {
            lemma_node_run(tree, s, (steps - 1) as nat);
        }
    } else {
        lemma_node_step(tree, s);
        lemma_node_run(tree, node_advance(s, tree_reply(tree, s)), (steps - 1) as nat);
    }
}

/// A search ends, and it ends with the first existing event node of the first
/// entry that has the device's name and such a node; and with nothing where
/// there is none.
pub proof fn law_search_finds_the_first_device_node(
    tree: InputTree,
    device_name: Seq<char>,
    steps: nat,
)
    requires
        steps >= tree.entries.len() * (longest_listing(tree, tree.entries.len() as int) + 2),
    ensures
        node_action(
            node_run(tree, node_start(device_name, tree.entries.len() as int), steps),
        ) == NodeActionView::Finish(first_device_node(tree, device_name, 0)),
{
    let s = node_start(device_name, tree.entries.len() as int);
    let width = longest_listing(tree, tree.entries.len() as int) + 2;
    if tree.entries.len() > 0 {
        assert((tree.entries.len() - 1) * width + width == tree.entries.len() * width)
            by (nonlinear_arith);
    }
    lemma_longest_nonnegative(tree, tree.entries.len() as int);
    assert(tree.entries.len() * width >= 0) by (nonlinear_arith)
        requires
            width >= 0,
    ;
    lemma_node_run(tree, s, steps);
}

} // verus!
