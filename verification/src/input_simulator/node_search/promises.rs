//! What the search for an event node promises: which node it finds in a file system.

use vstd::prelude::*;

use crate::input_simulator::node_search::{
    find_uinput_event_node, InputTree, NodeAction, NodeActionView, NodeReply, NodeReplyView,
    NodeSearch, NodeSearchView,
};

verus! {

use crate::input_simulator::node_search::{
    first_child_node, first_device_node, is_event_name, law_search_finds_the_first_device_node,
    longest_listing, node_action, node_advance, node_path, node_run, node_start, tree_reply,
};
use crate::text::promises::{is_core_of, law_trimming_leaves_the_core};
use crate::text::{texts, trimmed};

/// The answer that a file system gives to a question.
pub open spec fn file_system_reply(tree: InputTree, question: NodeActionView) -> NodeReplyView {
    match question {
        NodeActionView::ReadName { entry } => NodeReplyView::Name(tree.entries[entry].name),
        NodeActionView::ListChildren { entry } => NodeReplyView::Children(
            tree.entries[entry].children,
        ),
        NodeActionView::CheckPath { path } => NodeReplyView::Exists((tree.exists)(path)),
        NodeActionView::Finish(_) => NodeReplyView::Exists(false),
    }
}

/// Where a search that goes on from `s` gets to with `steps` answers of a file
/// system, each to the question that was asked.
pub open spec fn node_course(tree: InputTree, s: NodeSearchView, steps: nat) -> NodeSearchView
    decreases steps,
{
    if steps == 0 {
        s
    } else {
        node_course(
            tree,
            node_advance(s, file_system_reply(tree, node_action(s))),
            (steps - 1) as nat,
        )
    }
}

/// A file name begins with `event`.
pub open spec fn begins_with_event(name: Seq<char>) -> bool {
    &&& name.len() >= 5
    &&& name[0] == 'e'
    &&& name[1] == 'v'
    &&& name[2] == 'e'
    &&& name[3] == 'n'
    &&& name[4] == 't'
}

/// The child `c` of the entry `e` is an existing event node of the device, with this
/// path: the entry's name, without its margins, is the device's; the child's name
/// begins with `event`; and the path under `/dev/input` with that name exists.
pub open spec fn is_node_of(
    tree: InputTree,
    device_name: Seq<char>,
    e: int,
    c: int,
    path: Seq<char>,
) -> bool {
    &&& 0 <= e < tree.entries.len()
    &&& tree.entries[e].name matches Some(name) && is_core_of(device_name, name)
    &&& tree.entries[e].children matches Some(children) && {
        &&& 0 <= c < children.len()
        &&& begins_with_event(children[c])
        &&& path == "/dev/input/"@ + children[c]
        &&& (tree.exists)(path)
    }
}

/// The entry `e` has no existing event node of the device among its children before
/// `c`.
pub open spec fn none_before(tree: InputTree, device_name: Seq<char>, e: int, c: int) -> bool {
    forall|i: int, path: Seq<char>|
        0 <= i < c ==> !#[trigger] is_node_of(tree, device_name, e, i, path)
}

/// No entry before `e` has an existing event node of the device.
pub open spec fn no_entry_before(tree: InputTree, device_name: Seq<char>, e: int) -> bool {
    forall|d: int, i: int, path: Seq<char>|
        0 <= d < e ==> !#[trigger] is_node_of(tree, device_name, d, i, path)
}

proof fn lemma_event_name(name: Seq<char>)
    ensures
        is_event_name(name) <==> begins_with_event(name),
{
    reveal_strlit("event");
    let event = "event"@;
    if begins_with_event(name) {
        assert(event =~= name.subrange(0, 5));
    }
    if is_event_name(name) {
        assert(event == name.subrange(0, event.len() as int));
        assert(event[0] == name[0]);
        assert(event[1] == name[1]);
        assert(event[2] == name[2]);
        assert(event[3] == name[3]);
        assert(event[4] == name[4]);
    }
}

proof fn lemma_course_is_run(tree: InputTree, s: NodeSearchView, steps: nat)
    ensures
        node_course(tree, s, steps) == node_run(tree, s, steps),
    decreases steps,
{
    if steps > 0 {
        assert(file_system_reply(tree, node_action(s)) == tree_reply(tree, s));
        lemma_course_is_run(tree, node_advance(s, tree_reply(tree, s)), (steps - 1) as nat);
    }
}

/// The child `c` is the first existing event node among the children of the entry.
pub open spec fn is_first_child_node(
    tree: InputTree,
    device_name: Seq<char>,
    e: int,
    c: int,
    path: Seq<char>,
) -> bool {
    is_node_of(tree, device_name, e, c, path) && none_before(tree, device_name, e, c)
}

proof fn lemma_first_child(
    tree: InputTree,
    device_name: Seq<char>,
    e: int,
    children: Seq<Seq<char>>,
    from: int,
)
    requires
        0 <= e < tree.entries.len(),
        tree.entries[e].name is Some,
        is_core_of(device_name, tree.entries[e].name->0),
        tree.entries[e].children == Some(children),
        0 <= from <= children.len(),
        none_before(tree, device_name, e, from),
    ensures
        first_child_node(tree, children, from) is None ==> none_before(
            tree,
            device_name,
            e,
            children.len() as int,
        ),
        first_child_node(tree, children, from) is Some ==> exists|c: int|
            #[trigger] is_first_child_node(
                tree,
                device_name,
                e,
                c,
                first_child_node(tree, children, from)->0,
            ),
    decreases children.len() - from,
{
    if from < children.len() {
        lemma_event_name(children[from]);
        let path = node_path(children[from]);
        if is_event_name(children[from]) && (tree.exists)(path) {
            let found = first_child_node(tree, children, from)->0;
            assert(found == path);
            assert(is_first_child_node(tree, device_name, e, from, found));
        } else {
            assert(none_before(tree, device_name, e, from + 1));
            lemma_first_child(tree, device_name, e, children, from + 1);
            let found = first_child_node(tree, children, from);
            assert(found == first_child_node(tree, children, from + 1));
            if found is Some {
                let c = choose|c: int| #[trigger]
                    is_first_child_node(tree, device_name, e, c, found->0);
                assert(is_first_child_node(tree, device_name, e, c, found->0));
            }
        }
    }
}

/// The child `c` of the entry `e` is the first existing event node of the device, in
/// the order of the entries and of their children.
pub open spec fn is_first_node(
    tree: InputTree,
    device_name: Seq<char>,
    e: int,
    c: int,
    path: Seq<char>,
) -> bool {
    is_first_child_node(tree, device_name, e, c, path) && no_entry_before(tree, device_name, e)
}

proof fn lemma_first_node(tree: InputTree, device_name: Seq<char>, from: int)
    requires
        0 <= from <= tree.entries.len(),
        no_entry_before(tree, device_name, from),
    ensures
        match first_device_node(tree, device_name, from) {
            Some(path) => exists|e: int, c: int| #[trigger]
                is_first_node(tree, device_name, e, c, path),
            None => no_entry_before(tree, device_name, tree.entries.len() as int),
        },
    decreases tree.entries.len() - from,
{
    if from < tree.entries.len() {
        let entry = tree.entries[from];
        if entry.name is Some {
            law_trimming_leaves_the_core(entry.name->0, device_name);
        }
        if entry.name is Some && trimmed(entry.name->0) == device_name && entry.children is Some {
            let children = entry.children->0;
            lemma_first_child(tree, device_name, from, children, 0);
            match first_child_node(tree, children, 0) {
                Some(path) => {
                    let c = choose|c: int| #[trigger]
                        is_first_child_node(tree, device_name, from, c, path);
                    assert(is_first_node(tree, device_name, from, c, path));
                },
                None => {
                    assert(no_entry_before(tree, device_name, from + 1));
                    lemma_first_node(tree, device_name, from + 1);
                },
            }
        } else {
            assert(no_entry_before(tree, device_name, from + 1));
            lemma_first_node(tree, device_name, from + 1);
        }
    }
}

/// A search over the entries of a file system ends. It ends with the path of an
/// existing event node of the device, the first in the order of the entries and of
/// their children; and with none exactly where no entry has one.
pub proof fn law_search_covers_every_entry_and_child(
    device_name: &str,
    entries: Option<usize>,
    search: NodeSearch,
    tree: InputTree,
    steps: nat,
)
    requires
        call_ensures(find_uinput_event_node, (device_name, entries), search),
        tree.entries.len() == match entries {
            Some(count) => count as nat,
            None => 0,
        },
        steps >= tree.entries.len() * (longest_listing(tree, tree.entries.len() as int) + 2),
    ensures
        match node_action(node_course(tree, search@, steps)) {
            NodeActionView::Finish(Some(path)) => exists|e: int, c: int| #[trigger]
                is_first_node(tree, device_name@, e, c, path),
            NodeActionView::Finish(None) => no_entry_before(
                tree,
                device_name@,
                tree.entries.len() as int,
            ),
            _ => false,
        },
{
    let s = node_start(device_name@, tree.entries.len() as int);
    assert(search@ == s);
    lemma_course_is_run(tree, s, steps);
    law_search_finds_the_first_device_node(tree, device_name@, steps);
    lemma_first_node(tree, device_name@, 0);
}

/// What is said of a question or an answer is said of all that it holds.
pub proof fn law_questions_and_answers_are_seen_whole(action: NodeAction, reply: NodeReply)
    ensures
        match action {
            NodeAction::ReadName { entry } => action@ == (NodeActionView::ReadName {
                entry: entry as int,
            }),
            NodeAction::ListChildren { entry } => action@ == (NodeActionView::ListChildren {
                entry: entry as int,
            }),
            NodeAction::CheckPath { path } => action@ == (NodeActionView::CheckPath {
                path: path@,
            }),
            NodeAction::Finish(Some(path)) => action@ == NodeActionView::Finish(Some(path@)),
            NodeAction::Finish(None) => action@ == NodeActionView::Finish(None),
        },
        match reply {
            NodeReply::Name(Some(name)) => reply@ == NodeReplyView::Name(Some(name@)),
            NodeReply::Name(None) => reply@ == NodeReplyView::Name(None),
            NodeReply::Children(Some(list)) => reply@ == NodeReplyView::Children(
                Some(texts(list@)),
            ),
            NodeReply::Children(None) => reply@ == NodeReplyView::Children(None),
            NodeReply::Exists(there) => reply@ == NodeReplyView::Exists(there),
        },
{
}

} // verus!
