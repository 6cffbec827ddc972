//! The mathematical model: a node is a label with an optional link, and the
//! shared nodes form a sequence indexed by slot.
use vstd::prelude::*;

verus! {

/// A node as contracts see it: its label and the slot of its downstream, if any.
pub struct NodeView {
    pub id: nat,
    pub downstream: Option<nat>,
}

/// A newly made node: labelled, linked to nothing.
pub open spec fn fresh(id: nat) -> NodeView {
    NodeView { id, downstream: None }
}

/// The node `node` with its link replaced by one to `target`.
pub open spec fn relinked(node: NodeView, target: nat) -> NodeView {
    NodeView { id: node.id, downstream: Some(target) }
}

/// Whether `slot` names a shared node of `heap`.
pub open spec fn holds(heap: Seq<NodeView>, slot: nat) -> bool {
    slot < heap.len()
}

/// Whether the link of `node`, if it has one, names a shared node of `heap`.
pub open spec fn admits(heap: Seq<NodeView>, node: NodeView) -> bool {
    match node.downstream {
        Some(slot) => holds(heap, slot),
        None => true,
    }
}

/// No shared node of `heap` links outside `heap`. Links may form cycles.
pub open spec fn closed(heap: Seq<NodeView>) -> bool {
    forall|slot: int| 0 <= slot < heap.len() ==> admits(heap, #[trigger] heap[slot])
}

/// `heap` after the shared node at `at` has been linked to `target`; every
/// other shared node is as before.
pub open spec fn redirected(heap: Seq<NodeView>, at: nat, target: nat) -> Seq<NodeView> {
    heap.update(at as int, relinked(heap[at as int], target))
}

/// `heap` after the downstream of `node` has been linked to `target`, or
/// `heap` itself where `node` has no downstream.
pub open spec fn chained(heap: Seq<NodeView>, node: NodeView, target: nat) -> Seq<NodeView> {
    match node.downstream {
        Some(at) => redirected(heap, at, target),
        None => heap,
    }
}

/// The slots met by following links in `heap`, starting with `link`, until a
/// node without downstream has been listed or `limit` slots have been.
pub open spec fn trail(heap: Seq<NodeView>, link: Option<nat>, limit: nat) -> Seq<nat>
    decreases limit,
{
    match link {
        Some(slot) if limit > 0 && holds(heap, slot) => seq![slot] + trail(
            heap,
            heap[slot as int].downstream,
            (limit - 1) as nat,
        ),
        _ => Seq::empty(),
    }
}

} // verus!
