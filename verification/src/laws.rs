//! What holds of the operations taken together, stated over the model.
use vstd::prelude::*;
use crate::handle::{slot_of, NodeRef};
use crate::model::{admits, chained, closed, fresh, holds, redirected, relinked, trail, NodeView};
use crate::node::Node;

verus! {

/// A node that has just been made has no downstream: what `Node::new`
/// returns, `Node::get_downstream` reads as `None`.
pub proof fn lemma_new_then_get(node: Node, id: usize, read: Option<NodeRef>)
    requires
        node@ == fresh(id as nat),
        slot_of(read) == node@.downstream,
    ensures
        read is None,
        node@.id == id,
{
}

/// After a node has been linked to `target`, whatever it was linked to
/// before, `Node::get_downstream` reads `target` itself back, and the label
/// is as it was.
pub proof fn lemma_update_then_get(
    before: Node,
    after: Node,
    target: NodeRef,
    read: Option<NodeRef>,
)
    requires
        after@ == relinked(before@, target@),
        slot_of(read) == after@.downstream,
    ensures
        read == Some(target),
        after@.id == before@.id,
{
    read.unwrap().lemma_identity(target);
}

/// The handle read back from a node names the node it was linked to, not a
/// copy: a change made through the handle read back is seen through the
/// handle that was given.
pub proof fn lemma_read_back_is_same_node(
    heap: Seq<NodeView>,
    a: NodeView,
    b: nat,
    target: nat,
)
    requires
        holds(heap, b),
    ensures
        redirected(heap, relinked(a, b).downstream.unwrap(), target)[b as int].downstream == Some(
            target,
        ),
{
}

/// Aliasing: where `c` is linked to what `a` links to, a change that `c`
/// makes to its downstream is the change that `a` would have made, and `a`
/// sees it.
pub proof fn lemma_alias_sees_change(
    heap: Seq<NodeView>,
    a: NodeView,
    c: NodeView,
    b: nat,
    target: nat,
)
    requires
        holds(heap, b),
    ensures
        ({
            let a1 = relinked(a, b);
            let c1 = relinked(c, a1.downstream.unwrap());
            let after = chained(heap, c1, target);
            &&& after == chained(heap, a1, target)
            &&& after[a1.downstream.unwrap() as int].downstream == Some(target)
        }),
{
}

/// Chaining from a node without downstream changes nothing.
pub proof fn lemma_chained_without_downstream(heap: Seq<NodeView>, node: NodeView, target: nat)
    requires
        node.downstream is None,
    ensures
        chained(heap, node, target) == heap,
{
}

/// Chaining from a node whose downstream is the shared node `at` links that
/// shared node to the target, keeps its label, and leaves every other shared
/// node as it was.
pub proof fn lemma_chained_with_downstream(
    heap: Seq<NodeView>,
    node: NodeView,
    at: nat,
    target: nat,
)
    requires
        node.downstream == Some(at),
        holds(heap, at),
    ensures
        chained(heap, node, target).len() == heap.len(),
        chained(heap, node, target)[at as int] == relinked(heap[at as int], target),
        forall|slot: int|
            0 <= slot < heap.len() && slot != at ==> chained(heap, node, target)[slot]
                == heap[slot],
{
}

/// Sharing a node and relinking one keep a pool closed: no link of a shared
/// node ever dangles.
pub proof fn lemma_closed_is_kept(heap: Seq<NodeView>, node: NodeView, at: nat, target: nat)
    requires
        closed(heap),
    ensures
        admits(heap, node) ==> closed(heap.push(node)),
        holds(heap, at) && holds(heap, target) ==> closed(redirected(heap, at, target)),
{
}

/// A trail never lists more slots than its limit, and every slot it lists
/// is one of the pool's.
pub proof fn lemma_trail_is_bounded(heap: Seq<NodeView>, link: Option<nat>, limit: nat)
    ensures
        trail(heap, link, limit).len() <= limit,
        forall|i: int|
            0 <= i < trail(heap, link, limit).len() ==> holds(
                heap,
                #[trigger] trail(heap, link, limit)[i],
            ),
    decreases limit,
{
    match link {
        Some(slot) if limit > 0 && holds(heap, slot) => {
            lemma_trail_is_bounded(heap, heap[slot as int].downstream, (limit - 1) as nat);
        },
        _ => {},
    }
}

} // verus!
