//! The pool in which shared nodes live.
use vstd::prelude::*;
use crate::handle::{slot_of, slots, NodeRef};
use crate::model::{admits, closed, holds, redirected, trail, NodeView};
use crate::node::Node;

verus! {

/// The shared nodes, each in a slot of its own. A node keeps its slot for as
/// long as the pool lives, so a handle to it never dangles.
#[derive(Debug)]
pub struct NodePool {
    nodes: Vec<Node>,
}

impl View for NodePool {
    type V = Seq<NodeView>;

    closed spec fn view(&self) -> Seq<NodeView> {
        self.nodes@.map_values(|node: Node| node@)
    }
}

impl NodePool {
    /// The pool's invariant: no shared node links to a slot that the pool lacks.
    pub open spec fn wf(&self) -> bool {
        closed(self@)
    }

    /// An empty pool.
    pub fn new() -> (pool: Self)
        ensures
            pool@ == Seq::<NodeView>::empty(),
            pool.wf(),
    {
        NodePool { nodes: Vec::new() }
    }

    /// The number of shared nodes.
    pub fn len(&self) -> (len: usize)
        ensures
            len == self@.len(),
    {
        self.nodes.len()
    }

    /// Whether `handle` names a node of this pool.
    pub fn holds(&self, handle: NodeRef) -> (found: bool)
        ensures
            found == holds(self@, handle@),
    {
        handle.slot() < self.nodes.len()
    }

    /// Moves `node` into the pool and returns the first handle to it. The
    /// node takes the next free slot; the nodes already shared are untouched.
    pub fn share(&mut self, node: Node) -> (handle: NodeRef)
        requires
            old(self).wf(),
            admits(old(self)@, node@),
        ensures
            final(self)@ == old(self)@.push(node@),
            handle@ == old(self)@.len(),
            final(self).wf(),
    {
        let slot: usize = self.nodes.len();
        self.nodes.push(node);
        NodeRef::at(slot)
    }

    /// The shared node that `handle` names.
    pub fn node(&self, handle: NodeRef) -> (node: &Node)
        requires
            holds(self@, handle@),
        ensures
            node@ == self@[handle@ as int],
    {
        &self.nodes[handle.slot()]
    }

    /// Links the shared node that `at` names to `downstream`, in place: every
    /// holder of a handle to that node sees the new link.
    pub fn relink(&mut self, at: NodeRef, downstream: NodeRef)
        requires
            old(self).wf(),
            holds(old(self)@, at@),
            holds(old(self)@, downstream@),
        ensures
            final(self)@ == redirected(old(self)@, at@, downstream@),
            final(self).wf(),
    {
        let slot: usize = at.slot();
        self.nodes[slot].update_downstream(downstream);
        assert(self@ =~= redirected(old(self)@, at@, downstream@));
    }

    /// The handles met by following links from `from`: its downstream, that
    /// node's downstream, and so on, until a node without downstream has been
    /// listed or `limit` handles have been. The limit ends the walk on a cycle.
    pub fn downstream_trail(&self, from: &Node, limit: usize) -> (path: Vec<NodeRef>)
        requires
            self.wf(),
            admits(self@, from@),
        ensures
            slots(path@) == trail(self@, from@.downstream, limit as nat),
    {
        let mut path: Vec<NodeRef> = Vec::new();
        let mut link: Option<NodeRef> = from.get_downstream();
        let mut left: usize = limit;
        while left > 0 && link.is_some()
            invariant
                self.wf(),
                left <= limit,
                link matches Some(handle) ==> holds(self@, handle@),
                trail(self@, from@.downstream, limit as nat) == slots(path@) + trail(
                    self@,
                    slot_of(link),
                    left as nat,
                ),
            decreases left,
        {
            let handle: NodeRef = link.unwrap();
            path.push(handle);
            link = self.node(handle).get_downstream();
            left = left - 1;
        }
        path
    }
}

} // verus!
