//! The node and its operations.
use vstd::prelude::*;
use crate::handle::{slot_of, NodeRef};
use crate::model::{admits, chained, fresh, holds, relinked, NodeView};
use crate::pool::NodePool;

verus! {

/// What `chain_downstream` reports of a node that has no downstream.
pub open spec fn no_downstream_configured() -> Seq<char> {
    "No downstream"@
}

/// A labelled node with an optional link to a shared downstream node.
#[derive(Debug)]
pub struct Node {
    id: usize,
    downstream: Option<NodeRef>,
}

impl View for Node {
    type V = NodeView;

    closed spec fn view(&self) -> NodeView {
        NodeView {
            id: self.id as nat,
            downstream: slot_of(self.downstream),
        }
    }
}

impl Node {
    /// A node labelled `id` with no downstream.
    pub fn new(id: usize) -> (node: Self)
        ensures
            node@ == fresh(id as nat),
    {
        Self { id, downstream: None }
    }

    /// The node's label.
    pub fn id(&self) -> (id: usize)
        ensures
            id == self@.id,
    {
        self.id
    }

    /// Replaces the node's link by `downstream`. The label stays.
    pub fn update_downstream(&mut self, downstream: NodeRef)
        ensures
            final(self)@ == relinked(old(self)@, downstream@),
    {
        self.downstream = Some(downstream);
    }

    /// A handle to the node's downstream, or `None` where it has none. The
    /// handle names the downstream node itself.
    pub fn get_downstream(&self) -> (handle: Option<NodeRef>)
        ensures
            slot_of(handle) == self@.downstream,
    {
        self.downstream
    }

    /// Links the node's downstream, which lives in `pool`, to `downstream`.
    /// The change is made to the shared node itself, so every holder of a
    /// handle to it sees it; this node is not changed. A node without
    /// downstream gets the error, and then nothing at all is changed.
    pub fn chain_downstream(&mut self, pool: &mut NodePool, downstream: NodeRef) -> (outcome: Result<
        (),
        String,
    >)
        requires
            old(pool).wf(),
            admits(old(pool)@, old(self)@),
            holds(old(pool)@, downstream@),
        ensures
            *final(self) == *old(self),
            final(pool).wf(),
            final(pool)@ == chained(old(pool)@, old(self)@, downstream@),
            match outcome {
                Ok(_) => old(self)@.downstream is Some,
                Err(message) => old(self)@.downstream is None && message@
                    == no_downstream_configured(),
            },
    {
        match self.downstream {
            None => Err("No downstream".to_string()),
            Some(target) => {
                pool.relink(target, downstream);
                Ok(())
            },
        }
    }
}

} // verus!
