//! Handles to shared nodes.
use vstd::prelude::*;

verus! {

/// A shared handle to a node in a pool. Copies of a handle name the same
/// node: none of them is a copy of the node.
#[derive(Clone, Copy, Debug, PartialEq, Eq, Structural)]
pub struct NodeRef {
    slot: usize,
}

impl View for NodeRef {
    type V = nat;

    /// The slot that the handle names.
    closed spec fn view(&self) -> nat {
        self.slot as nat
    }
}

impl NodeRef {
    /// The handle to the node at `slot`.
    pub(crate) fn at(slot: usize) -> (handle: Self)
        ensures
            handle@ == slot,
    {
        NodeRef { slot }
    }

    /// The slot that the handle names.
    pub(crate) fn slot(&self) -> (slot: usize)
        ensures
            slot == self@,
    {
        self.slot
    }

    /// Two handles are the same handle exactly when they name the same slot.
    pub proof fn lemma_identity(self, other: NodeRef)
        ensures
            (self == other) <==> (self@ == other@),
    {
    }
}

/// The slot that an optional handle names, if it names one.
pub open spec fn slot_of(link: Option<NodeRef>) -> Option<nat> {
    match link {
        Some(handle) => Some(handle@),
        None => None,
    }
}

/// The slots that a sequence of handles names, in order.
pub open spec fn slots(handles: Seq<NodeRef>) -> Seq<nat> {
    handles.map_values(|handle: NodeRef| handle@)
}

} // verus!
