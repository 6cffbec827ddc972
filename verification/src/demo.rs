//! A worked example: two nodes that share one downstream, and a change to
//! the shared node that both of them see.
use vstd::prelude::*;
use crate::model::{admits, fresh, redirected, relinked};
use crate::node::Node;
use crate::pool::NodePool;

verus! {

/// Two nodes of the caller's own, and the pool that holds what they share.
#[derive(Debug)]
pub struct Demo {
    pub pool: NodePool,
    pub node1: Node,
    pub node2: Node,
}

impl Demo {
    /// What the methods of a `Demo` ask of it: the pool is well formed and
    /// the first node's downstream lives in it.
    pub open spec fn wf(&self) -> bool {
        &&& self.pool.wf()
        &&& self.node1@.downstream is Some
        &&& admits(self.pool@, self.node1@)
    }

    /// Makes the nodes labelled 1 to 4. Node 4 is shared first and node 3,
    /// linked to it, second; nodes 1 and 2 both link to the one shared node 3.
    pub fn build() -> (demo: Self)
        ensures
            demo.wf(),
            demo.pool@ == seq![fresh(4), relinked(fresh(3), 0)],
            demo.node1@ == relinked(fresh(1), 1),
            demo.node2@ == relinked(fresh(2), 1),
    {
        let mut pool = NodePool::new();
        let mut node1 = Node::new(1);
        let mut node2 = Node::new(2);
        let mut node3 = Node::new(3);
        let node4 = Node::new(4);

        node3.update_downstream(pool.share(node4));
        node1.update_downstream(pool.share(node3));
        node2.update_downstream(node1.get_downstream().unwrap());
        Demo { pool, node1, node2 }
    }

    /// Shares a new node labelled 5 and links the first node's downstream to
    /// it, through a handle taken from the first node. Neither node of the
    /// caller's is touched, yet both now lead to node 5.
    pub fn reroute(&mut self)
        requires
            old(self).wf(),
        ensures
            final(self).wf(),
            final(self).pool@ == redirected(
                old(self).pool@.push(fresh(5)),
                old(self).node1@.downstream.unwrap(),
                old(self).pool@.len(),
            ),
            final(self).node1 == old(self).node1,
            final(self).node2 == old(self).node2,
    {
        let node5 = Node::new(5);
        let node3 = self.node1.get_downstream().unwrap();
        let shared5 = self.pool.share(node5);
        self.pool.relink(node3, shared5);
    }
}

} // verus!
