use shared_nodes::node::Node;
use shared_nodes::pool::NodePool;

#[test]
fn new_node_has_no_downstream() {
    let node = Node::new(7);
    assert_eq!(node.id(), 7);
    assert_eq!(node.get_downstream(), None);
    let zero = Node::new(0);
    assert_eq!(zero.id(), 0);
    assert!(zero.get_downstream().is_none());
    let big = Node::new(usize::MAX);
    assert_eq!(big.id(), usize::MAX);
    assert!(big.get_downstream().is_none());
}

#[test]
fn labels_need_not_be_unique() {
    let mut pool = NodePool::new();
    let first = pool.share(Node::new(9));
    let second = pool.share(Node::new(9));
    assert_ne!(first, second);
    assert_eq!(pool.node(first).id(), 9);
    assert_eq!(pool.node(second).id(), 9);
    assert_eq!(pool.len(), 2);
}

#[test]
fn update_then_get_gives_the_same_handle() {
    let mut pool = NodePool::new();
    let b = pool.share(Node::new(2));
    let mut a = Node::new(1);
    a.update_downstream(b);
    assert_eq!(a.get_downstream(), Some(b));
    assert_eq!(a.id(), 1);
}

#[test]
fn handle_read_back_names_the_same_node() {
    let mut pool = NodePool::new();
    let b = pool.share(Node::new(2));
    let x = pool.share(Node::new(3));
    let mut a = Node::new(1);
    a.update_downstream(b);
    let read_back = a.get_downstream().unwrap();
    pool.relink(read_back, x);
    assert_eq!(pool.node(b).get_downstream(), Some(x));
    assert_eq!(pool.node(b).id(), 2);
    assert_eq!(pool.node(x).get_downstream(), None);
}

#[test]
fn update_replaces_an_earlier_link() {
    let mut pool = NodePool::new();
    let b = pool.share(Node::new(2));
    let c = pool.share(Node::new(3));
    let mut a = Node::new(1);
    a.update_downstream(b);
    a.update_downstream(c);
    assert_eq!(a.get_downstream(), Some(c));
    assert_eq!(a.id(), 1);
    assert_eq!(pool.node(b).id(), 2);
    assert_eq!(pool.len(), 2);
}

#[test]
fn change_through_one_alias_is_seen_through_the_other() {
    let mut pool = NodePool::new();
    let b = pool.share(Node::new(20));
    let x = pool.share(Node::new(30));
    let mut a = Node::new(10);
    let mut c = Node::new(11);
    a.update_downstream(b);
    c.update_downstream(a.get_downstream().unwrap());
    assert_eq!(c.chain_downstream(&mut pool, x), Ok(()));
    let through_a = a.get_downstream().unwrap();
    assert_eq!(pool.node(through_a).get_downstream(), Some(x));
    let through_c = c.get_downstream().unwrap();
    assert_eq!(through_a, through_c);
    assert_eq!(pool.node(through_c).get_downstream(), Some(x));
}

#[test]
fn chain_without_downstream_is_an_error_and_changes_nothing() {
    let mut pool = NodePool::new();
    let b = pool.share(Node::new(2));
    let mut c = Node::new(3);
    c.update_downstream(b);
    let c = pool.share(c);
    let mut a = Node::new(1);
    let outcome = a.chain_downstream(&mut pool, b);
    assert_eq!(outcome, Err(String::from("No downstream")));
    assert_eq!(a.get_downstream(), None);
    assert_eq!(a.id(), 1);
    assert_eq!(pool.len(), 2);
    assert_eq!(pool.node(b).id(), 2);
    assert_eq!(pool.node(b).get_downstream(), None);
    assert_eq!(pool.node(c).id(), 3);
    assert_eq!(pool.node(c).get_downstream(), Some(b));
}

#[test]
fn chain_with_downstream_links_the_shared_node() {
    let mut pool = NodePool::new();
    let x = pool.share(Node::new(2));
    let target = pool.share(Node::new(3));
    let other = pool.share(Node::new(4));
    let mut a = Node::new(1);
    a.update_downstream(x);
    assert_eq!(a.chain_downstream(&mut pool, target), Ok(()));
    assert_eq!(pool.node(x).get_downstream(), Some(target));
    assert_eq!(pool.node(x).id(), 2);
    assert_eq!(a.get_downstream(), Some(x));
    assert_eq!(a.id(), 1);
    assert_eq!(pool.node(target).get_downstream(), None);
    assert_eq!(pool.node(other).get_downstream(), None);
    assert_eq!(pool.len(), 3);
}

#[test]
fn chain_replaces_the_shared_nodes_earlier_link() {
    let mut pool = NodePool::new();
    let first = pool.share(Node::new(5));
    let second = pool.share(Node::new(6));
    let mut shared = Node::new(2);
    shared.update_downstream(first);
    let x = pool.share(shared);
    let mut a = Node::new(1);
    a.update_downstream(x);
    assert_eq!(a.chain_downstream(&mut pool, second), Ok(()));
    assert_eq!(pool.node(x).get_downstream(), Some(second));
    assert_eq!(pool.node(first).get_downstream(), None);
}

#[test]
fn five_nodes_end_linked_as_expected() {
    let mut pool = NodePool::new();
    let mut node1 = Node::new(1);
    let mut node2 = Node::new(2);
    let mut node3 = Node::new(3);
    let node4 = Node::new(4);

    let shared4 = pool.share(node4);
    node3.update_downstream(shared4);
    let shared3 = pool.share(node3);
    node1.update_downstream(shared3);
    node2.update_downstream(node1.get_downstream().unwrap());

    assert_eq!(pool.node(shared3).get_downstream(), Some(shared4));

    let shared5 = pool.share(Node::new(5));
    let node3 = node1.get_downstream().unwrap();
    pool.relink(node3, shared5);

    assert_eq!(node1.get_downstream(), Some(shared3));
    assert_eq!(pool.node(shared3).id(), 3);
    assert_eq!(pool.node(shared3).get_downstream(), Some(shared5));
    assert_eq!(node2.get_downstream(), Some(shared3));
    assert_eq!(node2.get_downstream(), node1.get_downstream());
    let after3 = pool.node(shared3).get_downstream().unwrap();
    assert_eq!(pool.node(after3).id(), 5);
    assert_eq!(pool.node(after3).get_downstream(), None);
    assert_eq!(pool.node(shared5).get_downstream(), None);
    assert_eq!(pool.node(shared4).id(), 4);
    assert_eq!(pool.node(shared4).get_downstream(), None);
    assert_eq!(pool.len(), 3);
}

#[test]
fn a_cycle_can_be_built() {
    let mut pool = NodePool::new();
    let a = pool.share(Node::new(1));
    let b = pool.share(Node::new(2));
    pool.relink(a, b);
    pool.relink(b, a);
    assert_eq!(pool.node(a).get_downstream(), Some(b));
    assert_eq!(pool.node(b).get_downstream(), Some(a));
    pool.relink(a, a);
    assert_eq!(pool.node(a).get_downstream(), Some(a));
}

#[test]
fn pool_holds_only_its_own_handles() {
    let mut small = NodePool::new();
    let mut large = NodePool::new();
    assert_eq!(small.len(), 0);
    let first = large.share(Node::new(1));
    let second = large.share(Node::new(2));
    assert!(large.holds(first));
    assert!(large.holds(second));
    assert!(!small.holds(first));
    let own = small.share(Node::new(3));
    assert!(small.holds(own));
    assert!(!small.holds(second));
    assert_eq!(own, first);
}

#[test]
fn handles_are_copies_of_a_name_not_of_a_node() {
    let mut pool = NodePool::new();
    let a = pool.share(Node::new(1));
    let b = pool.share(Node::new(2));
    let copy = a;
    let clone = a.clone();
    assert_eq!(copy, a);
    assert_eq!(clone, a);
    pool.relink(copy, b);
    assert_eq!(pool.node(a).get_downstream(), Some(b));
    assert_eq!(pool.node(clone).get_downstream(), Some(b));
    assert_eq!(pool.len(), 2);
}
