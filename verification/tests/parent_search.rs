use ratiosplit::tree::{find_parent, Layout, Node, NodeKind};

fn leaf(id: i64) -> Node {
    Node { id, name: None, kind: NodeKind::Container, layout: Layout::SplitH, nodes: vec![] }
}

fn branch(id: i64, kind: NodeKind, layout: Layout, nodes: Vec<Node>) -> Node {
    Node { id, name: Some(format!("node {}", id)), kind, layout, nodes }
}

fn sample() -> Node {
    branch(
        1,
        NodeKind::Root,
        Layout::SplitH,
        vec![branch(
            2,
            NodeKind::Output,
            Layout::Undefined,
            vec![
                branch(
                    3,
                    NodeKind::Workspace,
                    Layout::SplitH,
                    vec![
                        branch(4, NodeKind::Container, Layout::SplitV, vec![leaf(5), leaf(6)]),
                        leaf(7),
                    ],
                ),
                branch(8, NodeKind::Workspace, Layout::Tabbed, vec![leaf(9)]),
            ],
        )],
    )
}

#[test]
fn absent_identifier_is_not_found() {
    let tree = sample();
    assert!(find_parent(42, &tree).is_none());
    assert!(find_parent(0, &tree).is_none());
    assert!(find_parent(-5, &tree).is_none());
}

#[test]
fn root_has_no_parent() {
    let tree = sample();
    assert!(find_parent(1, &tree).is_none());
}

#[test]
fn leaf_tree_finds_nothing() {
    let tree = leaf(1);
    assert!(find_parent(1, &tree).is_none());
    assert!(find_parent(2, &tree).is_none());
}

#[test]
fn direct_child_of_root_is_found() {
    let tree = sample();
    let parent = find_parent(2, &tree).expect("a parent");
    assert_eq!(parent.id, 1);
    assert_eq!(parent, &tree);
}

#[test]
fn every_node_but_the_root_has_its_parent() {
    let tree = sample();
    let expected: [(i64, i64); 8] =
        [(2, 1), (3, 2), (8, 2), (4, 3), (7, 3), (5, 4), (6, 4), (9, 8)];
    for (child, parent) in expected.iter() {
        let found = find_parent(*child, &tree).expect("a parent");
        assert_eq!(found.id, *parent, "parent of {}", child);
        assert!(found.nodes.iter().any(|n| n.id == *child));
    }
}

#[test]
fn deep_parent_is_returned_whole() {
    let tree = sample();
    let found = find_parent(6, &tree).expect("a parent");
    assert_eq!(
        found,
        &branch(4, NodeKind::Container, Layout::SplitV, vec![leaf(5), leaf(6)])
    );
}

#[test]
fn own_children_are_scanned_before_any_subtree() {
    // Two nodes carry the identifier 9: the second child of the root, and a
    // grandchild below the first child. The root's own children come first.
    let tree = branch(
        1,
        NodeKind::Workspace,
        Layout::SplitH,
        vec![branch(2, NodeKind::Container, Layout::SplitV, vec![leaf(9)]), leaf(9)],
    );
    assert_eq!(find_parent(9, &tree).expect("a parent").id, 1);
}

#[test]
fn first_subtree_with_a_match_wins() {
    let tree = branch(
        1,
        NodeKind::Workspace,
        Layout::SplitH,
        vec![
            branch(2, NodeKind::Container, Layout::SplitV, vec![leaf(7)]),
            branch(3, NodeKind::Container, Layout::SplitV, vec![leaf(9)]),
            branch(4, NodeKind::Container, Layout::SplitV, vec![leaf(9)]),
        ],
    );
    assert_eq!(find_parent(9, &tree).expect("a parent").id, 3);
}

#[test]
fn nesting_of_some_depth_is_searched() {
    let mut tree = leaf(1000);
    let mut id: i64 = 999;
    while id >= 0 {
        tree = branch(id, NodeKind::Container, Layout::SplitH, vec![tree]);
        id -= 1;
    }
    assert_eq!(find_parent(1000, &tree).expect("a parent").id, 999);
    assert!(find_parent(1001, &tree).is_none());
}
