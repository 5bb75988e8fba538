//! The window tree snapshot and the search for a window's parent.

use vstd::prelude::*;

verus! {

/// What a node of the window tree is.
#[derive(Clone, Copy, Debug, PartialEq, Eq, Structural)]
pub enum NodeKind {
    Root,
    Output,
    Workspace,
    Container,
    FloatingContainer,
    Window,
    DockArea,
    Unknown,
}

/// How a node lays out its children.
#[derive(Clone, Copy, Debug, PartialEq, Eq, Structural)]
pub enum Layout {
    SplitH,
    SplitV,
    Stacked,
    Tabbed,
    Undefined,
}

/// One node of the window tree, owning its children in on-screen order.
#[derive(Debug, PartialEq, Eq)]
pub struct Node {
    pub id: i64,
    pub name: Option<String>,
    pub kind: NodeKind,
    pub layout: Layout,
    pub nodes: Vec<Node>,
}

impl Node {
    /// Some direct child of this node carries the identifier `id`.
    pub open spec fn has_child(self, id: i64) -> bool {
        exists|i: int| 0 <= i < self.nodes@.len() && #[trigger] self.nodes@[i].id == id
    }

    /// The node reached from this one by following `path`, a list of child
    /// positions; `None` where the path leaves the tree.
    pub open spec fn descendant(self, path: Seq<int>) -> Option<Node>
        decreases path.len(),
    {
        if path.len() == 0 {
            Some(self)
        } else {
            match self.descendant(path.drop_last()) {
                Some(n) => if 0 <= path.last() < n.nodes@.len() {
                    Some(n.nodes@[path.last()])
                } else {
                    None
                },
                None => None,
            }
        }
    }

    /// Some node of the tree rooted here, the root included, carries `id`.
    pub open spec fn contains_id(self, id: i64) -> bool {
        exists|path: Seq<int>| (#[trigger] self.descendant(path)) matches Some(n) && n.id == id
    }

    /// No two places of the tree rooted here carry the same identifier.
    pub open spec fn ids_unique(self) -> bool {
        forall|p: Seq<int>, q: Seq<int>|
            (#[trigger] self.descendant(p)) matches Some(a) && (#[trigger] self.descendant(q)) matches Some(b)
                && a.id == b.id ==> p == q
    }

    /// The first parent of `id` found in the subtrees of the children at
    /// positions `from` and later, in order.
    pub open spec fn parent_in_children(self, id: i64, from: int) -> Option<Node>
        decreases self, self.nodes@.len() - from,
    {
        if 0 <= from < self.nodes@.len() {
            match self.nodes@[from].parent_of(id) {
                Some(p) => Some(p),
                None => self.parent_in_children(id, from + 1),
            }
        } else {
            None
        }
    }

    /// The parent of `id` in the tree rooted here: this node where one of its
    /// children carries `id`, otherwise the first one found below its
    /// children, taken in order.
    pub open spec fn parent_of(self, id: i64) -> Option<Node>
        decreases self, self.nodes@.len() + 1,
    {
        if self.has_child(id) {
            Some(self)
        } else {
            self.parent_in_children(id, 0)
        }
    }
}

/// Finds the direct parent of the node `child_id` in the tree under `node`.
///
/// The search is depth first and recursive, so the call stack grows with the
/// nesting depth of the tree.
pub fn find_parent(child_id: i64, node: &Node) -> (r: Option<&Node>)
    ensures
        match r {
            Some(p) => node.parent_of(child_id) == Some(*p),
            None => node.parent_of(child_id) is None,
        },
        r matches Some(p) ==> p.has_child(child_id) && exists|path: Seq<int>|
            #[trigger] node.descendant(path) == Some(*p),
        !node.contains_id(child_id) ==> r is None,
    decreases *node,
{
    let n = node.nodes.len();
    let mut i: usize = 0;
    while i < n
        invariant
            n == node.nodes@.len(),
            i <= n,
            forall|j: int| 0 <= j < i ==> (#[trigger] node.nodes@[j].id) != child_id,
        decreases n - i,
    {
        if node.nodes[i].id == child_id {
            proof {
                parent_found_is_in_tree(*node, child_id);
                if !node.contains_id(child_id) {
                    absent_id_has_no_parent(*node, child_id);
                }
            }
            return Some(node);
        }
        i += 1;
    }
    let mut k: usize = 0;
    while k < n
        invariant
            n == node.nodes@.len(),
            k <= n,
            !node.has_child(child_id),
            node.parent_in_children(child_id, k as int) == node.parent_in_children(child_id, 0),
        decreases n - k,
    {
        let found = find_parent(child_id, &node.nodes[k]);
        if found.is_some() {
            proof {
                parent_found_is_in_tree(*node, child_id);
                if !node.contains_id(child_id) {
                    absent_id_has_no_parent(*node, child_id);
                }
            }
            return found;
        }
        k += 1;
    }
    None
}

/// Following a non-empty path from `node` is following its tail from the
/// child that its head names.
proof fn descendant_by_head(node: Node, path: Seq<int>)
    requires
        path.len() > 0,
    ensures
        node.descendant(path) == (if 0 <= path[0] < node.nodes@.len() {
            node.nodes@[path[0]].descendant(path.skip(1))
        } else {
            None
        }),
    decreases path.len(),
{
    let front = path.drop_last();
    let tail = path.skip(1);
    if path.len() == 1 {
        assert(node.descendant(front) == Some(node));
        if 0 <= path[0] < node.nodes@.len() {
            assert(node.nodes@[path[0]].descendant(tail) == Some(node.nodes@[path[0]]));
        }
    } else {
        descendant_by_head(node, front);
        assert(front.skip(1) =~= tail.drop_last());
    }
}

/// Where the search below the children from `from` on succeeds, it returns
/// what the search below one of those children returns.
proof fn child_that_answers(node: Node, id: i64, from: int) -> (k: int)
    requires
        0 <= from,
        node.parent_in_children(id, from) is Some,
    ensures
        from <= k < node.nodes@.len(),
        node.nodes@[k].parent_of(id) == node.parent_in_children(id, from),
    decreases node.nodes@.len() - from,
{
    if node.nodes@[from].parent_of(id) is Some {
        from
    } else {
        child_that_answers(node, id, from + 1)
    }
}

/// Where the search below the child at `k` succeeds, so does the search below
/// the children from any earlier position on.
proof fn children_search_succeeds(node: Node, id: i64, from: int, k: int)
    requires
        0 <= from <= k < node.nodes@.len(),
        node.nodes@[k].parent_of(id) is Some,
    ensures
        node.parent_in_children(id, from) is Some,
    decreases k - from,
{
    if from < k && node.nodes@[from].parent_of(id) is None {
        children_search_succeeds(node, id, from + 1, k);
    }
}

/// A path to the node that the search returns.
proof fn path_to_parent(tree: Node, id: i64) -> (path: Seq<int>)
    requires
        tree.parent_of(id) is Some,
    ensures
        tree.descendant(path) == tree.parent_of(id),
        tree.parent_of(id)->0.has_child(id),
    decreases tree,
{
    if tree.has_child(id) {
        Seq::empty()
    } else {
        let k = child_that_answers(tree, id, 0);
        let below = path_to_parent(tree.nodes@[k], id);
        let path = seq![k] + below;
        descendant_by_head(tree, path);
        assert(path.skip(1) =~= below);
        path
    }
}

/// The search succeeds on every tree that holds a node with a child `id`.
proof fn search_succeeds(tree: Node, path: Seq<int>, id: i64)
    requires
        tree.descendant(path) matches Some(p) && p.has_child(id),
    ensures
        tree.parent_of(id) is Some,
    decreases path.len(),
{
    if path.len() > 0 {
        descendant_by_head(tree, path);
        search_succeeds(tree.nodes@[path[0]], path.skip(1), id);
        if !tree.has_child(id) {
            children_search_succeeds(tree, id, 0, path[0]);
        }
    }
}

/// Whatever the search returns is a node of the tree, and one of that node's
/// children carries the identifier searched for.
pub proof fn parent_found_is_in_tree(tree: Node, id: i64)
    requires
        tree.parent_of(id) is Some,
    ensures
        tree.parent_of(id)->0.has_child(id),
        exists|path: Seq<int>| #[trigger] tree.descendant(path) == tree.parent_of(id),
{
    let path = path_to_parent(tree, id);
    assert(tree.descendant(path) == tree.parent_of(id));
}

/// The search finds nothing exactly when no node of the tree has a child
/// that carries the identifier.
pub proof fn parent_found_iff_some_node_has_child(tree: Node, id: i64)
    ensures
        tree.parent_of(id) is Some <==> exists|path: Seq<int>|
            (#[trigger] tree.descendant(path)) matches Some(p) && p.has_child(id),
{
    if tree.parent_of(id) is Some {
        let path = path_to_parent(tree, id);
        assert(tree.descendant(path) matches Some(p) && p.has_child(id));
    }
    if exists|path: Seq<int>| (#[trigger] tree.descendant(path)) matches Some(p) && p.has_child(id) {
        let path = choose|path: Seq<int>|
            (#[trigger] tree.descendant(path)) matches Some(p) && p.has_child(id);
        search_succeeds(tree, path, id);
    }
}

/// An identifier that no node of the tree carries has no parent in it.
pub proof fn absent_id_has_no_parent(tree: Node, id: i64)
    requires
        !tree.contains_id(id),
    ensures
        tree.parent_of(id) is None,
{
    if tree.parent_of(id) is Some {
        let path = path_to_parent(tree, id);
        let parent = tree.parent_of(id)->0;
        let i = choose|i: int| 0 <= i < parent.nodes@.len() && #[trigger] parent.nodes@[i].id == id;
        let longer = path.push(i);
        assert(longer.drop_last() =~= path);
        assert(tree.descendant(longer) == Some(parent.nodes@[i]));
        assert(tree.contains_id(id));
    }
}

/// The root of a tree has no parent in it, where identifiers are unique.
pub proof fn root_has_no_parent(tree: Node)
    requires
        tree.ids_unique(),
    ensures
        tree.parent_of(tree.id) is None,
{
    if tree.parent_of(tree.id) is Some {
        let path = path_to_parent(tree, tree.id);
        let parent = tree.parent_of(tree.id)->0;
        let i = choose|i: int| 0 <= i < parent.nodes@.len() && #[trigger] parent.nodes@[i].id == tree.id;
        let longer = path.push(i);
        assert(longer.drop_last() =~= path);
        assert(tree.descendant(longer) == Some(parent.nodes@[i]));
        assert(tree.descendant(Seq::empty()) == Some(tree));
        assert(longer.len() > 0);
    }
}

/// In a tree of unique identifiers, the search for a child of the node at
/// `path` returns exactly that node.
pub proof fn parent_of_child_is_its_parent(tree: Node, path: Seq<int>, id: i64)
    requires
        tree.ids_unique(),
        tree.descendant(path) matches Some(p) && p.has_child(id),
    ensures
        tree.parent_of(id) == tree.descendant(path),
{
    search_succeeds(tree, path, id);
    let found_path = path_to_parent(tree, id);
    let found = tree.parent_of(id)->0;
    let given = tree.descendant(path)->0;
    let i = choose|i: int| 0 <= i < given.nodes@.len() && #[trigger] given.nodes@[i].id == id;
    let j = choose|j: int| 0 <= j < found.nodes@.len() && #[trigger] found.nodes@[j].id == id;
    let a = path.push(i);
    let b = found_path.push(j);
    assert(a.drop_last() =~= path);
    assert(b.drop_last() =~= found_path);
    assert(tree.descendant(a) == Some(given.nodes@[i]));
    assert(tree.descendant(b) == Some(found.nodes@[j]));
    assert(a == b);
}

} // verus!
