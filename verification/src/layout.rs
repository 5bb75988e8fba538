//! Which parents are resized, and the commands that do it.

use vstd::prelude::*;
use crate::command::{Command, Orientation};
use crate::tree::{find_parent, Layout, Node, NodeKind};

verus! {

/// Whether a parent is resized, and if not, why.
#[derive(Clone, Copy, Debug, PartialEq, Eq, Structural)]
pub enum Verdict {
    /// A split container or workspace with exactly two children.
    Eligible,
    /// Not a container or workspace, or not split horizontally or vertically.
    NotASplit,
    /// A split, but not of exactly two children.
    NotTwoChildren,
}

/// What to do about a new window.
#[derive(Debug, PartialEq, Eq)]
pub enum Decision {
    /// The window has no parent in the tree: nothing is sent.
    NoParent,
    /// The parent is not eligible, for the reason given: nothing is sent.
    Skip(Verdict),
    /// The parent is eligible: these commands are sent, in this order.
    Resize(Vec<Command>),
}

impl Layout {
    /// The direction of a horizontal or vertical split.
    pub open spec fn orientation(self) -> Option<Orientation> {
        match self {
            Layout::SplitH => Some(Orientation::Horizontal),
            Layout::SplitV => Some(Orientation::Vertical),
            _ => None,
        }
    }
}

impl Node {
    /// A container or workspace that splits horizontally or vertically.
    pub open spec fn is_split(self) -> bool {
        (self.kind == NodeKind::Container || self.kind == NodeKind::Workspace) && (self.layout
            == Layout::SplitH || self.layout == Layout::SplitV)
    }

    /// The verdict on this node as a parent.
    pub open spec fn verdict(self) -> Verdict {
        if !self.is_split() {
            Verdict::NotASplit
        } else if self.nodes@.len() != 2 {
            Verdict::NotTwoChildren
        } else {
            Verdict::Eligible
        }
    }

    /// This node is resized automatically.
    pub open spec fn eligible(self) -> bool {
        self.is_split() && self.nodes@.len() == 2
    }
}

/// The commands for an eligible parent, its new window and the share of the
/// parent that the new window gets: each child in turn is focused and set to
/// split across the parent's direction, then the new window is focused and
/// resized along the parent's direction.
pub open spec fn planned(parent: Node, new_window: i64, percent: u32) -> Seq<Command>
    recommends
        parent.eligible(),
{
    let across = parent.layout.orientation()->0;
    let first = parent.nodes@[0].id;
    let second = parent.nodes@[1].id;
    seq![
        Command::Focus { node: first },
        Command::Split { node: first, orientation: across.opposite() },
        Command::Focus { node: second },
        Command::Split { node: second, orientation: across.opposite() },
        Command::Focus { node: new_window },
        Command::Resize { node: new_window, axis: across.axis(), percent: percent },
    ]
}

/// The decision on a new window, from the tree it appeared in.
pub open spec fn decided(tree: Node, new_window: i64, percent: u32, d: Decision) -> bool {
    match tree.parent_of(new_window) {
        None => d == Decision::NoParent,
        Some(parent) => if parent.eligible() {
            d matches Decision::Resize(commands) && commands@ == planned(
                parent,
                new_window,
                percent,
            )
        } else {
            d == Decision::Skip(parent.verdict())
        },
    }
}

/// Judges a parent, telling the two reasons for leaving it alone apart.
pub fn classify(parent: &Node) -> (v: Verdict)
    ensures
        v == parent.verdict(),
        v == Verdict::Eligible <==> parent.eligible(),
{
    let container = match parent.kind {
        NodeKind::Container => true,
        NodeKind::Workspace => true,
        _ => false,
    };
    let split = match parent.layout {
        Layout::SplitH => true,
        Layout::SplitV => true,
        _ => false,
    };
    if !(container && split) {
        Verdict::NotASplit
    } else if parent.nodes.len() != 2 {
        Verdict::NotTwoChildren
    } else {
        Verdict::Eligible
    }
}

/// Whether a parent is resized automatically.
pub fn is_eligible(parent: &Node) -> (yes: bool)
    ensures
        yes == parent.eligible(),
        parent.layout != Layout::SplitH && parent.layout != Layout::SplitV ==> !yes,
        parent.kind != NodeKind::Container && parent.kind != NodeKind::Workspace ==> !yes,
        parent.nodes@.len() != 2 ==> !yes,
{
    match classify(parent) {
        Verdict::Eligible => true,
        _ => false,
    }
}

/// Plans the commands that resize the new window within an eligible parent.
pub fn plan(parent: &Node, new_window: i64, percent: u32) -> (commands: Vec<Command>)
    requires
        parent.eligible(),
    ensures
        commands@ == planned(*parent, new_window, percent),
{
    let across = match parent.layout {
        Layout::SplitH => Orientation::Horizontal,
        _ => Orientation::Vertical,
    };
    let split = across.flipped();
    let mut commands: Vec<Command> = Vec::new();
    let mut i: usize = 0;
    while i < 2
        invariant
            i <= 2,
            parent.nodes@.len() == 2,
            split == across.opposite(),
            commands@.len() == 2 * i,
            forall|j: int|
                0 <= j < i ==> commands@[2 * j] == (Command::Focus {
                    node: (#[trigger] parent.nodes@[j]).id,
                }) && commands@[2 * j + 1] == (Command::Split {
                    node: parent.nodes@[j].id,
                    orientation: split,
                }),
        decreases 2 - i,
    {
        let child = parent.nodes[i].id;
        commands.push(Command::Focus { node: child });
        commands.push(Command::Split { node: child, orientation: split });
        i += 1;
    }
    commands.push(Command::Focus { node: new_window });
    commands.push(Command::Resize { node: new_window, axis: across.resize_axis(), percent });
    proof {
        assert(commands@[0] == (Command::Focus { node: parent.nodes@[0].id }));
        assert(commands@[2] == (Command::Focus { node: parent.nodes@[1].id }));
        assert(commands@ =~= planned(*parent, new_window, percent));
    }
    commands
}

/// Decides what a new window calls for: finds its parent in the tree, judges
/// the parent, and plans the commands where the parent is eligible.
pub fn handle_child(tree: &Node, new_window: i64, percent: u32) -> (d: Decision)
    ensures
        decided(*tree, new_window, percent, d),
{
    match find_parent(new_window, tree) {
        None => Decision::NoParent,
        Some(parent) => {
            match classify(parent) {
                Verdict::Eligible => Decision::Resize(plan(parent, new_window, percent)),
                other => Decision::Skip(other),
            }
        },
    }
}

/// The plan is a function of the parent's direction, the identifiers of its
/// two children, the new window and the share alone: planning twice for the
/// same of these gives the same commands.
pub proof fn plan_is_determined(a: Node, b: Node, new_window: i64, percent: u32)
    requires
        a.eligible(),
        b.eligible(),
        a.layout == b.layout,
        a.nodes@[0].id == b.nodes@[0].id,
        a.nodes@[1].id == b.nodes@[1].id,
    ensures
        planned(a, new_window, percent) == planned(b, new_window, percent),
{
}

/// Every split that a plan holds is across the parent's direction, and its
/// one resize, the last command, is along it and acts on the new window.
pub proof fn plan_alternates(parent: Node, new_window: i64, percent: u32)
    requires
        parent.eligible(),
    ensures
        planned(parent, new_window, percent).len() == 6,
        forall|i: int|
            0 <= i < 6 ==> ((#[trigger] planned(parent, new_window, percent)[i]) matches Command::Split {
                orientation,
                ..
            } ==> Some(orientation.opposite()) == parent.layout.orientation()),
        planned(parent, new_window, percent)[5] == (Command::Resize {
            node: new_window,
            axis: parent.layout.orientation()->0.axis(),
            percent,
        }),
{
}

} // verus!
