use vstd::prelude::*;

verus! {

/// How a container arranges its children.
#[derive(Clone, Copy, Debug, PartialEq, Eq, Structural)]
pub enum Layout {
    SplitH,
    SplitV,
    Stacked,
    Tabbed,
    DockArea,
    Output,
    Unknown,
}

/// One node of a snapshot of the manager's container tree.
pub struct Container {
    /// The child containers, in order.
    pub nodes: Vec<Container>,
    /// Whether this container has the input focus.
    pub focused: bool,
    /// How this container arranges its children.
    pub layout: Layout,
    /// The container's geometry: `(x, y, width, height)`.
    pub rect: (i32, i32, i32, i32),
}

/// Whether one of the direct children of `n` is focused.
pub open spec fn has_focused_child(n: Container) -> bool {
    exists|i: int| 0 <= i < n.nodes@.len() && (#[trigger] n.nodes@[i]).focused
}

/// The first container, in depth-first order, whose direct children include
/// a focused one: `n` itself when it qualifies, else the first result found
/// among its children, taken in order.
pub open spec fn focused_parent(n: Container) -> Option<Container>
    decreases n, n.nodes@.len() + 1,
{
    if has_focused_child(n) {
        Some(n)
    } else {
        focused_parent_from(n, 0)
    }
}

/// The first result of `focused_parent` among the children of `n` from index `i` on.
pub open spec fn focused_parent_from(n: Container, i: int) -> Option<Container>
    decreases n, n.nodes@.len() - i,
{
    if 0 <= i < n.nodes@.len() {
        match focused_parent(n.nodes@[i]) {
            Some(p) => Some(p),
            None => focused_parent_from(n, i + 1),
        }
    } else {
        None
    }
}

/// Finds the container whose direct children include the focused one,
/// searching depth first and stopping at the first match.
pub fn find_focused_parent(node: &Container) -> (r: Option<&Container>)
    ensures
        match r {
            Some(p) => focused_parent(*node) == Some(*p),
            None => focused_parent(*node) is None,
        },
    decreases node,
{
    let n = node.nodes.len();
    let mut i: usize = 0;
    while i < n
        invariant
            n == node.nodes@.len(),
            i <= n,
            forall|j: int| 0 <= j < i ==> !(#[trigger] node.nodes@[j]).focused,
        decreases n - i,
    {
        if node.nodes[i].focused {
            return Some(node);
        }
        i = i + 1;
    }
    let mut k: usize = 0;
    while k < n
        invariant
            n == node.nodes@.len(),
            k <= n,
            !has_focused_child(*node),
            focused_parent(*node) == focused_parent_from(*node, k as int),
        decreases n - k,
    {
        let child = &node.nodes[k];
        assert(decreases_to!(*node => node.nodes@[k as int]));
        match find_focused_parent(child) {
            Some(p) => {
                return Some(p);
            },
            None => {
                k = k + 1;
            },
        }
    }
    None
}

/// Whether `p` is a container of the tree rooted at `n`.
pub open spec fn contains(n: Container, p: Container) -> bool
    decreases n,
{
    n == p || exists|i: int| 0 <= i < n.nodes@.len() && contains(#[trigger] n.nodes@[i], p)
}

/// The number of focused containers in the tree rooted at `n`.
pub open spec fn focus_count(n: Container) -> nat
    decreases n, n.nodes@.len() + 1,
{
    (if n.focused {
        1nat
    } else {
        0nat
    }) + focus_count_from(n, 0)
}

/// The number of focused containers under the children of `n` from index `i` on.
pub open spec fn focus_count_from(n: Container, i: int) -> nat
    decreases n, n.nodes@.len() - i,
{
    if 0 <= i < n.nodes@.len() {
        focus_count(n.nodes@[i]) + focus_count_from(n, i + 1)
    } else {
        0
    }
}

/// The number of containers in the tree rooted at `n` that have a focused
/// direct child.
pub open spec fn parent_count(n: Container) -> nat
    decreases n, n.nodes@.len() + 1,
{
    (if has_focused_child(n) {
        1nat
    } else {
        0nat
    }) + parent_count_from(n, 0)
}

/// The number of containers with a focused direct child under the children
/// of `n` from index `i` on.
pub open spec fn parent_count_from(n: Container, i: int) -> nat
    decreases n, n.nodes@.len() - i,
{
    if 0 <= i < n.nodes@.len() {
        parent_count(n.nodes@[i]) + parent_count_from(n, i + 1)
    } else {
        0
    }
}

/// Each child's count is part of the sum over the children from `j` on, and
/// so are two distinct children's counts together.
proof fn lemma_focus_count_parts(n: Container, j: int, i: int, k: int)
    requires
        0 <= j <= i < n.nodes@.len(),
        k == i || (i < k < n.nodes@.len()),
    ensures
        focus_count(n.nodes@[i]) <= focus_count_from(n, j),
        k != i ==> focus_count(n.nodes@[i]) + focus_count(n.nodes@[k]) <= focus_count_from(n, j),
    decreases k - j,
{
    if j < i {
        lemma_focus_count_parts(n, j + 1, i, k);
    } else if k != i {
        lemma_focus_count_parts(n, i + 1, k, k);
    }
}

/// A container is counted among the focused ones of its own tree.
proof fn lemma_focused_counted(n: Container)
    ensures
        n.focused ==> focus_count(n) >= 1,
{
}

/// A positive sum over the children from `i` on has a positive part.
proof fn lemma_focus_count_witness(n: Container, i: int) -> (k: int)
    requires
        0 <= i,
        focus_count_from(n, i) > 0,
    ensures
        i <= k < n.nodes@.len(),
        focus_count(n.nodes@[k]) > 0,
    decreases n.nodes@.len() - i,
{
    if focus_count(n.nodes@[i]) > 0 {
        i
    } else {
        lemma_focus_count_witness(n, i + 1)
    }
}

/// Each container with a focused child is told apart by that child, so there
/// are no more of them than focused containers below the root.
proof fn lemma_parents_bounded(n: Container)
    ensures
        parent_count(n) + (if n.focused {
            1nat
        } else {
            0nat
        }) <= focus_count(n),
    decreases n, n.nodes@.len() + 1,
{
    lemma_parents_bounded_from(n, 0);
}

proof fn lemma_parents_bounded_from(n: Container, i: int)
    requires
        0 <= i,
    ensures
        parent_count_from(n, i) + (if exists|j: int|
            i <= j < n.nodes@.len() && (#[trigger] n.nodes@[j]).focused {
            1nat
        } else {
            0nat
        }) <= focus_count_from(n, i),
    decreases n, n.nodes@.len() - i,
{
    if i < n.nodes@.len() {
        lemma_parents_bounded(n.nodes@[i]);
        lemma_parents_bounded_from(n, i + 1);
        if exists|j: int| i <= j < n.nodes@.len() && (#[trigger] n.nodes@[j]).focused {
            let j = choose|j: int| i <= j < n.nodes@.len() && (#[trigger] n.nodes@[j]).focused;
            if j != i {
                assert(i + 1 <= j < n.nodes@.len() && n.nodes@[j].focused);
            }
        }
    }
}

/// Without focus in the tree there is no container with a focused child.
proof fn lemma_no_focus(n: Container)
    requires
        focus_count(n) == 0,
    ensures
        focused_parent(n) is None,
    decreases n, n.nodes@.len() + 1,
{
    if has_focused_child(n) {
        let i = choose|i: int| 0 <= i < n.nodes@.len() && (#[trigger] n.nodes@[i]).focused;
        lemma_focus_count_parts(n, 0, i, i);
        lemma_focused_counted(n.nodes@[i]);
    }
    lemma_no_focus_from(n, 0);
}

proof fn lemma_no_focus_from(n: Container, i: int)
    requires
        0 <= i,
        focus_count_from(n, i) == 0,
    ensures
        focused_parent_from(n, i) is None,
    decreases n, n.nodes@.len() - i,
{
    if i < n.nodes@.len() {
        lemma_no_focus(n.nodes@[i]);
        lemma_no_focus_from(n, i + 1);
    }
}

/// The search passes over children in which it finds nothing.
proof fn lemma_skip_empty(n: Container, i: int, k: int)
    requires
        0 <= i <= k <= n.nodes@.len(),
        forall|j: int| i <= j < k ==> (#[trigger] focused_parent(n.nodes@[j])) is None,
    ensures
        focused_parent_from(n, i) == focused_parent_from(n, k),
    decreases k - i,
{
    if i < k {
        assert(focused_parent(n.nodes@[i]) is None);
        lemma_skip_empty(n, i + 1, k);
    }
}

/// A tree with no focused container has no focused parent.
pub proof fn lemma_unfocused_tree(tree: Container)
    requires
        focus_count(tree) == 0,
    ensures
        focused_parent(tree) is None,
{
    lemma_no_focus(tree);
}

/// In a tree with a single focused container below the root, the search
/// finds the innermost container with a focused direct child: the focused
/// container's own parent, below which no container has a focused child.
pub proof fn lemma_single_focus(tree: Container)
    requires
        focus_count(tree) == 1,
        !tree.focused,
    ensures
        focused_parent(tree) is Some,
        contains(tree, focused_parent(tree)->0),
        has_focused_child(focused_parent(tree)->0),
        forall|i: int|
            0 <= i < focused_parent(tree)->0.nodes@.len() ==> parent_count(
                #[trigger] focused_parent(tree)->0.nodes@[i],
            ) == 0,
    decreases tree, tree.nodes@.len() + 1,
{
    let n = tree;
    if has_focused_child(n) {
        let k = choose|k: int| 0 <= k < n.nodes@.len() && (#[trigger] n.nodes@[k]).focused;
        lemma_focused_counted(n.nodes@[k]);
        assert forall|i: int| 0 <= i < n.nodes@.len() implies parent_count(
            #[trigger] n.nodes@[i],
        ) == 0 by {
            lemma_parents_bounded(n.nodes@[i]);
            if i < k {
                lemma_focus_count_parts(n, 0, i, k);
            } else if k < i {
                lemma_focus_count_parts(n, 0, k, i);
            } else {
                lemma_focus_count_parts(n, 0, i, i);
            }
        }
    } else {
        let k = lemma_focus_count_witness(n, 0);
        assert forall|j: int| 0 <= j < k implies (#[trigger] focused_parent(n.nodes@[j])) is None by {
            lemma_focus_count_parts(n, 0, j, k);
            lemma_no_focus(n.nodes@[j]);
        }
        lemma_skip_empty(n, 0, k);
        lemma_focus_count_parts(n, 0, k, k);
        assert(!n.nodes@[k].focused);
        lemma_single_focus(n.nodes@[k]);
        assert(contains(n.nodes@[k], focused_parent(n)->0));
    }
}

} // verus!
