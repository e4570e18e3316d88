use vstd::prelude::*;

use crate::split::I3Split;
use crate::status::{SplitState, resolve, status_text, next_last};
use crate::tree::{Container, Layout, find_focused_parent, focused_parent, focus_count, lemma_unfocused_tree};

verus! {

/// What to do once the tree has been inspected.
#[derive(Clone, Copy, Debug, PartialEq, Eq, Structural)]
pub enum LayoutAction {
    /// No container has a focused child: emit an empty line.
    Blank,
    /// The parent already stacks its children: report its layout and send nothing.
    Report(I3Split),
    /// Ask the manager to split this way, then report it.
    Split(I3Split),
}

/// The action for the parent of the focused container: a tabbed or stacked
/// parent is reported as it is; otherwise a parent wider than tall is split
/// horizontally and any other one vertically.
pub open spec fn parent_action(p: Container) -> LayoutAction {
    if p.layout == Layout::Tabbed {
        LayoutAction::Report(I3Split::Tabbed)
    } else if p.layout == Layout::Stacked {
        LayoutAction::Report(I3Split::Stacked)
    } else if p.rect.2 > p.rect.3 {
        LayoutAction::Split(I3Split::Horizontal)
    } else {
        LayoutAction::Split(I3Split::Vertical)
    }
}

/// The action for a whole tree snapshot.
pub open spec fn layout_action(tree: Container) -> LayoutAction {
    match focused_parent(tree) {
        Some(p) => parent_action(p),
        None => LayoutAction::Blank,
    }
}

/// The command that an action sends to the manager, if any.
pub open spec fn command_text(a: LayoutAction) -> Option<Seq<char>> {
    match a {
        LayoutAction::Split(I3Split::Horizontal) => Some("split horizontal"@),
        LayoutAction::Split(I3Split::Vertical) => Some("split vertical"@),
        _ => None,
    }
}

/// The status line that an action emits with `last` stored.
pub open spec fn action_text(last: I3Split, a: LayoutAction) -> Seq<char> {
    match a {
        LayoutAction::Blank => Seq::empty(),
        LayoutAction::Report(s) => status_text(resolve(last, s)),
        LayoutAction::Split(s) => status_text(resolve(last, s)),
    }
}

/// The stored orientation after an action is emitted with `last` stored.
pub open spec fn action_last(last: I3Split, a: LayoutAction) -> I3Split {
    match a {
        LayoutAction::Blank => last,
        LayoutAction::Report(s) => next_last(last, s),
        LayoutAction::Split(s) => next_last(last, s),
    }
}

/// Decides, from a snapshot of the container tree, how the focused
/// container's parent is to be split or reported.
pub fn set_layout(tree: &Container) -> (r: LayoutAction)
    ensures
        r == layout_action(*tree),
{
    match find_focused_parent(tree) {
        None => LayoutAction::Blank,
        Some(p) => {
            if p.layout == Layout::Tabbed {
                LayoutAction::Report(I3Split::Tabbed)
            } else if p.layout == Layout::Stacked {
                LayoutAction::Report(I3Split::Stacked)
            } else if p.rect.2 > p.rect.3 {
                LayoutAction::Split(I3Split::Horizontal)
            } else {
                LayoutAction::Split(I3Split::Vertical)
            }
        },
    }
}

impl LayoutAction {
    /// The command to send to the manager before the status is emitted.
    pub fn command(&self) -> (r: Option<&'static str>)
        ensures
            match command_text(*self) {
                Some(t) => r is Some && r->0@ == t,
                None => r is None,
            },
    {
        match self {
            LayoutAction::Split(I3Split::Horizontal) => Some("split horizontal"),
            LayoutAction::Split(I3Split::Vertical) => Some("split vertical"),
            _ => None,
        }
    }
}

/// Emits the status line of an action: an empty line for `Blank`, else the
/// status of its orientation, recorded as `SplitState::print_status` does.
pub fn layout_status(state: &mut SplitState, action: LayoutAction) -> (line: &'static str)
    ensures
        line@ == action_text(old(state).last(), action),
        final(state).last() == action_last(old(state).last(), action),
{
    match action {
        LayoutAction::Blank => {
            proof {
                reveal_strlit("");
            }
            ""
        },
        LayoutAction::Report(s) => state.print_status(s),
        LayoutAction::Split(s) => state.print_status(s),
    }
}

/// A tree without a focused container yields an empty line, no command and
/// no change to the stored orientation.
pub proof fn lemma_unfocused_tree_blank(tree: Container, last: I3Split)
    requires
        focus_count(tree) == 0,
    ensures
        layout_action(tree) == LayoutAction::Blank,
        command_text(layout_action(tree)) is None,
        action_text(last, layout_action(tree)) == Seq::<char>::empty(),
        action_last(last, layout_action(tree)) == last,
{
    lemma_unfocused_tree(tree);
}

} // verus!
