use vstd::prelude::*;

use crate::split::I3Split;

verus! {

/// The orientation that `split` stands for when the last binary orientation
/// emitted was `last`: a toggle flips `last`, any other split stands for itself.
pub open spec fn resolve(last: I3Split, split: I3Split) -> I3Split {
    match split {
        I3Split::Toggle => if last == I3Split::Vertical {
            I3Split::Horizontal
        } else {
            I3Split::Vertical
        },
        _ => split,
    }
}

/// The status line that reports a resolved orientation.
pub open spec fn status_text(split: I3Split) -> Seq<char> {
    match split {
        I3Split::Tabbed => "t"@,
        I3Split::Stacked => "s"@,
        I3Split::Vertical => " ↓"@,
        I3Split::Horizontal => "→"@,
        I3Split::Toggle => Seq::empty(),
    }
}

/// The last binary orientation after `split` is emitted with `last` stored.
pub open spec fn next_last(last: I3Split, split: I3Split) -> I3Split {
    match resolve(last, split) {
        I3Split::Vertical => I3Split::Vertical,
        I3Split::Horizontal => I3Split::Horizontal,
        _ => last,
    }
}

/// Whether a split is one of the two binary orientations.
pub open spec fn is_binary(split: I3Split) -> bool {
    split == I3Split::Vertical || split == I3Split::Horizontal
}

/// The session's memory of the last binary orientation emitted, used to
/// resolve toggles. It only ever holds `Vertical` or `Horizontal`.
pub struct SplitState {
    previous: I3Split,
}

impl SplitState {
    #[verifier::type_invariant]
    spec fn binary(self) -> bool {
        is_binary(self.previous)
    }

    /// The last binary orientation emitted.
    pub closed spec fn last(self) -> I3Split {
        self.previous
    }

    /// A fresh session: the last orientation is `Horizontal`.
    pub fn new() -> (r: SplitState)
        ensures
            r.last() == I3Split::Horizontal,
    {
        SplitState { previous: I3Split::Horizontal }
    }

    /// The last binary orientation emitted.
    pub fn previous(&self) -> (r: I3Split)
        ensures
            r == self.last(),
            is_binary(r),
    {
        proof {
            use_type_invariant(self);
        }
        self.previous
    }

    /// Emits the status of `split`: returns the one line that reports it and
    /// records it when it resolves to a binary orientation.
    pub fn print_status(&mut self, split: I3Split) -> (line: &'static str)
        ensures
            is_binary(old(self).last()),
            line@ == status_text(resolve(old(self).last(), split)),
            line@.len() > 0,
            final(self).last() == next_last(old(self).last(), split),
            is_binary(final(self).last()),
        decreases
            if split is Toggle {
                1nat
            } else {
                0nat
            },
    {
        proof {
            use_type_invariant(&*self);
            reveal_strlit("t");
            reveal_strlit("s");
            reveal_strlit(" ↓");
            reveal_strlit("→");
        }
        match split {
            I3Split::Tabbed => "t",
            I3Split::Stacked => "s",
            I3Split::Vertical => {
                self.previous = I3Split::Vertical;
                " ↓"
            },
            I3Split::Horizontal => {
                self.previous = I3Split::Horizontal;
                "→"
            },
            I3Split::Toggle => {
                if self.previous == I3Split::Vertical {
                    self.print_status(I3Split::Horizontal)
                } else {
                    self.print_status(I3Split::Vertical)
                }
            },
        }
    }
}

/// Toggling twice from either binary orientation comes back to it, and each
/// of the two toggles emits a line of its own.
pub proof fn lemma_toggle_twice(start: I3Split)
    requires
        is_binary(start),
    ensures
        next_last(start, I3Split::Toggle) != start,
        next_last(next_last(start, I3Split::Toggle), I3Split::Toggle) == start,
        status_text(resolve(start, I3Split::Toggle)).len() > 0,
        status_text(resolve(next_last(start, I3Split::Toggle), I3Split::Toggle)).len() > 0,
{
    reveal_strlit(" ↓");
    reveal_strlit("→");
}

} // verus!
