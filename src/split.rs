use vstd::prelude::*;

use crate::text::same_text;

verus! {

/// A split state of a container: the two binary orientations, the two
/// stacked layouts, and the request to flip the last binary orientation.
#[derive(Clone, Copy, Debug, PartialEq, Eq, Structural)]
pub enum I3Split {
    Vertical,
    Horizontal,
    Tabbed,
    Stacked,
    Toggle,
}

/// A token that names no orientation.
#[derive(Clone, Copy, Debug, PartialEq, Eq, Structural)]
pub struct I3SplitParseError;

/// The orientation that a short lowercase token names, if any.
pub open spec fn split_of_token(t: Seq<char>) -> Option<I3Split> {
    if t == "v"@ || t == "vertical"@ {
        Some(I3Split::Vertical)
    } else if t == "h"@ || t == "horizontal"@ {
        Some(I3Split::Horizontal)
    } else if t == "tabbed"@ {
        Some(I3Split::Tabbed)
    } else if t == "stacked"@ || t == "stacking"@ {
        Some(I3Split::Stacked)
    } else if t == "t"@ || t == "toggle"@ {
        Some(I3Split::Toggle)
    } else {
        None
    }
}

impl I3Split {
    /// Parses a token such as `v`, `horizontal`, `tabbed`, `stacking` or `toggle`.
    pub fn from_token(s: &str) -> (r: Result<I3Split, I3SplitParseError>)
        ensures
            match split_of_token(s@) {
                Some(o) => r == Ok::<I3Split, I3SplitParseError>(o),
                None => r is Err,
            },
    {
        if same_text(s, "v") || same_text(s, "vertical") {
            Ok(I3Split::Vertical)
        } else if same_text(s, "h") || same_text(s, "horizontal") {
            Ok(I3Split::Horizontal)
        } else if same_text(s, "tabbed") {
            Ok(I3Split::Tabbed)
        } else if same_text(s, "stacked") || same_text(s, "stacking") {
            Ok(I3Split::Stacked)
        } else if same_text(s, "t") || same_text(s, "toggle") {
            Ok(I3Split::Toggle)
        } else {
            Err(I3SplitParseError)
        }
    }
}

impl std::str::FromStr for I3Split {
    type Err = I3SplitParseError;

    fn from_str(s: &str) -> Result<I3Split, I3SplitParseError> {
        I3Split::from_token(s)
    }
}

/// Every token of the vocabulary parses to its own orientation: no token is
/// caught by the row of another orientation.
pub proof fn lemma_token_table()
    ensures
        split_of_token("v"@) == Some(I3Split::Vertical),
        split_of_token("vertical"@) == Some(I3Split::Vertical),
        split_of_token("h"@) == Some(I3Split::Horizontal),
        split_of_token("horizontal"@) == Some(I3Split::Horizontal),
        split_of_token("tabbed"@) == Some(I3Split::Tabbed),
        split_of_token("stacked"@) == Some(I3Split::Stacked),
        split_of_token("stacking"@) == Some(I3Split::Stacked),
        split_of_token("t"@) == Some(I3Split::Toggle),
        split_of_token("toggle"@) == Some(I3Split::Toggle),
{
    reveal_strlit("v");
    reveal_strlit("vertical");
    reveal_strlit("h");
    reveal_strlit("horizontal");
    reveal_strlit("tabbed");
    reveal_strlit("stacked");
    reveal_strlit("stacking");
    reveal_strlit("t");
    reveal_strlit("toggle");
    assert("h"@[0] != "v"@[0]);
    assert("v"@.len() == 1);
    assert("vertical"@.len() == 8);
    assert("h"@.len() == 1);
    assert("horizontal"@.len() == 10);
    assert("tabbed"@.len() == 6);
    assert("stacked"@.len() == 7);
    assert("stacking"@.len() == 8);
    assert("t"@.len() == 1);
    assert("toggle"@.len() == 6);
    assert("stacking"@[0] != "vertical"@[0]);
    assert("t"@[0] != "v"@[0]);
    assert("t"@[0] != "h"@[0]);
    assert("toggle"@[1] != "tabbed"@[1]);
}

} // verus!
