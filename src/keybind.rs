use vstd::prelude::*;

use crate::split::{I3Split, split_of_token};
use crate::status::{SplitState, resolve, status_text, next_last};
use crate::text::{same_text, has_prefix};

verus! {

/// What a key binding's command asks of the status helper.
#[derive(Clone, Copy, Debug, PartialEq, Eq, Structural)]
pub enum KeybindAction {
    /// Nothing to report.
    Ignore,
    /// Emit the status of this orientation; the manager has already acted.
    Emit(I3Split),
    /// The focus moved: decide again from a fresh tree.
    Relayout,
}

/// The outcome of handling a key binding.
#[derive(Clone, Copy, Debug, PartialEq, Eq)]
pub enum KeybindOutcome {
    /// No output.
    Nothing,
    /// This status line is to be emitted.
    Line(&'static str),
    /// The tree-driven decision is to be run again.
    Relayout,
}

/// The index of the first space in `s` at or after `i`, or the length of `s`.
pub open spec fn space_from(s: Seq<char>, i: int) -> int
    decreases s.len() - i,
{
    if i < 0 || i >= s.len() {
        s.len() as int
    } else if s[i] == ' ' {
        i
    } else {
        space_from(s, i + 1)
    }
}

/// The text of `s` before its first space.
pub open spec fn first_token(s: Seq<char>) -> Seq<char> {
    s.subrange(0, space_from(s, 0))
}

/// The text of `s` after its first space, if it has one.
pub open spec fn after_first(s: Seq<char>) -> Option<Seq<char>> {
    if space_from(s, 0) < s.len() {
        Some(s.subrange(space_from(s, 0) + 1, s.len() as int))
    } else {
        None
    }
}

/// The second space-separated token of `s`, if `s` has a space.
pub open spec fn second_token(s: Seq<char>) -> Option<Seq<char>> {
    match after_first(s) {
        Some(rest) => Some(first_token(rest)),
        None => None,
    }
}

/// The orientation token of a `layout` argument: the last character of a
/// `split...` form, the whole argument otherwise.
pub open spec fn layout_token(t: Seq<char>) -> Seq<char> {
    if "split"@.len() <= t.len() && t.subrange(0, "split"@.len() as int) == "split"@ {
        seq![t.last()]
    } else {
        t
    }
}

/// The status to emit for an orientation token, if it names one.
pub open spec fn emit_token(t: Option<Seq<char>>) -> KeybindAction {
    match t {
        Some(t) => match split_of_token(t) {
            Some(o) => KeybindAction::Emit(o),
            None => KeybindAction::Ignore,
        },
        None => KeybindAction::Ignore,
    }
}

/// What the command string of a key binding asks for.
pub open spec fn keybind_action(cmd: Seq<char>) -> KeybindAction {
    let verb = first_token(cmd);
    if verb == "split"@ {
        emit_token(second_token(cmd))
    } else if verb == "move"@ || verb == "focus"@ || verb == "workspace"@ {
        KeybindAction::Relayout
    } else if verb == "layout"@ {
        match second_token(cmd) {
            Some(t) => emit_token(Some(layout_token(t))),
            None => KeybindAction::Ignore,
        }
    } else {
        KeybindAction::Ignore
    }
}

/// Finds the first space of `s`, or its length when it has none.
fn find_space(s: &str) -> (r: usize)
    ensures
        r == space_from(s@, 0),
        r <= s@.len(),
{
    let n = s.unicode_len();
    let mut i: usize = 0;
    while i < n
        invariant
            n == s@.len(),
            i <= n,
            space_from(s@, 0) == space_from(s@, i as int),
        decreases n - i,
    {
        if s.get_char(i) == ' ' {
            return i;
        }
        i = i + 1;
    }
    i
}

/// Splits `s` at its first space: the text before it and, if there is a
/// space, the text after it.
fn split_first(s: &str) -> (r: (&str, Option<&str>))
    ensures
        r.0@ == first_token(s@),
        match after_first(s@) {
            Some(rest) => r.1 is Some && r.1->0@ == rest,
            None => r.1 is None,
        },
{
    let e = find_space(s);
    let n = s.unicode_len();
    let head = s.substring_char(0, e);
    if e < n {
        (head, Some(s.substring_char(e + 1, n)))
    } else {
        (head, None)
    }
}

/// Reads the orientation from the argument of a `layout` command.
fn layout_split(arg: &str) -> (r: KeybindAction)
    ensures
        r == emit_token(Some(layout_token(arg@))),
{
    let parsed = if has_prefix(arg, "split") {
        proof {
            reveal_strlit("split");
        }
        let n = arg.unicode_len();
        let last = arg.substring_char(n - 1, n);
        assert(last@ == seq![arg@.last()]);
        I3Split::from_token(last)
    } else {
        I3Split::from_token(arg)
    };
    match parsed {
        Ok(o) => KeybindAction::Emit(o),
        Err(_) => KeybindAction::Ignore,
    }
}

/// Reads what a key binding's command string asks for.
pub fn parse_keybind(command: &str) -> (r: KeybindAction)
    ensures
        r == keybind_action(command@),
{
    let (verb, rest) = split_first(command);
    if same_text(verb, "split") {
        match rest {
            Some(rest) => {
                let (arg, _) = split_first(rest);
                match I3Split::from_token(arg) {
                    Ok(o) => KeybindAction::Emit(o),
                    Err(_) => KeybindAction::Ignore,
                }
            },
            None => KeybindAction::Ignore,
        }
    } else if same_text(verb, "move") || same_text(verb, "focus") || same_text(verb, "workspace") {
        KeybindAction::Relayout
    } else if same_text(verb, "layout") {
        match rest {
            Some(rest) => {
                let (arg, _) = split_first(rest);
                layout_split(arg)
            },
            None => KeybindAction::Ignore,
        }
    } else {
        KeybindAction::Ignore
    }
}

/// Handles a key binding's command string: emits the status it names, asks
/// for a fresh tree-driven decision, or does nothing.
pub fn handle_keybind(state: &mut SplitState, command: &str) -> (r: KeybindOutcome)
    ensures
        match keybind_action(command@) {
            KeybindAction::Emit(o) => r matches KeybindOutcome::Line(line) && line@ == status_text(
                resolve(old(state).last(), o),
            ) && final(state).last() == next_last(old(state).last(), o),
            KeybindAction::Relayout => r == KeybindOutcome::Relayout && final(state).last()
                == old(state).last(),
            KeybindAction::Ignore => r == KeybindOutcome::Nothing && final(state).last()
                == old(state).last(),
        },
{
    match parse_keybind(command) {
        KeybindAction::Emit(o) => KeybindOutcome::Line(state.print_status(o)),
        KeybindAction::Relayout => KeybindOutcome::Relayout,
        KeybindAction::Ignore => KeybindOutcome::Nothing,
    }
}

} // verus!
