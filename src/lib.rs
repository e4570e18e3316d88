//! Split-orientation decisions for a tiling window manager's status helper.
//!
//! The library decides, from a snapshot of the manager's container tree or
//! from the command string of a key binding, which split orientation the
//! focused container should use, and which status line reports it.
mod text;
pub mod split;
pub mod status;
pub mod tree;
pub mod decide;
pub mod keybind;

pub use split::{I3Split, I3SplitParseError};
pub use status::SplitState;
pub use tree::{Container, Layout};
pub use decide::{LayoutAction, set_layout, layout_status};
pub use keybind::{KeybindAction, KeybindOutcome, parse_keybind, handle_keybind};
