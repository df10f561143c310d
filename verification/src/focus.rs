//! The focus state machine: which surface currently owns keyboard input.

use vstd::prelude::*;

verus! {

/// The surface that owns keyboard input: the task list, one of the two
/// output panes, or the help popup.
#[derive(Clone, Copy, Debug, PartialEq, Eq, Structural)]
pub enum Focus {
    TaskList,
    TerminalPane(usize),
    HelpPopup,
}

} // verus!
