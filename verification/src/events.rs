//! The event vocabulary: every input source — timer, terminal, resize
//! listener, log watchers, host callbacks — speaks to the orchestrator only
//! through these types.

use vstd::prelude::*;

verus! {

/// A key, as the engine reads it.
#[derive(Clone, Copy, Debug, PartialEq, Eq, Structural)]
pub enum KeyCode {
    Char(char),
    Tab,
    BackTab,
    Esc,
    Up,
    Down,
    Left,
    Right,
    Backspace,
    Enter,
    Other,
}

/// A key press with its one modifier the engine cares about.
#[derive(Clone, Copy, Debug, PartialEq, Eq, Structural)]
pub struct KeyEvent {
    pub code: KeyCode,
    pub ctrl: bool,
}

/// A mouse gesture, as the engine reads it.
#[derive(Clone, Copy, Debug, PartialEq, Eq, Structural)]
pub enum MouseKind {
    ScrollUp,
    ScrollDown,
    Other,
}

/// The single message type carrying all events into the orchestrator.
#[derive(Clone, Debug)]
pub enum Action {
    Tick,
    Render,
    Resize(u16, u16),
    Key(KeyEvent),
    Mouse(MouseKind),
    Quit,
    Error(String),
    LogFileUpdated(String),
    EnterFilterMode,
    ClearFilter,
    AddFilterChar(char),
    RemoveFilterChar,
    ScrollUp,
    ScrollDown,
}

/// A raw input event as the host hands it in.
#[derive(Clone, Copy, Debug, PartialEq, Eq, Structural)]
pub enum Event {
    Quit,
    Tick,
    Render,
    Resize(u16, u16),
    Key(KeyEvent),
    Mouse(MouseKind),
    Other,
}

} // verus!
