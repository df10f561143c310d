//! Output-pane multiplexer layout decisions: collapsed versus full task-list
//! width, how 0, 1 or 2 occupied slots are arranged, and the minimum
//! viewport guard. The host turns these decisions into widgets.

use vstd::prelude::*;
use vstd::string::*;

use crate::focus::Focus;

verus! {

/// The fewest rows normal rendering needs.
pub const MIN_VIEWPORT_HEIGHT: u16 = 12;

/// The fewest columns normal rendering needs.
pub const MIN_VIEWPORT_WIDTH: u16 = 40;

/// Below the minimum viewport nothing renders but a centered warning.
pub fn viewport_too_small(width: u16, height: u16) -> (r: bool)
    ensures
        r == (height < MIN_VIEWPORT_HEIGHT || width < MIN_VIEWPORT_WIDTH),
{
    height < MIN_VIEWPORT_HEIGHT || width < MIN_VIEWPORT_WIDTH
}

/// The warning shown in place of the dashboard below the minimum viewport.
pub fn small_viewport_message() -> (r: String)
    ensures
        r@ == "Please make your terminal viewport larger in order to view the tasks UI"@,
{
    String::from_str("Please make your terminal viewport larger in order to view the tasks UI")
}

/// Collapsed mode shows an abbreviated task list: entered whenever a pane is
/// visible or the viewport is narrow.
pub fn collapsed_mode(has_visible_panes: bool, width: u16) -> (r: bool)
    ensures
        r == (has_visible_panes || width < 100),
{
    has_visible_panes || width < 100
}

/// The columns the task list takes: none while hidden, a third of the
/// viewport in collapsed mode, the whole viewport otherwise.
pub fn task_list_width(hidden: bool, collapsed: bool, width: u16) -> (r: u16)
    ensures
        r == if hidden {
            0u16
        } else if collapsed {
            (width / 3) as u16
        } else {
            width
        },
{
    if hidden {
        0
    } else if collapsed {
        width / 3
    } else {
        width
    }
}

/// The columns given to the output panes: two thirds of the viewport.
pub fn pane_output_width(width: u16) -> (r: u16)
    ensures
        r == ((width / 3) * 2) as u16,
{
    (width / 3) * 2
}

/// How the occupied pane slots are laid out.
#[derive(Clone, Copy, Debug, PartialEq, Eq, Structural)]
pub enum PaneArrangement {
    /// No slot occupied: no output area.
    NoPanes,
    /// Only slot 0 occupied: one pane over the whole output area.
    SingleFull,
    /// Only slot 1 occupied: a placeholder for slot 0 beside the pane, so
    /// the operator is told how to fill it.
    PlaceholderAndPane,
    /// Both slots occupied, side by side.
    TwoPanes,
}

/// Decides the pane arrangement from slot occupancy.
pub fn pane_arrangement(pane0_occupied: bool, pane1_occupied: bool) -> (r: PaneArrangement)
    ensures
        r == if pane0_occupied && pane1_occupied {
            PaneArrangement::TwoPanes
        } else if pane0_occupied {
            PaneArrangement::SingleFull
        } else if pane1_occupied {
            PaneArrangement::PlaceholderAndPane
        } else {
            PaneArrangement::NoPanes
        },
{
    if pane0_occupied && pane1_occupied {
        PaneArrangement::TwoPanes
    } else if pane0_occupied {
        PaneArrangement::SingleFull
    } else if pane1_occupied {
        PaneArrangement::PlaceholderAndPane
    } else {
        PaneArrangement::NoPanes
    }
}

/// Whether pane `idx` is drawn as the focused pane.
pub fn pane_is_focused(focus: Focus, idx: usize) -> (r: bool)
    ensures
        r == (focus == Focus::TerminalPane(idx)),
{
    match focus {
        Focus::TerminalPane(i) => i == idx,
        _ => false,
    }
}

/// Whether the task list renders dimmed: it does whenever it does not own
/// focus.
pub fn task_list_dimmed(focus: Focus) -> (r: bool)
    ensures
        r == !(focus == Focus::TaskList),
{
    !matches!(focus, Focus::TaskList)
}

} // verus!
