//! The orchestrator: the single consumer where every input event converges.
//! It owns the task registry and the help popup state, dispatches events in
//! a fixed precedence order, and tells the host what to do — quit, forward a
//! key to a pane, or enqueue an action.

use vstd::prelude::*;

use crate::events::{Action, Event, KeyCode, KeyEvent, MouseKind};
use crate::focus::Focus;
use crate::selection::{next_selectable, previous_selectable};
use crate::task_item::{CommandLookup, Task};
use crate::tasks_list::TasksList;

verus! {

/// A key to be forwarded verbatim to the process in a pane.
#[derive(Clone, Copy, Debug, PartialEq, Eq, Structural)]
pub struct ForwardedKey {
    pub pane: usize,
    pub key: KeyEvent,
}

/// What one event asks of the host: stop the session, forward a key to a
/// pane's process, or enqueue an action.
pub struct EventOutcome {
    pub quit: bool,
    pub forward: Option<ForwardedKey>,
    pub action: Option<Action>,
}

/// The control-quit chord: it always wins.
pub open spec fn is_quit_key(key: KeyEvent) -> bool {
    key.ctrl && key.code == KeyCode::Char('c')
}

/// The orchestrator state: the registry, the saved focus under the help
/// popup, the quit latch, and the help popup's own display state.
pub struct App {
    pub tasks_list: TasksList,
    pub previous_focus: Focus,
    pub should_quit: bool,
    pub help_visible: bool,
    pub help_scroll: usize,
}

impl App {
    /// Well-formed orchestrator state: the registry is well-formed and the
    /// saved focus never points at the help popup itself.
    pub open spec fn wf(self) -> bool {
        &&& self.tasks_list.wf()
        &&& !(self.previous_focus is HelpPopup)
    }

    /// A fresh orchestrator over the given tasks.
    pub fn new(tasks: Vec<Task>, target_names: Vec<String>, command_lookup: CommandLookup) -> (r:
        Self)
        ensures
            r.wf(),
            !r.should_quit,
            !r.help_visible,
            r.help_scroll == 0,
            r.previous_focus == Focus::TaskList,
            r.tasks_list.focus == Focus::TaskList,
            r.tasks_list.tasks@.len() == tasks@.len(),
    {
        Self {
            tasks_list: TasksList::new(tasks, target_names, command_lookup),
            previous_focus: Focus::TaskList,
            should_quit: false,
            help_visible: false,
            help_scroll: 0,
        }
    }

    /// The current focus.
    pub fn focus(&self) -> (r: Focus)
        ensures
            r == self.tasks_list.focus,
    {
        self.tasks_list.get_focus()
    }

    /// Whether any output pane is visible.
    pub fn has_visible_panes(&self) -> (r: bool)
        ensures
            r == self.tasks_list.spec_has_visible_panes(),
    {
        self.tasks_list.has_visible_panes()
    }

    /// Whether the focused pane is in interactive mode.
    pub fn is_interactive_mode(&self) -> (r: bool)
        ensures
            r == self.tasks_list.spec_interactive_mode(),
    {
        self.tasks_list.is_interactive_mode()
    }

    /// Queues every task for rate-limited automatic start.
    pub fn queue_all_tasks(&mut self)
        requires
            old(self).wf(),
        ensures
            final(self).wf(),
            final(self).tasks_list.queued_tasks@.len() == old(self).tasks_list.tasks@.len(),
            forall|k: int|
                0 <= k < final(self).tasks_list.queued_tasks@.len() ==> #[trigger] final(self).tasks_list.queued_tasks@[k] == k,
    {
        self.tasks_list.queue_all_tasks();
    }

    /// Cycles focus forward across the task list and the occupied panes.
    pub fn focus_next(&mut self)
        requires
            old(self).wf(),
        ensures
            final(self).wf(),
            final(self).tasks_list.focus == old(self).tasks_list.spec_focus_next(),
    {
        self.tasks_list.focus_next();
    }

    /// Cycles focus backward across the task list and the occupied panes.
    pub fn focus_previous(&mut self)
        requires
            old(self).wf(),
        ensures
            final(self).wf(),
            final(self).tasks_list.focus == old(self).tasks_list.spec_focus_previous(),
    {
        self.tasks_list.focus_previous();
    }

    /// Toggles the quick-peek output pane for the selected task.
    pub fn toggle_output_visibility(&mut self)
        requires
            old(self).wf(),
        ensures
            final(self).wf(),
            TasksList::toggle_output_rel(old(self).tasks_list, final(self).tasks_list),
    {
        self.tasks_list.toggle_output_visibility();
    }

    /// Where dismissing the help popup returns focus: the focus saved when
    /// it opened, or the task list if that was a pane whose slot has since
    /// been cleared. While the popup owns focus the dispatcher lets no pane
    /// change, so through the dispatcher the saved focus is restored
    /// exactly.
    pub open spec fn spec_restored_focus(self) -> Focus {
        match self.previous_focus {
            Focus::TerminalPane(i) => if i < 2 && self.tasks_list.pane(i as int) is Some {
                self.previous_focus
            } else {
                Focus::TaskList
            },
            f => f,
        }
    }

    /// Restores the focus saved before the help popup opened, falling back
    /// to the task list if the saved pane is no longer occupied.
    fn restore_previous_focus(&mut self)
        requires
            old(self).wf(),
        ensures
            final(self).wf(),
            final(self).tasks_list.focus == old(self).spec_restored_focus(),
            final(self).previous_focus == old(self).previous_focus,
            final(self).should_quit == old(self).should_quit,
            final(self).help_visible == old(self).help_visible,
            final(self).help_scroll == old(self).help_scroll,
    {
        let target = match self.previous_focus {
            Focus::TerminalPane(i) => {
                if i < 2 {
                    match self.tasks_list.pane_task(i) {
                        Some(_) => Focus::TerminalPane(i),
                        None => Focus::TaskList,
                    }
                } else {
                    Focus::TaskList
                }
            },
            f => f,
        };
        self.tasks_list.set_focus(target);
    }

    /// Dispatches one raw input event, in the fixed precedence order:
    /// the control-quit chord always wins; with an output pane focused, a
    /// small set of navigation keys is intercepted outside interactive mode
    /// and everything else — everything at all, in interactive mode — is
    /// forwarded to the pane; the help toggle comes next, saving and
    /// restoring the prior focus; under the open help popup only scroll and
    /// dismiss keys mean anything; the spacebar toggles the quick-peek pane
    /// from any remaining focus; and the rest are task-list navigation,
    /// filter-editing and pane-pinning commands. Timer, render, resize and
    /// quit events become actions for the queue; mouse wheel motion scrolls
    /// the focused surface.
    #[verifier::rlimit(100)]
    pub fn handle_event(&mut self, event: &Event) -> (r: EventOutcome)
        requires
            old(self).wf(),
        ensures
            final(self).wf(),
            match *event {
                Event::Quit => r.quit && r.action == Some(Action::Quit) && r.forward is None
                    && *final(self) == *old(self),
                Event::Tick => !r.quit && r.action == Some(Action::Tick) && r.forward is None
                    && *final(self) == *old(self),
                Event::Render => !r.quit && r.action == Some(Action::Render) && r.forward is None
                    && *final(self) == *old(self),
                Event::Resize(w, h) => !r.quit && r.action == Some(Action::Resize(w, h))
                    && r.forward is None && *final(self) == *old(self),
                Event::Other => !r.quit && r.action is None && r.forward is None && *final(self)
                    == *old(self),
                Event::Mouse(kind) => {
                    &&& !r.quit
                    &&& r.action is None
                    &&& match old(self).tasks_list.focus {
                        Focus::TerminalPane(i) => {
                            &&& *final(self) == *old(self)
                            &&& r.forward == (match kind {
                                MouseKind::ScrollUp => Some(
                                    ForwardedKey {
                                        pane: i,
                                        key: KeyEvent { code: KeyCode::Up, ctrl: false },
                                    },
                                ),
                                MouseKind::ScrollDown => Some(
                                    ForwardedKey {
                                        pane: i,
                                        key: KeyEvent { code: KeyCode::Down, ctrl: false },
                                    },
                                ),
                                MouseKind::Other => None::<ForwardedKey>,
                            })
                        },
                        Focus::TaskList => {
                            &&& r.forward is None
                            &&& (kind == MouseKind::ScrollUp
                                ==> final(self).tasks_list.selection_manager.selected
                                == previous_selectable(
                                old(self).tasks_list.selection_manager.entries@,
                                old(self).tasks_list.selection_manager.selected as int,
                            ))
                            &&& (kind == MouseKind::ScrollDown
                                ==> final(self).tasks_list.selection_manager.selected
                                == next_selectable(
                                old(self).tasks_list.selection_manager.entries@,
                                old(self).tasks_list.selection_manager.selected as int,
                            ))
                            &&& (kind == MouseKind::Other ==> *final(self) == *old(self))
                        },
                        Focus::HelpPopup => r.forward is None && *final(self) == *old(self),
                    }
                },
                Event::Key(key) => {
                    &&& r.action is None
                    &&& (is_quit_key(key) ==> r.quit && r.forward is None && *final(self) == *old(self))
                    &&& (!is_quit_key(key) ==> !r.quit && (
                    match old(self).tasks_list.focus {
                        Focus::TerminalPane(i) => {
                            if old(self).tasks_list.spec_interactive_mode() {
                                r.forward == Some(ForwardedKey { pane: i, key }) && *final(self)
                                    == *old(self)
                            } else if key.code == KeyCode::Tab {
                                r.forward is None && final(self).tasks_list.focus == old(self).tasks_list.spec_focus_next()
                            } else if key.code == KeyCode::BackTab {
                                r.forward is None && final(self).tasks_list.focus == old(self).tasks_list.spec_focus_previous()
                            } else if key.code == KeyCode::Char('b') {
                                r.forward is None && final(self).tasks_list.task_list_hidden
                                    == !old(self).tasks_list.task_list_hidden
                            } else {
                                r.forward == Some(ForwardedKey { pane: i, key }) && *final(self)
                                    == *old(self)
                            }
                        },
                        _ => {
                            if key.code == KeyCode::Char('?') {
                                &&& r.forward is None
                                &&& if old(self).tasks_list.focus != Focus::HelpPopup {
                                    &&& final(self).help_visible
                                    &&& final(self).tasks_list.focus == Focus::HelpPopup
                                    &&& final(self).previous_focus == old(self).tasks_list.focus
                                } else {
                                    &&& !final(self).help_visible
                                    &&& final(self).tasks_list.focus == old(
                                        self,
                                    ).spec_restored_focus()
                                    &&& final(self).previous_focus == old(self).previous_focus
                                }
                            } else if old(self).tasks_list.focus == Focus::HelpPopup {
                                &&& r.forward is None
                                &&& (key.code == KeyCode::Esc ==> !final(self).help_visible
                                    && final(self).tasks_list.focus == old(
                                        self,
                                    ).spec_restored_focus() && final(self).previous_focus == old(
                                        self,
                                    ).previous_focus)
                                &&& ((key.code == KeyCode::Up || key.code == KeyCode::Char('k'))
                                    ==> final(self).help_scroll == (if old(self).help_scroll > 0 {
                                    (old(self).help_scroll - 1) as usize
                                } else {
                                    0usize
                                }))
                                &&& ((key.code == KeyCode::Down || key.code == KeyCode::Char('j'))
                                    ==> final(self).help_scroll == (if old(self).help_scroll
                                    < usize::MAX {
                                    (old(self).help_scroll + 1) as usize
                                } else {
                                    old(self).help_scroll
                                }))
                            } else if key.code == KeyCode::Char(' ') {
                                r.forward is None && TasksList::toggle_output_rel(
                                    old(self).tasks_list,
                                    final(self).tasks_list,
                                )
                            } else {
                                // Task-list commands.
                                &&& r.forward is None
                                &&& ((key.code == KeyCode::Char('q') && !old(self).tasks_list.filter_mode) ==> final(self).should_quit)
                                &&& ((key.code == KeyCode::Down || (key.code == KeyCode::Char('j')
                                    && !old(self).tasks_list.filter_mode)) ==> final(self).tasks_list.selection_manager.selected == next_selectable(
                                    old(self).tasks_list.selection_manager.entries@,
                                    old(self).tasks_list.selection_manager.selected as int,
                                ))
                                &&& ((key.code == KeyCode::Up || (key.code == KeyCode::Char('k')
                                    && !old(self).tasks_list.filter_mode)) ==> final(self).tasks_list.selection_manager.selected == previous_selectable(
                                    old(self).tasks_list.selection_manager.entries@,
                                    old(self).tasks_list.selection_manager.selected as int,
                                ))
                                &&& (key.code == KeyCode::Esc ==> final(self).tasks_list.filter_text@.len() == 0 && !final(self).tasks_list.filter_mode)
                                &&& (old(self).tasks_list.filter_mode ==> (key.code matches
                                KeyCode::Char(c) ==> (c == '/'
                                    || final(self).tasks_list.filter_persisted || final(self).tasks_list.filter_text@ == old(self).tasks_list.filter_text@.push(c))))
                                &&& ((key.code == KeyCode::Char('0') && !old(self).tasks_list.filter_mode) ==> final(self).tasks_list.pane(0) is None
                                    && final(self).tasks_list.pane(1) is None && final(self).tasks_list.focus == Focus::TaskList)
                                &&& ((key.code == KeyCode::Char('1') && !old(self).tasks_list.filter_mode) ==> TasksList::assign_rel(
                                    old(self).tasks_list,
                                    final(self).tasks_list,
                                    0,
                                ))
                                &&& ((key.code == KeyCode::Char('2') && !old(self).tasks_list.filter_mode) ==> TasksList::assign_rel(
                                    old(self).tasks_list,
                                    final(self).tasks_list,
                                    1,
                                ))
                            }
                        },
                    }))
                },
            },
    {
        match event {
            Event::Quit => {
                return EventOutcome { quit: true, forward: None, action: Some(Action::Quit) };
            },
            Event::Tick => {
                return EventOutcome { quit: false, forward: None, action: Some(Action::Tick) };
            },
            Event::Render => {
                return EventOutcome { quit: false, forward: None, action: Some(Action::Render) };
            },
            Event::Resize(w, h) => {
                return EventOutcome {
                    quit: false,
                    forward: None,
                    action: Some(Action::Resize(*w, *h)),
                };
            },
            Event::Other => {
                return EventOutcome { quit: false, forward: None, action: None };
            },
            Event::Mouse(kind) => {
                match self.tasks_list.get_focus() {
                    Focus::TerminalPane(pane_idx) => {
                        let forward = match kind {
                            MouseKind::ScrollUp => Some(
                                ForwardedKey {
                                    pane: pane_idx,
                                    key: KeyEvent { code: KeyCode::Up, ctrl: false },
                                },
                            ),
                            MouseKind::ScrollDown => Some(
                                ForwardedKey {
                                    pane: pane_idx,
                                    key: KeyEvent { code: KeyCode::Down, ctrl: false },
                                },
                            ),
                            MouseKind::Other => None,
                        };
                        return EventOutcome { quit: false, forward, action: None };
                    },
                    Focus::TaskList => {
                        match kind {
                            MouseKind::ScrollUp => self.tasks_list.previous(),
                            MouseKind::ScrollDown => self.tasks_list.next(),
                            MouseKind::Other => {},
                        }
                        return EventOutcome { quit: false, forward: None, action: None };
                    },
                    Focus::HelpPopup => {
                        return EventOutcome { quit: false, forward: None, action: None };
                    },
                }
            },
            Event::Key(key) => {
                let key = *key;
                // The control-quit chord always wins.
                if key.ctrl && matches!(key.code, KeyCode::Char('c')) {
                    proof {
                        assert(is_quit_key(key));
                    }
                    return EventOutcome { quit: true, forward: None, action: None };
                }
                // A focused output pane intercepts navigation keys outside
                // interactive mode and receives everything else verbatim.
                match self.tasks_list.get_focus() {
                    Focus::TerminalPane(pane_idx) => {
                        if !self.tasks_list.is_interactive_mode() {
                            match key.code {
                                KeyCode::Tab => {
                                    self.tasks_list.focus_next();
                                    return EventOutcome {
                                        quit: false,
                                        forward: None,
                                        action: None,
                                    };
                                },
                                KeyCode::BackTab => {
                                    self.tasks_list.focus_previous();
                                    return EventOutcome {
                                        quit: false,
                                        forward: None,
                                        action: None,
                                    };
                                },
                                KeyCode::Char('b') => {
                                    self.tasks_list.toggle_task_list();
                                    return EventOutcome {
                                        quit: false,
                                        forward: None,
                                        action: None,
                                    };
                                },
                                _ => {
                                    return EventOutcome {
                                        quit: false,
                                        forward: Some(ForwardedKey { pane: pane_idx, key }),
                                        action: None,
                                    };
                                },
                            }
                        } else {
                            return EventOutcome {
                                quit: false,
                                forward: Some(ForwardedKey { pane: pane_idx, key }),
                                action: None,
                            };
                        }
                    },
                    _ => {},
                }
                // The help toggle, saving and restoring the prior focus.
                if matches!(key.code, KeyCode::Char('?')) {
                    if !matches!(self.tasks_list.get_focus(), Focus::HelpPopup) {
                        self.previous_focus = self.tasks_list.get_focus();
                        self.tasks_list.set_focus(Focus::HelpPopup);
                        self.help_visible = true;
                    } else {
                        self.restore_previous_focus();
                        self.help_visible = false;
                    }
                    return EventOutcome { quit: false, forward: None, action: None };
                }
                // Under the open help popup only scroll and dismiss count.
                if matches!(self.tasks_list.get_focus(), Focus::HelpPopup) {
                    match key.code {
                        KeyCode::Esc => {
                            self.restore_previous_focus();
                            self.help_visible = false;
                        },
                        KeyCode::Up | KeyCode::Char('k') => {
                            if self.help_scroll > 0 {
                                self.help_scroll = self.help_scroll - 1;
                            }
                        },
                        KeyCode::Down | KeyCode::Char('j') => {
                            if self.help_scroll < usize::MAX {
                                self.help_scroll = self.help_scroll + 1;
                            }
                        },
                        _ => {},
                    }
                    return EventOutcome { quit: false, forward: None, action: None };
                }
                // The spacebar toggles the quick-peek pane from any
                // remaining focus.
                if matches!(key.code, KeyCode::Char(' ')) {
                    self.tasks_list.toggle_output_visibility();
                    return EventOutcome { quit: false, forward: None, action: None };
                }
                // Task-list navigation, filter editing and pane pinning.
                match key.code {
                    KeyCode::Down => self.tasks_list.next(),
                    KeyCode::Up => self.tasks_list.previous(),
                    KeyCode::Left => self.tasks_list.previous_page(),
                    KeyCode::Right => self.tasks_list.next_page(),
                    KeyCode::Esc => self.tasks_list.clear_filter(),
                    KeyCode::Char(c) if self.tasks_list.filter_mode => {
                        self.tasks_list.add_filter_char(c);
                    },
                    KeyCode::Backspace if self.tasks_list.filter_mode => {
                        self.tasks_list.remove_filter_char();
                    },
                    KeyCode::Char('/') => {
                        self.tasks_list.enter_filter_mode();
                    },
                    KeyCode::Char('j') => self.tasks_list.next(),
                    KeyCode::Char('k') => self.tasks_list.previous(),
                    KeyCode::Char('h') => self.tasks_list.previous_page(),
                    KeyCode::Char('l') => self.tasks_list.next_page(),
                    KeyCode::Char('b') => self.tasks_list.toggle_task_list(),
                    KeyCode::Char('q') => {
                        self.should_quit = true;
                    },
                    KeyCode::Char('0') => self.tasks_list.clear_all_panes(),
                    KeyCode::Char('1') => self.tasks_list.assign_current_task_to_pane(0),
                    KeyCode::Char('2') => self.tasks_list.assign_current_task_to_pane(1),
                    _ => {},
                }
                EventOutcome { quit: false, forward: None, action: None }
            },
        }
    }

    /// Applies one queued action at time `now`. The registry transitions
    /// exactly as `TasksList::update_rel` describes — in particular a
    /// render, resize or other pass-through action leaves it untouched;
    /// quitting latches the quit flag; render and resize actions ask the
    /// host for a redraw; the help state never changes here.
    pub fn handle_action(&mut self, action: &Action, now: u128) -> (draw: bool)
        requires
            old(self).wf(),
        ensures
            final(self).wf(),
            draw == (*action matches Action::Render || *action matches Action::Resize(..)),
            TasksList::update_rel(old(self).tasks_list, final(self).tasks_list, *action, now),
            final(self).should_quit == (old(self).should_quit || *action matches Action::Quit),
            final(self).previous_focus == old(self).previous_focus,
            final(self).help_visible == old(self).help_visible,
            final(self).help_scroll == old(self).help_scroll,
    {
        let draw = match action {
            Action::Render => true,
            Action::Resize(_, _) => true,
            _ => false,
        };
        if matches!(action, Action::Quit) {
            self.should_quit = true;
        }
        self.tasks_list.update(action, now);
        draw
    }
}

} // verus!
