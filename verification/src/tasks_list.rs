//! The task registry: authoritative task state, filtering, sorting, pane
//! assignment, and the rate-limited auto-start queue.

use vstd::prelude::*;
use vstd::string::*;

use crate::counts::{spec_remaining_count, spec_running_count};
use crate::entries::{
    entries_with_separator, filtered_names_for, first_index_with_name, lemma_entries_of_no_names,
    lemma_filtered_names_are_task_names, lemma_nonempty_names_give_task_entry,
    spec_entries_with_separator, spec_filtered_names,
};
use crate::events::Action;
use crate::focus::Focus;
use crate::selection::{
    TaskSelectionManager, has_task_entry, next_selectable, previous_selectable, resolved_selection,
};
use crate::sorting::{stable_sort_tasks, stable_sorted_perm};
use crate::status::{TaskStatus, spec_cache_label, status_for_keyword};
use crate::task_item::{
    CommandLookup, PtyHandle, Task, TaskItem, TaskResult, spec_exit_code_for_status,
};
use crate::text::lower_of;
use crate::text::pop_char;
use crate::text::push_char;

verus! {

/// The milliseconds that must pass between two automatic task starts.
pub const START_THROTTLE_MS: u128 = 1500;

/// The task registry and its UI state: the list of task records, the current
/// filter, the selection manager over the grouped entries, the two output
/// pane slots, the focus, and the auto-start queue.
pub struct TasksList {
    pub selection_manager: TaskSelectionManager,
    pub tasks: Vec<TaskItem>,
    pub filtered_names: Vec<String>,
    pub throbber_counter: usize,
    pub filter_mode: bool,
    pub filter_text: String,
    pub filter_persisted: bool,
    pub focus: Focus,
    pub viewport_height: usize,
    pub scroll_offset: usize,
    pub content_height: usize,
    pub pane_task_0: Option<String>,
    pub pane_task_1: Option<String>,
    pub pane_interactive_0: bool,
    pub pane_interactive_1: bool,
    pub focused_pane: Option<usize>,
    pub last_task_start: Option<u128>,
    pub queued_tasks: Vec<usize>,
    pub is_dimmed: bool,
    pub spacebar_mode: bool,
    pub command_lookup: CommandLookup,
    pub target_names: Vec<String>,
    pub task_list_hidden: bool,
}

impl TasksList {
    /// The task assigned to pane slot `i`.
    pub open spec fn pane(self, i: int) -> Option<String> {
        if i == 0 {
            self.pane_task_0
        } else {
            self.pane_task_1
        }
    }

    /// Some pane slot is occupied.
    pub open spec fn spec_has_visible_panes(self) -> bool {
        self.pane(0) is Some || self.pane(1) is Some
    }

    /// Well-formed registry state. Besides the selection manager's own
    /// invariant this carries the focus-reachability rule — an output pane
    /// owns focus only while its slot is occupied — and the pane-mode
    /// exclusivity rule: in follow mode slot 1 is empty and no pane is
    /// marked active, so no pinned slot coexists with the following slot.
    pub open spec fn wf(self) -> bool {
        &&& self.selection_manager.wf()
        &&& (self.focus matches Focus::TerminalPane(i) ==> i < 2 && self.pane(i as int) is Some)
        &&& (self.focused_pane matches Some(i) ==> i < 2 && self.pane(i as int) is Some)
        &&& (self.spacebar_mode ==> self.pane_task_1 is None && self.focused_pane is None)
        &&& (self.spacebar_mode && self.pane_task_0 is None ==> self.filtered_names@.len() == 0
            && !has_task_entry(self.selection_manager.entries@))
    }

    /// Follow mode is active: slot 0 mirrors the selection.
    pub open spec fn follow_mode(self) -> bool {
        self.spacebar_mode
    }

    /// Some slot is pinned: occupied while follow mode is off.
    pub open spec fn has_pinned_pane(self) -> bool {
        !self.spacebar_mode && (self.pane(0) is Some || self.pane(1) is Some)
    }

    /// The entry list and selection have been rebuilt for `tasks` under
    /// `filter`, the selection re-resolving from position `pre_sel`.
    pub open spec fn entries_refreshed(
        self,
        tasks: Seq<TaskItem>,
        filter: Seq<char>,
        pre_sel: int,
    ) -> bool {
        &&& self.filtered_names@ == spec_filtered_names(tasks, filter)
        &&& self.selection_manager.entries@ == spec_entries_with_separator(
            tasks,
            self.filtered_names@,
        )
        &&& self.selection_manager.selected == resolved_selection(
            self.selection_manager.entries@,
            if self.selection_manager.entries@.len() == 0 {
                0
            } else if pre_sel < self.selection_manager.entries@.len() {
                pre_sel
            } else {
                self.selection_manager.entries@.len() - 1
            },
        )
    }

    /// How a filter refresh treats slot 0 and the focus. In follow mode the
    /// slot re-syncs to the new selection; it is cleared when the filter
    /// leaves nothing, and a focus sitting on the cleared slot falls back to
    /// the task list.
    pub open spec fn follow_synced(
        self,
        followed: bool,
        old_pane0: Option<String>,
        old_focus: Focus,
    ) -> bool {
        if followed {
            if self.filtered_names@.len() == 0 {
                &&& self.pane_task_0 is None
                &&& self.focus == if old_focus == Focus::TerminalPane(0usize) {
                    Focus::TaskList
                } else {
                    old_focus
                }
            } else {
                match self.selection_manager.spec_selected_name() {
                    Some(n) => (self.pane_task_0 matches Some(p) && p@ == n) && self.focus
                        == old_focus,
                    None => self.pane_task_0 == old_pane0 && self.focus == old_focus,
                }
            }
        } else {
            self.pane_task_0 == old_pane0 && self.focus == old_focus
        }
    }

    /// The miscellaneous display fields two states share.
    pub open spec fn same_misc(self, o: TasksList) -> bool {
        &&& self.throbber_counter == o.throbber_counter
        &&& self.is_dimmed == o.is_dimmed
        &&& self.task_list_hidden == o.task_list_hidden
        &&& self.viewport_height == o.viewport_height
        &&& self.content_height == o.content_height
        &&& self.scroll_offset == o.scroll_offset
        &&& self.pane_interactive_0 == o.pane_interactive_0
        &&& self.pane_interactive_1 == o.pane_interactive_1
        &&& self.target_names@ == o.target_names@
    }

    /// The filter fields two states share.
    pub open spec fn same_filter(self, o: TasksList) -> bool {
        &&& self.filter_text@ == o.filter_text@
        &&& self.filter_mode == o.filter_mode
        &&& self.filter_persisted == o.filter_persisted
    }

    /// The auto-start queue fields two states share.
    pub open spec fn same_queue(self, o: TasksList) -> bool {
        &&& self.queued_tasks@ == o.queued_tasks@
        &&& self.last_task_start == o.last_task_start
    }

    /// A fresh registry over the given tasks: every record starts out
    /// `NotStarted`, nothing is filtered yet, no pane is assigned, and the
    /// task list owns focus.
    pub fn new(tasks: Vec<Task>, target_names: Vec<String>, command_lookup: CommandLookup) -> (r:
        Self)
        ensures
            r.wf(),
            r.tasks@.len() == tasks@.len(),
            forall|k: int|
                0 <= k < tasks@.len() ==> {
                    let t = #[trigger] r.tasks@[k];
                    &&& t.name@ == tasks@[k].id@
                    &&& t.continuous == (tasks@[k].continuous == Some(true))
                    &&& t.status is NotStarted
                    &&& t.pty is None
                    &&& t.started_at is None
                    &&& t.completed_at is None
                },
            r.filtered_names@.len() == 0,
            r.filter_text@.len() == 0,
            !r.filter_mode,
            !r.filter_persisted,
            r.focus == Focus::TaskList,
            r.pane_task_0 is None,
            r.pane_task_1 is None,
            r.focused_pane is None,
            !r.spacebar_mode,
            r.queued_tasks@.len() == 0,
            r.last_task_start is None,
            !r.task_list_hidden,
            r.selection_manager.entries@.len() == 0,
            r.target_names@ == target_names@,
    {
        let mut task_items: Vec<TaskItem> = Vec::new();
        let mut i: usize = 0;
        while i < tasks.len()
            invariant
                i <= tasks@.len(),
                task_items@.len() == i,
                forall|k: int|
                    0 <= k < i ==> {
                        let t = #[trigger] task_items@[k];
                        &&& t.name@ == tasks@[k].id@
                        &&& t.continuous == (tasks@[k].continuous == Some(true))
                        &&& t.status is NotStarted
                        &&& t.pty is None
                        &&& t.started_at is None
                        &&& t.completed_at is None
                    },
            decreases tasks@.len() - i,
        {
            let continuous = match tasks[i].continuous {
                Some(c) => c,
                None => false,
            };
            task_items.push(TaskItem::new(tasks[i].id.clone(), continuous));
            i = i + 1;
        }
        Self {
            selection_manager: TaskSelectionManager::new(5),
            tasks: task_items,
            filtered_names: Vec::new(),
            throbber_counter: 0,
            filter_mode: false,
            filter_text: String::new(),
            filter_persisted: false,
            focus: Focus::TaskList,
            viewport_height: 0,
            scroll_offset: 0,
            content_height: 0,
            pane_task_0: None,
            pane_task_1: None,
            pane_interactive_0: false,
            pane_interactive_1: false,
            focused_pane: None,
            last_task_start: None,
            queued_tasks: Vec::new(),
            is_dimmed: false,
            spacebar_mode: false,
            command_lookup,
            target_names,
            task_list_hidden: false,
        }
    }

    /// The current focus.
    pub fn get_focus(&self) -> (r: Focus)
        ensures
            r == self.focus,
    {
        self.focus
    }

    /// Sets the focus; returning to the task list clears the active pane
    /// marker. The new focus must respect pane occupancy.
    pub fn set_focus(&mut self, focus: Focus)
        requires
            old(self).wf(),
            focus matches Focus::TerminalPane(i) ==> i < 2 && old(self).pane(i as int) is Some,
        ensures
            final(self).wf(),
            final(self).focus == focus,
            final(self).focused_pane == if focus == Focus::TaskList {
                None::<usize>
            } else {
                old(self).focused_pane
            },
            *final(self) == (TasksList {
                focus,
                focused_pane: final(self).focused_pane,
                ..*old(self)
            }),
    {
        self.focus = focus;
        if matches!(focus, Focus::TaskList) {
            self.focused_pane = None;
        }
    }

    /// Whether any output pane is visible.
    pub fn has_visible_panes(&self) -> (r: bool)
        ensures
            r == self.spec_has_visible_panes(),
    {
        self.pane_task_0.is_some() || self.pane_task_1.is_some()
    }

    /// Clears both panes and returns focus and modes to their defaults.
    pub fn clear_all_panes(&mut self)
        ensures
            final(self).wf() <== old(self).selection_manager.wf(),
            final(self).pane_task_0 is None,
            final(self).pane_task_1 is None,
            final(self).focused_pane is None,
            final(self).focus == Focus::TaskList,
            !final(self).spacebar_mode,
            *final(self) == (TasksList {
                pane_task_0: None,
                pane_task_1: None,
                focused_pane: None,
                focus: Focus::TaskList,
                spacebar_mode: false,
                ..*old(self)
            }),
    {
        self.pane_task_0 = None;
        self.pane_task_1 = None;
        self.focused_pane = None;
        self.focus = Focus::TaskList;
        self.spacebar_mode = false;
    }

    /// Sets the dimmed display state.
    pub fn set_dimmed(&mut self, is_dimmed: bool)
        ensures
            *final(self) == (TasksList { is_dimmed, ..*old(self) }),
    {
        self.is_dimmed = is_dimmed;
    }

    /// Queues every task, in list order, for rate-limited automatic start.
    pub fn queue_all_tasks(&mut self)
        ensures
            final(self).queued_tasks@.len() == old(self).tasks@.len(),
            forall|k: int|
                0 <= k < final(self).queued_tasks@.len()
                    ==> #[trigger] final(self).queued_tasks@[k] == k,
            *final(self) == (TasksList { queued_tasks: final(self).queued_tasks, ..*old(self) }),
    {
        let mut q: Vec<usize> = Vec::new();
        let mut i: usize = 0;
        while i < self.tasks.len()
            invariant
                i <= self.tasks@.len(),
                q@.len() == i,
                forall|k: int| 0 <= k < i ==> #[trigger] q@[k] == k,
            decreases self.tasks@.len() - i,
        {
            q.push(i);
            i = i + 1;
        }
        self.queued_tasks = q;
    }

    /// Hides or shows the task list panel; hiding is allowed only while some
    /// pane is visible.
    pub fn toggle_task_list(&mut self)
        ensures
            final(self).task_list_hidden == if old(self).spec_has_visible_panes() {
                !old(self).task_list_hidden
            } else {
                old(self).task_list_hidden
            },
            *final(self) == (TasksList {
                task_list_hidden: final(self).task_list_hidden,
                ..*old(self)
            }),
    {
        if self.has_visible_panes() {
            self.task_list_hidden = !self.task_list_hidden;
        }
    }

    /// The content is scrollable when it overflows the viewport.
    pub open spec fn spec_is_scrollable(self) -> bool {
        self.content_height > self.viewport_height
    }

    /// Records the rendered content height and viewport height that the
    /// scroll logic works against.
    pub fn set_content_metrics(&mut self, content_height: usize, viewport_height: usize)
        ensures
            *final(self) == (TasksList { content_height, viewport_height, ..*old(self) }),
    {
        self.content_height = content_height;
        self.viewport_height = viewport_height;
    }

    /// Scrolls up one line when the content is scrollable and not at the top.
    pub fn scroll_up(&mut self)
        ensures
            final(self).scroll_offset == if old(self).spec_is_scrollable() && old(self).scroll_offset > 0 {
                (old(self).scroll_offset - 1) as usize
            } else {
                old(self).scroll_offset
            },
            *final(self) == (TasksList { scroll_offset: final(self).scroll_offset, ..*old(self) }),
    {
        if self.content_height > self.viewport_height && self.scroll_offset > 0 {
            self.scroll_offset = self.scroll_offset - 1;
        }
    }

    /// Scrolls down one line, stopping at the last line that still fills the
    /// viewport.
    pub fn scroll_down(&mut self)
        ensures
            final(self).scroll_offset == if old(self).spec_is_scrollable() && old(self).scroll_offset < old(self).content_height - old(self).viewport_height {
                (old(self).scroll_offset + 1) as usize
            } else {
                old(self).scroll_offset
            },
            *final(self) == (TasksList { scroll_offset: final(self).scroll_offset, ..*old(self) }),
    {
        if self.content_height > self.viewport_height {
            let max_scroll = self.content_height - self.viewport_height;
            if self.scroll_offset < max_scroll {
                self.scroll_offset = self.scroll_offset + 1;
            }
        }
    }

    /// Returns the scroll position to the top.
    pub fn reset_scroll(&mut self)
        ensures
            final(self).scroll_offset == 0,
            *final(self) == (TasksList { scroll_offset: 0, ..*old(self) }),
    {
        self.scroll_offset = 0;
    }

    /// Interactive mode: an output pane owns focus and its process is
    /// accepting raw keystrokes, so every key is forwarded to it.
    pub open spec fn spec_interactive_mode(self) -> bool {
        match self.focus {
            Focus::TerminalPane(i) => if i == 0 {
                self.pane_interactive_0
            } else {
                self.pane_interactive_1
            },
            _ => false,
        }
    }

    /// Whether the focused pane is in interactive mode: all keys are then
    /// forwarded to its process.
    pub fn is_interactive_mode(&self) -> (r: bool)
        ensures
            r == self.spec_interactive_mode(),
    {
        match self.focus {
            Focus::TerminalPane(pane_idx) => if pane_idx == 0 {
                self.pane_interactive_0
            } else {
                self.pane_interactive_1
            },
            _ => false,
        }
    }

    /// Records whether the process in slot `i` is accepting raw keystrokes;
    /// the host refreshes this from the real handle.
    pub fn set_pane_interactive(&mut self, i: usize, interactive: bool)
        requires
            i < 2,
        ensures
            final(self).pane_interactive_0 == if i == 0 {
                interactive
            } else {
                old(self).pane_interactive_0
            },
            final(self).pane_interactive_1 == if i == 1 {
                interactive
            } else {
                old(self).pane_interactive_1
            },
            *final(self) == (TasksList {
                pane_interactive_0: final(self).pane_interactive_0,
                pane_interactive_1: final(self).pane_interactive_1,
                ..*old(self)
            }),
    {
        if i == 0 {
            self.pane_interactive_0 = interactive;
        } else {
            self.pane_interactive_1 = interactive;
        }
    }

    /// The pane a key event would be forwarded to: the focused pane, if any.
    pub fn focused_output_pane(&self) -> (r: Option<usize>)
        ensures
            r == match self.focus {
                Focus::TerminalPane(i) => Some(i),
                _ => None::<usize>,
            },
    {
        match self.focus {
            Focus::TerminalPane(i) => Some(i),
            _ => None,
        }
    }

    /// The task assigned to pane slot `i`, if any.
    pub fn pane_task(&self, i: usize) -> (r: Option<String>)
        requires
            i < 2,
        ensures
            r is Some <==> self.pane(i as int) is Some,
            r matches Some(n) ==> self.pane(i as int) matches Some(m) && n@ == m@,
    {
        let p = if i == 0 {
            &self.pane_task_0
        } else {
            &self.pane_task_1
        };
        match p {
            Some(n) => Some(n.clone()),
            None => None,
        }
    }

    /// Enters filter mode — or, when unpersisted filter text already exists,
    /// persists it instead and leaves editing.
    pub fn enter_filter_mode(&mut self)
        ensures
            old(self).filter_text@.len() > 0 && !old(self).filter_persisted ==> *final(self) == (
            TasksList { filter_persisted: true, filter_mode: false, ..*old(self) }),
            !(old(self).filter_text@.len() > 0 && !old(self).filter_persisted) ==> *final(self)
                == (TasksList { filter_persisted: false, filter_mode: true, ..*old(self) }),
    {
        if self.filter_text.unicode_len() > 0 && !self.filter_persisted {
            self.filter_persisted = true;
            self.filter_mode = false;
        } else {
            self.filter_persisted = false;
            self.filter_mode = true;
        }
    }

    /// Leaves filter mode and drops the persisted flag; the text stays.
    pub fn exit_filter_mode(&mut self)
        ensures
            *final(self) == (TasksList { filter_mode: false, filter_persisted: false, ..*old(self) }),
    {
        self.filter_mode = false;
        self.filter_persisted = false;
    }

    /// Rebuilds the filtered names and the grouped entry list from the
    /// current filter text, re-resolves the selection, and — in follow mode —
    /// re-syncs slot 0 to the new selection, clearing it when the filter
    /// leaves nothing.
    pub fn apply_filter(&mut self)
        requires
            old(self).wf(),
        ensures
            final(self).wf(),
            final(self).entries_refreshed(
                old(self).tasks@,
                old(self).filter_text@,
                old(self).selection_manager.selected as int,
            ),
            final(self).follow_synced(
                old(self).spacebar_mode,
                old(self).pane_task_0,
                old(self).focus,
            ),
            final(self).tasks@ == old(self).tasks@,
            final(self).same_filter(*old(self)),
            final(self).same_queue(*old(self)),
            final(self).same_misc(*old(self)),
            final(self).pane_task_1 == old(self).pane_task_1,
            final(self).spacebar_mode == old(self).spacebar_mode,
            final(self).focused_pane == old(self).focused_pane,
            final(self).selection_manager.items_per_page == old(self).selection_manager.items_per_page,
    {
        let names = filtered_names_for(&self.tasks, self.filter_text.as_str());
        self.filtered_names = names;
        let entries = entries_with_separator(&self.tasks, &self.filtered_names);
        self.selection_manager.update_entries(entries);
        proof {
            if self.filtered_names@.len() == 0 {
                lemma_entries_of_no_names(self.tasks@, self.filtered_names@);
            } else {
                lemma_filtered_names_are_task_names(self.tasks@, self.filter_text@);
                lemma_nonempty_names_give_task_entry(self.tasks@, self.filtered_names@);
                assert(has_task_entry(self.selection_manager.entries@));
            }
        }
        if self.spacebar_mode {
            if self.filtered_names.len() == 0 {
                self.pane_task_0 = None;
                if matches!(self.focus, Focus::TerminalPane(0usize)) {
                    self.focus = Focus::TaskList;
                }
            } else {
                match self.selection_manager.get_selected_task_name() {
                    Some(name) => {
                        self.pane_task_0 = Some(name);
                    },
                    None => {},
                }
            }
        }
    }

    /// Clears the filter text and flags and rebuilds the full entry list,
    /// restoring every task in task order.
    pub fn clear_filter(&mut self)
        requires
            old(self).wf(),
        ensures
            final(self).wf(),
            final(self).filter_text@.len() == 0,
            !final(self).filter_mode,
            !final(self).filter_persisted,
            final(self).entries_refreshed(
                old(self).tasks@,
                Seq::<char>::empty(),
                old(self).selection_manager.selected as int,
            ),
            final(self).follow_synced(
                old(self).spacebar_mode,
                old(self).pane_task_0,
                old(self).focus,
            ),
            final(self).tasks@ == old(self).tasks@,
            final(self).same_queue(*old(self)),
            final(self).same_misc(*old(self)),
            final(self).pane_task_1 == old(self).pane_task_1,
            final(self).spacebar_mode == old(self).spacebar_mode,
            final(self).focused_pane == old(self).focused_pane,
    {
        self.filter_mode = false;
        self.filter_persisted = false;
        self.filter_text = String::new();
        self.apply_filter();
    }

    /// Adds a character to the filter text and reapplies the filter. The `/`
    /// character is never added: it persists existing unpersisted text
    /// instead. While the filter is persisted the text cannot change.
    pub fn add_filter_char(&mut self, c: char)
        requires
            old(self).wf(),
        ensures
            final(self).wf(),
            c == '/' && old(self).filter_text@.len() > 0 && !old(self).filter_persisted ==> *final(self) == (TasksList { filter_persisted: true, filter_mode: false, ..*old(self) }),
            c == '/' && !(old(self).filter_text@.len() > 0 && !old(self).filter_persisted)
                ==> *final(self) == *old(self),
            c != '/' && old(self).filter_persisted ==> *final(self) == *old(self),
            c != '/' && !old(self).filter_persisted ==> {
                &&& final(self).filter_text@ == old(self).filter_text@.push(c)
                &&& final(self).entries_refreshed(
                    old(self).tasks@,
                    final(self).filter_text@,
                    old(self).selection_manager.selected as int,
                )
                &&& final(self).follow_synced(
                    old(self).spacebar_mode,
                    old(self).pane_task_0,
                    old(self).focus,
                )
                &&& final(self).tasks@ == old(self).tasks@
                &&& final(self).filter_mode == old(self).filter_mode
                &&& final(self).filter_persisted == old(self).filter_persisted
                &&& final(self).same_queue(*old(self))
                &&& final(self).same_misc(*old(self))
                &&& final(self).pane_task_1 == old(self).pane_task_1
                &&& final(self).spacebar_mode == old(self).spacebar_mode
                &&& final(self).focused_pane == old(self).focused_pane
            },
    {
        if c == '/' {
            if self.filter_text.unicode_len() > 0 && !self.filter_persisted {
                self.filter_persisted = true;
                self.filter_mode = false;
            }
            return;
        }
        if !self.filter_persisted {
            push_char(&mut self.filter_text, c);
            self.apply_filter();
        }
    }

    /// Removes the last character of the filter text and reapplies the
    /// filter.
    pub fn remove_filter_char(&mut self)
        requires
            old(self).wf(),
        ensures
            final(self).wf(),
            final(self).filter_text@ == if old(self).filter_text@.len() > 0 {
                old(self).filter_text@.drop_last()
            } else {
                old(self).filter_text@
            },
            final(self).entries_refreshed(
                old(self).tasks@,
                final(self).filter_text@,
                old(self).selection_manager.selected as int,
            ),
            final(self).follow_synced(
                old(self).spacebar_mode,
                old(self).pane_task_0,
                old(self).focus,
            ),
            final(self).tasks@ == old(self).tasks@,
            final(self).filter_mode == old(self).filter_mode,
            final(self).filter_persisted == old(self).filter_persisted,
            final(self).same_queue(*old(self)),
            final(self).same_misc(*old(self)),
            final(self).pane_task_1 == old(self).pane_task_1,
            final(self).spacebar_mode == old(self).spacebar_mode,
            final(self).focused_pane == old(self).focused_pane,
    {
        let _ = pop_char(&mut self.filter_text);
        self.apply_filter();
    }

    /// Rebuilds pagination for a viewport able to show `available_height`
    /// entries per page, and refreshes the entry list.
    pub fn recalculate_pages(&mut self, available_height: usize)
        requires
            old(self).wf(),
        ensures
            final(self).wf(),
            final(self).selection_manager.items_per_page == if available_height == 0 {
                1usize
            } else {
                available_height
            },
            final(self).selection_manager.entries@ == spec_entries_with_separator(
                old(self).tasks@,
                old(self).filtered_names@,
            ),
            final(self).tasks@ == old(self).tasks@,
            final(self).filtered_names@ == old(self).filtered_names@,
            final(self).same_filter(*old(self)),
            final(self).same_queue(*old(self)),
            final(self).same_misc(*old(self)),
            final(self).pane_task_0 == old(self).pane_task_0,
            final(self).pane_task_1 == old(self).pane_task_1,
            final(self).focus == old(self).focus,
            final(self).focused_pane == old(self).focused_pane,
            final(self).spacebar_mode == old(self).spacebar_mode,
    {
        self.selection_manager.set_items_per_page(available_height);
        let entries = entries_with_separator(&self.tasks, &self.filtered_names);
        proof {
            if self.filtered_names@.len() == 0 {
                lemma_entries_of_no_names(self.tasks@, self.filtered_names@);
            }
        }
        self.selection_manager.update_entries(entries);
    }

    /// In follow mode, re-syncs slot 0 to the current selection.
    fn sync_follow_pane(&mut self)
        requires
            old(self).wf(),
        ensures
            final(self).wf(),
            old(self).spacebar_mode ==> match final(self).selection_manager.spec_selected_name() {
                Some(n) => final(self).pane_task_0 matches Some(p) && p@ == n,
                None => final(self).pane_task_0 == old(self).pane_task_0,
            },
            !old(self).spacebar_mode ==> final(self).pane_task_0 == old(self).pane_task_0,
            *final(self) == (TasksList { pane_task_0: final(self).pane_task_0, ..*old(self) }),
    {
        if self.spacebar_mode {
            match self.selection_manager.get_selected_task_name() {
                Some(name) => {
                    self.pane_task_0 = Some(name);
                },
                None => {},
            }
        }
    }

    /// Moves the selection to the next task entry; in follow mode slot 0
    /// tracks it. The scroll position resets.
    pub fn next(&mut self)
        requires
            old(self).wf(),
        ensures
            final(self).wf(),
            final(self).selection_manager.selected == next_selectable(
                old(self).selection_manager.entries@,
                old(self).selection_manager.selected as int,
            ),
            final(self).selection_manager.entries@ == old(self).selection_manager.entries@,
            final(self).selection_manager.items_per_page == old(self).selection_manager.items_per_page,
            old(self).spacebar_mode ==> match final(self).selection_manager.spec_selected_name() {
                Some(n) => final(self).pane_task_0 matches Some(p) && p@ == n,
                None => final(self).pane_task_0 == old(self).pane_task_0,
            },
            !old(self).spacebar_mode ==> final(self).pane_task_0 == old(self).pane_task_0,
            final(self).scroll_offset == 0,
            *final(self) == (TasksList {
                selection_manager: final(self).selection_manager,
                pane_task_0: final(self).pane_task_0,
                scroll_offset: 0,
                ..*old(self)
            }),
    {
        self.selection_manager.next();
        self.sync_follow_pane();
        self.reset_scroll();
    }

    /// Moves the selection to the previous task entry; in follow mode slot 0
    /// tracks it. The scroll position resets.
    pub fn previous(&mut self)
        requires
            old(self).wf(),
        ensures
            final(self).wf(),
            final(self).selection_manager.selected == previous_selectable(
                old(self).selection_manager.entries@,
                old(self).selection_manager.selected as int,
            ),
            final(self).selection_manager.entries@ == old(self).selection_manager.entries@,
            final(self).selection_manager.items_per_page == old(self).selection_manager.items_per_page,
            old(self).spacebar_mode ==> match final(self).selection_manager.spec_selected_name() {
                Some(n) => final(self).pane_task_0 matches Some(p) && p@ == n,
                None => final(self).pane_task_0 == old(self).pane_task_0,
            },
            !old(self).spacebar_mode ==> final(self).pane_task_0 == old(self).pane_task_0,
            final(self).scroll_offset == 0,
            *final(self) == (TasksList {
                selection_manager: final(self).selection_manager,
                pane_task_0: final(self).pane_task_0,
                scroll_offset: 0,
                ..*old(self)
            }),
    {
        self.selection_manager.previous();
        self.sync_follow_pane();
        self.reset_scroll();
    }

    /// Moves to the next page of tasks; does nothing while the filter leaves
    /// no tasks.
    pub fn next_page(&mut self)
        requires
            old(self).wf(),
        ensures
            final(self).wf(),
            old(self).filtered_names@.len() == 0 ==> *final(self) == *old(self),
            old(self).filtered_names@.len() > 0 ==> {
                &&& final(self).selection_manager.entries@ == old(self).selection_manager.entries@
                &&& (old(self).selection_manager.entries@.len() > 0 ==> final(self).selection_manager.selected == resolved_selection(
                    old(self).selection_manager.entries@,
                    ((old(self).selection_manager.spec_current_page() + 1) % old(self).selection_manager.spec_total_pages())
                        * old(self).selection_manager.items_per_page,
                ))
                &&& (old(self).spacebar_mode ==> match final(self).selection_manager.spec_selected_name() {
                    Some(n) => final(self).pane_task_0 matches Some(p) && p@ == n,
                    None => final(self).pane_task_0 == old(self).pane_task_0,
                })
                &&& (!old(self).spacebar_mode ==> final(self).pane_task_0 == old(self).pane_task_0)
                &&& final(self).scroll_offset == 0
                &&& *final(self) == (TasksList {
                    selection_manager: final(self).selection_manager,
                    pane_task_0: final(self).pane_task_0,
                    scroll_offset: 0,
                    ..*old(self)
                })
            },
    {
        if self.filtered_names.len() == 0 {
            return;
        }
        self.selection_manager.next_page();
        self.sync_follow_pane();
        self.reset_scroll();
    }

    /// Moves to the previous page of tasks; does nothing while the filter
    /// leaves no tasks.
    pub fn previous_page(&mut self)
        requires
            old(self).wf(),
        ensures
            final(self).wf(),
            old(self).filtered_names@.len() == 0 ==> *final(self) == *old(self),
            old(self).filtered_names@.len() > 0 ==> {
                &&& final(self).selection_manager.entries@ == old(self).selection_manager.entries@
                &&& (old(self).selection_manager.entries@.len() > 0 ==> final(self).selection_manager.selected == resolved_selection(
                    old(self).selection_manager.entries@,
                    ((old(self).selection_manager.spec_current_page() + old(self).selection_manager.spec_total_pages() - 1) % old(self).selection_manager.spec_total_pages())
                        * old(self).selection_manager.items_per_page,
                ))
                &&& (old(self).spacebar_mode ==> match final(self).selection_manager.spec_selected_name() {
                    Some(n) => final(self).pane_task_0 matches Some(p) && p@ == n,
                    None => final(self).pane_task_0 == old(self).pane_task_0,
                })
                &&& (!old(self).spacebar_mode ==> final(self).pane_task_0 == old(self).pane_task_0)
                &&& final(self).scroll_offset == 0
                &&& *final(self) == (TasksList {
                    selection_manager: final(self).selection_manager,
                    pane_task_0: final(self).pane_task_0,
                    scroll_offset: 0,
                    ..*old(self)
                })
            },
    {
        if self.filtered_names.len() == 0 {
            return;
        }
        self.selection_manager.previous_page();
        self.sync_follow_pane();
        self.reset_scroll();
    }

    /// The name of the currently selected task, if any.
    pub fn get_selected_task_name(&self) -> (r: Option<String>)
        ensures
            r is Some <==> self.selection_manager.spec_selected_name() is Some,
            r matches Some(n) ==> Some(n@) == self.selection_manager.spec_selected_name(),
    {
        self.selection_manager.get_selected_task_name()
    }

    /// The single quick-peek control: with any pane visible, clears both and
    /// leaves follow mode; otherwise shows the selected task in slot 0 and
    /// enters follow mode. Either way the task list becomes visible again.
    /// How the quick-peek toggle relates the registry before and after.
    pub open spec fn toggle_output_rel(pre: TasksList, post: TasksList) -> bool {
        match pre.selection_manager.spec_selected_name() {
            None => post == (TasksList { task_list_hidden: false, ..pre }),
            Some(n) => if pre.spec_has_visible_panes() {
                post == (TasksList {
                    task_list_hidden: false,
                    pane_task_0: None,
                    pane_task_1: None,
                    focused_pane: None,
                    focus: Focus::TaskList,
                    spacebar_mode: false,
                    ..pre
                })
            } else {
                &&& (post.pane_task_0 matches Some(p) && p@ == n)
                &&& post.pane_task_1 is None
                &&& post.focused_pane is None
                &&& post.spacebar_mode
                &&& post == (TasksList {
                    task_list_hidden: false,
                    pane_task_0: post.pane_task_0,
                    pane_task_1: None,
                    focused_pane: None,
                    spacebar_mode: true,
                    ..pre
                })
            },
        }
    }

    pub fn toggle_output_visibility(&mut self)
        requires
            old(self).wf(),
        ensures
            final(self).wf(),
            !final(self).task_list_hidden,
            Self::toggle_output_rel(*old(self), *final(self)),
            !(final(self).follow_mode() && final(self).has_pinned_pane()),
    {
        self.task_list_hidden = false;
        match self.selection_manager.get_selected_task_name() {
            Some(task_name) => {
                if self.has_visible_panes() {
                    self.clear_all_panes();
                    self.spacebar_mode = false;
                } else {
                    self.pane_task_0 = Some(task_name);
                    self.pane_task_1 = None;
                    self.focused_pane = None;
                    self.spacebar_mode = true;
                }
            },
            None => {},
        }
    }

    /// Pins or unpins the selected task on pane slot `pane_idx`.
    ///
    /// In follow mode, pinning slot 0 converts the following slot into a
    /// pinned one without visual change. Pinning a task already pinned on the
    /// slot unpins it instead; a focus sitting on the unpinned slot falls
    /// back to the task list, and clearing the last pane resets pane state
    /// altogether. Otherwise the task is pinned to the slot, follow mode
    /// ends, and focus stays on the task list.
    /// How pinning or unpinning the selection on slot `pane_idx` relates the
    /// registry before and after.
    pub open spec fn assign_rel(pre: TasksList, post: TasksList, pane_idx: usize) -> bool {
        match pre.selection_manager.spec_selected_name() {
            None => post == pre,
            Some(n) => {
                if pre.spacebar_mode && pane_idx == 0 {
                    post == (TasksList {
                        spacebar_mode: false,
                        focused_pane: Some(0usize),
                        ..pre
                    })
                } else if pre.pane(pane_idx as int) matches Some(p) && p@ == n {
                    &&& post.pane(pane_idx as int) is None
                    &&& post.pane(1 - pane_idx as int) == pre.pane(1 - pane_idx as int)
                    &&& post.focus == if pre.focus == Focus::TerminalPane(pane_idx)
                        || !post.spec_has_visible_panes() {
                        Focus::TaskList
                    } else {
                        pre.focus
                    }
                    &&& post.focused_pane == if pre.focused_pane == Some(pane_idx)
                        || !post.spec_has_visible_panes() {
                        None::<usize>
                    } else {
                        pre.focused_pane
                    }
                    &&& post.spacebar_mode == (pre.spacebar_mode && post.spec_has_visible_panes())
                    &&& post.same_filter(pre)
                    &&& post.same_queue(pre)
                    &&& post.same_misc(pre)
                    &&& post.tasks@ == pre.tasks@
                    &&& post.filtered_names@ == pre.filtered_names@
                    &&& post.selection_manager == pre.selection_manager
                } else {
                    &&& (post.pane(pane_idx as int) matches Some(p) && p@ == n)
                    &&& post.pane(1 - pane_idx as int) == pre.pane(1 - pane_idx as int)
                    &&& post.focused_pane == Some(pane_idx)
                    &&& post.focus == Focus::TaskList
                    &&& !post.spacebar_mode
                    &&& post.same_filter(pre)
                    &&& post.same_queue(pre)
                    &&& post.same_misc(pre)
                    &&& post.tasks@ == pre.tasks@
                    &&& post.filtered_names@ == pre.filtered_names@
                    &&& post.selection_manager == pre.selection_manager
                }
            },
        }
    }

    pub fn assign_current_task_to_pane(&mut self, pane_idx: usize)
        requires
            old(self).wf(),
            pane_idx < 2,
        ensures
            final(self).wf(),
            Self::assign_rel(*old(self), *final(self), pane_idx),
            !(final(self).follow_mode() && final(self).has_pinned_pane()),
            !(final(self).follow_mode() && final(self).has_pinned_pane()),
    {
        let selected = self.selection_manager.get_selected_task_name();
        match selected {
            None => {},
            Some(task_name) => {
                if self.spacebar_mode && pane_idx == 0 {
                    self.spacebar_mode = false;
                    self.focused_pane = Some(0);
                    return;
                }
                let already_pinned = match if pane_idx == 0 {
                    &self.pane_task_0
                } else {
                    &self.pane_task_1
                } {
                    Some(p) => crate::text::str_eq(p.as_str(), task_name.as_str()),
                    None => false,
                };
                if already_pinned {
                    if pane_idx == 0 {
                        self.pane_task_0 = None;
                    } else {
                        self.pane_task_1 = None;
                    }
                    if matches!(self.focus, Focus::TerminalPane(i) if i == pane_idx) {
                        self.focus = Focus::TaskList;
                    }
                    match self.focused_pane {
                        Some(i) if i == pane_idx => {
                            self.focused_pane = None;
                        },
                        _ => {},
                    }
                    if !self.has_visible_panes() {
                        self.focused_pane = None;
                        self.focus = Focus::TaskList;
                        self.spacebar_mode = false;
                    }
                    return;
                }
                if pane_idx == 0 {
                    self.pane_task_0 = Some(task_name);
                } else {
                    self.pane_task_1 = Some(task_name);
                }
                self.focused_pane = Some(pane_idx);
                self.focus = Focus::TaskList;
                self.spacebar_mode = false;
            },
        }
    }

    /// Where one forward focus step lands: from the task list to the first
    /// occupied pane, from a pane to the next occupied one or back to the
    /// list, and from the help popup to the list. With no occupied pane the
    /// focus stays.
    pub open spec fn spec_focus_next(self) -> Focus {
        if !self.spec_has_visible_panes() {
            self.focus
        } else {
            match self.focus {
                Focus::TaskList => if self.pane(0) is Some {
                    Focus::TerminalPane(0usize)
                } else {
                    Focus::TerminalPane(1usize)
                },
                Focus::TerminalPane(c) => if c == 0 && self.pane(1) is Some {
                    Focus::TerminalPane(1usize)
                } else {
                    Focus::TaskList
                },
                Focus::HelpPopup => Focus::TaskList,
            }
        }
    }

    /// Where one backward focus step lands.
    pub open spec fn spec_focus_previous(self) -> Focus {
        if !self.spec_has_visible_panes() {
            self.focus
        } else {
            match self.focus {
                Focus::TaskList => if self.pane(1) is Some {
                    Focus::TerminalPane(1usize)
                } else {
                    Focus::TerminalPane(0usize)
                },
                Focus::TerminalPane(c) => if c == 1 && self.pane(0) is Some {
                    Focus::TerminalPane(0usize)
                } else {
                    Focus::TaskList
                },
                Focus::HelpPopup => Focus::TaskList,
            }
        }
    }

    /// Cycles focus forward across the task list and the occupied panes.
    pub fn focus_next(&mut self)
        requires
            old(self).wf(),
        ensures
            final(self).wf(),
            final(self).focus == old(self).spec_focus_next(),
            *final(self) == (TasksList { focus: final(self).focus, ..*old(self) }),
    {
        if !self.has_visible_panes() {
            return;
        }
        self.focus = match self.focus {
            Focus::TaskList => {
                if self.pane_task_0.is_some() {
                    Focus::TerminalPane(0)
                } else {
                    Focus::TerminalPane(1)
                }
            },
            Focus::TerminalPane(current) => {
                if current == 0 && self.pane_task_1.is_some() {
                    Focus::TerminalPane(1)
                } else {
                    Focus::TaskList
                }
            },
            Focus::HelpPopup => Focus::TaskList,
        };
    }

    /// Cycles focus backward across the task list and the occupied panes.
    pub fn focus_previous(&mut self)
        requires
            old(self).wf(),
        ensures
            final(self).wf(),
            final(self).focus == old(self).spec_focus_previous(),
            *final(self) == (TasksList { focus: final(self).focus, ..*old(self) }),
    {
        if !self.has_visible_panes() {
            return;
        }
        self.focus = match self.focus {
            Focus::TaskList => {
                if self.pane_task_1.is_some() {
                    Focus::TerminalPane(1)
                } else {
                    Focus::TerminalPane(0)
                }
            },
            Focus::TerminalPane(current) => {
                if current == 1 && self.pane_task_0.is_some() {
                    Focus::TerminalPane(0)
                } else {
                    Focus::TaskList
                }
            },
            Focus::HelpPopup => Focus::TaskList,
        };
    }

    /// Stably sorts the tasks — running first, failures leading the
    /// completed group, completed ordered by completion time, pending last —
    /// and rebuilds the filtered names and entry list over the new order.
    pub fn sort_tasks(&mut self)
        requires
            old(self).wf(),
        ensures
            final(self).wf(),
            exists|perm: Seq<int>|
                stable_sorted_perm(old(self).tasks@, final(self).tasks@, perm),
            final(self).entries_refreshed(
                final(self).tasks@,
                old(self).filter_text@,
                old(self).selection_manager.selected as int,
            ),
            final(self).follow_synced(
                old(self).spacebar_mode,
                old(self).pane_task_0,
                old(self).focus,
            ),
            final(self).same_filter(*old(self)),
            final(self).same_queue(*old(self)),
            final(self).same_misc(*old(self)),
            final(self).pane_task_1 == old(self).pane_task_1,
            final(self).spacebar_mode == old(self).spacebar_mode,
            final(self).focused_pane == old(self).focused_pane,
            final(self).selection_manager.items_per_page == old(self).selection_manager.items_per_page,
    {
        let perm = stable_sort_tasks(&mut self.tasks);
        self.apply_filter();
    }

    /// Whether enough wall-clock time has passed since the last automatic
    /// start for another one.
    pub open spec fn throttle_elapsed(self, now: u128) -> bool {
        match self.last_task_start {
            Some(l) => now >= l + START_THROTTLE_MS,
            None => true,
        }
    }

    /// The auto-start decision for time `now`: the front of the queue, when
    /// the throttle has elapsed and that task is still unstarted. A front
    /// entry whose task has already left `NotStarted` is dropped from the
    /// queue instead. The host spawns the chosen task's process and then
    /// commits the start.
    pub fn start_queue_candidate(&mut self, now: u128) -> (r: Option<usize>)
        requires
            old(self).wf(),
        ensures
            final(self).wf(),
            match r {
                Some(i) => {
                    &&& old(self).throttle_elapsed(now)
                    &&& old(self).queued_tasks@.len() > 0
                    &&& i == old(self).queued_tasks@[0]
                    &&& i < old(self).tasks@.len()
                    &&& old(self).tasks@[i as int].status is NotStarted
                    &&& *final(self) == *old(self)
                },
                None => {
                    &&& !(old(self).throttle_elapsed(now) && old(self).queued_tasks@.len() > 0
                        && old(self).queued_tasks@[0] < old(self).tasks@.len() && old(self).tasks@[old(self).queued_tasks@[0] as int].status is NotStarted)
                    &&& if old(self).throttle_elapsed(now) && old(self).queued_tasks@.len() > 0
                        && old(self).queued_tasks@[0] < old(self).tasks@.len() {
                        &&& final(self).queued_tasks@ == old(self).queued_tasks@.drop_first()
                        &&& *final(self) == (TasksList {
                            queued_tasks: final(self).queued_tasks,
                            ..*old(self)
                        })
                    } else {
                        *final(self) == *old(self)
                    }
                },
            },
    {
        match self.last_task_start {
            Some(last) => {
                if now < last || now - last < START_THROTTLE_MS {
                    return None;
                }
            },
            None => {},
        }
        if self.queued_tasks.len() == 0 {
            return None;
        }
        let idx = self.queued_tasks[0];
        if idx >= self.tasks.len() {
            return None;
        }
        if matches!(self.tasks[idx].status, TaskStatus::NotStarted) {
            Some(idx)
        } else {
            let _ = self.queued_tasks.remove(0);
            proof {
                assert(self.queued_tasks@ =~= old(self).queued_tasks@.drop_first());
            }
            None
        }
    }

    /// The started form of a task: running, stamped with its start time, and
    /// holding a fresh process-handle view with no exit yet.
    pub open spec fn spec_started_task(t: TaskItem, now: u128) -> TaskItem {
        TaskItem {
            status: TaskStatus::InProgress,
            started_at: Some(now),
            pty: Some(PtyHandle { exit_status: None, interactive: false }),
            ..t
        }
    }

    /// Commits a successful automatic start of task `i` at time `now`: the
    /// task transitions to `InProgress`, the throttle stamp becomes `now`,
    /// the queue drops its front entry, and the list re-sorts.
    pub fn commit_task_start(&mut self, i: usize, now: u128)
        requires
            old(self).wf(),
            old(self).queued_tasks@.len() > 0,
            old(self).queued_tasks@[0] == i,
            i < old(self).tasks@.len(),
            old(self).tasks@[i as int].status is NotStarted,
        ensures
            final(self).wf(),
            final(self).last_task_start == Some(now),
            final(self).queued_tasks@ == old(self).queued_tasks@.drop_first(),
            exists|perm: Seq<int>|
                stable_sorted_perm(
                    old(self).tasks@.update(
                        i as int,
                        Self::spec_started_task(old(self).tasks@[i as int], now),
                    ),
                    final(self).tasks@,
                    perm,
                ),
            final(self).entries_refreshed(
                final(self).tasks@,
                old(self).filter_text@,
                old(self).selection_manager.selected as int,
            ),
            final(self).follow_synced(
                old(self).spacebar_mode,
                old(self).pane_task_0,
                old(self).focus,
            ),
            final(self).same_filter(*old(self)),
            final(self).same_misc(*old(self)),
            final(self).pane_task_1 == old(self).pane_task_1,
            final(self).spacebar_mode == old(self).spacebar_mode,
            final(self).focused_pane == old(self).focused_pane,
    {
        self.tasks[i].mark_started(now, false);
        proof {
            assert(self.tasks@ =~= old(self).tasks@.update(
                i as int,
                Self::spec_started_task(old(self).tasks@[i as int], now),
            ));
        }
        self.last_task_start = Some(now);
        let _ = self.queued_tasks.remove(0);
        proof {
            assert(self.queued_tasks@ =~= old(self).queued_tasks@.drop_first());
        }
        self.sort_tasks();
    }

    /// One rate-limited auto-start step at time `now`, for a host whose
    /// process spawning cannot fail: picks the candidate and commits it.
    /// Returns the index of the task that was started, if any. No two starts
    /// ever commit within the throttle window of each other.
    /// The auto-start step has work it owes: the throttle has elapsed and
    /// the queue front names an unstarted task.
    pub open spec fn has_ready_front(self, now: u128) -> bool {
        &&& self.throttle_elapsed(now)
        &&& self.queued_tasks@.len() > 0
        &&& self.queued_tasks@[0] < self.tasks@.len()
        &&& self.tasks@[self.queued_tasks@[0] as int].status is NotStarted
    }

    pub fn try_start_next_task(&mut self, now: u128) -> (r: Option<usize>)
        requires
            old(self).wf(),
        ensures
            final(self).wf(),
            final(self).same_misc(*old(self)),
            final(self).same_filter(*old(self)),
            // A ready queue front owes a start: the front task, exactly.
            old(self).has_ready_front(now) ==> r == Some(old(self).queued_tasks@[0]),
            r matches Some(i) ==> {
                &&& old(self).has_ready_front(now)
                &&& i == old(self).queued_tasks@[0]
                &&& final(self).last_task_start == Some(now)
                &&& final(self).queued_tasks@ == old(self).queued_tasks@.drop_first()
                &&& exists|perm: Seq<int>|
                    stable_sorted_perm(
                        old(self).tasks@.update(
                            i as int,
                            Self::spec_started_task(old(self).tasks@[i as int], now),
                        ),
                        final(self).tasks@,
                        perm,
                    )
            },
            r is None ==> {
                &&& final(self).tasks@ == old(self).tasks@
                &&& final(self).last_task_start == old(self).last_task_start
                &&& if old(self).throttle_elapsed(now) && old(self).queued_tasks@.len() > 0
                    && old(self).queued_tasks@[0] < old(self).tasks@.len() {
                    // A stale front entry — its task already left
                    // `NotStarted` — is dropped without consuming the
                    // rate-limit window.
                    &&& final(self).queued_tasks@ == old(self).queued_tasks@.drop_first()
                    &&& *final(self) == (TasksList {
                        queued_tasks: final(self).queued_tasks,
                        ..*old(self)
                    })
                } else {
                    *final(self) == *old(self)
                }
            },
    {
        let candidate = self.start_queue_candidate(now);
        match candidate {
            Some(i) => {
                self.commit_task_start(i, now);
                Some(i)
            },
            None => None,
        }
    }

    /// Abandons an automatic start whose process could not be created: the
    /// queue drops its front entry, the task stays `NotStarted`, nothing is
    /// surfaced to the operator, and the rate-limit window is not consumed.
    pub fn abort_task_start(&mut self, i: usize)
        requires
            old(self).wf(),
            old(self).queued_tasks@.len() > 0,
            old(self).queued_tasks@[0] == i,
        ensures
            final(self).wf(),
            final(self).queued_tasks@ == old(self).queued_tasks@.drop_first(),
            final(self).last_task_start == old(self).last_task_start,
            *final(self) == (TasksList { queued_tasks: final(self).queued_tasks, ..*old(self) }),
    {
        let _ = self.queued_tasks.remove(0);
        proof {
            assert(self.queued_tasks@ =~= old(self).queued_tasks@.drop_first());
        }
    }

    /// Runs the tick reconciliation over every task and reports whether any
    /// status changed.
    pub fn reconcile_statuses(&mut self, now: u128) -> (changed: bool)
        requires
            old(self).wf(),
        ensures
            final(self).wf(),
            final(self).tasks@.len() == old(self).tasks@.len(),
            forall|k: int|
                0 <= k < old(self).tasks@.len() ==> reconcile_rel(
                    old(self).tasks@[k],
                    #[trigger] final(self).tasks@[k],
                    now,
                ),
            changed == exists|k: int|
                0 <= k < old(self).tasks@.len() && (#[trigger] final(self).tasks@[k]).status
                    != old(self).tasks@[k].status,
            *final(self) == (TasksList { tasks: final(self).tasks, ..*old(self) }),
    {
        let mut changed = false;
        let n = self.tasks.len();
        let mut i: usize = 0;
        while i < n
            invariant
                i <= n,
                n == self.tasks@.len(),
                n == old(self).tasks@.len(),
                forall|k: int|
                    0 <= k < i ==> reconcile_rel(
                        old(self).tasks@[k],
                        #[trigger] self.tasks@[k],
                        now,
                    ),
                forall|k: int| i <= k < n ==> #[trigger] self.tasks@[k] == old(self).tasks@[k],
                changed == exists|k: int|
                    0 <= k < i && (#[trigger] self.tasks@[k]).status != old(self).tasks@[k].status,
                *self == (TasksList { tasks: self.tasks, ..*old(self) }),
            decreases n - i,
        {
            let ghost prev = self.tasks@;
            let ghost was_changed = changed;
            let old_status = self.tasks[i].status;
            self.tasks[i].update_status(now);
            let step_changed = !status_eq(self.tasks[i].status, old_status);
            if step_changed {
                changed = true;
            }
            proof {
                assert(forall|k: int| 0 <= k < n && k != i ==> #[trigger] self.tasks@[k] == prev[k]);
                if changed {
                    if step_changed {
                        assert(self.tasks@[i as int].status != old(self).tasks@[i as int].status);
                    } else {
                        let w = choose|k: int|
                            0 <= k < i && (#[trigger] prev[k]).status != old(self).tasks@[k].status;
                        assert(self.tasks@[w] == prev[w]);
                        assert(self.tasks@[w].status != old(self).tasks@[w].status);
                    }
                } else {
                    assert forall|k: int| 0 <= k < i + 1 implies (#[trigger] self.tasks@[k]).status
                        == old(self).tasks@[k].status by {
                        if k < i {
                            assert(self.tasks@[k] == prev[k]);
                            assert(!(prev[k].status != old(self).tasks@[k].status));
                        }
                    }
                }
            }
            i = i + 1;
        }
        changed
    }

    /// Reacts to a window resize. The host resizes the panes' real process
    /// handles itself and reports whether any handle was replaced; a
    /// replacement can change ordering-relevant state, so the list re-sorts.
    pub fn handle_resize(&mut self, _width: u16, _height: u16, pty_replaced: bool)
        requires
            old(self).wf(),
        ensures
            final(self).wf(),
            !pty_replaced ==> *final(self) == *old(self),
            pty_replaced ==> {
                &&& exists|perm: Seq<int>|
                    stable_sorted_perm(old(self).tasks@, final(self).tasks@, perm)
                &&& final(self).entries_refreshed(
                    final(self).tasks@,
                    old(self).filter_text@,
                    old(self).selection_manager.selected as int,
                )
                &&& final(self).follow_synced(
                    old(self).spacebar_mode,
                    old(self).pane_task_0,
                    old(self).focus,
                )
                &&& final(self).same_filter(*old(self))
                &&& final(self).same_queue(*old(self))
                &&& final(self).same_misc(*old(self))
            },
    {
        if pty_replaced {
            self.sort_tasks();
        }
    }

    /// Replaces the task set from a load event: fresh `NotStarted` records in
    /// the given order, then a sort and a filter refresh.
    pub fn load_tasks(&mut self, tasks: Vec<Task>)
        requires
            old(self).wf(),
        ensures
            final(self).wf(),
            exists|items: Seq<TaskItem>, perm: Seq<int>|
                {
                    &&& items.len() == tasks@.len()
                    &&& (forall|k: int|
                        0 <= k < items.len() ==> fresh_task_rel(#[trigger] items[k], tasks@[k]))
                    &&& stable_sorted_perm(items, final(self).tasks@, perm)
                },
            final(self).entries_refreshed(
                final(self).tasks@,
                old(self).filter_text@,
                old(self).selection_manager.selected as int,
            ),
            final(self).same_filter(*old(self)),
            final(self).same_queue(*old(self)),
            final(self).same_misc(*old(self)),
    {
        let mut task_items: Vec<TaskItem> = Vec::new();
        let mut i: usize = 0;
        while i < tasks.len()
            invariant
                i <= tasks@.len(),
                task_items@.len() == i,
                forall|k: int|
                    0 <= k < i ==> fresh_task_rel(#[trigger] task_items@[k], tasks@[k]),
            decreases tasks@.len() - i,
        {
            let continuous = match tasks[i].continuous {
                Some(c) => c,
                None => false,
            };
            task_items.push(TaskItem::new(tasks[i].id.clone(), continuous));
            i = i + 1;
        }
        let ghost items = task_items@;
        self.tasks = task_items;
        self.sort_tasks();
    }

    /// Marks the named tasks as started by the runner at time `now`: each
    /// named record becomes `InProgress` with a fresh process-handle view,
    /// and the list re-sorts.
    pub fn start_tasks(&mut self, tasks: Vec<Task>, now: u128)
        requires
            old(self).wf(),
        ensures
            final(self).wf(),
            exists|perm: Seq<int>|
                stable_sorted_perm(
                    spec_start_all(old(self).tasks@, tasks@, now),
                    final(self).tasks@,
                    perm,
                ),
            final(self).entries_refreshed(
                final(self).tasks@,
                old(self).filter_text@,
                old(self).selection_manager.selected as int,
            ),
            final(self).same_filter(*old(self)),
            final(self).same_queue(*old(self)),
            final(self).same_misc(*old(self)),
    {
        let mut i: usize = 0;
        while i < tasks.len()
            invariant
                old(self).wf(),
                i <= tasks@.len(),
                self.tasks@ == spec_start_all(old(self).tasks@, tasks@.subrange(0, i as int), now),
                *self == (TasksList { tasks: self.tasks, ..*old(self) }),
            decreases tasks@.len() - i,
        {
            let ghost pre = self.tasks@;
            match crate::entries::find_task_index(&self.tasks, tasks[i].id.as_str()) {
                Some(j) => {
                    let t = &mut self.tasks[j];
                    t.status = TaskStatus::InProgress;
                    t.started_at = Some(now);
                    t.pty = Some(PtyHandle { exit_status: None, interactive: false });
                    proof {
                        assert(self.tasks@ =~= spec_start_one(pre, tasks@[i as int].id@, now));
                    }
                },
                None => {
                    proof {
                        assert(self.tasks@ =~= spec_start_one(pre, tasks@[i as int].id@, now));
                    }
                },
            }
            proof {
                let sub = tasks@.subrange(0, i + 1);
                assert(sub.drop_last() =~= tasks@.subrange(0, i as int));
                assert(sub.last() == tasks@[i as int]);
            }
            i = i + 1;
        }
        proof {
            assert(tasks@.subrange(0, tasks@.len() as int) =~= tasks@);
        }
        self.sort_tasks();
    }

    /// Ingests completion reports from the runner. Every reported status must
    /// name a terminal state; otherwise the whole batch is rejected with the
    /// parse error and nothing changes. On success each named task takes its
    /// report — output, status and completion stamp — and the list re-sorts.
    #[verifier::rlimit(100)]
    pub fn end_tasks(&mut self, task_results: Vec<TaskResult>, now: u128) -> (r: Result<
        (),
        String,
    >)
        requires
            old(self).wf(),
        ensures
            final(self).wf(),
            r is Ok <==> results_parse_ok(task_results@),
            r is Err ==> *final(self) == *old(self),
            r is Ok ==> {
                &&& exists|mid: Seq<TaskItem>, perm: Seq<int>|
                    {
                        &&& end_all_rel(old(self).tasks@, mid, task_results@, now)
                        &&& stable_sorted_perm(mid, final(self).tasks@, perm)
                    }
                &&& final(self).entries_refreshed(
                    final(self).tasks@,
                    old(self).filter_text@,
                    old(self).selection_manager.selected as int,
                )
                &&& final(self).same_filter(*old(self))
                &&& final(self).same_queue(*old(self))
                &&& final(self).same_misc(*old(self))
            },
    {
        // Validate every reported status before touching any task.
        let mut parsed: Vec<Option<TaskStatus>> = Vec::new();
        let mut i: usize = 0;
        while i < task_results.len()
            invariant
                old(self).wf(),
                *self == *old(self),
                i <= task_results@.len(),
                parsed@.len() == i,
                forall|k: int|
                    0 <= k < i ==> #[trigger] parsed@[k] == (match task_results@[k].terminal_output {
                        Some(_) => status_for_keyword(lower_of(task_results@[k].status@)),
                        None => None::<TaskStatus>,
                    }),
                forall|k: int|
                    0 <= k < i ==> ((#[trigger] task_results@[k]).terminal_output is Some
                        ==> status_for_keyword(lower_of(task_results@[k].status@)) is Some),
            decreases task_results@.len() - i,
        {
            match &task_results[i].terminal_output {
                Some(_) => {
                    match TaskStatus::from_str(task_results[i].status.as_str()) {
                        Ok(st) => parsed.push(Some(st)),
                        Err(e) => {
                            proof {
                                assert(task_results@[i as int].terminal_output is Some);
                                assert(status_for_keyword(
                                    lower_of(task_results@[i as int].status@),
                                ) is None);
                                assert(!results_parse_ok(task_results@));
                            }
                            return Err(e);
                        },
                    }
                },
                None => parsed.push(None),
            }
            i = i + 1;
        }
        // Apply each report in order.
        let mut i: usize = 0;
        while i < task_results.len()
            invariant
                old(self).wf(),
                results_parse_ok(task_results@),
                i <= task_results@.len(),
                parsed@.len() == task_results@.len(),
                forall|k: int|
                    0 <= k < task_results@.len() ==> #[trigger] parsed@[k] == (
                    match task_results@[k].terminal_output {
                        Some(_) => status_for_keyword(lower_of(task_results@[k].status@)),
                        None => None::<TaskStatus>,
                    }),
                end_all_rel(
                    old(self).tasks@,
                    self.tasks@,
                    task_results@.subrange(0, i as int),
                    now,
                ),
                *self == (TasksList { tasks: self.tasks, ..*old(self) }),
            decreases task_results@.len() - i,
        {
            let ghost pre = self.tasks@;
            match crate::entries::find_task_index(&self.tasks, task_results[i].task_id.as_str()) {
                Some(j) => {
                    match &task_results[i].terminal_output {
                        Some(out) => {
                            let st = match parsed[i] {
                                Some(st) => st,
                                None => TaskStatus::Success,
                            };
                            assert(Some(st) == status_for_keyword(
                                lower_of(task_results@[i as int].status@),
                            ));
                            self.tasks[j].update_output(out.as_str(), st);
                        },
                        None => {},
                    }
                    if self.tasks[j].completed_at.is_none() {
                        self.tasks[j].completed_at = Some(now);
                        match self.tasks[j].started_at {
                            Some(started) => {
                                let d = crate::text::format_duration_since(started, now);
                                self.tasks[j].duration = d;
                            },
                            None => {},
                        }
                    }
                    proof {
                        assert(end_item_rel(
                            pre[j as int],
                            self.tasks@[j as int],
                            task_results@[i as int],
                            now,
                        ));
                        assert(end_one_rel(pre, self.tasks@, task_results@[i as int], now));
                    }
                },
                None => {
                    proof {
                        assert(end_one_rel(pre, self.tasks@, task_results@[i as int], now));
                    }
                },
            }
            proof {
                let sub = task_results@.subrange(0, i + 1);
                assert(sub.drop_last() =~= task_results@.subrange(0, i as int));
                assert(sub.last() == task_results@[i as int]);
                assert(end_all_rel(old(self).tasks@, self.tasks@, sub, now));
            }
            i = i + 1;
        }
        proof {
            assert(task_results@.subrange(0, task_results@.len() as int) =~= task_results@);
        }
        let ghost mid = self.tasks@;
        self.sort_tasks();
        Ok(())
    }

    /// Replaces the named task's process-handle view and re-sorts.
    pub fn update_task_pty(&mut self, task_id: &str, pty: PtyHandle)
        requires
            old(self).wf(),
        ensures
            final(self).wf(),
            first_index_with_name(old(self).tasks@, task_id@) is None ==> *final(self) == *old(self),
            first_index_with_name(old(self).tasks@, task_id@) matches Some(j) ==> {
                &&& exists|perm: Seq<int>|
                    stable_sorted_perm(
                        old(self).tasks@.update(j, with_pty(old(self).tasks@[j], pty)),
                        final(self).tasks@,
                        perm,
                    )
                &&& final(self).entries_refreshed(
                    final(self).tasks@,
                    old(self).filter_text@,
                    old(self).selection_manager.selected as int,
                )
                &&& final(self).same_filter(*old(self))
                &&& final(self).same_queue(*old(self))
                &&& final(self).same_misc(*old(self))
            },
    {
        match crate::entries::find_task_index(&self.tasks, task_id) {
            Some(j) => {
                self.tasks[j].pty = Some(pty);
                proof {
                    assert(self.tasks@ =~= old(self).tasks@.update(
                        j as int,
                        with_pty(old(self).tasks@[j as int], pty),
                    ));
                }
                self.sort_tasks();
            },
            None => {},
        }
    }

    /// Completes the named task from a cache hit at time `now` and re-sorts.
    /// A missing output copy stands for empty output.
    pub fn complete_cached_task(
        &mut self,
        task_id: &str,
        status: TaskStatus,
        output: Option<&str>,
        now: u128,
    )
        requires
            old(self).wf(),
            status.is_cache(),
        ensures
            final(self).wf(),
            first_index_with_name(old(self).tasks@, task_id@) is None ==> *final(self) == *old(self),
            first_index_with_name(old(self).tasks@, task_id@) matches Some(j) ==> {
                &&& exists|mid: Seq<TaskItem>, perm: Seq<int>|
                    {
                        &&& mid.len() == old(self).tasks@.len()
                        &&& (forall|k: int|
                            0 <= k < mid.len() && k != j ==> #[trigger] mid[k] == old(self).tasks@[k])
                        &&& cached_item_rel(
                            old(self).tasks@[j],
                            mid[j],
                            status,
                            match output {
                                Some(o) => o@,
                                None => Seq::<char>::empty(),
                            },
                            now,
                        )
                        &&& stable_sorted_perm(mid, final(self).tasks@, perm)
                    }
                &&& final(self).entries_refreshed(
                    final(self).tasks@,
                    old(self).filter_text@,
                    old(self).selection_manager.selected as int,
                )
                &&& final(self).same_filter(*old(self))
                &&& final(self).same_queue(*old(self))
                &&& final(self).same_misc(*old(self))
            },
    {
        let out = match output {
            Some(o) => o,
            None => "",
        };
        proof {
            reveal_strlit("");
            assert(""@ =~= Seq::<char>::empty());
        }
        match crate::entries::find_task_index(&self.tasks, task_id) {
            Some(j) => {
                self.tasks[j].complete_from_cache(status, out, now);
                proof {
                    assert(forall|k: int|
                        0 <= k < self.tasks@.len() && k != j ==> #[trigger] self.tasks@[k] == old(self).tasks@[k]);
                    assert(cached_item_rel(
                        old(self).tasks@[j as int],
                        self.tasks@[j as int],
                        status,
                        match output {
                            Some(o) => o@,
                            None => Seq::<char>::empty(),
                        },
                        now,
                    ));
                }
                self.sort_tasks();
            },
            None => {},
        }
    }

    /// The process-handle view of the named task, if it has one.
    pub fn get_active_pty_for_task(&self, task_id: &str) -> (r: Option<PtyHandle>)
        ensures
            r == match first_index_with_name(self.tasks@, task_id@) {
                Some(j) => self.tasks@[j].pty,
                None => None::<PtyHandle>,
            },
    {
        match crate::entries::find_task_index(&self.tasks, task_id) {
            Some(j) => self.tasks[j].pty,
            None => None,
        }
    }

    /// The running and remaining counts over the filtered tasks.
    pub fn get_task_counts(&self) -> (r: (usize, usize))
        ensures
            r.0 == spec_running_count(self.tasks@, self.filtered_names@),
            r.1 == spec_remaining_count(self.tasks@, self.filtered_names@),
    {
        crate::counts::task_counts(&self.tasks, &self.filtered_names)
    }

    /// The header status line for the current filtered view.
    pub fn header_status_text(&self, collapsed: bool) -> (r: String)
        ensures
            r@ == crate::counts::spec_header_status(self.tasks@, self.filtered_names@, collapsed),
    {
        crate::counts::header_status_text(&self.tasks, &self.filtered_names, collapsed)
    }

    /// One timer tick at time `now`: the throbber advances, at most one
    /// rate-limited automatic start commits, every task reconciles against
    /// its process handle, and the list re-sorts exactly when a status
    /// moved.
    #[verifier::rlimit(100)]
    #[verifier::spinoff_prover]
    fn tick(&mut self, now: u128)
        requires
            old(self).wf(),
        ensures
            final(self).wf(),
            final(self).throbber_counter == (if old(self).throbber_counter == usize::MAX {
                0usize
            } else {
                (old(self).throbber_counter + 1) as usize
            }),
            !old(self).throttle_elapsed(now) ==> final(self).last_task_start == old(self).last_task_start,
            final(self).last_task_start == old(self).last_task_start || final(self).last_task_start
                == Some(now),
            exists|started: Option<int>, s2: Seq<TaskItem>, mid: Seq<TaskItem>|
                {
                    &&& #[trigger] tick_step_rel(
                        old(self).tasks@,
                        s2,
                        mid,
                        final(self).tasks@,
                        started,
                        now,
                    )
                    &&& (started is Some ==> old(self).throttle_elapsed(now) && final(self).last_task_start == Some(now))
                },
    {
        self.throbber_counter = if self.throbber_counter == usize::MAX {
            0
        } else {
            self.throbber_counter + 1
        };
        let started = self.try_start_next_task(now);
        let ghost s2 = self.tasks@;
        let changed = self.reconcile_statuses(now);
        let ghost mid = self.tasks@;
        if changed {
            self.sort_tasks();
        }
        proof {
            let started_spec: Option<int> = match started {
                Some(i) => Some(i as int),
                None => None,
            };
            assert(tick_step_rel(old(self).tasks@, s2, mid, self.tasks@, started_spec, now));
        }
    }

    /// How one dispatched action relates the registry before and after:
    /// the exact per-action transition that `update` performs.
    pub open spec fn update_rel(pre: TasksList, post: TasksList, action: Action, now: u128) -> bool {
            match action {
                Action::Tick => {
                    &&& post.throbber_counter == (if pre.throbber_counter
                        == usize::MAX {
                        0usize
                    } else {
                        (pre.throbber_counter + 1) as usize
                    })
                    &&& (!pre.throttle_elapsed(now) ==> post.last_task_start == pre.last_task_start)
                    &&& (post.last_task_start == pre.last_task_start || post.last_task_start == Some(now))
                    &&& exists|started: Option<int>, s2: Seq<TaskItem>, mid: Seq<TaskItem>|
                        {
                            &&& #[trigger] tick_step_rel(
                                pre.tasks@,
                                s2,
                                mid,
                                post.tasks@,
                                started,
                                now,
                            )
                            &&& (started is Some ==> pre.throttle_elapsed(now) && post.last_task_start == Some(now))
                        }
                },
                Action::EnterFilterMode => if pre.filter_mode {
                    post == (TasksList {
                        filter_mode: false,
                        filter_persisted: false,
                        ..pre
                    })
                } else if pre.filter_text@.len() > 0 && !pre.filter_persisted {
                    post == (TasksList {
                        filter_persisted: true,
                        filter_mode: false,
                        ..pre
                    })
                } else {
                    post == (TasksList {
                        filter_persisted: false,
                        filter_mode: true,
                        ..pre
                    })
                },
                Action::ClearFilter => {
                    &&& post.filter_text@.len() == 0
                    &&& !post.filter_mode
                    &&& !post.filter_persisted
                    &&& post.entries_refreshed(
                        pre.tasks@,
                        Seq::<char>::empty(),
                        pre.selection_manager.selected as int,
                    )
                    &&& post.tasks@ == pre.tasks@
                },
                Action::AddFilterChar(c) => if pre.filter_mode {
                    if c == '/' {
                        if pre.filter_text@.len() > 0 && !pre.filter_persisted {
                            post == (TasksList {
                                filter_persisted: true,
                                filter_mode: false,
                                ..pre
                            })
                        } else {
                            post == pre
                        }
                    } else if pre.filter_persisted {
                        post == pre
                    } else {
                        post.filter_text@ == pre.filter_text@.push(c) && post.entries_refreshed(
                            pre.tasks@,
                            post.filter_text@,
                            pre.selection_manager.selected as int,
                        )
                    }
                } else {
                    post == pre
                },
                Action::RemoveFilterChar => if pre.filter_mode {
                    post.filter_text@ == (if pre.filter_text@.len() > 0 {
                        pre.filter_text@.drop_last()
                    } else {
                        pre.filter_text@
                    }) && post.entries_refreshed(
                        pre.tasks@,
                        post.filter_text@,
                        pre.selection_manager.selected as int,
                    )
                } else {
                    post == pre
                },
                Action::ScrollUp => post == (TasksList {
                    scroll_offset: post.scroll_offset,
                    ..pre
                }) && post.scroll_offset == (if pre.spec_is_scrollable() && pre.scroll_offset > 0 {
                    (pre.scroll_offset - 1) as usize
                } else {
                    pre.scroll_offset
                }),
                Action::ScrollDown => post == (TasksList {
                    scroll_offset: post.scroll_offset,
                    ..pre
                }) && post.scroll_offset == (if pre.spec_is_scrollable() && pre.scroll_offset < pre.content_height - pre.viewport_height {
                    (pre.scroll_offset + 1) as usize
                } else {
                    pre.scroll_offset
                }),
                _ => post == pre,
            }
    }

    /// Dispatches one action into the registry state at time `now`, exactly
    /// as `update_rel` describes: a tick advances the throbber, commits at
    /// most one rate-limited automatic start, reconciles every task against
    /// its process handle, and re-sorts exactly when a status moved; filter
    /// actions edit the filter only while filter editing is active; scroll
    /// actions move within the rendered content; everything else leaves the
    /// registry untouched.
    #[verifier::rlimit(80)]
    pub fn update(&mut self, action: &Action, now: u128)
        requires
            old(self).wf(),
        ensures
            final(self).wf(),
            Self::update_rel(*old(self), *final(self), *action, now),
    {
        match action {
            Action::Tick => {
                self.tick(now);
            },
            Action::EnterFilterMode => {
                if self.filter_mode {
                    self.exit_filter_mode();
                } else {
                    self.enter_filter_mode();
                }
            },
            Action::ClearFilter => {
                self.clear_filter();
            },
            Action::AddFilterChar(c) => {
                if self.filter_mode {
                    let ch = *c;
                    self.add_filter_char(ch);
                }
            },
            Action::RemoveFilterChar => {
                if self.filter_mode {
                    self.remove_filter_char();
                }
            },
            Action::ScrollUp => {
                self.scroll_up();
            },
            Action::ScrollDown => {
                self.scroll_down();
            },
            _ => {},
        }
    }
}

/// The task with its process-handle view replaced.
pub open spec fn with_pty(t: TaskItem, pty: PtyHandle) -> TaskItem {
    TaskItem { pty: Some(pty), ..t }
}

/// The fresh record a load event makes from one given task.
pub open spec fn fresh_task_rel(item: TaskItem, task: Task) -> bool {
    &&& item.name@ == task.id@
    &&& item.continuous == (task.continuous == Some(true))
    &&& item.status is NotStarted
    &&& item.pty is None
    &&& item.started_at is None
    &&& item.completed_at is None
    &&& item.terminal_output@.len() == 0
    &&& item.duration@.len() == 0
}

/// How one tick's reconciliation relates a task to its updated form: a
/// non-continuous task whose process exited and which was still in an
/// engine-internal state completes with `now` and its exit code; a continuous
/// task with a handle refreshes its duration marker; nothing else changes.
pub open spec fn reconcile_rel(pre: TaskItem, post: TaskItem, now: u128) -> bool {
    &&& (pre.reconciles_now() ==> {
        &&& post.completed_at == Some(now)
        &&& post.status == (if pre.pty.unwrap().exit_status.unwrap() == 0 {
            TaskStatus::Success
        } else {
            TaskStatus::Failure
        })
        &&& post.cache@ == "Miss"@
        &&& post.duration@ == match pre.started_at {
            Some(start) => crate::text::spec_duration(
                if now >= start {
                    now - start
                } else {
                    0
                },
            ),
            None => pre.duration@,
        }
    })
    &&& (!pre.reconciles_now() ==> {
        &&& post.status == pre.status
        &&& post.completed_at == pre.completed_at
        &&& post.cache == pre.cache
        &&& post.duration@ == if pre.continuous && pre.pty is Some {
            "Continuous"@
        } else {
            pre.duration@
        }
    })
    &&& post.name == pre.name
    &&& post.continuous == pre.continuous
    &&& post.started_at == pre.started_at
    &&& post.pty == pre.pty
    &&& post.terminal_output == pre.terminal_output
}

/// The task-list trajectory of one tick: an optional committed start, then
/// sorting, then reconciliation, then sorting again if any status moved.
pub open spec fn tick_step_rel(
    pre: Seq<TaskItem>,
    s2: Seq<TaskItem>,
    mid: Seq<TaskItem>,
    post: Seq<TaskItem>,
    started: Option<int>,
    now: u128,
) -> bool {
    &&& (match started {
        Some(i) => 0 <= i < pre.len() && exists|perm1: Seq<int>|
            stable_sorted_perm(
                pre.update(i, TasksList::spec_started_task(pre[i], now)),
                s2,
                perm1,
            ),
        None => s2 == pre,
    })
    &&& mid.len() == s2.len()
    &&& (forall|k: int| 0 <= k < s2.len() ==> reconcile_rel(s2[k], #[trigger] mid[k], now))
    &&& if exists|k: int| 0 <= k < s2.len() && (#[trigger] mid[k]).status != s2[k].status {
        exists|perm2: Seq<int>| stable_sorted_perm(mid, post, perm2)
    } else {
        post == mid
    }
}

/// The record a runner start event leaves on the first task named `id`.
pub open spec fn spec_start_one(tasks: Seq<TaskItem>, id: Seq<char>, now: u128) -> Seq<TaskItem> {
    match first_index_with_name(tasks, id) {
        Some(j) => tasks.update(
            j,
            (TaskItem {
                status: TaskStatus::InProgress,
                started_at: Some(now),
                pty: Some(PtyHandle { exit_status: None, interactive: false }),
                ..tasks[j]
            }),
        ),
        None => tasks,
    }
}

/// The records a runner start event leaves for a batch, applied in order.
pub open spec fn spec_start_all(tasks: Seq<TaskItem>, given: Seq<Task>, now: u128) -> Seq<TaskItem>
    decreases given.len(),
{
    if given.len() == 0 {
        tasks
    } else {
        spec_start_one(spec_start_all(tasks, given.drop_last(), now), given.last().id@, now)
    }
}

/// Every reported status in the batch names a terminal state (reports
/// without output carry no status to parse).
pub open spec fn results_parse_ok(results: Seq<TaskResult>) -> bool {
    forall|k: int|
        0 <= k < results.len() ==> ((#[trigger] results[k]).terminal_output is Some
            ==> status_for_keyword(lower_of(results[k].status@)) is Some)
}

/// How one completion report changes the task it names: with an output copy,
/// the output, parsed status and rebuilt handle are taken; either way a task
/// not yet stamped takes `now` as its completion time and derives its
/// duration from its start stamp.
pub open spec fn end_item_rel(pre: TaskItem, post: TaskItem, r: TaskResult, now: u128) -> bool {
    &&& (match r.terminal_output {
        Some(out) => {
            &&& post.terminal_output@ == out@
            &&& Some(post.status) == status_for_keyword(lower_of(r.status@))
            &&& post.pty == Some(
                PtyHandle {
                    exit_status: Some(spec_exit_code_for_status(post.status)),
                    interactive: false,
                },
            )
        },
        None => {
            &&& post.terminal_output == pre.terminal_output
            &&& post.status == pre.status
            &&& post.pty == pre.pty
        },
    })
    &&& post.name == pre.name
    &&& post.continuous == pre.continuous
    &&& post.started_at == pre.started_at
    &&& post.cache == pre.cache
    &&& (pre.completed_at is Some ==> post.completed_at == pre.completed_at && post.duration
        == pre.duration)
    &&& (pre.completed_at is None ==> post.completed_at == Some(now) && post.duration@ == match pre.started_at {
        Some(s) => crate::text::spec_duration(
            if now >= s {
                now - s
            } else {
                0
            },
        ),
        None => pre.duration@,
    })
}

/// How one completion report changes the task list: only the first task it
/// names, if any, changes.
pub open spec fn end_one_rel(
    pre: Seq<TaskItem>,
    post: Seq<TaskItem>,
    r: TaskResult,
    now: u128,
) -> bool {
    match first_index_with_name(pre, r.task_id@) {
        None => post == pre,
        Some(j) => {
            &&& post.len() == pre.len()
            &&& (forall|k: int| 0 <= k < pre.len() && k != j ==> #[trigger] post[k] == pre[k])
            &&& end_item_rel(pre[j], post[j], r, now)
        },
    }
}

/// How a batch of completion reports changes the task list, applied in
/// order.
pub open spec fn end_all_rel(
    pre: Seq<TaskItem>,
    post: Seq<TaskItem>,
    results: Seq<TaskResult>,
    now: u128,
) -> bool
    decreases results.len(),
{
    if results.len() == 0 {
        post == pre
    } else {
        exists|mid: Seq<TaskItem>|
            {
                &&& end_all_rel(pre, mid, results.drop_last(), now)
                &&& end_one_rel(mid, post, results.last(), now)
            }
    }
}

/// How a cache hit changes the task it completes.
pub open spec fn cached_item_rel(
    pre: TaskItem,
    post: TaskItem,
    status: TaskStatus,
    out: Seq<char>,
    now: u128,
) -> bool {
    &&& post.status == status
    &&& post.started_at == Some(now)
    &&& post.completed_at == Some(now)
    &&& post.duration@ == "<1ms"@
    &&& post.terminal_output@ == out
    &&& post.cache@ == spec_cache_label(status)
    &&& post.pty == Some(
        PtyHandle { exit_status: Some(spec_exit_code_for_status(status)), interactive: false },
    )
    &&& post.name == pre.name
    &&& post.continuous == pre.continuous
}

/// Whether two statuses are the same.
fn status_eq(a: TaskStatus, b: TaskStatus) -> (r: bool)
    ensures
        r == (a == b),
{
    a == b
}

impl Default for TasksList {
    /// An empty registry with default display state.
    fn default() -> (r: Self)
        ensures
            r.wf(),
            r.tasks@.len() == 0,
            r.filtered_names@.len() == 0,
            r.filter_text@.len() == 0,
            !r.filter_mode,
            !r.filter_persisted,
            r.focus == Focus::TaskList,
            r.pane_task_0 is None,
            r.pane_task_1 is None,
            r.focused_pane is None,
            !r.spacebar_mode,
            r.queued_tasks@.len() == 0,
            r.last_task_start is None,
            !r.task_list_hidden,
    {
        TasksList::new(Vec::new(), Vec::new(), CommandLookup::new())
    }
}

/// Pane-mode exclusivity law: in every well-formed registry state — and
/// every operation of the registry preserves well-formedness — follow mode
/// never coexists with a pinned slot: while slot 0 follows the selection,
/// slot 1 is empty and no pane is marked active.
pub proof fn lemma_pane_mode_exclusive(s: TasksList)
    requires
        s.wf(),
    ensures
        !(s.follow_mode() && s.has_pinned_pane()),
        s.follow_mode() ==> s.pane(1) is None && s.focused_pane is None,
{
}

/// Focus-reachability law: in every well-formed registry state an output
/// pane owns focus only while its slot is assigned.
pub proof fn lemma_focus_reachable(s: TasksList)
    requires
        s.wf(),
    ensures
        s.focus matches Focus::TerminalPane(i) ==> i < 2 && s.pane(i as int) is Some,
{
}

/// Rate-limit law: once a start has committed at time `t1`, the throttle
/// rejects every time before `t1 + 1500`, so `try_start_next_task` starts
/// nothing and leaves the state untouched until the window has passed.
pub proof fn lemma_rate_limit(s: TasksList, t1: u128, t2: u128)
    requires
        s.last_task_start == Some(t1),
        t2 < t1 + START_THROTTLE_MS,
    ensures
        !s.throttle_elapsed(t2),
{
}

} // verus!
