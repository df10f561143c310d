//! State engine for an interactive terminal dashboard that supervises a batch
//! of concurrently executing build tasks.
//!
//! The crate holds the event-driven core: the task registry with its
//! filtering, sorting and pane-assignment rules, the selection and pagination
//! manager, the focus state machine, the rate-limited auto-start queue, the
//! log-watcher decision logic, and the orchestrator that dispatches every
//! incoming event. Terminal rendering, process spawning and filesystem
//! watching are left to the host around the library; the library speaks to
//! them in plain values.

mod app;
mod counts;
mod entries;
mod events;
mod focus;
mod json;
mod layout;
mod selection;
mod tasks_list;
mod watcher;
mod sorting;
mod status;
mod task_item;
mod text;

pub use app::App;
pub use app::EventOutcome;
pub use app::ForwardedKey;
pub use app::is_quit_key;
pub use counts::header_status_text;
pub use counts::spec_header_status;
pub use counts::spec_remaining_count;
pub use counts::spec_running_count;
pub use counts::task_counts;
pub use entries::contains_name;
pub use entries::entry_group;
pub use entries::find_task_index;
pub use entries::lemma_empty_filter_keeps_all;
pub use entries::lemma_filter_membership;
pub use entries::first_index_with_name;
pub use events::Action;
pub use events::Event;
pub use events::KeyCode;
pub use events::KeyEvent;
pub use events::MouseKind;
pub use entries::first_task_with_name;
pub use entries::name_matches_filter;
pub use entries::spec_entries_with_separator;
pub use entries::spec_filtered_names;
pub use entries::spec_group_names;
pub use focus::Focus;
pub use json::parse_log_entry;
pub use layout::PaneArrangement;
pub use layout::collapsed_mode;
pub use layout::pane_arrangement;
pub use layout::pane_is_focused;
pub use layout::pane_output_width;
pub use layout::small_viewport_message;
pub use layout::task_list_dimmed;
pub use layout::task_list_width;
pub use layout::viewport_too_small;
pub use json::spec_log_content;
pub use selection::TaskSelectionManager;
pub use counts::filter_header_text;
pub use tasks_list::START_THROTTLE_MS;
pub use tasks_list::TasksList;
pub use tasks_list::end_all_rel;
pub use tasks_list::lemma_focus_reachable;
pub use tasks_list::lemma_pane_mode_exclusive;
pub use tasks_list::lemma_rate_limit;
pub use tasks_list::reconcile_rel;
pub use tasks_list::results_parse_ok;
pub use tasks_list::tick_step_rel;
pub use watcher::CloudLogEntry;
pub use watcher::CloudLogWatcher;
pub use watcher::FileEventKind;
pub use watcher::FileRead;
pub use watcher::FsEvent;
pub use watcher::LogEntry;
pub use watcher::LogWatcher;
pub use watcher::WatchStep;
pub use watcher::any_relevant;
pub use watcher::event_relevant;
pub use watcher::is_relevant_update;
pub use watcher::watch_step;
pub use selection::has_task_entry;
pub use selection::lemma_selection_lands_on_task;
pub use sorting::lemma_sort_tasks_order;
pub use sorting::stable_sort_tasks;
pub use sorting::stable_sorted_perm;
pub use sorting::status_rank;
pub use sorting::task_after;
pub use sorting::terminal_subrank;
pub use status::StatusKeyword;
pub use status::TaskStatus;
pub use status::classify_keyword;
pub use status::spec_classify_keyword;
pub use status::spec_internal_status_message;
pub use status::spec_unknown_status_message;
pub use status::cache_status_for_pick;
pub use status::is_internal_keyword;
pub use status::spec_cache_label;
pub use status::status_for_keyword;
pub use task_item::PtyHandle;
pub use task_item::Task;
pub use task_item::TaskItem;
pub use task_item::TaskResult;
pub use task_item::spec_exit_code_for_status;
pub use entries::is_matching_task_name;
pub use text::chars_of;
pub use text::contains_str;
pub use text::decimal_string;
pub use text::ends_with_str;
pub use text::format_duration_since;
pub use text::is_substring;
pub use text::is_suffix;
pub use text::lower_of;
pub use text::str_eq;
pub use task_item::CommandDef;
pub use task_item::CommandLookup;
