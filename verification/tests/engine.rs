use task_dash::{Action, Focus, Task, TaskItem, TaskStatus, TasksList};

fn task(id: &str, continuous: Option<bool>) -> Task {
    Task { id: id.to_string(), continuous }
}

fn registry(names: &[&str]) -> TasksList {
    let tasks: Vec<Task> = names.iter().map(|n| task(n, None)).collect();
    let mut list = TasksList::new(tasks, Vec::new(), task_dash::CommandLookup::new());
    list.apply_filter();
    list
}

fn names_of(list: &TasksList) -> Vec<String> {
    list.tasks.iter().map(|t| t.name.clone()).collect()
}

#[test]
fn sort_groups_running_failures_completed_pending() {
    let mut list = registry(&["a", "b", "c", "d", "e"]);
    list.tasks[0].status = TaskStatus::NotStarted; // a
    list.tasks[1].status = TaskStatus::Success; // b
    list.tasks[1].completed_at = Some(5);
    list.tasks[2].status = TaskStatus::InProgress; // c
    list.tasks[3].status = TaskStatus::Failure; // d
    list.tasks[3].completed_at = Some(3);
    list.tasks[4].status = TaskStatus::Success; // e
    list.tasks[4].completed_at = Some(1);
    list.sort_tasks();
    assert_eq!(names_of(&list), vec!["c", "d", "e", "b", "a"]);
}

#[test]
fn sort_is_stable_for_equal_and_missing_completion_times() {
    let mut list = registry(&["p", "q", "r", "s"]);
    // All completed with equal or missing stamps: the pre-sort order stays.
    list.tasks[0].status = TaskStatus::Success;
    list.tasks[0].completed_at = None;
    list.tasks[1].status = TaskStatus::Skipped;
    list.tasks[1].completed_at = Some(7);
    list.tasks[2].status = TaskStatus::Success;
    list.tasks[2].completed_at = Some(7);
    list.tasks[3].status = TaskStatus::Success;
    list.tasks[3].completed_at = None;
    list.sort_tasks();
    assert_eq!(names_of(&list), vec!["p", "q", "r", "s"]);
}

#[test]
fn filter_matches_case_insensitive_substrings() {
    let mut list = registry(&["lint", "build", "lib-test"]);
    list.enter_filter_mode();
    list.add_filter_char('l');
    list.add_filter_char('i');
    let filtered: Vec<String> = list.filtered_names.clone();
    assert_eq!(filtered, vec!["lint", "lib-test"]);
}

#[test]
fn filter_is_case_insensitive_both_ways() {
    let mut list = registry(&["LINT", "build"]);
    list.enter_filter_mode();
    list.add_filter_char('L');
    list.add_filter_char('i');
    assert_eq!(list.filtered_names, vec!["LINT"]);
}

#[test]
fn clearing_filter_restores_all_tasks_in_order() {
    let mut list = registry(&["lint", "build", "lib-test"]);
    list.enter_filter_mode();
    list.add_filter_char('l');
    list.add_filter_char('i');
    list.clear_filter();
    assert_eq!(list.filtered_names, vec!["lint", "build", "lib-test"]);
    assert_eq!(list.filter_text, "");
}

#[test]
fn filter_persistence_via_slash() {
    let mut list = registry(&["alpha"]);
    list.enter_filter_mode();
    list.add_filter_char('a');
    assert!(list.filter_mode);
    assert!(!list.filter_persisted);
    list.add_filter_char('/');
    assert!(!list.filter_mode);
    assert!(list.filter_persisted);
    // Text may not change while persisted.
    list.add_filter_char('x');
    assert_eq!(list.filter_text, "a");
}

#[test]
fn entries_group_with_separators() {
    let mut list = registry(&["run", "done", "todo"]);
    list.tasks[0].status = TaskStatus::InProgress;
    list.tasks[1].status = TaskStatus::Success;
    list.tasks[2].status = TaskStatus::NotStarted;
    list.apply_filter();
    let entries = &list.selection_manager.entries;
    assert_eq!(
        entries.clone(),
        vec![
            Some("run".to_string()),
            None,
            Some("done".to_string()),
            None,
            Some("todo".to_string()),
        ]
    );
}

#[test]
fn selection_skips_separators_and_wraps() {
    let mut list = registry(&["run", "done"]);
    list.tasks[0].status = TaskStatus::InProgress;
    list.tasks[1].status = TaskStatus::Success;
    list.apply_filter();
    // Entries: [run, separator, done]
    assert_eq!(list.get_selected_task_name(), Some("run".to_string()));
    list.next();
    assert_eq!(list.get_selected_task_name(), Some("done".to_string()));
    list.next();
    assert_eq!(list.get_selected_task_name(), Some("run".to_string()));
    list.previous();
    assert_eq!(list.get_selected_task_name(), Some("done".to_string()));
}

#[test]
fn toggle_output_enters_and_leaves_follow_mode() {
    let mut list = registry(&["a", "b"]);
    assert!(!list.has_visible_panes());
    list.toggle_output_visibility();
    assert!(list.spacebar_mode);
    assert_eq!(list.pane_task(0), Some("a".to_string()));
    assert_eq!(list.pane_task(1), None);
    // Follow mode: the pane tracks the selection.
    list.next();
    assert_eq!(list.pane_task(0), Some("b".to_string()));
    // Toggling again clears everything.
    list.toggle_output_visibility();
    assert!(!list.spacebar_mode);
    assert!(!list.has_visible_panes());
    assert_eq!(list.get_focus(), Focus::TaskList);
}

#[test]
fn follow_mode_never_coexists_with_a_pinned_slot() {
    let mut list = registry(&["a", "b"]);
    list.toggle_output_visibility();
    // Pin slot 1 while following: follow mode must end.
    list.next();
    list.assign_current_task_to_pane(1);
    assert!(!list.spacebar_mode);
    assert!(list.pane_task(1).is_some());
}

#[test]
fn pinning_twice_unpins_and_unsticks_focus() {
    // Scenario: `build` pinned to slot 0, `test` pinned to slot 1; pinning
    // `build` again unpins it and focus returns to the task list.
    let mut list = registry(&["build", "test"]);
    list.assign_current_task_to_pane(0);
    assert_eq!(list.pane_task(0), Some("build".to_string()));
    list.next();
    list.assign_current_task_to_pane(1);
    assert_eq!(list.pane_task(1), Some("test".to_string()));
    list.previous();
    list.set_focus(Focus::TerminalPane(0));
    list.assign_current_task_to_pane(0);
    assert_eq!(list.pane_task(0), None);
    assert_eq!(list.pane_task(1), Some("test".to_string()));
    assert_eq!(list.get_focus(), Focus::TaskList);
}

#[test]
fn clearing_last_pane_resets_pane_state() {
    let mut list = registry(&["solo"]);
    list.assign_current_task_to_pane(1);
    assert!(list.has_visible_panes());
    list.assign_current_task_to_pane(1);
    assert!(!list.has_visible_panes());
    assert_eq!(list.get_focus(), Focus::TaskList);
    assert_eq!(list.focused_pane, None);
    assert!(!list.spacebar_mode);
}

#[test]
fn focus_cycles_through_occupied_panes_only() {
    let mut list = registry(&["a", "b"]);
    list.next();
    list.assign_current_task_to_pane(1); // only slot 1 occupied
    list.set_focus(Focus::TaskList);
    list.focus_next();
    assert_eq!(list.get_focus(), Focus::TerminalPane(1));
    list.focus_next();
    assert_eq!(list.get_focus(), Focus::TaskList);
    list.focus_previous();
    assert_eq!(list.get_focus(), Focus::TerminalPane(1));
}

#[test]
fn auto_start_rate_limit_scenario() {
    // Five queued tasks; ticks every 500 ms: exactly one task starts per
    // 1500 ms window, in queue order.
    let mut list = registry(&["a", "b", "c", "d", "e"]);
    list.queue_all_tasks();
    let mut starts: Vec<(u128, String)> = Vec::new();
    let mut now: u128 = 0;
    while now <= 7000 {
        if let Some(i) = list.try_start_next_task(now) {
            starts.push((now, list.tasks.iter().find(|t| t.started_at == Some(now)).map(|t| t.name.clone()).unwrap()));
            let _ = i;
        }
        now += 500;
    }
    let times: Vec<u128> = starts.iter().map(|s| s.0).collect();
    assert_eq!(times, vec![0, 1500, 3000, 4500, 6000]);
    let names: Vec<String> = starts.iter().map(|s| s.1.clone()).collect();
    assert_eq!(names, vec!["a", "b", "c", "d", "e"]);
    for w in times.windows(2) {
        assert!(w[1] - w[0] >= 1500);
    }
    for t in &list.tasks {
        assert_eq!(t.status, TaskStatus::InProgress);
    }
}

#[test]
fn auto_start_skips_tasks_already_started() {
    let mut list = registry(&["a", "b"]);
    list.queue_all_tasks();
    list.tasks[0].status = TaskStatus::Success;
    // First call drops the already-finished front entry without starting.
    assert_eq!(list.try_start_next_task(0), None);
    // Next call starts `b`.
    assert!(list.try_start_next_task(0).is_some());
    let b = list.tasks.iter().find(|t| t.name == "b").unwrap();
    assert_eq!(b.status, TaskStatus::InProgress);
}

#[test]
fn aborting_a_failed_start_drops_the_entry_silently() {
    // A spawn that could not create its process: the task stays NotStarted,
    // the queue drops the entry, and the rate-limit window is untouched.
    let mut list = registry(&["a", "b"]);
    list.queue_all_tasks();
    let candidate = list.start_queue_candidate(0).unwrap();
    assert_eq!(candidate, 0);
    list.abort_task_start(candidate);
    assert_eq!(list.tasks[0].status, TaskStatus::NotStarted);
    assert_eq!(list.queued_tasks, vec![1]);
    assert_eq!(list.last_task_start, None);
    // The next attempt may proceed at once with the next task.
    assert_eq!(list.try_start_next_task(0), Some(1));
}

#[test]
fn tick_reconciles_exited_processes() {
    let mut list = registry(&["job"]);
    list.tasks[0].status = TaskStatus::InProgress;
    list.tasks[0].started_at = Some(1000);
    list.tasks[0].pty = Some(task_dash::PtyHandle { exit_status: Some(0), interactive: false });
    list.update(&Action::Tick, 3000);
    assert_eq!(list.tasks[0].status, TaskStatus::Success);
    assert_eq!(list.tasks[0].completed_at, Some(3000));
    assert_eq!(list.tasks[0].cache, "Miss");
    assert_eq!(list.tasks[0].duration, "2s");
}

#[test]
fn tick_marks_failures_from_nonzero_exit() {
    let mut list = registry(&["job"]);
    list.tasks[0].status = TaskStatus::InProgress;
    list.tasks[0].pty = Some(task_dash::PtyHandle { exit_status: Some(1), interactive: false });
    list.update(&Action::Tick, 10);
    assert_eq!(list.tasks[0].status, TaskStatus::Failure);
}

#[test]
fn continuous_tasks_never_complete_on_tick() {
    let tasks = vec![task("serve", Some(true))];
    let mut list = TasksList::new(tasks, Vec::new(), task_dash::CommandLookup::new());
    list.apply_filter();
    list.tasks[0].status = TaskStatus::InProgress;
    list.tasks[0].pty = Some(task_dash::PtyHandle { exit_status: Some(0), interactive: false });
    list.update(&Action::Tick, 10);
    assert_eq!(list.tasks[0].status, TaskStatus::InProgress);
    assert_eq!(list.tasks[0].completed_at, None);
    assert_eq!(list.tasks[0].duration, "Continuous");
}

#[test]
fn end_tasks_applies_reports_and_rejects_bad_statuses() {
    let mut list = registry(&["x"]);
    let ok = list.end_tasks(
        vec![task_dash::TaskResult {
            task_id: "x".to_string(),
            status: "success".to_string(),
            terminal_output: Some("out".to_string()),
        }],
        42,
    );
    assert!(ok.is_ok());
    assert_eq!(list.tasks[0].status, TaskStatus::Success);
    assert_eq!(list.tasks[0].completed_at, Some(42));
    assert_eq!(list.tasks[0].terminal_output, "out");

    let mut list2 = registry(&["y"]);
    let err = list2.end_tasks(
        vec![task_dash::TaskResult {
            task_id: "y".to_string(),
            status: "in-progress".to_string(),
            terminal_output: Some("out".to_string()),
        }],
        42,
    );
    assert!(err.is_err());
    assert_eq!(list2.tasks[0].status, TaskStatus::NotStarted);
}

#[test]
fn complete_cached_task_records_cache_label() {
    let mut list = registry(&["c"]);
    list.complete_cached_task("c", TaskStatus::RemoteCache, Some("cached out"), 9);
    assert_eq!(list.tasks[0].status, TaskStatus::RemoteCache);
    assert_eq!(list.tasks[0].cache, "Remote");
    assert_eq!(list.tasks[0].duration, "<1ms");
    assert_eq!(list.tasks[0].started_at, Some(9));
    assert_eq!(list.tasks[0].completed_at, Some(9));
}

#[test]
fn header_reports_progress_and_completion() {
    let mut list = registry(&["a", "b", "c"]);
    list.tasks[0].status = TaskStatus::InProgress;
    list.apply_filter();
    assert_eq!(list.header_status_text(false), "Executing 1/3 remaining tasks...");
    assert_eq!(list.header_status_text(true), "1/3 remaining...");

    let mut done = registry(&["a", "b"]);
    done.tasks[0].status = TaskStatus::Success;
    done.tasks[0].started_at = Some(0);
    done.tasks[0].completed_at = Some(1000);
    done.tasks[1].status = TaskStatus::Failure;
    done.tasks[1].started_at = Some(500);
    done.tasks[1].completed_at = Some(3000);
    done.apply_filter();
    assert_eq!(done.header_status_text(false), "Completed 2 tasks in 3s");
}

#[test]
fn task_item_new_sets_cache_marker() {
    let plain = TaskItem::new("t".to_string(), false);
    assert_eq!(plain.cache, "...");
    assert_eq!(plain.status, TaskStatus::NotStarted);
    let cont = TaskItem::new("t".to_string(), true);
    assert_eq!(cont.cache, "-");
    assert!(cont.save_output().is_ok());
    assert!(cont.get_cached_output().is_none());
}

#[test]
fn command_lookup_finds_by_task_name() {
    let lookup = task_dash::CommandLookup {
        entries: vec![task_dash::CommandDef {
            task_name: "build".to_string(),
            command: "make".to_string(),
            args: vec!["all".to_string()],
        }],
    };
    let found = lookup.get("build").unwrap();
    assert_eq!(found.command, "make");
    assert_eq!(found.args, vec!["all"]);
    assert!(lookup.get("test").is_none());
}

#[test]
fn load_tasks_replaces_and_sorts() {
    let mut list = registry(&["old"]);
    list.load_tasks(vec![task("n1", None), task("n2", Some(true))]);
    assert_eq!(names_of(&list), vec!["n1", "n2"]);
    assert!(list.tasks[1].continuous);
    assert_eq!(list.filtered_names, vec!["n1", "n2"]);
}

#[test]
fn start_tasks_marks_named_tasks_running() {
    let mut list = registry(&["a", "b"]);
    list.start_tasks(vec![task("b", None)], 77);
    let b = list.tasks.iter().find(|t| t.name == "b").unwrap();
    assert_eq!(b.status, TaskStatus::InProgress);
    assert_eq!(b.started_at, Some(77));
    // The running task floats to the top.
    assert_eq!(names_of(&list), vec!["b", "a"]);
}
