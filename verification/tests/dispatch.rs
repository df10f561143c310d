use task_dash::TaskSelectionManager;
use task_dash::{
    Action, App, CommandLookup, Event, Focus, KeyCode, KeyEvent, MouseKind, Task,
};
use task_dash::{
    PaneArrangement, collapsed_mode, pane_arrangement, pane_is_focused, pane_output_width,
    task_list_width, viewport_too_small,
};

fn key(code: KeyCode) -> Event {
    Event::Key(KeyEvent { code, ctrl: false })
}

fn app(names: &[&str]) -> App {
    let tasks: Vec<Task> = names
        .iter()
        .map(|n| Task { id: n.to_string(), continuous: None })
        .collect();
    let mut app = App::new(tasks, Vec::new(), CommandLookup::new());
    app.tasks_list.apply_filter();
    app
}

#[test]
fn control_quit_always_wins() {
    let mut a = app(&["t"]);
    let out = a.handle_event(&Event::Key(KeyEvent { code: KeyCode::Char('c'), ctrl: true }));
    assert!(out.quit);
    assert!(out.action.is_none());
    assert!(out.forward.is_none());
}

#[test]
fn raw_events_become_actions() {
    let mut a = app(&["t"]);
    assert!(matches!(a.handle_event(&Event::Quit).action, Some(Action::Quit)));
    assert!(matches!(a.handle_event(&Event::Tick).action, Some(Action::Tick)));
    assert!(matches!(a.handle_event(&Event::Render).action, Some(Action::Render)));
    assert!(matches!(
        a.handle_event(&Event::Resize(80, 24)).action,
        Some(Action::Resize(80, 24))
    ));
}

#[test]
fn quit_key_latches_quit_flag() {
    let mut a = app(&["t"]);
    let out = a.handle_event(&key(KeyCode::Char('q')));
    assert!(!out.quit);
    assert!(a.should_quit);
}

#[test]
fn navigation_keys_move_selection() {
    let mut a = app(&["a", "b", "c"]);
    assert_eq!(a.tasks_list.get_selected_task_name(), Some("a".to_string()));
    a.handle_event(&key(KeyCode::Down));
    assert_eq!(a.tasks_list.get_selected_task_name(), Some("b".to_string()));
    a.handle_event(&key(KeyCode::Char('j')));
    assert_eq!(a.tasks_list.get_selected_task_name(), Some("c".to_string()));
    a.handle_event(&key(KeyCode::Up));
    assert_eq!(a.tasks_list.get_selected_task_name(), Some("b".to_string()));
    a.handle_event(&key(KeyCode::Char('k')));
    assert_eq!(a.tasks_list.get_selected_task_name(), Some("a".to_string()));
}

#[test]
fn help_toggle_saves_and_restores_focus() {
    let mut a = app(&["t"]);
    a.handle_event(&key(KeyCode::Char('?')));
    assert!(a.help_visible);
    assert_eq!(a.focus(), Focus::HelpPopup);
    assert_eq!(a.previous_focus, Focus::TaskList);
    // Under the help popup only scroll and dismiss keys count.
    a.handle_event(&key(KeyCode::Char('j')));
    assert_eq!(a.help_scroll, 1);
    a.handle_event(&key(KeyCode::Char('k')));
    assert_eq!(a.help_scroll, 0);
    a.handle_event(&key(KeyCode::Esc));
    assert!(!a.help_visible);
    assert_eq!(a.focus(), Focus::TaskList);
}

#[test]
fn help_closes_from_question_mark_too() {
    let mut a = app(&["t"]);
    a.handle_event(&key(KeyCode::Char('?')));
    a.handle_event(&key(KeyCode::Char('?')));
    assert!(!a.help_visible);
    assert_eq!(a.focus(), Focus::TaskList);
}

#[test]
fn spacebar_toggles_quick_peek() {
    let mut a = app(&["a", "b"]);
    a.handle_event(&key(KeyCode::Char(' ')));
    assert!(a.tasks_list.spacebar_mode);
    assert_eq!(a.tasks_list.pane_task(0), Some("a".to_string()));
    a.handle_event(&key(KeyCode::Char(' ')));
    assert!(!a.tasks_list.spacebar_mode);
    assert!(!a.has_visible_panes());
}

#[test]
fn pane_focus_intercepts_navigation_and_forwards_the_rest() {
    let mut a = app(&["a", "b"]);
    a.handle_event(&key(KeyCode::Char('1'))); // pin `a` to slot 0
    a.tasks_list.set_focus(Focus::TerminalPane(0));
    // Tab cycles focus instead of being forwarded.
    let out = a.handle_event(&key(KeyCode::Tab));
    assert!(out.forward.is_none());
    assert_eq!(a.focus(), Focus::TaskList);
    a.tasks_list.set_focus(Focus::TerminalPane(0));
    // An ordinary key is forwarded to the focused pane.
    let out = a.handle_event(&key(KeyCode::Char('x')));
    let fwd = out.forward.unwrap();
    assert_eq!(fwd.pane, 0);
    assert_eq!(fwd.key.code, KeyCode::Char('x'));
}

#[test]
fn interactive_mode_forwards_everything() {
    let mut a = app(&["a"]);
    a.handle_event(&key(KeyCode::Char('1')));
    a.tasks_list.set_focus(Focus::TerminalPane(0));
    a.tasks_list.set_pane_interactive(0, true);
    assert!(a.is_interactive_mode());
    // Even Tab is forwarded verbatim in interactive mode.
    let out = a.handle_event(&key(KeyCode::Tab));
    let fwd = out.forward.unwrap();
    assert_eq!(fwd.pane, 0);
    assert_eq!(fwd.key.code, KeyCode::Tab);
    assert_eq!(a.focus(), Focus::TerminalPane(0));
}

#[test]
fn filter_mode_captures_characters() {
    let mut a = app(&["lint", "build", "lib-test"]);
    a.handle_event(&key(KeyCode::Char('/')));
    assert!(a.tasks_list.filter_mode);
    a.handle_event(&key(KeyCode::Char('l')));
    a.handle_event(&key(KeyCode::Char('i')));
    assert_eq!(a.tasks_list.filter_text, "li");
    assert_eq!(a.tasks_list.filtered_names, vec!["lint", "lib-test"]);
    // Backspace edits; Esc clears.
    a.handle_event(&key(KeyCode::Backspace));
    assert_eq!(a.tasks_list.filter_text, "l");
    a.handle_event(&key(KeyCode::Esc));
    assert_eq!(a.tasks_list.filter_text, "");
    assert_eq!(a.tasks_list.filtered_names.len(), 3);
}

#[test]
fn mouse_wheel_scrolls_the_task_list() {
    let mut a = app(&["a", "b", "c"]);
    a.handle_event(&Event::Mouse(MouseKind::ScrollDown));
    assert_eq!(a.tasks_list.get_selected_task_name(), Some("b".to_string()));
    a.handle_event(&Event::Mouse(MouseKind::ScrollUp));
    assert_eq!(a.tasks_list.get_selected_task_name(), Some("a".to_string()));
}

#[test]
fn mouse_wheel_forwards_to_focused_pane() {
    let mut a = app(&["a"]);
    a.handle_event(&key(KeyCode::Char('1')));
    a.tasks_list.set_focus(Focus::TerminalPane(0));
    let out = a.handle_event(&Event::Mouse(MouseKind::ScrollUp));
    let fwd = out.forward.unwrap();
    assert_eq!(fwd.pane, 0);
    assert_eq!(fwd.key.code, KeyCode::Up);
}

#[test]
fn handle_action_quits_and_asks_for_redraws() {
    let mut a = app(&["t"]);
    assert!(a.handle_action(&Action::Render, 0));
    assert!(a.handle_action(&Action::Resize(80, 24), 0));
    assert!(!a.handle_action(&Action::Tick, 0));
    assert!(!a.should_quit);
    a.handle_action(&Action::Quit, 0);
    assert!(a.should_quit);
}

#[test]
fn handle_action_drives_the_auto_start_queue() {
    let mut a = app(&["a", "b"]);
    a.queue_all_tasks();
    a.handle_action(&Action::Tick, 0);
    let running: Vec<&str> = a
        .tasks_list
        .tasks
        .iter()
        .filter(|t| matches!(t.status, task_dash::TaskStatus::InProgress))
        .map(|t| t.name.as_str())
        .collect();
    assert_eq!(running, vec!["a"]);
    // A second tick inside the throttle window starts nothing further.
    a.handle_action(&Action::Tick, 700);
    let running = a
        .tasks_list
        .tasks
        .iter()
        .filter(|t| matches!(t.status, task_dash::TaskStatus::InProgress))
        .count();
    assert_eq!(running, 1);
    a.handle_action(&Action::Tick, 1500);
    let running = a
        .tasks_list
        .tasks
        .iter()
        .filter(|t| matches!(t.status, task_dash::TaskStatus::InProgress))
        .count();
    assert_eq!(running, 2);
}

#[test]
fn layout_decisions() {
    assert!(viewport_too_small(39, 24));
    assert!(viewport_too_small(80, 11));
    assert!(!viewport_too_small(40, 12));
    assert!(collapsed_mode(true, 200));
    assert!(collapsed_mode(false, 99));
    assert!(!collapsed_mode(false, 100));
    assert_eq!(task_list_width(true, true, 90), 0);
    assert_eq!(task_list_width(false, true, 90), 30);
    assert_eq!(task_list_width(false, false, 90), 90);
    assert_eq!(pane_output_width(90), 60);
    assert_eq!(pane_arrangement(false, false), PaneArrangement::NoPanes);
    assert_eq!(pane_arrangement(true, false), PaneArrangement::SingleFull);
    assert_eq!(pane_arrangement(false, true), PaneArrangement::PlaceholderAndPane);
    assert_eq!(pane_arrangement(true, true), PaneArrangement::TwoPanes);
    assert!(pane_is_focused(Focus::TerminalPane(1), 1));
    assert!(!pane_is_focused(Focus::TaskList, 0));
}

#[test]
fn selection_manager_pages() {
    let mut m = TaskSelectionManager::new(2);
    m.update_entries(vec![
        Some("a".to_string()),
        Some("b".to_string()),
        Some("c".to_string()),
        Some("d".to_string()),
        Some("e".to_string()),
    ]);
    assert_eq!(m.total_pages(), 3);
    assert_eq!(m.get_current_page(), 0);
    m.next_page();
    assert_eq!(m.get_current_page(), 1);
    assert_eq!(m.get_selected_task_name(), Some("c".to_string()));
    m.next_page();
    m.next_page();
    assert_eq!(m.get_current_page(), 0);
    m.previous_page();
    assert_eq!(m.get_selected_task_name(), Some("e".to_string()));
    assert_eq!(m.get_current_page_entries(), vec![Some("e".to_string())]);
}

#[test]
fn selection_resolves_after_entries_shrink() {
    let mut m = TaskSelectionManager::new(5);
    m.update_entries(vec![Some("a".to_string()), Some("b".to_string()), Some("c".to_string())]);
    m.next();
    m.next();
    assert_eq!(m.get_selected_task_name(), Some("c".to_string()));
    m.update_entries(vec![Some("a".to_string())]);
    assert_eq!(m.get_selected_task_name(), Some("a".to_string()));
    m.update_entries(Vec::new());
    assert_eq!(m.get_selected_task_name(), None);
}
