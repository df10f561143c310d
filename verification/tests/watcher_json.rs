use task_dash::{
    CloudLogWatcher, FileEventKind, FileRead, FsEvent, LogWatcher, parse_log_entry, watch_step,
};

#[test]
fn parses_well_formed_log_entry() {
    assert_eq!(parse_log_entry("{\"content\":\"hello\"}"), Some("hello".to_string()));
}

#[test]
fn parses_with_whitespace_and_escapes() {
    assert_eq!(parse_log_entry("  { \"content\" : \"x\" }  "), Some("x".to_string()));
    assert_eq!(parse_log_entry("{\"content\":\"a\\nb\"}"), Some("a\nb".to_string()));
    assert_eq!(parse_log_entry("{\"content\":\"q\\\"q\"}"), Some("q\"q".to_string()));
    assert_eq!(parse_log_entry("{\"content\":\"s\\\\t\"}"), Some("s\\t".to_string()));
    assert_eq!(parse_log_entry("{\"content\":\"\"}"), Some(String::new()));
}

#[test]
fn rejects_malformed_entries() {
    assert_eq!(parse_log_entry("{\"bad\"}"), None);
    assert_eq!(parse_log_entry(""), None);
    assert_eq!(parse_log_entry("{\"content\":42}"), None);
    assert_eq!(parse_log_entry("{\"other\":\"x\"}"), None);
    assert_eq!(parse_log_entry("{\"content\":\"x\"} extra"), None);
    assert_eq!(parse_log_entry("{\"content\":\"x\""), None);
}

#[test]
fn watch_step_consumes_readable_files() {
    // A well-formed file: its content is emitted exactly once and the file
    // is deleted.
    let step = watch_step(&FileRead::Contents("{\"content\":\"hello\"}".to_string()));
    assert_eq!(step.emit, Some("hello".to_string()));
    assert!(step.delete_file);

    // A malformed file still disappears, with no emitted content.
    let step = watch_step(&FileRead::Contents("{\"bad\"}".to_string()));
    assert_eq!(step.emit, None);
    assert!(step.delete_file);
}

#[test]
fn watch_step_leaves_missing_or_unreadable_files() {
    let step = watch_step(&FileRead::Absent);
    assert_eq!(step.emit, None);
    assert!(!step.delete_file);
    let step = watch_step(&FileRead::Unreadable);
    assert_eq!(step.emit, None);
    assert!(!step.delete_file);
}

#[test]
fn log_watcher_lifecycle_is_idempotent() {
    let mut w = LogWatcher::new("/tmp/log.json".to_string());
    assert!(!w.watching);
    assert!(w.start_watching().is_ok());
    assert!(w.watching);
    assert!(w.start_watching().is_ok());
    w.stop_watching();
    assert!(!w.watching);
    w.stop_watching();
    assert!(!w.watching);
    assert!(w.get_entries().is_empty());
}

fn event(kinds: Vec<FileEventKind>, paths: Vec<&str>) -> FsEvent {
    FsEvent { kinds, paths: paths.into_iter().map(|p| p.to_string()).collect() }
}

#[test]
fn cloud_watcher_relevance_needs_kind_and_path() {
    let w = CloudLogWatcher::new("logs/out.json".to_string());
    let create = event(vec![FileEventKind::CreateFile], vec!["/work/logs/out.json"]);
    let modify = event(vec![FileEventKind::ModifyData], vec!["/work/logs/out.json"]);
    let other_kind = event(vec![FileEventKind::Other], vec!["/work/logs/out.json"]);
    let other_path = event(vec![FileEventKind::CreateFile], vec!["/work/logs/else.json"]);

    let step = w.notify_step(
        true,
        &vec![create],
        &FileRead::Contents("{\"content\":\"hi\"}".to_string()),
    );
    assert_eq!(step.emit, Some("hi".to_string()));
    assert!(step.delete_file);

    let step = w.notify_step(
        true,
        &vec![modify],
        &FileRead::Contents("{\"content\":\"hi\"}".to_string()),
    );
    assert!(step.delete_file);

    // Wrong kind, wrong path, or a file that no longer exists: no update.
    let step = w.notify_step(
        true,
        &vec![other_kind],
        &FileRead::Contents("{\"content\":\"hi\"}".to_string()),
    );
    assert_eq!(step.emit, None);
    assert!(!step.delete_file);

    let step = w.notify_step(
        true,
        &vec![other_path],
        &FileRead::Contents("{\"content\":\"hi\"}".to_string()),
    );
    assert_eq!(step.emit, None);

    let create2 = event(vec![FileEventKind::CreateFile], vec!["/work/logs/out.json"]);
    let step = w.notify_step(false, &vec![create2], &FileRead::Absent);
    assert_eq!(step.emit, None);
    assert!(!step.delete_file);
}

#[test]
fn parser_agrees_with_general_json_on_simple_entries() {
    // Cross-check the file-contract parser against a general JSON parser on
    // entries the contract covers.
    for text in [
        "{\"content\":\"hello\"}",
        "  {\"content\" : \"line one\\nline two\"}",
        "{\"content\":\"tab\\there\"}",
    ] {
        let mine = parse_log_entry(text);
        let v: serde_json::Value = serde_json::from_str(text).unwrap();
        let theirs = v.get("content").unwrap().as_str().unwrap().to_string();
        assert_eq!(mine, Some(theirs));
    }
}
