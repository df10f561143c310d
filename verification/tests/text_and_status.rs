use task_dash::TaskStatus;
use task_dash::{chars_of, contains_str, decimal_string, ends_with_str, format_duration_since, str_eq};

#[test]
fn chars_of_collects_characters() {
    assert_eq!(chars_of("abc"), vec!['a', 'b', 'c']);
    assert_eq!(chars_of(""), Vec::<char>::new());
}

#[test]
fn str_eq_compares_contents() {
    assert!(str_eq("hello", "hello"));
    assert!(!str_eq("hello", "hellO"));
    assert!(!str_eq("hello", "hell"));
    assert!(str_eq("", ""));
}

#[test]
fn contains_str_finds_substrings() {
    assert!(contains_str("lint", "li"));
    assert!(contains_str("lib-test", "li"));
    assert!(!contains_str("build", "li"));
    assert!(contains_str("anything", ""));
    assert!(!contains_str("", "x"));
    assert!(contains_str("aaab", "aab"));
}

#[test]
fn ends_with_str_checks_suffixes() {
    assert!(ends_with_str("/tmp/log.json", "log.json"));
    assert!(!ends_with_str("/tmp/log.json", "other.json"));
    assert!(ends_with_str("x", ""));
    assert!(!ends_with_str("", "x"));
}

#[test]
fn decimal_string_formats_numbers() {
    assert_eq!(decimal_string(0), "0");
    assert_eq!(decimal_string(7), "7");
    assert_eq!(decimal_string(1234), "1234");
    assert_eq!(decimal_string(1000000), "1000000");
}

#[test]
fn duration_formats_by_magnitude() {
    assert_eq!(format_duration_since(0, 500), "500ms");
    assert_eq!(format_duration_since(0, 999), "999ms");
    assert_eq!(format_duration_since(0, 2000), "2s");
    assert_eq!(format_duration_since(0, 59999), "59s");
    assert_eq!(format_duration_since(0, 125000), "2m 5s");
    assert_eq!(format_duration_since(100, 50), "0ms");
}

#[test]
fn status_parses_terminal_keywords() {
    assert_eq!(TaskStatus::from_str("success"), Ok(TaskStatus::Success));
    assert_eq!(TaskStatus::from_str("failure"), Ok(TaskStatus::Failure));
    assert_eq!(TaskStatus::from_str("skipped"), Ok(TaskStatus::Skipped));
    assert_eq!(
        TaskStatus::from_str("local-cache-kept-existing"),
        Ok(TaskStatus::LocalCacheKeptExisting)
    );
    assert_eq!(TaskStatus::from_str("local-cache"), Ok(TaskStatus::LocalCache));
    assert_eq!(TaskStatus::from_str("remote-cache"), Ok(TaskStatus::RemoteCache));
}

#[test]
fn status_parse_is_case_insensitive() {
    // This would fail if the case-folding call handed its argument back
    // unchanged.
    assert_eq!(TaskStatus::from_str("SUCCESS"), Ok(TaskStatus::Success));
    assert_eq!(TaskStatus::from_str("Remote-Cache"), Ok(TaskStatus::RemoteCache));
}

#[test]
fn status_rejects_internal_keywords() {
    assert!(TaskStatus::from_str("in-progress").is_err());
    assert!(TaskStatus::from_str("in_progress").is_err());
    assert!(TaskStatus::from_str("running").is_err());
    assert!(TaskStatus::from_str("not-started").is_err());
    assert!(TaskStatus::from_str("not_started").is_err());
    assert!(TaskStatus::from_str("pending").is_err());
}

#[test]
fn status_rejects_unknown_keywords() {
    assert!(TaskStatus::from_str("finished").is_err());
    assert!(TaskStatus::from_str("").is_err());
}

#[test]
fn status_errors_name_the_input_and_their_kind() {
    assert_eq!(
        TaskStatus::from_str("In-Progress"),
        Err("Status 'In-Progress' cannot be set externally - it is managed internally by the UI"
            .to_string())
    );
    assert_eq!(
        TaskStatus::from_str("bogus"),
        Err("Unknown task status: bogus".to_string())
    );
}

#[test]
fn random_cache_status_yields_a_cache_variant() {
    for _ in 0..32 {
        let st = TaskStatus::random_cache_status();
        assert!(matches!(
            st,
            TaskStatus::LocalCacheKeptExisting | TaskStatus::LocalCache | TaskStatus::RemoteCache
        ));
    }
}
