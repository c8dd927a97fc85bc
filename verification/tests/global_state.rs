use codex_usage::global_state::{
    GlobalStateRead, GlobalStateReader, GlobalStateSnapshot, GlobalStateStatus, RawGlobalState,
};

fn texts(values: &[&str]) -> Option<Vec<String>> {
    Some(values.iter().map(|value| (*value).to_owned()).collect())
}

fn read(
    projectless_thread_ids: Option<Vec<String>>,
    assignment_keys: Option<Vec<String>>,
) -> GlobalStateSnapshot {
    GlobalStateReader::new().snapshot(GlobalStateRead::Document(RawGlobalState {
        projectless_thread_ids,
        assignment_keys,
    }))
}

#[test]
fn t_s02_001_global_state_matrix_is_typed_and_privacy_safe() {
    let complete = read(
        texts(&["thread-b", "thread-a", "thread-a"]),
        texts(&["thread-c", "thread-a"]),
    );
    assert_eq!(complete.status, GlobalStateStatus::Complete);
    assert_eq!(
        complete.projectless_thread_ids,
        vec!["thread-a".to_owned(), "thread-b".to_owned()]
    );
    assert!(complete.is_projectless("thread-a"));
    assert!(complete.has_assignment("thread-a"));
    assert!(format!("{complete:?}").contains("thread-a"));
    assert!(!format!("{complete:?}").contains("SECRET PROMPT"));
    assert!(!format!("{complete:?}").contains("SECRET PREVIEW"));
    assert!(complete
        .diagnostics
        .iter()
        .any(|diagnostic| diagnostic.code == "duplicate_thread_id"));

    let malformed = GlobalStateReader::new().snapshot(GlobalStateRead::NotADocument);
    assert_eq!(malformed.status, GlobalStateStatus::Malformed);
    assert!(malformed.projectless_thread_ids.is_empty());
    assert!(malformed.thread_project_assignments.is_empty());
    assert!(!format!("{malformed:?}").contains("not-an-array"));
}

#[test]
fn t_s02_001_missing_and_unreadable_sources_are_distinct() {
    let reader = GlobalStateReader::new();
    let missing = reader.snapshot(GlobalStateRead::NotPresent);
    assert_eq!(missing.status, GlobalStateStatus::NotPresent);

    let unreadable = reader.snapshot(GlobalStateRead::Unreadable);
    assert_eq!(unreadable.status, GlobalStateStatus::Unreadable);
}

#[test]
fn ids_are_trimmed_and_put_in_order() {
    let snapshot = read(texts(&[" b ", "a"]), texts(&["z", " y"]));
    assert!(snapshot.is_complete());
    assert_eq!(snapshot.projectless_thread_ids, vec!["a".to_owned(), "b".to_owned()]);
    assert_eq!(snapshot.thread_project_assignments, vec!["y".to_owned(), "z".to_owned()]);
    assert!(snapshot.diagnostics.is_empty());
    assert!(!snapshot.is_projectless("z"));
    assert!(!snapshot.has_assignment("a"));
}

#[test]
fn an_id_that_is_none_spoils_the_file() {
    for (projectless, keys) in [
        (texts(&["a", " "]), texts(&["b"])),
        (texts(&["a"]), texts(&["b\u{7}"])),
    ] {
        let snapshot = read(projectless, keys);
        assert_eq!(snapshot.status, GlobalStateStatus::Malformed);
        assert!(snapshot.projectless_thread_ids.is_empty());
        assert!(snapshot.thread_project_assignments.is_empty());
        assert!(snapshot
            .diagnostics
            .iter()
            .any(|diagnostic| diagnostic.code == "invalid_thread_id"));
    }
}

#[test]
fn a_missing_field_is_named() {
    let without_ids = read(None, texts(&[]));
    assert_eq!(without_ids.status, GlobalStateStatus::Malformed);
    assert_eq!(without_ids.diagnostics[0].code, "missing_field");
    assert_eq!(without_ids.diagnostics[0].field.as_deref(), Some("projectless-thread-ids"));
    let without_keys = read(texts(&[]), None);
    assert_eq!(without_keys.diagnostics[0].field.as_deref(), Some("thread-project-assignments"));
}

#[test]
fn statuses_have_names() {
    assert_eq!(GlobalStateStatus::Complete.as_str(), "complete");
    assert!(GlobalStateStatus::Complete.is_complete());
    assert!(!GlobalStateStatus::Malformed.is_complete());
}
