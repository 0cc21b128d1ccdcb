use superscrub::project_watcher::{is_change_of, ProjectWatcher, ProjectWatcherError};

/// What a backend that watches without failing and reports `changed` says.
fn poll(watcher: &ProjectWatcher, changed: bool) -> bool {
    watcher.should_poll() && watcher.poll_result(changed)
}

#[test]
fn new_watcher_reports_no_change() {
    // Given a watcher that hasn't started watching.
    let watcher = ProjectWatcher::new();

    // Then poll returns false (not watching yet).
    assert!(!poll(&watcher, false));
}

#[test]
fn poll_returns_true_when_changed() {
    // Given a watcher whose backend reports changes.
    let mut watcher = ProjectWatcher::new();

    // When watching is started and a change is signaled.
    let _ = watcher.start_watching(Ok(()));

    // Then poll returns true.
    assert!(poll(&watcher, true));
}

#[test]
fn poll_returns_false_before_start_watching() {
    // A watcher that hasn't started watching always returns false.
    let watcher = ProjectWatcher::new();
    assert!(!poll(&watcher, true));
}

#[test]
fn failed_start_keeps_watcher_idle_and_passes_error_on() {
    let mut watcher = ProjectWatcher::new();
    let result = watcher.start_watching(Err(ProjectWatcherError));
    assert_eq!(result, Err(ProjectWatcherError));
    assert!(!watcher.should_poll());
    assert!(!watcher.poll_result(true));
}

#[test]
fn watching_without_change_reports_no_change() {
    let mut watcher = ProjectWatcher::new();
    assert_eq!(watcher.start_watching(Ok(())), Ok(()));
    assert!(watcher.should_poll());
    assert!(!watcher.poll_result(false));
}

#[test]
fn only_changes_of_the_watched_file_count() {
    let watched = "/work/project.json".to_string();
    let this = vec!["/work/project.json".to_string()];
    let other = vec!["/work/notes.txt".to_string()];
    let both = vec!["/work/notes.txt".to_string(), "/work/project.json".to_string()];
    assert!(is_change_of(true, &this, &watched));
    assert!(is_change_of(true, &both, &watched));
    assert!(!is_change_of(true, &other, &watched));
    assert!(!is_change_of(true, &vec![], &watched));
    assert!(!is_change_of(false, &this, &watched));
}
