//! Watching the project file for changes.
//!
//! The file-system watcher itself is the application's; this module keeps
//! whether watching has started, which decides whether a change report is
//! asked for at all.

use vstd::prelude::*;

verus! {

/// Failed to watch the project file.
#[derive(Debug, Clone, Copy, PartialEq, Eq, Structural)]
pub struct ProjectWatcherError;

/// Tracks whether the project file is being watched.
#[derive(Debug)]
pub struct ProjectWatcher {
    watching: bool,
}

/// Whether a file-system event is a change of the watched file: a
/// modification or creation whose paths include the watched path. Events
/// for other files in the same directory are not.
pub fn is_change_of(modify_or_create: bool, event_paths: &Vec<String>, watched: &String) -> (r: bool)
    ensures
        r == (modify_or_create && exists|i: int| #![trigger event_paths@[i]] 0 <= i < event_paths@.len() && event_paths@[i]@ == watched@),
{
    if !modify_or_create {
        return false;
    }
    let n: usize = event_paths.len();
    let mut i: usize = 0;
    while i < n
        invariant
            modify_or_create,
            n == event_paths@.len(),
            i <= n,
            forall|j: int| #![trigger event_paths@[j]] 0 <= j < i ==> event_paths@[j]@ != watched@,
        decreases n - i,
    {
        if event_paths[i] == *watched {
            assert(event_paths@[i as int]@ == watched@);
            return true;
        }
        i = i + 1;
    }
    false
}

impl ProjectWatcher {
    /// Whether watching has started.
    pub closed spec fn is_watching(&self) -> bool {
        self.watching
    }

    /// A watcher that has not started watching.
    pub fn new() -> (r: ProjectWatcher)
        ensures
            !r.is_watching(),
    {
        ProjectWatcher { watching: false }
    }

    /// Records the outcome of asking the backend to watch the file: on
    /// success the watcher is watching; a failure is passed on unchanged.
    pub fn start_watching(&mut self, outcome: Result<(), ProjectWatcherError>) -> (r: Result<(), ProjectWatcherError>)
        ensures
            r == outcome,
            final(self).is_watching() == (old(self).is_watching() || outcome is Ok),
    {
        if outcome.is_ok() {
            self.watching = true;
        }
        outcome
    }

    /// Whether to ask the backend if the file changed: only while watching.
    /// A watcher that is not watching reports no change.
    pub fn should_poll(&self) -> (r: bool)
        ensures
            r == self.is_watching(),
    {
        self.watching
    }

    /// The poll result given the backend's change report, which is only
    /// asked for when [`ProjectWatcher::should_poll`] holds.
    pub fn poll_result(&self, backend_changed: bool) -> (r: bool)
        ensures
            r == (self.is_watching() && backend_changed),
    {
        self.watching && backend_changed
    }
}

} // verus!
