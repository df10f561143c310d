//! Log-watcher decision logic. Two interchangeable watchers share one
//! contract: a file at a known path holding `{"content": string}` is parsed,
//! its content emitted as a log-update, and the file deleted whether or not
//! parsing succeeded. One watcher reacts to filesystem change notifications,
//! the other polls; the host performs the actual filesystem work and hands
//! observations in as plain values.

use vstd::prelude::*;
use vstd::string::*;

use crate::json::{parse_log_entry, spec_log_content};
use crate::text::{ends_with_str, is_suffix};

verus! {

/// A log line with just its content.
#[derive(Debug, Clone)]
pub struct LogEntry {
    pub content: String,
}

/// A log line handed in from the remote log stream.
#[derive(Debug, Clone)]
pub struct CloudLogEntry {
    pub content: String,
}

/// One observation of the watched file.
pub enum FileRead {
    /// The file does not exist.
    Absent,
    /// The file exists but could not be read.
    Unreadable,
    /// The file's text.
    Contents(String),
}

/// What one watcher observation decides: the content to emit as a log
/// update, if any, and whether to delete the file.
pub struct WatchStep {
    pub emit: Option<String>,
    pub delete_file: bool,
}

/// The shared watcher decision. An absent or unreadable file changes
/// nothing. A readable file is consumed: deleted in every case, its content
/// emitted exactly when it parses as a well-formed log entry.
pub fn watch_step(obs: &FileRead) -> (r: WatchStep)
    ensures
        match *obs {
            FileRead::Absent => r.emit is None && !r.delete_file,
            FileRead::Unreadable => r.emit is None && !r.delete_file,
            FileRead::Contents(ref s) => r.delete_file && match spec_log_content(s@) {
                Some(c) => r.emit matches Some(e) && e@ == c,
                None => r.emit is None,
            },
        },
{
    match obs {
        FileRead::Absent => WatchStep { emit: None, delete_file: false },
        FileRead::Unreadable => WatchStep { emit: None, delete_file: false },
        FileRead::Contents(s) => WatchStep { emit: parse_log_entry(s.as_str()), delete_file: true },
    }
}

/// A filesystem change notification kind, as the engine reads it.
#[derive(Clone, Copy, Debug, PartialEq, Eq, Structural)]
pub enum FileEventKind {
    /// A file was created.
    CreateFile,
    /// A file's data was modified.
    ModifyData,
    /// Anything else.
    Other,
}

/// One filesystem change notification: its kinds and the paths it names.
pub struct FsEvent {
    pub kinds: Vec<FileEventKind>,
    pub paths: Vec<String>,
}

/// A notification concerns the watched file: it carries a create or
/// data-modify kind and names a path ending in the target path.
pub open spec fn event_relevant(e: FsEvent, target: Seq<char>) -> bool {
    &&& exists|k: int|
        0 <= k < e.kinds@.len() && ((#[trigger] e.kinds@[k]) is CreateFile
            || e.kinds@[k] is ModifyData)
    &&& exists|p: int| 0 <= p < e.paths@.len() && is_suffix(target, (#[trigger] e.paths@[p])@)
}

/// Some notification in the batch concerns the watched file.
pub open spec fn any_relevant(events: Seq<FsEvent>, target: Seq<char>) -> bool {
    exists|i: int| 0 <= i < events.len() && event_relevant(#[trigger] events[i], target)
}

fn single_event_relevant(e: &FsEvent, target: &str) -> (r: bool)
    ensures
        r == event_relevant(*e, target@),
{
    let mut has_kind = false;
    let mut k: usize = 0;
    while k < e.kinds.len()
        invariant
            k <= e.kinds@.len(),
            has_kind == exists|t: int|
                0 <= t < k && ((#[trigger] e.kinds@[t]) is CreateFile
                    || e.kinds@[t] is ModifyData),
        decreases e.kinds@.len() - k,
    {
        if matches!(e.kinds[k], FileEventKind::CreateFile | FileEventKind::ModifyData) {
            has_kind = true;
        }
        k = k + 1;
    }
    if !has_kind {
        return false;
    }
    let mut p: usize = 0;
    while p < e.paths.len()
        invariant
            p <= e.paths@.len(),
            has_kind == exists|t: int|
                0 <= t < e.kinds@.len() && ((#[trigger] e.kinds@[t]) is CreateFile
                    || e.kinds@[t] is ModifyData),
            has_kind,
            forall|t: int| 0 <= t < p ==> !is_suffix(target@, (#[trigger] e.paths@[t])@),
        decreases e.paths@.len() - p,
    {
        if ends_with_str(e.paths[p].as_str(), target) {
            return true;
        }
        p = p + 1;
    }
    false
}

/// Whether a batch of filesystem notifications is a relevant update of the
/// watched file: the file exists and some notification concerns it.
pub fn is_relevant_update(target_exists: bool, events: &Vec<FsEvent>, target_path: &str) -> (r:
    bool)
    ensures
        r == (target_exists && any_relevant(events@, target_path@)),
{
    if !target_exists {
        return false;
    }
    let mut i: usize = 0;
    while i < events.len()
        invariant
            target_exists,
            i <= events@.len(),
            forall|t: int| 0 <= t < i ==> !event_relevant(#[trigger] events@[t], target_path@),
        decreases events@.len() - i,
    {
        if single_event_relevant(&events[i], target_path) {
            proof {
                assert(event_relevant(events@[i as int], target_path@));
                assert(any_relevant(events@, target_path@));
            }
            return true;
        }
        i = i + 1;
    }
    false
}

/// The polling log watcher: watches a file path on a fixed cadence. The
/// engine holds its plain state; the host runs the timer loop, observes the
/// file, and acts on each `watch_step` decision.
pub struct LogWatcher {
    pub path: String,
    pub entries: Vec<LogEntry>,
    pub watching: bool,
}

impl LogWatcher {
    /// A watcher for the given path, not yet watching.
    pub fn new(path: String) -> (r: Self)
        ensures
            r.path@ == path@,
            r.entries@.len() == 0,
            !r.watching,
    {
        Self { path, entries: Vec::new(), watching: false }
    }

    /// The log entries collected so far.
    pub fn get_entries(&self) -> (r: Vec<LogEntry>)
        ensures
            r@.len() == self.entries@.len(),
            forall|k: int|
                0 <= k < r@.len() ==> (#[trigger] r@[k]).content@ == self.entries@[k].content@,
    {
        let mut r: Vec<LogEntry> = Vec::new();
        let mut i: usize = 0;
        while i < self.entries.len()
            invariant
                i <= self.entries@.len(),
                r@.len() == i,
                forall|k: int|
                    0 <= k < i ==> (#[trigger] r@[k]).content@ == self.entries@[k].content@,
            decreases self.entries@.len() - i,
        {
            r.push(LogEntry { content: self.entries[i].content.clone() });
            i = i + 1;
        }
        r
    }

    /// Begins watching; watching twice is a no-op.
    pub fn start_watching(&mut self) -> (r: Result<(), ()>)
        ensures
            r is Ok,
            final(self).watching,
            *final(self) == (LogWatcher { watching: true, ..*old(self) }),
    {
        self.watching = true;
        Ok(())
    }

    /// Stops watching; stopping is idempotent and safe to invoke repeatedly.
    pub fn stop_watching(&mut self)
        ensures
            !final(self).watching,
            *final(self) == (LogWatcher { watching: false, ..*old(self) }),
    {
        self.watching = false;
    }
}

/// The notification-driven log watcher: reacts to filesystem change events
/// restricted to create and data-modify kinds on the exact target path. The
/// engine holds its plain state and the relevance decision; the host owns
/// the notification backend.
pub struct CloudLogWatcher {
    pub path: String,
    pub watching: bool,
}

impl CloudLogWatcher {
    /// A watcher for the given path, not yet watching.
    pub fn new(path: String) -> (r: Self)
        ensures
            r.path@ == path@,
            !r.watching,
    {
        Self { path, watching: false }
    }

    /// Begins watching; watching twice is a no-op.
    pub fn start_watching(&mut self) -> (r: Result<(), ()>)
        ensures
            r is Ok,
            final(self).watching,
            *final(self) == (CloudLogWatcher { watching: true, ..*old(self) }),
    {
        self.watching = true;
        Ok(())
    }

    /// Stops watching; stopping is idempotent and safe to invoke repeatedly.
    pub fn stop_watching(&mut self)
        ensures
            !final(self).watching,
            *final(self) == (CloudLogWatcher { watching: false, ..*old(self) }),
    {
        self.watching = false;
    }

    /// The decision for one batch of notifications while watching: consume
    /// the file exactly when the batch is a relevant update.
    pub fn notify_step(&self, target_exists: bool, events: &Vec<FsEvent>, obs: &FileRead) -> (r:
        WatchStep)
        ensures
            !(target_exists && any_relevant(events@, self.path@)) ==> r.emit is None
                && !r.delete_file,
            (target_exists && any_relevant(events@, self.path@)) ==> match *obs {
                FileRead::Absent => r.emit is None && !r.delete_file,
                FileRead::Unreadable => r.emit is None && !r.delete_file,
                FileRead::Contents(ref s) => r.delete_file && match spec_log_content(s@) {
                    Some(c) => r.emit matches Some(e) && e@ == c,
                    None => r.emit is None,
                },
            },
    {
        if is_relevant_update(target_exists, events, self.path.as_str()) {
            watch_step(obs)
        } else {
            WatchStep { emit: None, delete_file: false }
        }
    }
}

} // verus!
