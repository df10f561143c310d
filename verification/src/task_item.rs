//! Individual task records: identity, status, timestamps, and the plain view
//! of the task's process handle.

use vstd::prelude::*;
use vstd::string::*;

use crate::status::{TaskStatus, cache_label, spec_cache_label};
use crate::text::{format_duration_since, spec_duration};

verus! {

/// The plain view of a task's pseudo-terminal process handle: what the engine
/// reads of it. The host owns the real handle and refreshes this view.
#[derive(Clone, Copy, Debug, PartialEq, Eq, Structural)]
pub struct PtyHandle {
    /// The exit code of the process, once it has exited.
    pub exit_status: Option<i64>,
    /// Whether the process is currently accepting raw keystrokes.
    pub interactive: bool,
}

/// A task as handed to the engine at startup or on a load event.
pub struct Task {
    pub id: String,
    pub continuous: Option<bool>,
}

/// The completion report for a task, as handed in by the task runner.
pub struct TaskResult {
    /// The name of the task the report is about.
    pub task_id: String,
    /// The reported terminal status keyword.
    pub status: String,
    /// The final output copy, present when the task actually ran.
    pub terminal_output: Option<String>,
}

/// One task's executable command and arguments.
pub struct CommandDef {
    pub task_name: String,
    pub command: String,
    pub args: Vec<String>,
}

/// The mapping from task name to command and arguments, supplied externally
/// at construction so the host can start a task's process.
pub struct CommandLookup {
    pub entries: Vec<CommandDef>,
}

impl CommandLookup {
    /// An empty lookup.
    pub fn new() -> (r: Self)
        ensures
            r.entries@.len() == 0,
    {
        Self { entries: Vec::new() }
    }

    /// The first command recorded for `name`, if any.
    pub fn get(&self, name: &str) -> (r: Option<&CommandDef>)
        ensures
            r matches Some(c) ==> c.task_name@ == name@ && exists|k: int|
                0 <= k < self.entries@.len() && self.entries@[k] == *c,
            r is None ==> forall|k: int|
                0 <= k < self.entries@.len() ==> (#[trigger] self.entries@[k]).task_name@ != name@,
    {
        let mut i: usize = 0;
        while i < self.entries.len()
            invariant
                i <= self.entries@.len(),
                forall|k: int|
                    0 <= k < i ==> (#[trigger] self.entries@[k]).task_name@ != name@,
            decreases self.entries@.len() - i,
        {
            if crate::text::str_eq(self.entries[i].task_name.as_str(), name) {
                return Some(&self.entries[i]);
            }
            i = i + 1;
        }
        None
    }
}

/// An individual task with its current state and execution details.
pub struct TaskItem {
    pub name: String,
    pub duration: String,
    pub cache: String,
    pub status: TaskStatus,
    pub terminal_output: String,
    pub continuous: bool,
    pub pty: Option<PtyHandle>,
    pub completed_at: Option<u128>,
    pub started_at: Option<u128>,
}

impl Clone for TaskItem {
    /// A render-side copy of the task: every plain field is kept, the process
    /// handle view is not carried over.
    fn clone(&self) -> (r: Self)
        ensures
            r.name@ == self.name@,
            r.duration@ == self.duration@,
            r.cache@ == self.cache@,
            r.status == self.status,
            r.terminal_output@ == self.terminal_output@,
            r.continuous == self.continuous,
            r.pty is None,
            r.completed_at == self.completed_at,
            r.started_at == self.started_at,
    {
        Self {
            name: self.name.clone(),
            duration: self.duration.clone(),
            cache: self.cache.clone(),
            status: self.status,
            terminal_output: self.terminal_output.clone(),
            continuous: self.continuous,
            pty: None,
            completed_at: self.completed_at,
            started_at: self.started_at,
        }
    }
}

/// The exit code that stands for a status when the engine rebuilds a pane
/// from a completion report: failures exit with 1, everything else with 0.
pub open spec fn spec_exit_code_for_status(st: TaskStatus) -> i64 {
    if st is Failure {
        1
    } else {
        0
    }
}

impl TaskItem {
    /// The timestamps are consistent with the status: a completion stamp
    /// exists only on a task that has left the engine-internal states.
    pub open spec fn timestamps_consistent(self) -> bool {
        self.completed_at is Some ==> self.status.is_terminal()
    }

    /// A fresh task record: not started, with no timestamps, no output and no
    /// process handle. A continuous task shows `-` in the cache column, any
    /// other task shows `...` until it completes.
    pub fn new(name: String, continuous: bool) -> (r: Self)
        ensures
            r.name@ == name@,
            r.duration@ == Seq::<char>::empty(),
            r.cache@ == if continuous { "-"@ } else { "..."@ },
            r.status is NotStarted,
            r.terminal_output@ == Seq::<char>::empty(),
            r.continuous == continuous,
            r.pty is None,
            r.completed_at is None,
            r.started_at is None,
            r.timestamps_consistent(),
    {
        Self {
            name,
            duration: String::new(),
            cache: if continuous {
                String::from_str("-")
            } else {
                String::from_str("...")
            },
            status: TaskStatus::NotStarted,
            terminal_output: String::new(),
            continuous,
            pty: None,
            completed_at: None,
            started_at: None,
        }
    }

    /// Writing the task's output to disk is not performed; the call is kept
    /// as a successful no-op.
    pub fn save_output(&self) -> (r: Result<(), ()>)
        ensures
            r is Ok,
    {
        Ok(())
    }

    /// There is no on-disk output cache; the lookup always misses.
    pub fn get_cached_output(&self) -> (r: Option<Vec<u8>>)
        ensures
            r is None,
    {
        None
    }

    /// The tick reconciliation completes the task at this tick: it holds a
    /// process-handle view carrying an exit code, it is not continuous, and
    /// it has not already reached a terminal status.
    pub open spec fn reconciles_now(self) -> bool {
        &&& self.pty matches Some(p) && p.exit_status is Some
        &&& !self.continuous
        &&& (self.status is InProgress || self.status is NotStarted)
    }

    /// Tick-driven status reconciliation, at time `now` (milliseconds).
    ///
    /// A non-continuous task whose process has exited, and which is still in
    /// an engine-internal state, transitions exactly once: the completion
    /// time is stamped, the duration display is derived from the start stamp,
    /// the cache column records a miss (the output cache never hits), and the
    /// terminal status follows the exit code: 0 means success, anything else
    /// failure. A continuous task only refreshes its duration marker.
    pub fn update_status(&mut self, now: u128)
        ensures
            old(self).reconciles_now() ==> {
                &&& final(self).completed_at == Some(now)
                &&& final(self).status == (if old(self).pty.unwrap().exit_status.unwrap() == 0 {
                    TaskStatus::Success
                } else {
                    TaskStatus::Failure
                })
                &&& final(self).cache@ == "Miss"@
                &&& final(self).duration@ == match old(self).started_at {
                    Some(start) => spec_duration(if now >= start { now - start } else { 0 }),
                    None => old(self).duration@,
                }
            },
            !old(self).reconciles_now() ==> {
                &&& final(self).status == old(self).status
                &&& final(self).completed_at == old(self).completed_at
                &&& final(self).cache == old(self).cache
                &&& final(self).duration@ == if old(self).continuous && old(self).pty is Some {
                    "Continuous"@
                } else {
                    old(self).duration@
                }
            },
            final(self).name == old(self).name,
            final(self).continuous == old(self).continuous,
            final(self).started_at == old(self).started_at,
            final(self).pty == old(self).pty,
            final(self).terminal_output == old(self).terminal_output,
            old(self).timestamps_consistent() ==> final(self).timestamps_consistent(),
    {
        if let Some(pty) = &self.pty {
            if !self.continuous {
                if let Some(exit_code) = pty.exit_status {
                    if matches!(self.status, TaskStatus::InProgress | TaskStatus::NotStarted) {
                        self.completed_at = Some(now);
                        if let Some(start) = self.started_at {
                            self.duration = format_duration_since(start, now);
                        }
                        // The output cache never hits, so a fresh run always
                        // records a miss and takes its status from the exit
                        // code.
                        let new_status = if exit_code == 0 {
                            TaskStatus::Success
                        } else {
                            TaskStatus::Failure
                        };
                        if matches!(new_status, TaskStatus::Success) {
                            let _ = self.save_output();
                        }
                        self.cache = String::from_str("Miss");
                        self.status = new_status;
                    }
                }
            } else {
                self.duration = String::from_str("Continuous");
            }
        }
    }

    /// Marks the task as started at time `now`: the one valid transition out
    /// of `NotStarted`. The host attaches the real process handle; the engine
    /// records its plain view with no exit yet.
    pub fn mark_started(&mut self, now: u128, interactive: bool)
        requires
            old(self).status is NotStarted,
        ensures
            *final(self) == (TaskItem {
                status: TaskStatus::InProgress,
                started_at: Some(now),
                pty: Some(PtyHandle { exit_status: None, interactive }),
                ..*old(self)
            }),
            final(self).status is InProgress,
            final(self).started_at == Some(now),
            final(self).pty == Some(PtyHandle { exit_status: None, interactive }),
            old(self).timestamps_consistent() ==> final(self).timestamps_consistent(),
    {
        self.status = TaskStatus::InProgress;
        self.started_at = Some(now);
        self.pty = Some(PtyHandle { exit_status: None, interactive });
    }

    /// Replaces the task's output and status from a completion report, and
    /// rebuilds the pane view as a completed process whose exit code stands
    /// for the status.
    pub fn update_output(&mut self, output: &str, status: TaskStatus)
        ensures
            final(self).terminal_output@ == output@,
            final(self).status == status,
            final(self).pty == Some(
                PtyHandle { exit_status: Some(spec_exit_code_for_status(status)), interactive: false },
            ),
            final(self).name == old(self).name,
            final(self).duration == old(self).duration,
            final(self).cache == old(self).cache,
            final(self).continuous == old(self).continuous,
            final(self).completed_at == old(self).completed_at,
            final(self).started_at == old(self).started_at,
    {
        self.terminal_output = String::from_str(output);
        self.status = status;
        let exit_code: i64 = if matches!(status, TaskStatus::Failure) {
            1
        } else {
            0
        };
        self.pty = Some(PtyHandle { exit_status: Some(exit_code), interactive: false });
    }

    /// Completes the task from a cache hit with status `status` at time
    /// `now`: both stamps are set to `now`, the duration reads `<1ms`, the
    /// output is replaced, and the cache column shows the variant's label.
    pub fn complete_from_cache(&mut self, status: TaskStatus, output: &str, now: u128)
        requires
            status.is_cache(),
        ensures
            final(self).status == status,
            final(self).started_at == Some(now),
            final(self).completed_at == Some(now),
            final(self).duration@ == "<1ms"@,
            final(self).terminal_output@ == output@,
            final(self).cache@ == spec_cache_label(status),
            final(self).pty == Some(
                PtyHandle { exit_status: Some(spec_exit_code_for_status(status)), interactive: false },
            ),
            final(self).name == old(self).name,
            final(self).continuous == old(self).continuous,
            final(self).timestamps_consistent(),
    {
        self.started_at = Some(now);
        self.completed_at = Some(now);
        self.duration = String::from_str("<1ms");
        self.update_output(output, status);
        self.cache = cache_label(status);
    }
}

} // verus!
