//! Task statuses, parsing of externally reported statuses, and cache labels.

use vstd::prelude::*;
use vstd::string::*;

use crate::text::{lower_of, str_eq, to_lowercase};

verus! {

/// The lifecycle state of a task. `NotStarted` and `InProgress` are managed
/// by the engine itself and are never accepted from external input; the other
/// variants are terminal states reported by the task runner.
#[derive(Clone, Copy, Debug, PartialEq, Eq, Structural)]
pub enum TaskStatus {
    Success,
    Failure,
    Skipped,
    LocalCacheKeptExisting,
    LocalCache,
    RemoteCache,
    NotStarted,
    InProgress,
}

impl TaskStatus {
    /// A terminal state: the task has finished one way or another.
    pub open spec fn is_terminal(self) -> bool {
        !(self is NotStarted || self is InProgress)
    }

    /// A cache variant: the task was resolved from a cache.
    pub open spec fn is_cache(self) -> bool {
        self is LocalCacheKeptExisting || self is LocalCache || self is RemoteCache
    }
}

/// The status that a lowercased external keyword names, if any.
pub open spec fn status_for_keyword(t: Seq<char>) -> Option<TaskStatus> {
    if t == "success"@ {
        Some(TaskStatus::Success)
    } else if t == "failure"@ {
        Some(TaskStatus::Failure)
    } else if t == "skipped"@ {
        Some(TaskStatus::Skipped)
    } else if t == "local-cache-kept-existing"@ {
        Some(TaskStatus::LocalCacheKeptExisting)
    } else if t == "local-cache"@ {
        Some(TaskStatus::LocalCache)
    } else if t == "remote-cache"@ {
        Some(TaskStatus::RemoteCache)
    } else {
        None
    }
}

/// A lowercased keyword that names one of the engine-internal states, which
/// may not be set from outside.
pub open spec fn is_internal_keyword(t: Seq<char>) -> bool {
    ||| t == "in-progress"@
    ||| t == "in_progress"@
    ||| t == "running"@
    ||| t == "not-started"@
    ||| t == "not_started"@
    ||| t == "pending"@
}

/// What a lowercased status keyword names: a terminal status, one of the
/// engine-internal states, or nothing known.
#[derive(Clone, Copy, Debug, PartialEq, Eq, Structural)]
pub enum StatusKeyword {
    Terminal(TaskStatus),
    Internal,
    Unknown,
}

/// The classification of a lowercased keyword.
pub open spec fn spec_classify_keyword(t: Seq<char>) -> StatusKeyword {
    match status_for_keyword(t) {
        Some(st) => StatusKeyword::Terminal(st),
        None => if is_internal_keyword(t) {
            StatusKeyword::Internal
        } else {
            StatusKeyword::Unknown
        },
    }
}

/// Classifies an already-lowercased status keyword.
pub fn classify_keyword(t: &str) -> (r: StatusKeyword)
    ensures
        r == spec_classify_keyword(t@),
{
    if str_eq(t, "success") {
        StatusKeyword::Terminal(TaskStatus::Success)
    } else if str_eq(t, "failure") {
        StatusKeyword::Terminal(TaskStatus::Failure)
    } else if str_eq(t, "skipped") {
        StatusKeyword::Terminal(TaskStatus::Skipped)
    } else if str_eq(t, "local-cache-kept-existing") {
        StatusKeyword::Terminal(TaskStatus::LocalCacheKeptExisting)
    } else if str_eq(t, "local-cache") {
        StatusKeyword::Terminal(TaskStatus::LocalCache)
    } else if str_eq(t, "remote-cache") {
        StatusKeyword::Terminal(TaskStatus::RemoteCache)
    } else if str_eq(t, "in-progress") || str_eq(t, "in_progress") || str_eq(t, "running")
        || str_eq(t, "not-started") || str_eq(t, "not_started") || str_eq(t, "pending") {
        StatusKeyword::Internal
    } else {
        StatusKeyword::Unknown
    }
}

/// The message rejecting an engine-internal status keyword, naming the
/// offending input.
pub open spec fn spec_internal_status_message(s: Seq<char>) -> Seq<char> {
    "Status '"@ + s + "' cannot be set externally - it is managed internally by the UI"@
}

/// The message rejecting an unknown status keyword, naming the offending
/// input.
pub open spec fn spec_unknown_status_message(s: Seq<char>) -> Seq<char> {
    "Unknown task status: "@ + s
}

impl TaskStatus {
    /// Parses a status reported by the task runner, case-insensitively.
    /// Only terminal statuses are accepted. An engine-internal keyword is
    /// rejected with the message that it is managed internally; anything
    /// else unknown is rejected with the unknown-status message. Both
    /// messages carry the input as given.
    pub fn from_str(s: &str) -> (r: Result<TaskStatus, String>)
        ensures
            match status_for_keyword(lower_of(s@)) {
                Some(st) => r == Ok::<TaskStatus, String>(st),
                None => r matches Err(m) && m@ == if is_internal_keyword(lower_of(s@)) {
                    spec_internal_status_message(s@)
                } else {
                    spec_unknown_status_message(s@)
                },
            },
    {
        let lowered = to_lowercase(s);
        match classify_keyword(lowered.as_str()) {
            StatusKeyword::Terminal(st) => Ok(st),
            StatusKeyword::Internal => {
                let mut msg = String::from_str("Status '");
                msg.append(s);
                msg.append("' cannot be set externally - it is managed internally by the UI");
                assert(msg@ =~= spec_internal_status_message(s@));
                Err(msg)
            },
            StatusKeyword::Unknown => {
                let mut msg = String::from_str("Unknown task status: ");
                msg.append(s);
                assert(msg@ =~= spec_unknown_status_message(s@));
                Err(msg)
            },
        }
    }
}

/// Relies on `rand::rng` and `RngExt::random_range`: returns a number drawn
/// uniformly from the non-empty range below 3. Nothing more is assumed of a
/// random value.
#[verifier::external_body]
pub(crate) fn random_pick_of_three() -> (r: u8)
    ensures
        r < 3,
{
    let mut rng = rand::rng();
    rand::RngExt::random_range(&mut rng, 0..3u8)
}

/// The cache variant that a pick below 3 selects.
pub open spec fn cache_status_for_pick(p: u8) -> TaskStatus {
    if p == 0 {
        TaskStatus::LocalCacheKeptExisting
    } else if p == 1 {
        TaskStatus::LocalCache
    } else {
        TaskStatus::RemoteCache
    }
}

impl TaskStatus {
    /// Draws one of the three cache variants at random.
    pub fn random_cache_status() -> (r: TaskStatus)
        ensures
            r.is_cache(),
            exists|p: u8| p < 3 && r == cache_status_for_pick(p),
    {
        let p = random_pick_of_three();
        let r = if p == 0 {
            TaskStatus::LocalCacheKeptExisting
        } else if p == 1 {
            TaskStatus::LocalCache
        } else {
            TaskStatus::RemoteCache
        };
        assert(r == cache_status_for_pick(p));
        r
    }
}

/// The cache column label that belongs to a cache status: the display names
/// of the three cache variants.
pub open spec fn spec_cache_label(st: TaskStatus) -> Seq<char> {
    if st is LocalCacheKeptExisting {
        "Kept Existing"@
    } else if st is LocalCache {
        "Local"@
    } else {
        "Remote"@
    }
}

/// The cache column label for a cache status.
pub fn cache_label(st: TaskStatus) -> (r: String)
    requires
        st.is_cache(),
    ensures
        r@ == spec_cache_label(st),
{
    match st {
        TaskStatus::LocalCacheKeptExisting => String::from_str("Kept Existing"),
        TaskStatus::LocalCache => String::from_str("Local"),
        _ => String::from_str("Remote"),
    }
}

} // verus!
