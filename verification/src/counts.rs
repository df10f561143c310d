//! Task counting and the header status line.

use vstd::prelude::*;
use vstd::string::*;

use crate::entries::{contains_name, vec_contains_name};
use crate::task_item::TaskItem;
use crate::text::{decimal_string, format_duration_since, spec_decimal, spec_duration};

verus! {

/// How many tasks pass the filter and are running.
pub open spec fn spec_running_count(tasks: Seq<TaskItem>, names: Seq<String>) -> int
    decreases tasks.len(),
{
    if tasks.len() == 0 {
        0
    } else {
        spec_running_count(tasks.drop_last(), names) + if contains_name(
            names,
            tasks.last().name@,
        ) && tasks.last().status is InProgress {
            1int
        } else {
            0int
        }
    }
}

/// How many tasks pass the filter and are running or still pending.
pub open spec fn spec_remaining_count(tasks: Seq<TaskItem>, names: Seq<String>) -> int
    decreases tasks.len(),
{
    if tasks.len() == 0 {
        0
    } else {
        spec_remaining_count(tasks.drop_last(), names) + if contains_name(
            names,
            tasks.last().name@,
        ) && (tasks.last().status is InProgress || tasks.last().status is NotStarted) {
            1int
        } else {
            0int
        }
    }
}

/// A status the completion summary counts: every terminal state but
/// `Skipped`.
pub open spec fn counts_as_completed(t: TaskItem) -> bool {
    ||| t.status is Success
    ||| t.status is Failure
    ||| t.status is LocalCache
    ||| t.status is LocalCacheKeptExisting
    ||| t.status is RemoteCache
}

/// How many tasks the completion summary counts.
pub open spec fn spec_completed_count(tasks: Seq<TaskItem>) -> int
    decreases tasks.len(),
{
    if tasks.len() == 0 {
        0
    } else {
        spec_completed_count(tasks.drop_last()) + if counts_as_completed(tasks.last()) {
            1int
        } else {
            0int
        }
    }
}

/// The earliest start stamp over all tasks, if any started.
pub open spec fn spec_min_started(tasks: Seq<TaskItem>) -> Option<u128>
    decreases tasks.len(),
{
    if tasks.len() == 0 {
        None
    } else {
        let rest = spec_min_started(tasks.drop_last());
        match (rest, tasks.last().started_at) {
            (Some(m), Some(s)) => Some(if s < m {
                s
            } else {
                m
            }),
            (None, Some(s)) => Some(s),
            (Some(m), None) => Some(m),
            (None, None) => None,
        }
    }
}

/// The latest completion stamp over all tasks, if any completed.
pub open spec fn spec_max_completed(tasks: Seq<TaskItem>) -> Option<u128>
    decreases tasks.len(),
{
    if tasks.len() == 0 {
        None
    } else {
        let rest = spec_max_completed(tasks.drop_last());
        match (rest, tasks.last().completed_at) {
            (Some(m), Some(s)) => Some(if s > m {
                s
            } else {
                m
            }),
            (None, Some(s)) => Some(s),
            (Some(m), None) => Some(m),
            (None, None) => None,
        }
    }
}

/// The running and remaining counts over the filtered tasks.
pub fn task_counts(tasks: &Vec<TaskItem>, names: &Vec<String>) -> (r: (usize, usize))
    ensures
        r.0 == spec_running_count(tasks@, names@),
        r.1 == spec_remaining_count(tasks@, names@),
{
    let mut running: usize = 0;
    let mut remaining: usize = 0;
    let mut i: usize = 0;
    while i < tasks.len()
        invariant
            i <= tasks@.len(),
            running == spec_running_count(tasks@.subrange(0, i as int), names@),
            remaining == spec_remaining_count(tasks@.subrange(0, i as int), names@),
            running <= i,
            remaining <= i,
        decreases tasks@.len() - i,
    {
        let in_filter = vec_contains_name(names, tasks[i].name.as_str());
        if in_filter {
            if matches!(tasks[i].status, crate::status::TaskStatus::InProgress) {
                running = running + 1;
            }
            if matches!(
                tasks[i].status,
                crate::status::TaskStatus::InProgress | crate::status::TaskStatus::NotStarted,
            ) {
                remaining = remaining + 1;
            }
        }
        proof {
            let pre = tasks@.subrange(0, i as int);
            let cur = tasks@.subrange(0, i + 1);
            assert(cur.drop_last() =~= pre);
            assert(cur.last() == tasks@[i as int]);
        }
        i = i + 1;
    }
    proof {
        assert(tasks@.subrange(0, tasks@.len() as int) =~= tasks@);
    }
    (running, remaining)
}

fn completed_count(tasks: &Vec<TaskItem>) -> (r: usize)
    ensures
        r == spec_completed_count(tasks@),
{
    let mut c: usize = 0;
    let mut i: usize = 0;
    while i < tasks.len()
        invariant
            i <= tasks@.len(),
            c == spec_completed_count(tasks@.subrange(0, i as int)),
            c <= i,
        decreases tasks@.len() - i,
    {
        if matches!(
            tasks[i].status,
            crate::status::TaskStatus::Success | crate::status::TaskStatus::Failure
                | crate::status::TaskStatus::LocalCache
                | crate::status::TaskStatus::LocalCacheKeptExisting
                | crate::status::TaskStatus::RemoteCache,
        ) {
            c = c + 1;
        }
        proof {
            let pre = tasks@.subrange(0, i as int);
            let cur = tasks@.subrange(0, i + 1);
            assert(cur.drop_last() =~= pre);
            assert(cur.last() == tasks@[i as int]);
        }
        i = i + 1;
    }
    proof {
        assert(tasks@.subrange(0, tasks@.len() as int) =~= tasks@);
    }
    c
}

fn min_started(tasks: &Vec<TaskItem>) -> (r: Option<u128>)
    ensures
        r == spec_min_started(tasks@),
{
    let mut m: Option<u128> = None;
    let mut i: usize = 0;
    while i < tasks.len()
        invariant
            i <= tasks@.len(),
            m == spec_min_started(tasks@.subrange(0, i as int)),
        decreases tasks@.len() - i,
    {
        match (m, tasks[i].started_at) {
            (Some(cur), Some(s)) => {
                if s < cur {
                    m = Some(s);
                }
            },
            (None, Some(s)) => {
                m = Some(s);
            },
            _ => {},
        }
        proof {
            let pre = tasks@.subrange(0, i as int);
            let cur = tasks@.subrange(0, i + 1);
            assert(cur.drop_last() =~= pre);
            assert(cur.last() == tasks@[i as int]);
        }
        i = i + 1;
    }
    proof {
        assert(tasks@.subrange(0, tasks@.len() as int) =~= tasks@);
    }
    m
}

fn max_completed(tasks: &Vec<TaskItem>) -> (r: Option<u128>)
    ensures
        r == spec_max_completed(tasks@),
{
    let mut m: Option<u128> = None;
    let mut i: usize = 0;
    while i < tasks.len()
        invariant
            i <= tasks@.len(),
            m == spec_max_completed(tasks@.subrange(0, i as int)),
        decreases tasks@.len() - i,
    {
        match (m, tasks[i].completed_at) {
            (Some(cur), Some(s)) => {
                if s > cur {
                    m = Some(s);
                }
            },
            (None, Some(s)) => {
                m = Some(s);
            },
            _ => {},
        }
        proof {
            let pre = tasks@.subrange(0, i as int);
            let cur = tasks@.subrange(0, i + 1);
            assert(cur.drop_last() =~= pre);
            assert(cur.last() == tasks@[i as int]);
        }
        i = i + 1;
    }
    proof {
        assert(tasks@.subrange(0, tasks@.len() as int) =~= tasks@);
    }
    m
}

/// The header status line. With nothing running or pending it reports how
/// many tasks completed, with the overall span when both a first start and a
/// last completion exist; otherwise it reports the running and remaining
/// counts, abbreviated in the collapsed layout.
pub open spec fn spec_header_status(
    tasks: Seq<TaskItem>,
    names: Seq<String>,
    collapsed: bool,
) -> Seq<char> {
    let running = spec_running_count(tasks, names);
    let remaining = spec_remaining_count(tasks, names);
    if running == 0 && remaining == 0 {
        match (spec_min_started(tasks), spec_max_completed(tasks)) {
            (Some(s), Some(e)) => "Completed "@ + spec_decimal(spec_completed_count(tasks))
                + " tasks in "@ + spec_duration(
                if e >= s {
                    e - s
                } else {
                    0
                },
            ),
            _ => "Completed "@ + spec_decimal(spec_completed_count(tasks)) + " tasks"@,
        }
    } else if collapsed {
        spec_decimal(running) + "/"@ + spec_decimal(remaining) + " remaining..."@
    } else {
        "Executing "@ + spec_decimal(running) + "/"@ + spec_decimal(remaining)
            + " remaining tasks..."@
    }
}

/// Builds the header status line for the given filtered view.
pub fn header_status_text(tasks: &Vec<TaskItem>, names: &Vec<String>, collapsed: bool) -> (r:
    String)
    ensures
        r@ == spec_header_status(tasks@, names@, collapsed),
{
    let (running, remaining) = task_counts(tasks, names);
    if running == 0 && remaining == 0 {
        let completed = completed_count(tasks);
        let mine = min_started(tasks);
        let maxe = max_completed(tasks);
        match (mine, maxe) {
            (Some(s), Some(e)) => {
                let mut out = String::from_str("Completed ");
                let num = decimal_string(completed as u128);
                out.append(num.as_str());
                out.append(" tasks in ");
                let dur = format_duration_since(s, e);
                out.append(dur.as_str());
                assert(out@ =~= spec_header_status(tasks@, names@, collapsed));
                out
            },
            _ => {
                let mut out = String::from_str("Completed ");
                let num = decimal_string(completed as u128);
                out.append(num.as_str());
                out.append(" tasks");
                assert(out@ =~= spec_header_status(tasks@, names@, collapsed));
                out
            },
        }
    } else if collapsed {
        let mut out = decimal_string(running as u128);
        out.append("/");
        let num = decimal_string(remaining as u128);
        out.append(num.as_str());
        out.append(" remaining...");
        assert(out@ =~= spec_header_status(tasks@, names@, collapsed));
        out
    } else {
        let mut out = String::from_str("Executing ");
        let num = decimal_string(running as u128);
        out.append(num.as_str());
        out.append("/");
        let num2 = decimal_string(remaining as u128);
        out.append(num2.as_str());
        out.append(" remaining tasks...");
        assert(out@ =~= spec_header_status(tasks@, names@, collapsed));
        out
    }
}

/// The filter header line: the word `Filter: ` followed by the filter text.
pub fn filter_header_text(filter_text: &str) -> (r: String)
    ensures
        r@ == "Filter: "@ + filter_text@,
{
    let mut out = String::from_str("Filter: ");
    out.append(filter_text);
    out
}

} // verus!
