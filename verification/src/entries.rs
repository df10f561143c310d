//! Name lookup, case-insensitive filtering, and the grouped entry list that
//! the selection manager displays: running tasks, then completed ones, then
//! pending ones, with separators between non-empty groups.

use vstd::prelude::*;
use vstd::string::*;

use crate::status::TaskStatus;
use crate::task_item::TaskItem;
use crate::text::{contains_str, is_substring, lower_of, str_eq, to_lowercase};

verus! {

/// The first task carrying `name`, if any.
pub open spec fn first_task_with_name(tasks: Seq<TaskItem>, name: Seq<char>) -> Option<TaskItem>
    decreases tasks.len(),
{
    if tasks.len() == 0 {
        None
    } else if tasks[0].name@ == name {
        Some(tasks[0])
    } else {
        first_task_with_name(tasks.subrange(1, tasks.len() as int), name)
    }
}

proof fn lemma_first_task_found(tasks: Seq<TaskItem>, name: Seq<char>, i: int)
    requires
        0 <= i < tasks.len(),
        tasks[i].name@ == name,
        forall|k: int| 0 <= k < i ==> (#[trigger] tasks[k]).name@ != name,
    ensures
        first_task_with_name(tasks, name) == Some(tasks[i]),
    decreases i,
{
    if tasks[0].name@ == name {
        assert(i == 0);
    } else {
        let rest = tasks.subrange(1, tasks.len() as int);
        assert(rest[i - 1] == tasks[i]);
        assert(forall|k: int| 0 <= k < i - 1 ==> (#[trigger] rest[k]).name@ != name);
        lemma_first_task_found(rest, name, i - 1);
    }
}

proof fn lemma_first_task_absent(tasks: Seq<TaskItem>, name: Seq<char>)
    requires
        forall|k: int| 0 <= k < tasks.len() ==> (#[trigger] tasks[k]).name@ != name,
    ensures
        first_task_with_name(tasks, name) is None,
    decreases tasks.len(),
{
    if tasks.len() > 0 {
        let rest = tasks.subrange(1, tasks.len() as int);
        assert(forall|k: int| 0 <= k < rest.len() ==> rest[k] == tasks[k + 1]);
        lemma_first_task_absent(rest, name);
    }
}

/// The index of the first task carrying `name`, if any.
pub open spec fn first_index_with_name(tasks: Seq<TaskItem>, name: Seq<char>) -> Option<int>
    decreases tasks.len(),
{
    if tasks.len() == 0 {
        None
    } else if tasks[0].name@ == name {
        Some(0int)
    } else {
        match first_index_with_name(tasks.subrange(1, tasks.len() as int), name) {
            Some(j) => Some(j + 1),
            None => None,
        }
    }
}

proof fn lemma_first_index_found(tasks: Seq<TaskItem>, name: Seq<char>, i: int)
    requires
        0 <= i < tasks.len(),
        tasks[i].name@ == name,
        forall|k: int| 0 <= k < i ==> (#[trigger] tasks[k]).name@ != name,
    ensures
        first_index_with_name(tasks, name) == Some(i),
    decreases i,
{
    if tasks[0].name@ != name {
        let tail = tasks.subrange(1, tasks.len() as int);
        assert(tail[i - 1] == tasks[i]);
        assert(forall|k: int| 0 <= k < i - 1 ==> (#[trigger] tail[k]).name@ != name);
        lemma_first_index_found(tail, name, i - 1);
    }
}

proof fn lemma_first_index_absent(tasks: Seq<TaskItem>, name: Seq<char>)
    requires
        forall|k: int| 0 <= k < tasks.len() ==> (#[trigger] tasks[k]).name@ != name,
    ensures
        first_index_with_name(tasks, name) is None,
    decreases tasks.len(),
{
    if tasks.len() > 0 {
        let tail = tasks.subrange(1, tasks.len() as int);
        assert(forall|k: int| 0 <= k < tail.len() ==> tail[k] == tasks[k + 1]);
        lemma_first_index_absent(tail, name);
    }
}

/// The index of the first task carrying `name`, if any.
pub fn find_task_index(tasks: &Vec<TaskItem>, name: &str) -> (r: Option<usize>)
    ensures
        match r {
            Some(i) => i < tasks@.len() && tasks@[i as int].name@ == name@
                && first_task_with_name(tasks@, name@) == Some(tasks@[i as int])
                && first_index_with_name(tasks@, name@) == Some(i as int),
            None => first_task_with_name(tasks@, name@) is None && first_index_with_name(
                tasks@,
                name@,
            ) is None,
        },
{
    let mut i: usize = 0;
    while i < tasks.len()
        invariant
            i <= tasks@.len(),
            forall|k: int| 0 <= k < i ==> (#[trigger] tasks@[k]).name@ != name@,
        decreases tasks@.len() - i,
    {
        if str_eq(tasks[i].name.as_str(), name) {
            proof {
                lemma_first_task_found(tasks@, name@, i as int);
                lemma_first_index_found(tasks@, name@, i as int);
            }
            return Some(i);
        }
        i = i + 1;
    }
    proof {
        lemma_first_task_absent(tasks@, name@);
        lemma_first_index_absent(tasks@, name@);
    }
    None
}

/// A name list contains `n`.
pub open spec fn contains_name(names: Seq<String>, n: Seq<char>) -> bool {
    exists|k: int| 0 <= k < names.len() && (#[trigger] names[k])@ == n
}

/// Whether the name list contains `name`.
pub fn vec_contains_name(names: &Vec<String>, name: &str) -> (r: bool)
    ensures
        r == contains_name(names@, name@),
{
    let mut i: usize = 0;
    while i < names.len()
        invariant
            i <= names@.len(),
            forall|k: int| 0 <= k < i ==> (#[trigger] names@[k])@ != name@,
        decreases names@.len() - i,
    {
        if str_eq(names[i].as_str(), name) {
            return true;
        }
        i = i + 1;
    }
    false
}

/// Whether a task name passes the filter: an empty filter passes everything,
/// otherwise the lowercase name must contain the lowercase filter text.
pub open spec fn name_matches_filter(name: Seq<char>, filter: Seq<char>) -> bool {
    filter.len() == 0 || is_substring(lower_of(filter), lower_of(name))
}

/// The names of the tasks that pass the filter, in task order.
pub open spec fn spec_filtered_names(tasks: Seq<TaskItem>, filter: Seq<char>) -> Seq<String>
    decreases tasks.len(),
{
    if tasks.len() == 0 {
        Seq::empty()
    } else {
        let rest = spec_filtered_names(tasks.drop_last(), filter);
        if name_matches_filter(tasks.last().name@, filter) {
            rest.push(tasks.last().name)
        } else {
            rest
        }
    }
}

/// Computes the filtered name list for the given filter text.
pub fn filtered_names_for(tasks: &Vec<TaskItem>, filter: &str) -> (r: Vec<String>)
    ensures
        r@ == spec_filtered_names(tasks@, filter@),
{
    let lowered_filter = to_lowercase(filter);
    let filter_empty = filter.unicode_len() == 0;
    let mut r: Vec<String> = Vec::new();
    let mut i: usize = 0;
    while i < tasks.len()
        invariant
            i <= tasks@.len(),
            lowered_filter@ == lower_of(filter@),
            filter_empty == (filter@.len() == 0),
            r@ == spec_filtered_names(tasks@.subrange(0, i as int), filter@),
        decreases tasks@.len() - i,
    {
        let keep = if filter_empty {
            true
        } else {
            let lowered_name = to_lowercase(tasks[i].name.as_str());
            contains_str(lowered_name.as_str(), lowered_filter.as_str())
        };
        if keep {
            r.push(tasks[i].name.clone());
        }
        proof {
            let pre = tasks@.subrange(0, i as int);
            let cur = tasks@.subrange(0, i + 1);
            assert(cur.drop_last() =~= pre);
            assert(cur.last() == tasks@[i as int]);
        }
        i = i + 1;
    }
    proof {
        assert(tasks@.subrange(0, tasks@.len() as int) =~= tasks@);
    }
    r
}

/// Filter restoration law: with an empty filter every task keeps its place —
/// the filtered names are exactly all task names in task order.
pub proof fn lemma_empty_filter_keeps_all(tasks: Seq<TaskItem>)
    ensures
        spec_filtered_names(tasks, Seq::<char>::empty()).len() == tasks.len(),
        forall|k: int|
            0 <= k < tasks.len() ==> #[trigger] spec_filtered_names(
                tasks,
                Seq::<char>::empty(),
            )[k] == tasks[k].name,
    decreases tasks.len(),
{
    if tasks.len() > 0 {
        lemma_empty_filter_keeps_all(tasks.drop_last());
    }
}

/// The name belongs to some task that passes the filter.
pub open spec fn is_matching_task_name(tasks: Seq<TaskItem>, filter: Seq<char>, nm: String) -> bool {
    exists|j: int|
        0 <= j < tasks.len() && (#[trigger] tasks[j]).name == nm && name_matches_filter(
            tasks[j].name@,
            filter,
        )
}

/// Filter membership law: the filtered-name set is exactly the set of names
/// of tasks whose lowercase name contains the lowercase filter text — every
/// matching task's name is in the filtered list, and every filtered name is
/// the name of some matching task.
pub proof fn lemma_filter_membership(tasks: Seq<TaskItem>, filter: Seq<char>)
    ensures
        forall|k: int|
            0 <= k < tasks.len() && name_matches_filter((#[trigger] tasks[k]).name@, filter)
                ==> contains_name(spec_filtered_names(tasks, filter), tasks[k].name@),
        forall|k: int|
            0 <= k < spec_filtered_names(tasks, filter).len() ==> is_matching_task_name(
                tasks,
                filter,
                #[trigger] spec_filtered_names(tasks, filter)[k],
            ),
    decreases tasks.len(),
{
    if tasks.len() > 0 {
        let dl = tasks.drop_last();
        lemma_filter_membership(dl, filter);
        let rest = spec_filtered_names(dl, filter);
        let full = spec_filtered_names(tasks, filter);
        assert forall|k: int|
            0 <= k < tasks.len() && name_matches_filter(
                (#[trigger] tasks[k]).name@,
                filter,
            ) implies contains_name(full, tasks[k].name@) by {
            if k < tasks.len() - 1 {
                assert(dl[k] == tasks[k]);
                assert(contains_name(rest, tasks[k].name@));
                let w = choose|t: int| 0 <= t < rest.len() && (#[trigger] rest[t])@ == tasks[k].name@;
                assert(full[w] == rest[w]);
                assert(contains_name(full, tasks[k].name@));
            } else {
                assert(full.last() == tasks[k].name);
                assert(contains_name(full, tasks[k].name@));
            }
        }
        assert forall|k: int| 0 <= k < full.len() implies is_matching_task_name(
            tasks,
            filter,
            #[trigger] full[k],
        ) by {
            if k < rest.len() {
                assert(full[k] == rest[k]);
                assert(is_matching_task_name(dl, filter, rest[k]));
                let j = choose|j: int|
                    0 <= j < dl.len() && (#[trigger] dl[j]).name == rest[k] && name_matches_filter(
                        dl[j].name@,
                        filter,
                    );
                assert(tasks[j] == dl[j]);
                assert(tasks[j].name == full[k] && name_matches_filter(tasks[j].name@, filter));
            } else {
                assert(full[k] == tasks.last().name);
                let j = tasks.len() - 1;
                assert(tasks[j].name == full[k] && name_matches_filter(tasks[j].name@, filter));
            }
        }
    }
}

/// Which display group a filtered name belongs to: running tasks first, then
/// completed ones, then pending ones; names that match no task are dropped.
pub open spec fn entry_group(tasks: Seq<TaskItem>, name: Seq<char>) -> int {
    match first_task_with_name(tasks, name) {
        Some(t) => if t.status is InProgress {
            0
        } else if t.status is NotStarted {
            2
        } else {
            1
        },
        None => 3,
    }
}

/// The filtered names that fall in group `g`, in their filtered order.
pub open spec fn spec_group_names(tasks: Seq<TaskItem>, names: Seq<String>, g: int) -> Seq<String>
    decreases names.len(),
{
    if names.len() == 0 {
        Seq::empty()
    } else {
        let rest = spec_group_names(tasks, names.drop_last(), g);
        if entry_group(tasks, names.last()@) == g {
            rest.push(names.last())
        } else {
            rest
        }
    }
}

/// A name sequence wrapped as task entries.
pub open spec fn as_entries(names: Seq<String>) -> Seq<Option<String>> {
    names.map_values(|n: String| Some(n))
}

/// The grouped entry list for the given tasks and filtered names: running
/// entries, a separator when both running and completed entries exist, the
/// completed entries, a separator when pending entries follow anything, and
/// the pending entries.
pub open spec fn spec_entries_with_separator(tasks: Seq<TaskItem>, names: Seq<String>) -> Seq<
    Option<String>,
> {
    let ip = spec_group_names(tasks, names, 0);
    let comp = spec_group_names(tasks, names, 1);
    let pend = spec_group_names(tasks, names, 2);
    let head = as_entries(ip) + if ip.len() > 0 && comp.len() > 0 {
        seq![None]
    } else {
        Seq::empty()
    } + as_entries(comp);
    head + if pend.len() > 0 && head.len() > 0 {
        seq![None]
    } else {
        Seq::empty()
    } + as_entries(pend)
}

proof fn lemma_first_task_some_if_present(tasks: Seq<TaskItem>, i: int)
    requires
        0 <= i < tasks.len(),
    ensures
        first_task_with_name(tasks, tasks[i].name@) is Some,
    decreases tasks.len(),
{
    if tasks[0].name@ != tasks[i].name@ {
        let tail = tasks.subrange(1, tasks.len() as int);
        assert(tail[i - 1] == tasks[i]);
        lemma_first_task_some_if_present(tail, i - 1);
    }
}

proof fn lemma_first_task_extends(tasks: Seq<TaskItem>, name: Seq<char>)
    requires
        tasks.len() >= 1,
        first_task_with_name(tasks.drop_last(), name) is Some,
    ensures
        first_task_with_name(tasks, name) is Some,
    decreases tasks.len(),
{
    let dl = tasks.drop_last();
    assert(dl.len() >= 1);
    if tasks[0].name@ != name {
        assert(dl[0] == tasks[0]);
        let tail = tasks.subrange(1, tasks.len() as int);
        assert(dl.subrange(1, dl.len() as int) =~= tail.drop_last());
        lemma_first_task_extends(tail, name);
    }
}

/// Every filtered name is the name of some task.
pub proof fn lemma_filtered_names_are_task_names(tasks: Seq<TaskItem>, filter: Seq<char>)
    ensures
        forall|k: int|
            0 <= k < spec_filtered_names(tasks, filter).len() ==> first_task_with_name(
                tasks,
                (#[trigger] spec_filtered_names(tasks, filter)[k])@,
            ) is Some,
    decreases tasks.len(),
{
    if tasks.len() > 0 {
        let dl = tasks.drop_last();
        lemma_filtered_names_are_task_names(dl, filter);
        let rest = spec_filtered_names(dl, filter);
        let full = spec_filtered_names(tasks, filter);
        assert forall|k: int| 0 <= k < full.len() implies first_task_with_name(
            tasks,
            (#[trigger] full[k])@,
        ) is Some by {
            if k < rest.len() {
                assert(full[k] == rest[k]);
                lemma_first_task_extends(tasks, rest[k]@);
            } else {
                assert(full[k] == tasks.last().name);
                lemma_first_task_some_if_present(tasks, tasks.len() - 1);
            }
        }
    }
}

/// A non-empty filtered name list, all of whose names belong to tasks,
/// yields an entry list that starts with a task entry.
pub proof fn lemma_nonempty_names_give_task_entry(tasks: Seq<TaskItem>, names: Seq<String>)
    requires
        names.len() > 0,
        forall|k: int|
            0 <= k < names.len() ==> first_task_with_name(tasks, (#[trigger] names[k])@) is Some,
    ensures
        spec_entries_with_separator(tasks, names).len() > 0,
        spec_entries_with_separator(tasks, names)[0] is Some,
{
    let ip = spec_group_names(tasks, names, 0);
    let comp = spec_group_names(tasks, names, 1);
    let pend = spec_group_names(tasks, names, 2);
    let g = entry_group(tasks, names.last()@);
    assert(first_task_with_name(tasks, names.last()@) is Some);
    assert(0 <= g <= 2);
    assert(spec_group_names(tasks, names, g).len() > 0);
    let es = spec_entries_with_separator(tasks, names);
    if ip.len() > 0 {
        assert(es[0] == as_entries(ip)[0]);
        assert(as_entries(ip)[0] == Some(ip[0]));
    } else if comp.len() > 0 {
        assert(es[0] == as_entries(comp)[0]);
        assert(as_entries(comp)[0] == Some(comp[0]));
    } else {
        assert(pend.len() > 0);
        assert(es[0] == as_entries(pend)[0]);
        assert(as_entries(pend)[0] == Some(pend[0]));
    }
}

/// An empty name list yields an empty entry list.
pub proof fn lemma_entries_of_no_names(tasks: Seq<TaskItem>, names: Seq<String>)
    requires
        names.len() == 0,
    ensures
        spec_entries_with_separator(tasks, names).len() == 0,
{
    assert(spec_group_names(tasks, names, 0).len() == 0);
    assert(spec_group_names(tasks, names, 1).len() == 0);
    assert(spec_group_names(tasks, names, 2).len() == 0);
}

/// Builds the grouped entry list with separators.
pub fn entries_with_separator(tasks: &Vec<TaskItem>, names: &Vec<String>) -> (r: Vec<
    Option<String>,
>)
    ensures
        r@ == spec_entries_with_separator(tasks@, names@),
{
    let mut in_progress: Vec<String> = Vec::new();
    let mut completed: Vec<String> = Vec::new();
    let mut pending: Vec<String> = Vec::new();
    let mut i: usize = 0;
    while i < names.len()
        invariant
            i <= names@.len(),
            in_progress@ == spec_group_names(tasks@, names@.subrange(0, i as int), 0),
            completed@ == spec_group_names(tasks@, names@.subrange(0, i as int), 1),
            pending@ == spec_group_names(tasks@, names@.subrange(0, i as int), 2),
        decreases names@.len() - i,
    {
        match find_task_index(tasks, names[i].as_str()) {
            Some(t) => {
                match tasks[t].status {
                    TaskStatus::InProgress => in_progress.push(names[i].clone()),
                    TaskStatus::NotStarted => pending.push(names[i].clone()),
                    _ => completed.push(names[i].clone()),
                }
            },
            None => {},
        }
        proof {
            let pre = names@.subrange(0, i as int);
            let cur = names@.subrange(0, i + 1);
            assert(cur.drop_last() =~= pre);
            assert(cur.last() == names@[i as int]);
        }
        i = i + 1;
    }
    proof {
        assert(names@.subrange(0, names@.len() as int) =~= names@);
    }
    let mut entries: Vec<Option<String>> = Vec::new();
    let ghost ip = in_progress@;
    let ghost comp = completed@;
    let ghost pend = pending@;
    let mut k: usize = 0;
    while k < in_progress.len()
        invariant
            k <= ip.len(),
            in_progress@ == ip,
            entries@ == as_entries(ip.subrange(0, k as int)),
        decreases ip.len() - k,
    {
        entries.push(Some(in_progress[k].clone()));
        proof {
            assert(entries@ =~= as_entries(ip.subrange(0, k + 1)));
        }
        k = k + 1;
    }
    proof {
        assert(ip.subrange(0, ip.len() as int) =~= ip);
    }
    if entries.len() > 0 && completed.len() > 0 {
        entries.push(None);
    }
    let ghost head1 = entries@;
    let mut k: usize = 0;
    while k < completed.len()
        invariant
            k <= comp.len(),
            completed@ == comp,
            entries@ == head1 + as_entries(comp.subrange(0, k as int)),
        decreases comp.len() - k,
    {
        entries.push(Some(completed[k].clone()));
        proof {
            assert(entries@ =~= head1 + as_entries(comp.subrange(0, k + 1)));
        }
        k = k + 1;
    }
    proof {
        assert(comp.subrange(0, comp.len() as int) =~= comp);
        assert(entries@ =~= as_entries(ip) + if ip.len() > 0 && comp.len() > 0 {
            seq![None::<String>]
        } else {
            Seq::empty()
        } + as_entries(comp));
    }
    if pending.len() > 0 && entries.len() > 0 {
        entries.push(None);
    }
    let ghost head2 = entries@;
    let mut k: usize = 0;
    while k < pending.len()
        invariant
            k <= pend.len(),
            pending@ == pend,
            entries@ == head2 + as_entries(pend.subrange(0, k as int)),
        decreases pend.len() - k,
    {
        entries.push(Some(pending[k].clone()));
        proof {
            assert(entries@ =~= head2 + as_entries(pend.subrange(0, k + 1)));
        }
        k = k + 1;
    }
    proof {
        assert(pend.subrange(0, pend.len() as int) =~= pend);
        assert(entries@ =~= spec_entries_with_separator(tasks@, names@));
    }
    entries
}

} // verus!
