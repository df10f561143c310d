//! Stable ordering of task records: running tasks float to the top, failures
//! lead the completed group, completed tasks order by completion time, and
//! not-started tasks sink to the bottom — all without disturbing the relative
//! order of tasks the comparison cannot tell apart.

use vstd::prelude::*;

use crate::status::TaskStatus;
use crate::task_item::TaskItem;

verus! {

/// The sort rank of a status: running tasks first, then terminal ones,
/// not-started tasks last.
pub open spec fn status_rank(st: TaskStatus) -> int {
    if st is InProgress {
        0
    } else if st.is_terminal() {
        1
    } else {
        2
    }
}

/// Among terminal statuses, failures come before the rest.
pub open spec fn terminal_subrank(st: TaskStatus) -> int {
    if st is Failure {
        0
    } else {
        1
    }
}

/// The strict "sorts after" relation between two tasks: a later rank sorts
/// after an earlier one; among terminal tasks a non-failure sorts after a
/// failure, and a later completion time sorts after an earlier one. Pairs
/// with equal or missing completion times do not order each other, which
/// keeps their prior relative order under a stable sort.
pub open spec fn task_after(a: TaskItem, b: TaskItem) -> bool {
    if status_rank(a.status) != status_rank(b.status) {
        status_rank(a.status) > status_rank(b.status)
    } else if status_rank(a.status) == 1 && terminal_subrank(a.status) != terminal_subrank(
        b.status,
    ) {
        terminal_subrank(a.status) > terminal_subrank(b.status)
    } else if status_rank(a.status) == 1 && a.completed_at is Some && b.completed_at is Some {
        a.completed_at.unwrap() > b.completed_at.unwrap()
    } else {
        false
    }
}

fn status_rank_exec(st: TaskStatus) -> (r: u8)
    ensures
        r as int == status_rank(st),
{
    match st {
        TaskStatus::InProgress => 0,
        TaskStatus::NotStarted => 2,
        _ => 1,
    }
}

fn terminal_subrank_exec(st: TaskStatus) -> (r: u8)
    ensures
        r as int == terminal_subrank(st),
{
    match st {
        TaskStatus::Failure => 0,
        _ => 1,
    }
}

fn task_after_exec(a: &TaskItem, b: &TaskItem) -> (r: bool)
    ensures
        r == task_after(*a, *b),
{
    let ra = status_rank_exec(a.status);
    let rb = status_rank_exec(b.status);
    if ra != rb {
        ra > rb
    } else if ra == 1 {
        let sa = terminal_subrank_exec(a.status);
        let sb = terminal_subrank_exec(b.status);
        if sa != sb {
            sa > sb
        } else {
            match (a.completed_at, b.completed_at) {
                (Some(ta), Some(tb)) => ta > tb,
                _ => false,
            }
        }
    } else {
        false
    }
}

/// No two tasks sort strictly after each other.
proof fn lemma_task_after_asymmetric(a: TaskItem, b: TaskItem)
    ensures
        !(task_after(a, b) && task_after(b, a)),
{
}

/// `perm` witnesses that `after` is a stable sort of `before`: it is a
/// permutation, `after` reads `before` through it, neighbours never sort
/// strictly after their successor, and a pair leaves its original order only
/// when the element moved forward sorts strictly before the one it passed.
#[verifier::opaque]
pub open spec fn stable_sorted_perm(before: Seq<TaskItem>, after: Seq<TaskItem>, perm: Seq<int>) -> bool {
    &&& perm.len() == before.len()
    &&& after.len() == before.len()
    &&& forall|k: int| 0 <= k < perm.len() ==> 0 <= #[trigger] perm[k] < before.len()
    &&& forall|k1: int, k2: int|
        0 <= k1 < k2 < perm.len() ==> #[trigger] perm[k1] != #[trigger] perm[k2]
    &&& forall|k: int| 0 <= k < perm.len() ==> #[trigger] after[k] == before[perm[k]]
    &&& forall|k: int|
        0 <= k && k + 1 < after.len() ==> !task_after(#[trigger] after[k], after[k + 1])
    &&& forall|k1: int, k2: int|
        0 <= k1 < k2 < perm.len() && #[trigger] perm[k1] > #[trigger] perm[k2] ==> task_after(
            before[perm[k2]],
            before[perm[k1]],
        )
}

/// The index arithmetic of taking an element out at `i` and putting it back
/// in at `j`: a rotation of the span between them.
proof fn lemma_remove_insert_indices<T>(s: Seq<T>, i: int, j: int, t: Seq<T>)
    requires
        0 <= j <= i < s.len(),
        t == s.remove(i).insert(j, s[i]),
    ensures
        t.len() == s.len(),
        forall|k: int| 0 <= k < j ==> #[trigger] t[k] == s[k],
        t[j] == s[i],
        forall|k: int| j < k <= i ==> #[trigger] t[k] == s[k - 1],
        forall|k: int| i < k < s.len() ==> #[trigger] t[k] == s[k],
{
    assert forall|k: int| 0 <= k < j implies #[trigger] t[k] == s[k] by {
        assert(t[k] == s.remove(i)[k]);
        assert(s.remove(i)[k] == s[k]);
    }
    assert forall|k: int| j < k <= i implies #[trigger] t[k] == s[k - 1] by {
        assert(t[k] == s.remove(i)[k - 1]);
        assert(s.remove(i)[k - 1] == s[k - 1]);
    }
    assert forall|k: int| i < k < s.len() implies #[trigger] t[k] == s[k] by {
        assert(t[k] == s.remove(i)[k - 1]);
        assert(s.remove(i)[k - 1] == s[k]);
    }
}

/// Stable insertion sort of the task vector under `task_after`. Returns the
/// permutation that witnesses where each task came from.
pub fn stable_sort_tasks(v: &mut Vec<TaskItem>) -> (perm: Ghost<Seq<int>>)
    ensures
        stable_sorted_perm(old(v)@, final(v)@, perm@),
{
    proof {
        reveal(stable_sorted_perm);
    }
    let ghost orig = v@;
    let n = v.len();
    let ghost mut p: Seq<int> = Seq::new(n as nat, |k: int| k);
    if n == 0 {
        return Ghost(p);
    }
    let mut i: usize = 1;
    while i < n
        invariant
            1 <= i <= n,
            n == v@.len(),
            n == orig.len(),
            p.len() == n,
            forall|k: int| 0 <= k < n ==> 0 <= #[trigger] p[k] < n,
            forall|k1: int, k2: int| 0 <= k1 < k2 < n ==> #[trigger] p[k1] != #[trigger] p[k2],
            forall|k: int| 0 <= k < n ==> #[trigger] v@[k] == orig[p[k]],
            forall|k: int| i <= k < n ==> #[trigger] p[k] == k,
            forall|k: int| 0 <= k < i ==> #[trigger] p[k] < i,
            forall|k: int| 0 <= k && k + 1 < i ==> !task_after(#[trigger] v@[k], v@[k + 1]),
            forall|k1: int, k2: int|
                0 <= k1 < k2 < i && #[trigger] p[k1] > #[trigger] p[k2] ==> task_after(
                    orig[p[k2]],
                    orig[p[k1]],
                ),
        decreases n - i,
    {
        proof {
            reveal(stable_sorted_perm);
        }
        let mut j: usize = i;
        while j > 0 && task_after_exec(&v[j - 1], &v[i])
            invariant
                j <= i < n,
                n == v@.len(),
                forall|k: int| j <= k < i ==> task_after(#[trigger] v@[k], v@[i as int]),
            decreases j,
        {
            j = j - 1;
        }
        if j < i {
            let ghost v_before = v@;
            let ghost p_before = p;
            let x = v.remove(i);
            v.insert(j, x);
            proof {
                p = p.remove(i as int).insert(j as int, p_before[i as int]);
                assert(v@ == v_before.remove(i as int).insert(j as int, v_before[i as int]));
                lemma_remove_insert_indices(v_before, i as int, j as int, v@);
                lemma_remove_insert_indices(p_before, i as int, j as int, p);
                // The moved task came from original position i.
                assert(p_before[i as int] == i);
                // Permutation bounds and injectivity survive the rotation:
                // every new slot reads an old slot, and distinct new slots
                // read distinct old slots.
                assert forall|k1: int, k2: int| 0 <= k1 < k2 < n implies #[trigger] p[k1]
                    != #[trigger] p[k2] by {
                    let m1 = if k1 < j {
                        k1
                    } else if k1 == j {
                        i as int
                    } else if k1 <= i {
                        k1 - 1
                    } else {
                        k1
                    };
                    let m2 = if k2 < j {
                        k2
                    } else if k2 == j {
                        i as int
                    } else if k2 <= i {
                        k2 - 1
                    } else {
                        k2
                    };
                    assert(p[k1] == p_before[m1]);
                    assert(p[k2] == p_before[m2]);
                    assert(m1 != m2);
                }
                // Neighbours in the grown prefix never sort strictly after
                // their successor: the insertion point was chosen so.
                assert forall|k: int| 0 <= k && k + 1 < i + 1 implies !task_after(
                    #[trigger] v@[k],
                    v@[k + 1],
                ) by {
                    if k + 1 < j {
                        assert(v@[k] == v_before[k] && v@[k + 1] == v_before[k + 1]);
                    } else if k + 1 == j {
                        assert(v@[k] == v_before[k] && v@[k + 1] == v_before[i as int]);
                        // The scan stopped at j: the task before it does not
                        // sort after the moved one.
                        assert(!task_after(v_before[j - 1], v_before[i as int]));
                    } else if k == j {
                        assert(v@[k] == v_before[i as int] && v@[k + 1] == v_before[j as int]);
                        assert(task_after(v_before[j as int], v_before[i as int]));
                        lemma_task_after_asymmetric(v_before[i as int], v_before[j as int]);
                    } else if k + 1 <= i {
                        assert(v@[k] == v_before[k - 1] && v@[k + 1] == v_before[k]);
                    }
                }
                // Order inversions introduced by the move are exactly the
                // pairs the moved task was scanned past, and those all sort
                // strictly after it.
                assert forall|k1: int, k2: int|
                    0 <= k1 < k2 < i + 1 && #[trigger] p[k1] > #[trigger] p[k2] implies task_after(
                    orig[p[k2]],
                    orig[p[k1]],
                ) by {
                    let m1 = if k1 < j {
                        k1
                    } else if k1 == j {
                        i as int
                    } else {
                        k1 - 1
                    };
                    let m2 = if k2 < j {
                        k2
                    } else if k2 == j {
                        i as int
                    } else {
                        k2 - 1
                    };
                    assert(p[k1] == p_before[m1]);
                    assert(p[k2] == p_before[m2]);
                    if k1 == j {
                        // The moved task, from original position i, now
                        // precedes exactly the tasks it was scanned past,
                        // and the scan saw each of those sort after it.
                        assert(m1 == i);
                        assert(j <= m2 < i);
                        assert(task_after(v_before[m2], v_before[i as int]));
                        assert(v_before[m2] == orig[p_before[m2]]);
                        assert(v_before[i as int] == orig[i as int]);
                    } else if k2 == j {
                        // Nothing placed before the insertion point can
                        // invert against the moved task: its original
                        // position i is the largest in the prefix.
                        assert(m2 == i);
                        assert(m1 < j);
                        assert(p_before[m1] < i);
                        assert(false);
                    } else {
                        // Both tasks kept their relative order; the inversion
                        // was already present before the move.
                        assert(m1 < m2);
                        assert(m1 < i && m2 < i);
                        assert(v_before[m1] == orig[p_before[m1]]);
                        assert(v_before[m2] == orig[p_before[m2]]);
                    }
                }
                // The prefix keeps holding original positions below the new
                // bound.
                assert forall|k: int| 0 <= k < i + 1 implies #[trigger] p[k] < i + 1 by {
                    let m = if k < j {
                        k
                    } else if k == j {
                        i as int
                    } else {
                        k - 1
                    };
                    assert(p[k] == p_before[m]);
                }
            }
        }
        i = i + 1;
    }
    proof {
        reveal(stable_sorted_perm);
    }
    Ghost(p)
}

/// Within an adjacently sorted run, status ranks never decrease.
proof fn lemma_rank_chain(s: Seq<TaskItem>, k1: int, k2: int)
    requires
        forall|k: int| 0 <= k && k + 1 < s.len() ==> !task_after(#[trigger] s[k], s[k + 1]),
        0 <= k1 <= k2 < s.len(),
    ensures
        status_rank(s[k1].status) <= status_rank(s[k2].status),
    decreases k2 - k1,
{
    if k1 < k2 {
        lemma_rank_chain(s, k1, k2 - 1);
        assert(!task_after(s[k2 - 1], s[k2]));
    }
}

/// Within an adjacently sorted run, two terminal tasks keep failures first.
proof fn lemma_subrank_chain(s: Seq<TaskItem>, k1: int, k2: int)
    requires
        forall|k: int| 0 <= k && k + 1 < s.len() ==> !task_after(#[trigger] s[k], s[k + 1]),
        0 <= k1 <= k2 < s.len(),
        status_rank(s[k1].status) == 1,
        status_rank(s[k2].status) == 1,
    ensures
        terminal_subrank(s[k1].status) <= terminal_subrank(s[k2].status),
    decreases k2 - k1,
{
    if k1 < k2 {
        lemma_rank_chain(s, k1, k2 - 1);
        lemma_rank_chain(s, k2 - 1, k2);
        assert(status_rank(s[k2 - 1].status) == 1);
        lemma_subrank_chain(s, k1, k2 - 1);
        assert(!task_after(s[k2 - 1], s[k2]));
    }
}

/// The ordering law of the task sort. For any witnessed stable sort:
/// every running task precedes every non-running one; every not-started task
/// follows everything else; among terminal tasks every failure precedes every
/// non-failure; among terminal tasks completion times never decrease when
/// both are present; and any two tasks the comparison cannot tell apart —
/// in particular terminal tasks with equal or missing completion times —
/// keep their original relative order.
pub proof fn lemma_sort_tasks_order(before: Seq<TaskItem>, after: Seq<TaskItem>, perm: Seq<int>)
    requires
        stable_sorted_perm(before, after, perm),
    ensures
        forall|i: int, j: int|
            0 <= i <= j < after.len() ==> status_rank(#[trigger] after[i].status) <= status_rank(
                #[trigger] after[j].status,
            ),
        forall|i: int, j: int|
            0 <= i <= j < after.len() && after[i].status.is_terminal()
                && after[j].status.is_terminal() ==> terminal_subrank(
                #[trigger] after[i].status,
            ) <= terminal_subrank(#[trigger] after[j].status),
        forall|k1: int, k2: int|
            0 <= k1 < k2 < perm.len() && !task_after(
                before[#[trigger] perm[k1]],
                before[#[trigger] perm[k2]],
            ) && !task_after(before[perm[k2]], before[perm[k1]]) ==> perm[k1] < perm[k2],
{
    reveal(stable_sorted_perm);
    assert forall|i: int, j: int| 0 <= i <= j < after.len() implies status_rank(
        #[trigger] after[i].status,
    ) <= status_rank(#[trigger] after[j].status) by {
        lemma_rank_chain(after, i, j);
    }
    assert forall|i: int, j: int|
        0 <= i <= j < after.len() && after[i].status.is_terminal()
            && after[j].status.is_terminal() implies terminal_subrank(
        #[trigger] after[i].status,
    ) <= terminal_subrank(#[trigger] after[j].status) by {
        lemma_subrank_chain(after, i, j);
    }
}

} // verus!
