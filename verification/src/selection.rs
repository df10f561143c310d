//! Selection and pagination over the task entry list. Entries are task names
//! interleaved with separators (`None`); the selection always rests on a task
//! entry whenever one exists, and pages are fixed-size windows over the list.

use vstd::prelude::*;

use crate::text::str_eq;

verus! {

/// The least index at or after `i` holding a task entry, if any.
pub open spec fn first_some_at_or_after(es: Seq<Option<String>>, i: int) -> Option<int>
    decreases es.len() - i,
    when 0 <= i <= es.len()
{
    if i >= es.len() {
        None
    } else if es[i] is Some {
        Some(i)
    } else {
        first_some_at_or_after(es, i + 1)
    }
}

/// The greatest index at or before `i` holding a task entry, if any.
pub open spec fn last_some_at_or_before(es: Seq<Option<String>>, i: int) -> Option<int>
    decreases i + 1,
    when i < es.len()
{
    if i < 0 {
        None
    } else if es[i] is Some {
        Some(i)
    } else {
        last_some_at_or_before(es, i - 1)
    }
}

/// Some entry is a task entry.
pub open spec fn has_task_entry(es: Seq<Option<String>>) -> bool {
    exists|k: int| 0 <= k < es.len() && es[k] is Some
}

/// Where the selection lands when it is re-resolved around position `pos`:
/// the nearest task entry at or after it, else the nearest one before it,
/// else `pos` itself.
pub open spec fn resolved_selection(es: Seq<Option<String>>, pos: int) -> int {
    if es.len() == 0 {
        0
    } else {
        match first_some_at_or_after(es, pos) {
            Some(k) => k,
            None => match last_some_at_or_before(es, pos) {
                Some(k) => k,
                None => pos,
            },
        }
    }
}

/// Where the selection lands after one step forward from `sel`: the next task
/// entry, wrapping around to the front, staying put when there is none.
pub open spec fn next_selectable(es: Seq<Option<String>>, sel: int) -> int {
    if es.len() == 0 {
        sel
    } else {
        match first_some_at_or_after(es, sel + 1) {
            Some(k) => k,
            None => match first_some_at_or_after(es, 0) {
                Some(k) => k,
                None => sel,
            },
        }
    }
}

/// Where the selection lands after one step backward from `sel`.
pub open spec fn previous_selectable(es: Seq<Option<String>>, sel: int) -> int {
    if es.len() == 0 {
        sel
    } else {
        match last_some_at_or_before(es, sel - 1) {
            Some(k) => k,
            None => match last_some_at_or_before(es, es.len() - 1) {
                Some(k) => k,
                None => sel,
            },
        }
    }
}

fn find_some_at_or_after(es: &Vec<Option<String>>, i: usize) -> (r: Option<usize>)
    requires
        i <= es.len(),
    ensures
        match r {
            Some(k) => first_some_at_or_after(es@, i as int) == Some(k as int) && i <= k
                < es.len() && es@[k as int] is Some,
            None => first_some_at_or_after(es@, i as int) is None,
        },
    decreases es.len() - i,
{
    if i >= es.len() {
        None
    } else if es[i].is_some() {
        Some(i)
    } else {
        find_some_at_or_after(es, i + 1)
    }
}

fn find_some_at_or_before(es: &Vec<Option<String>>, i: usize) -> (r: Option<usize>)
    requires
        es.len() > 0,
        i < es.len(),
    ensures
        match r {
            Some(k) => last_some_at_or_before(es@, i as int) == Some(k as int) && k <= i
                && es@[k as int] is Some,
            None => last_some_at_or_before(es@, i as int) is None,
        },
    decreases i,
{
    if es[i].is_some() {
        Some(i)
    } else if i == 0 {
        None
    } else {
        find_some_at_or_before(es, i - 1)
    }
}

/// Owns the ordered list of selectable entries and tracks the current
/// selection and page.
pub struct TaskSelectionManager {
    /// How many entries one page shows; always at least one.
    pub items_per_page: usize,
    /// Task names interleaved with separators.
    pub entries: Vec<Option<String>>,
    /// The index of the selected entry; meaningful while entries exist.
    pub selected: usize,
}

impl TaskSelectionManager {
    /// Well-formed: the page size is positive, the selection is in range, and
    /// it rests on a task entry whenever the list holds one.
    pub open spec fn wf(self) -> bool {
        &&& self.items_per_page >= 1
        &&& self.entries@.len() == 0 ==> self.selected == 0
        &&& self.entries@.len() > 0 ==> self.selected < self.entries@.len()
        &&& has_task_entry(self.entries@) ==> self.entries@[self.selected as int] is Some
    }

    /// The selected task name, if the selection rests on a task entry.
    pub open spec fn spec_selected_name(self) -> Option<Seq<char>> {
        if self.entries@.len() > 0 && self.selected < self.entries@.len()
            && self.entries@[self.selected as int] is Some {
            Some(self.entries@[self.selected as int].unwrap()@)
        } else {
            None
        }
    }

    /// The number of pages the entries fill.
    pub open spec fn spec_total_pages(self) -> int {
        (self.entries@.len() + self.items_per_page - 1) / self.items_per_page as int
    }

    /// The page the selection is on.
    pub open spec fn spec_current_page(self) -> int {
        self.selected as int / self.items_per_page as int
    }

    /// A fresh manager with the given page size (a zero page size is raised
    /// to one) and no entries.
    pub fn new(items_per_page: usize) -> (r: Self)
        ensures
            r.wf(),
            r.entries@.len() == 0,
            r.selected == 0,
            r.items_per_page == if items_per_page == 0 {
                1usize
            } else {
                items_per_page
            },
    {
        Self {
            items_per_page: if items_per_page == 0 {
                1
            } else {
                items_per_page
            },
            entries: Vec::new(),
            selected: 0,
        }
    }

    /// Sets the page size; a zero size is raised to one.
    pub fn set_items_per_page(&mut self, n: usize)
        requires
            old(self).wf(),
        ensures
            final(self).wf(),
            final(self).items_per_page == if n == 0 {
                1usize
            } else {
                n
            },
            final(self).entries@ == old(self).entries@,
            final(self).selected == old(self).selected,
    {
        self.items_per_page = if n == 0 {
            1
        } else {
            n
        };
    }

    /// Replaces the entry list. The selection index is clamped into range and
    /// re-resolved to the nearest task entry.
    pub fn update_entries(&mut self, entries: Vec<Option<String>>)
        requires
            old(self).wf(),
        ensures
            final(self).wf(),
            final(self).entries@ == entries@,
            final(self).items_per_page == old(self).items_per_page,
            final(self).selected == resolved_selection(
                entries@,
                if entries@.len() == 0 {
                    0
                } else if old(self).selected < entries@.len() {
                    old(self).selected as int
                } else {
                    entries@.len() - 1
                },
            ),
    {
        self.entries = entries;
        if self.entries.len() == 0 {
            self.selected = 0;
            return;
        }
        let pos = if self.selected < self.entries.len() {
            self.selected
        } else {
            self.entries.len() - 1
        };
        self.selected = match find_some_at_or_after(&self.entries, pos) {
            Some(k) => k,
            None => match find_some_at_or_before(&self.entries, pos) {
                Some(k) => k,
                None => pos,
            },
        };
        proof {
            if has_task_entry(self.entries@) {
                let w = choose|k: int| 0 <= k < self.entries@.len() && self.entries@[k] is Some;
                if first_some_at_or_after(self.entries@, pos as int) is None {
                    lemma_search_covers(self.entries@, pos as int, w);
                }
            }
        }
    }

    /// Moves the selection to the next task entry, wrapping past the end and
    /// skipping separators.
    pub fn next(&mut self)
        requires
            old(self).wf(),
        ensures
            final(self).wf(),
            final(self).entries@ == old(self).entries@,
            final(self).items_per_page == old(self).items_per_page,
            final(self).selected == next_selectable(old(self).entries@, old(self).selected as int),
    {
        if self.entries.len() == 0 {
            return;
        }
        match find_some_at_or_after(&self.entries, self.selected + 1) {
            Some(k) => {
                self.selected = k;
            },
            None => {
                match find_some_at_or_after(&self.entries, 0) {
                    Some(k) => {
                        self.selected = k;
                    },
                    None => {
                        proof {
                            if has_task_entry(self.entries@) {
                                let w = choose|k: int|
                                    0 <= k < self.entries@.len() && self.entries@[k] is Some;
                                lemma_search_covers(self.entries@, 0, w);
                            }
                        }
                    },
                }
            },
        }
    }

    /// Moves the selection to the previous task entry, wrapping past the
    /// front and skipping separators.
    pub fn previous(&mut self)
        requires
            old(self).wf(),
        ensures
            final(self).wf(),
            final(self).entries@ == old(self).entries@,
            final(self).items_per_page == old(self).items_per_page,
            final(self).selected == previous_selectable(
                old(self).entries@,
                old(self).selected as int,
            ),
    {
        if self.entries.len() == 0 {
            return;
        }
        let found = if self.selected == 0 {
            proof {
                lemma_last_some_none_below(self.entries@);
            }
            None
        } else {
            find_some_at_or_before(&self.entries, self.selected - 1)
        };
        match found {
            Some(k) => {
                self.selected = k;
            },
            None => {
                match find_some_at_or_before(&self.entries, self.entries.len() - 1) {
                    Some(k) => {
                        self.selected = k;
                    },
                    None => {
                        proof {
                            if has_task_entry(self.entries@) {
                                let w = choose|k: int|
                                    0 <= k < self.entries@.len() && self.entries@[k] is Some;
                                lemma_search_back_covers(self.entries@, self.entries@.len() - 1, w);
                            }
                        }
                    },
                }
            },
        }
    }

    /// The selected task name; `None` only when the list is empty or holds
    /// separators alone.
    pub fn get_selected_task_name(&self) -> (r: Option<String>)
        ensures
            r is Some <==> self.spec_selected_name() is Some,
            r matches Some(n) ==> Some(n@) == self.spec_selected_name(),
    {
        if self.entries.len() > 0 && self.selected < self.entries.len() {
            match &self.entries[self.selected] {
                Some(n) => Some(n.clone()),
                None => None,
            }
        } else {
            None
        }
    }

    /// Whether the selection rests on the entry named `name`.
    pub fn is_selected(&self, name: &str) -> (r: bool)
        ensures
            r == (self.spec_selected_name() == Some(name@)),
    {
        if self.entries.len() > 0 && self.selected < self.entries.len() {
            match &self.entries[self.selected] {
                Some(n) => str_eq(n.as_str(), name),
                None => false,
            }
        } else {
            false
        }
    }

    /// The number of pages.
    pub fn total_pages(&self) -> (r: usize)
        requires
            self.wf(),
        ensures
            r == self.spec_total_pages(),
    {
        if self.entries.len() == 0 {
            assert(self.spec_total_pages() == 0) by (nonlinear_arith)
                requires
                    self.items_per_page >= 1,
                    self.entries@.len() == 0,
            ;
            0
        } else {
            let q = (self.entries.len() - 1) / self.items_per_page;
            assert(q + 1 == self.spec_total_pages() && q < self.entries@.len()) by (
            nonlinear_arith)
                requires
                    self.items_per_page >= 1,
                    self.entries@.len() >= 1,
                    q == (self.entries@.len() - 1) as int / self.items_per_page as int,
            ;
            q + 1
        }
    }

    /// The page the selection is on.
    pub fn get_current_page(&self) -> (r: usize)
        requires
            self.wf(),
        ensures
            r == self.spec_current_page(),
    {
        self.selected / self.items_per_page
    }

    /// The entries of the current page, in order.
    pub fn get_current_page_entries(&self) -> (r: Vec<Option<String>>)
        requires
            self.wf(),
        ensures
            ({
                let start = self.spec_current_page() * self.items_per_page;
                let end = if start + self.items_per_page <= self.entries@.len() {
                    start + self.items_per_page
                } else {
                    self.entries@.len() as int
                };
                &&& r@.len() == end - start
                &&& forall|k: int|
                    0 <= k < r@.len() ==> match #[trigger] r@[k] {
                        Some(n) => self.entries@[start + k] matches Some(m) && n@ == m@,
                        None => self.entries@[start + k] is None,
                    }
            }),
    {
        let q = self.selected / self.items_per_page;
        proof {
            assert(q * self.items_per_page <= self.selected) by (nonlinear_arith)
                requires
                    self.items_per_page >= 1,
                    q == self.selected as int / self.items_per_page as int,
            ;
        }
        let start = q * self.items_per_page;
        let end = if self.entries.len() - start >= self.items_per_page {
            start + self.items_per_page
        } else {
            self.entries.len()
        };
        let mut r: Vec<Option<String>> = Vec::new();
        let mut k = start;
        while k < end
            invariant
                start <= k <= end <= self.entries@.len(),
                r@.len() == k - start,
                forall|t: int|
                    0 <= t < r@.len() ==> match #[trigger] r@[t] {
                        Some(n) => self.entries@[start + t] matches Some(m) && n@ == m@,
                        None => self.entries@[start + t] is None,
                    },
            decreases end - k,
        {
            match &self.entries[k] {
                Some(n) => r.push(Some(n.clone())),
                None => r.push(None),
            }
            k = k + 1;
        }
        r
    }

    /// Moves to the next page, wrapping past the last; the selection
    /// re-resolves from the top of that page. Does nothing on an empty list.
    pub fn next_page(&mut self)
        requires
            old(self).wf(),
        ensures
            final(self).wf(),
            final(self).entries@ == old(self).entries@,
            final(self).items_per_page == old(self).items_per_page,
            old(self).entries@.len() == 0 ==> final(self).selected == old(self).selected,
            old(self).entries@.len() > 0 ==> final(self).selected == resolved_selection(
                old(self).entries@,
                ((old(self).spec_current_page() + 1) % old(self).spec_total_pages())
                    * old(self).items_per_page,
            ),
    {
        if self.entries.len() == 0 {
            return;
        }
        let total = self.total_pages();
        let current = self.get_current_page();
        proof {
            lemma_pages_positive(self.entries@.len() as int, self.items_per_page as int);
            lemma_current_page_lt_total(
                self.entries@.len() as int,
                self.items_per_page as int,
                self.selected as int,
            );
            lemma_next_page_mod(current as int, total as int);
        }
        let page = if current + 1 == total {
            0
        } else {
            current + 1
        };
        self.select_on_page(page);
    }

    /// Moves to the previous page, wrapping past the first; the selection
    /// re-resolves from the top of that page. Does nothing on an empty list.
    pub fn previous_page(&mut self)
        requires
            old(self).wf(),
        ensures
            final(self).wf(),
            final(self).entries@ == old(self).entries@,
            final(self).items_per_page == old(self).items_per_page,
            old(self).entries@.len() == 0 ==> final(self).selected == old(self).selected,
            old(self).entries@.len() > 0 ==> final(self).selected == resolved_selection(
                old(self).entries@,
                ((old(self).spec_current_page() + old(self).spec_total_pages() - 1) % old(
                    self,
                ).spec_total_pages()) * old(self).items_per_page,
            ),
    {
        if self.entries.len() == 0 {
            return;
        }
        let total = self.total_pages();
        let current = self.get_current_page();
        proof {
            lemma_pages_positive(self.entries@.len() as int, self.items_per_page as int);
            lemma_current_page_lt_total(
                self.entries@.len() as int,
                self.items_per_page as int,
                self.selected as int,
            );
            lemma_prev_page_mod(current as int, total as int);
        }
        let page = if current == 0 {
            total - 1
        } else {
            current - 1
        };
        self.select_on_page(page);
    }

    /// Re-resolves the selection from the top of page `page`.
    fn select_on_page(&mut self, page: usize)
        requires
            old(self).wf(),
            old(self).entries@.len() > 0,
            page < old(self).spec_total_pages(),
        ensures
            final(self).wf(),
            final(self).entries@ == old(self).entries@,
            final(self).items_per_page == old(self).items_per_page,
            final(self).selected == resolved_selection(
                old(self).entries@,
                page * old(self).items_per_page,
            ),
    {
        let len = self.entries.len();
        proof {
            lemma_page_start_in_range(len as int, self.items_per_page as int, page as int);
            assert((page as int) * (self.items_per_page as int) < len);
        }
        let target = page * self.items_per_page;
        self.selected = match find_some_at_or_after(&self.entries, target) {
            Some(k) => k,
            None => match find_some_at_or_before(&self.entries, target) {
                Some(k) => k,
                None => target,
            },
        };
        proof {
            if has_task_entry(self.entries@) {
                let w = choose|k: int| 0 <= k < self.entries@.len() && self.entries@[k] is Some;
                if first_some_at_or_after(self.entries@, target as int) is None {
                    lemma_search_covers(self.entries@, target as int, w);
                }
            }
        }
    }
}

/// A forward search that found nothing, together with a backward search from
/// the same point, covers the whole list: a task entry anywhere is found by
/// one of them.
proof fn lemma_search_covers(es: Seq<Option<String>>, pos: int, w: int)
    requires
        0 <= pos < es.len(),
        0 <= w < es.len(),
        es[w] is Some,
        first_some_at_or_after(es, pos) is None,
    ensures
        last_some_at_or_before(es, pos) is Some,
{
    lemma_first_some_none_means_all_none(es, pos);
    assert(w < pos);
    lemma_last_some_finds(es, pos, w);
}

/// A backward search from `i` finds a task entry whenever one exists at or
/// below `i`.
proof fn lemma_search_back_covers(es: Seq<Option<String>>, i: int, w: int)
    requires
        0 <= w <= i < es.len(),
        es[w] is Some,
    ensures
        last_some_at_or_before(es, i) is Some,
{
    lemma_last_some_finds(es, i, w);
}

proof fn lemma_first_some_none_means_all_none(es: Seq<Option<String>>, i: int)
    requires
        0 <= i <= es.len(),
        first_some_at_or_after(es, i) is None,
    ensures
        forall|k: int| i <= k < es.len() ==> es[k] is None,
    decreases es.len() - i,
{
    if i < es.len() {
        lemma_first_some_none_means_all_none(es, i + 1);
    }
}

proof fn lemma_last_some_finds(es: Seq<Option<String>>, i: int, w: int)
    requires
        0 <= w <= i < es.len(),
        es[w] is Some,
    ensures
        last_some_at_or_before(es, i) is Some,
    decreases i - w,
{
    if i > w && es[i] is None {
        lemma_last_some_finds(es, i - 1, w);
    }
}

proof fn lemma_last_some_none_below(es: Seq<Option<String>>)
    requires
        es.len() > 0,
    ensures
        last_some_at_or_before(es, -1) is None,
{
}

proof fn lemma_pages_positive(len: int, ipp: int)
    requires
        len > 0,
        ipp >= 1,
    ensures
        (len + ipp - 1) / ipp >= 1,
{
    assert((len + ipp - 1) / ipp >= 1) by (nonlinear_arith)
        requires
            len > 0,
            ipp >= 1,
    ;
}

proof fn lemma_current_page_lt_total(len: int, ipp: int, sel: int)
    requires
        0 <= sel < len,
        ipp >= 1,
    ensures
        sel / ipp < (len + ipp - 1) / ipp,
{
    assert(sel / ipp < (len + ipp - 1) / ipp) by (nonlinear_arith)
        requires
            0 <= sel < len,
            ipp >= 1,
    ;
}

proof fn lemma_next_page_mod(c: int, t: int)
    requires
        0 <= c < t,
    ensures
        (c + 1) % t == if c + 1 == t {
            0int
        } else {
            c + 1
        },
{
    assert((c + 1) % t == if c + 1 == t {
        0int
    } else {
        c + 1
    }) by (nonlinear_arith)
        requires
            0 <= c < t,
    ;
}

proof fn lemma_prev_page_mod(c: int, t: int)
    requires
        0 <= c < t,
    ensures
        (c + t - 1) % t == if c == 0 {
            t - 1
        } else {
            c - 1
        },
{
    assert((c + t - 1) % t == if c == 0 {
        t - 1
    } else {
        c - 1
    }) by (nonlinear_arith)
        requires
            0 <= c < t,
    ;
}

proof fn lemma_page_start_in_range(len: int, ipp: int, page: int)
    requires
        len > 0,
        ipp >= 1,
        0 <= page < (len + ipp - 1) / ipp,
    ensures
        0 <= page * ipp < len,
{
    assert(page * ipp < len) by (nonlinear_arith)
        requires
            len > 0,
            ipp >= 1,
            0 <= page < (len + ipp - 1) / ipp,
    ;
}

/// The selection law: a well-formed manager whose list holds any task entry
/// reports a selected task name.
pub proof fn lemma_selection_lands_on_task(m: TaskSelectionManager)
    requires
        m.wf(),
        has_task_entry(m.entries@),
    ensures
        m.spec_selected_name() is Some,
{
    let w = choose|k: int| 0 <= k < m.entries@.len() && m.entries@[k] is Some;
    assert(m.entries@.len() > 0);
}

} // verus!
