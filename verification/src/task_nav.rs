//! Moving through the task list: the selection among the shown tasks,
//! expanding and collapsing parents, and hiding statuses.
use vstd::prelude::*;
use crate::agent::texts;
use crate::tasks::{
    compute_visible_task_indices, lemma_visible_tasks, positions, task_views, visible_task_indices,
    TaskListItem, TaskListItemView,
};
use crate::keys::InputState;

verus! {

/// Whether `k` is the first place of `s` that holds `x`.
pub open spec fn is_first_place<A>(s: Seq<A>, x: A, k: int) -> bool {
    &&& 0 <= k < s.len()
    &&& s[k] == x
    &&& forall|m: int| 0 <= m < k ==> s[m] != x
}

/// The first place of `s` that holds `x`, or 0 where none does.
pub open spec fn first_place<A>(s: Seq<A>, x: A) -> int {
    if exists|k: int| is_first_place(s, x, k) {
        choose|k: int| is_first_place(s, x, k)
    } else {
        0
    }
}

/// The place of `sel` among the shown positions `vis`: the first place that
/// holds it, or 0 where none does.
pub open spec fn visible_position(vis: Seq<int>, sel: int) -> int {
    first_place(vis, sel)
}

/// The selection after moving down: the shown task after the selected one,
/// wrapping round to the first; unchanged when nothing is shown.
pub open spec fn next_visible(vis: Seq<int>, sel: int) -> int {
    if vis.len() == 0 {
        sel
    } else {
        vis[(visible_position(vis, sel) + 1) % (vis.len() as int)]
    }
}

/// The selection after moving up: the shown task before the selected one,
/// wrapping round to the last; unchanged when nothing is shown.
pub open spec fn prev_visible(vis: Seq<int>, sel: int) -> int {
    if vis.len() == 0 {
        sel
    } else {
        let p = visible_position(vis, sel);
        vis[if p == 0 { vis.len() - 1 } else { p - 1 }]
    }
}

/// The expanded parents after toggling the task at `sel`: a task with
/// children switches between expanded and collapsed; anything else leaves
/// the set as it was.
pub open spec fn expand_toggled(ts: Seq<TaskListItemView>, sel: int, ex: Set<Seq<char>>) -> Set<Seq<char>> {
    if 0 <= sel < ts.len() && ts[sel].has_children {
        if ex.contains(ts[sel].id) {
            ex.remove(ts[sel].id)
        } else {
            ex.insert(ts[sel].id)
        }
    } else {
        ex
    }
}

/// The hidden statuses after toggling `name`: a hidden status is shown again
/// (its first entry leaves the list), any other is hidden (added at the end).
pub open spec fn status_toggled(hidden: Seq<Seq<char>>, name: Seq<char>) -> Seq<Seq<char>> {
    if hidden.contains(name) {
        hidden.remove(first_place(hidden, name))
    } else {
        hidden.push(name)
    }
}

proof fn lemma_first_place_unique<A>(s: Seq<A>, x: A, k: int)
    requires
        is_first_place(s, x, k),
    ensures
        first_place(s, x) == k,
{
    let c = choose|j: int| is_first_place(s, x, j);
    assert(is_first_place(s, x, c));
    if c < k {
        assert(s[c] != x);
    } else if k < c {
        assert(s[k] != x);
    }
}

proof fn lemma_position_in_range(vis: Seq<int>, sel: int)
    requires
        vis.len() > 0,
    ensures
        0 <= visible_position(vis, sel) < vis.len(),
{
    if exists|k: int| is_first_place(vis, sel, k) {
        let c = choose|k: int| is_first_place(vis, sel, k);
        assert(is_first_place(vis, sel, c));
    }
}

proof fn lemma_increasing_place(vis: Seq<int>, k: int)
    requires
        0 <= k < vis.len(),
        forall|a: int, b: int| 0 <= a < b < vis.len() ==> vis[a] < vis[b],
    ensures
        visible_position(vis, vis[k]) == k,
{
    assert forall|m: int| 0 <= m < k implies vis[m] != vis[k] by {
        assert(vis[m] < vis[k]);
    }
    assert(is_first_place(vis, vis[k], k));
    lemma_first_place_unique(vis, vis[k], k);
}

/// The first place of `v` that holds `sel`, or 0 where none does.
fn find_place(v: &Vec<usize>, sel: usize) -> (p: usize)
    ensures
        p as int == visible_position(positions(v@), sel as int),
{
    let ghost vis = positions(v@);
    let mut k: usize = 0;
    while k < v.len()
        invariant
            k <= v@.len(),
            vis == positions(v@),
            vis.len() == v@.len(),
            forall|m: int| 0 <= m < k ==> vis[m] != sel as int,
        decreases v.len() - k,
    {
        if v[k] == sel {
            assert(is_first_place(vis, sel as int, k as int));
            proof {
                lemma_first_place_unique(vis, sel as int, k as int);
            }
            return k;
        }
        k = k + 1;
    }
    assert(!exists|j: int| is_first_place(vis, sel as int, j)) by {
        if exists|j: int| is_first_place(vis, sel as int, j) {
            let j = choose|j: int| is_first_place(vis, sel as int, j);
            assert(vis[j] != sel as int);
        }
    }
    0
}

/// The first place of `v` that holds a name equal to `x`, if any.
pub(crate) fn find_name(v: &Vec<String>, x: &String) -> (r: Option<usize>)
    ensures
        match r {
            Some(k) => is_first_place(texts(v@), x@, k as int),
            None => !texts(v@).contains(x@),
        },
{
    let ghost t = texts(v@);
    let mut k: usize = 0;
    while k < v.len()
        invariant
            k <= v@.len(),
            t == texts(v@),
            t.len() == v@.len(),
            forall|m: int| 0 <= m < k ==> t[m] != x@,
        decreases v.len() - k,
    {
        if v[k] == *x {
            assert(t[k as int] == x@);
            return Some(k);
        }
        k = k + 1;
    }
    assert(!t.contains(x@)) by {
        if t.contains(x@) {
            let j = choose|j: int| 0 <= j < t.len() && t[j] == x@;
            assert(t[j] != x@);
        }
    }
    None
}

pub(crate) proof fn lemma_texts_remove(v: Seq<String>, k: int)
    requires
        0 <= k < v.len(),
    ensures
        texts(v.remove(k)) == texts(v).remove(k),
{
    assert(texts(v.remove(k)) =~= texts(v).remove(k));
}

pub(crate) proof fn lemma_texts_push(v: Seq<String>, x: String)
    ensures
        texts(v.push(x)) == texts(v).push(x@),
{
    assert(texts(v.push(x)) =~= texts(v).push(x@));
}

pub(crate) proof fn lemma_remove_distinct<A>(s: Seq<A>, k: int)
    requires
        0 <= k < s.len(),
        s.no_duplicates(),
    ensures
        s.remove(k).no_duplicates(),
        s.remove(k).to_set() == s.to_set().remove(s[k]),
{
    let r = s.remove(k);
    assert forall|i: int| 0 <= i < r.len() implies #[trigger] r[i] == (if i < k { s[i] } else { s[i + 1] }) by {}
    assert forall|x: A| #[trigger] r.to_set().contains(x) <==> s.to_set().remove(s[k]).contains(x) by {
        if r.contains(x) {
            let i = choose|i: int| 0 <= i < r.len() && r[i] == x;
            if i < k {
                assert(s[i] == x);
            } else {
                assert(s[i + 1] == x);
            }
        }
        if s.contains(x) && x != s[k] {
            let i = choose|i: int| 0 <= i < s.len() && s[i] == x;
            if i < k {
                assert(r[i] == x);
            } else {
                assert(r[i - 1] == x);
            }
        }
    }
    assert(r.to_set() =~= s.to_set().remove(s[k]));
}

pub(crate) proof fn lemma_push_distinct<A>(s: Seq<A>, x: A)
    requires
        s.no_duplicates(),
        !s.contains(x),
    ensures
        s.push(x).no_duplicates(),
        s.push(x).to_set() == s.to_set().insert(x),
{
    let r = s.push(x);
    assert forall|i: int, j: int| 0 <= i < r.len() && 0 <= j < r.len() && i != j implies r[i] != r[j] by {
        if i < s.len() && j < s.len() {
        } else if i < s.len() {
            assert(s.contains(s[i]));
        } else {
            assert(s.contains(s[j]));
        }
    }
    assert forall|y: A| #[trigger] r.to_set().contains(y) <==> s.to_set().insert(x).contains(y) by {
        if r.contains(y) {
            let i = choose|i: int| 0 <= i < r.len() && r[i] == y;
            if i < s.len() {
                assert(s[i] == y);
            }
        }
        if s.contains(y) {
            let i = choose|i: int| 0 <= i < s.len() && s[i] == y;
            assert(r[i] == y);
        }
        if y == x {
            assert(r[s.len() as int] == y);
        }
    }
    assert(r.to_set() =~= s.to_set().insert(x));
}

/// The ids of the tasks that have children.
pub open spec fn parent_ids(ts: Seq<TaskListItemView>) -> Set<Seq<char>> {
    Set::new(|id: Seq<char>| exists|k: int| 0 <= k < ts.len() && ts[k].has_children && ts[k].id == id)
}

/// The names in `v` are distinct.
pub open spec fn distinct_names(v: Seq<String>) -> bool {
    texts(v).no_duplicates()
}

/// The task list as the browser shows it: the tasks, the expanded parents,
/// the hidden statuses, the selected position, the scroll offset, and
/// whether the list is being fetched.
pub struct TaskBrowser {
    pub tasks: Vec<TaskListItem>,
    pub expanded_ids: Vec<String>,
    pub hidden_status_names: Vec<String>,
    pub selected: usize,
    pub scroll: usize,
    pub loading: bool,
}

impl TaskBrowser {
    /// The browser is well formed when each parent is expanded at most once.
    pub open spec fn wf(&self) -> bool {
        distinct_names(self.expanded_ids@)
    }

    /// The views of the tasks.
    pub open spec fn task_list(&self) -> Seq<TaskListItemView> {
        task_views(self.tasks@)
    }

    /// The expanded parents, as names.
    pub open spec fn expanded(&self) -> Seq<Seq<char>> {
        texts(self.expanded_ids@)
    }

    /// The hidden statuses, as names.
    pub open spec fn hidden(&self) -> Seq<Seq<char>> {
        texts(self.hidden_status_names@)
    }

    /// The positions of the shown tasks, in list order.
    pub open spec fn shown(&self) -> Seq<int> {
        visible_task_indices(self.task_list(), self.expanded(), self.hidden())
    }

    /// Moves the selection to the next shown task, wrapping round.
    pub fn select_next(&mut self)
        ensures
            final(self).selected as int == next_visible(old(self).shown(), old(self).selected as int),
            final(self).tasks == old(self).tasks,
            final(self).expanded_ids == old(self).expanded_ids,
            final(self).hidden_status_names == old(self).hidden_status_names,
            final(self).scroll == old(self).scroll,
            final(self).loading == old(self).loading,
    {
        let vis = compute_visible_task_indices(&self.tasks, self.expanded_ids.as_slice(), self.hidden_status_names.as_slice());
        let ghost shown = positions(vis@);
        if vis.len() > 0 {
            let pos = find_place(&vis, self.selected);
            proof {
                lemma_position_in_range(shown, self.selected as int);
            }
            let next = (pos + 1) % vis.len();
            self.selected = vis[next];
        }
    }

    /// Moves the selection to the previous shown task, wrapping round.
    pub fn select_prev(&mut self)
        ensures
            final(self).selected as int == prev_visible(old(self).shown(), old(self).selected as int),
            final(self).tasks == old(self).tasks,
            final(self).expanded_ids == old(self).expanded_ids,
            final(self).hidden_status_names == old(self).hidden_status_names,
            final(self).scroll == old(self).scroll,
            final(self).loading == old(self).loading,
    {
        let vis = compute_visible_task_indices(&self.tasks, self.expanded_ids.as_slice(), self.hidden_status_names.as_slice());
        let ghost shown = positions(vis@);
        if vis.len() > 0 {
            let pos = find_place(&vis, self.selected);
            proof {
                lemma_position_in_range(shown, self.selected as int);
            }
            let prev = if pos == 0 { vis.len() - 1 } else { pos - 1 };
            self.selected = vis[prev];
        }
    }

    /// Expands or collapses the selected task when it has children.
    pub fn toggle_expand(&mut self)
        requires
            old(self).wf(),
        ensures
            final(self).wf(),
            final(self).expanded().to_set()
                == expand_toggled(old(self).task_list(), old(self).selected as int, old(self).expanded().to_set()),
            final(self).tasks == old(self).tasks,
            final(self).hidden_status_names == old(self).hidden_status_names,
            final(self).selected == old(self).selected,
            final(self).scroll == old(self).scroll,
            final(self).loading == old(self).loading,
    {
        if self.selected < self.tasks.len() && self.tasks[self.selected].has_children {
            let id = self.tasks[self.selected].id.clone();
            let ghost ex = texts(self.expanded_ids@);
            match find_name(&self.expanded_ids, &id) {
                Some(k) => {
                    proof {
                        lemma_texts_remove(self.expanded_ids@, k as int);
                        lemma_remove_distinct(ex, k as int);
                    }
                    self.expanded_ids.remove(k);
                },
                None => {
                    proof {
                        lemma_texts_push(self.expanded_ids@, id);
                        lemma_push_distinct(ex, id@);
                    }
                    self.expanded_ids.push(id);
                },
            }
        }
    }

    /// Hides the status `status_name` when it is shown and shows it again
    /// when it is hidden; the selection and the scroll go back to the top.
    pub fn toggle_status_filter(&mut self, status_name: String)
        ensures
            final(self).hidden() == status_toggled(old(self).hidden(), status_name@),
            final(self).selected == 0,
            final(self).scroll == 0,
            final(self).tasks == old(self).tasks,
            final(self).expanded_ids == old(self).expanded_ids,
            final(self).loading == old(self).loading,
    {
        match find_name(&self.hidden_status_names, &status_name) {
            Some(k) => {
                proof {
                    lemma_texts_remove(self.hidden_status_names@, k as int);
                    lemma_first_place_unique(self.hidden(), status_name@, k as int);
                }
                self.hidden_status_names.remove(k);
            },
            None => {
                proof {
                    lemma_texts_push(self.hidden_status_names@, status_name);
                }
                self.hidden_status_names.push(status_name);
            },
        }
        self.selected = 0;
        self.scroll = 0;
    }

    /// Takes a freshly fetched task list: loading ends, the first task is
    /// selected, every task with children starts expanded, and the status
    /// filter's selection goes back to its first row.
    pub fn tasks_fetched(&mut self, tasks: Vec<TaskListItem>, input: &mut InputState)
        ensures
            final(self).wf(),
            !final(self).loading,
            final(input).task_list_filter_selected == 0,
            final(input).task_list_filter_open == old(input).task_list_filter_open,
            final(input).task_list_status_options == old(input).task_list_status_options,
            final(input).input_mode == old(input).input_mode,
            final(input).selected_agent_id == old(input).selected_agent_id,
            final(input).input_buffer == old(input).input_buffer,
            final(self).tasks@ == tasks@,
            final(self).selected == 0,
            final(self).expanded().to_set() == parent_ids(task_views(tasks@)),
            final(self).hidden_status_names == old(self).hidden_status_names,
            final(self).scroll == old(self).scroll,
    {
        let ghost ts = task_views(tasks@);
        let mut ids: Vec<String> = Vec::new();
        let mut i: usize = 0;
        while i < tasks.len()
            invariant
                i <= tasks@.len(),
                ts == task_views(tasks@),
                distinct_names(ids@),
                texts(ids@).to_set() == Set::new(
                    |id: Seq<char>| exists|k: int| 0 <= k < i && ts[k].has_children && ts[k].id == id,
                ),
            decreases tasks.len() - i,
        {
            let ghost before = ids@;
            if tasks[i].has_children {
                let id = tasks[i].id.clone();
                match find_name(&ids, &id) {
                    Some(_) => {
                        proof {
                            assert(texts(ids@).to_set() =~= Set::new(
                                |x: Seq<char>| exists|k: int| 0 <= k < i + 1 && ts[k].has_children && ts[k].id == x,
                            )) by {
                                assert forall|x: Seq<char>| (exists|k: int| 0 <= k < i + 1 && ts[k].has_children && ts[k].id == x)
                                    implies texts(ids@).to_set().contains(x) by {
                                    let k = choose|k: int| 0 <= k < i + 1 && ts[k].has_children && ts[k].id == x;
                                    if k == i {
                                        assert(texts(ids@).contains(id@));
                                    }
                                }
                            }
                        }
                    },
                    None => {
                        proof {
                            lemma_texts_push(ids@, id);
                            lemma_push_distinct(texts(ids@), id@);
                        }
                        ids.push(id);
                        proof {
                            assert(texts(ids@).to_set() =~= Set::new(
                                |x: Seq<char>| exists|k: int| 0 <= k < i + 1 && ts[k].has_children && ts[k].id == x,
                            )) by {
                                assert forall|x: Seq<char>| (exists|k: int| 0 <= k < i + 1 && ts[k].has_children && ts[k].id == x)
                                    implies texts(ids@).to_set().contains(x) by {
                                    let k = choose|k: int| 0 <= k < i + 1 && ts[k].has_children && ts[k].id == x;
                                    if k < i {
                                        assert(texts(before).to_set().contains(x));
                                    }
                                }
                                assert forall|x: Seq<char>| texts(ids@).to_set().contains(x)
                                    implies (exists|k: int| 0 <= k < i + 1 && ts[k].has_children && ts[k].id == x) by {
                                    if x != ts[i as int].id {
                                        assert(texts(before).to_set().contains(x));
                                    }
                                }
                            }
                        }
                    },
                }
            } else {
                proof {
                    assert(texts(ids@).to_set() =~= Set::new(
                        |x: Seq<char>| exists|k: int| 0 <= k < i + 1 && ts[k].has_children && ts[k].id == x,
                    )) by {
                        assert forall|x: Seq<char>| (exists|k: int| 0 <= k < i + 1 && ts[k].has_children && ts[k].id == x)
                            implies texts(ids@).to_set().contains(x) by {
                            let k = choose|k: int| 0 <= k < i + 1 && ts[k].has_children && ts[k].id == x;
                            assert(k != i);
                        }
                    }
                }
            }
            i = i + 1;
        }
        proof {
            assert(texts(ids@).to_set() =~= parent_ids(ts));
        }
        self.tasks = tasks;
        self.selected = 0;
        self.expanded_ids = ids;
        self.loading = false;
        input.task_list_filter_selected = 0;
    }

    /// Starts browsing the tasks: the list is emptied and fetched again, with
    /// the first position selected.
    pub fn fetch_started(&mut self)
        ensures
            final(self).loading,
            final(self).tasks@.len() == 0,
            final(self).selected == 0,
            final(self).expanded_ids == old(self).expanded_ids,
            final(self).hidden_status_names == old(self).hidden_status_names,
            final(self).scroll == old(self).scroll,
    {
        self.loading = true;
        self.tasks = Vec::new();
        self.selected = 0;
    }

    /// Fetching the list failed: loading ends, and the list stays as it was.
    pub fn fetch_failed(&mut self)
        ensures
            !final(self).loading,
            final(self).tasks == old(self).tasks,
            final(self).expanded_ids == old(self).expanded_ids,
            final(self).hidden_status_names == old(self).hidden_status_names,
            final(self).selected == old(self).selected,
            final(self).scroll == old(self).scroll,
    {
        self.loading = false;
    }
}


/// Moving down and then up the shown tasks, or up and then down, comes back
/// to the task that was selected, when that task is shown.
pub proof fn lemma_next_then_prev(ts: Seq<TaskListItemView>, expanded: Seq<Seq<char>>, hidden: Seq<Seq<char>>, sel: int)
    requires
        visible_task_indices(ts, expanded, hidden).contains(sel),
    ensures
        prev_visible(visible_task_indices(ts, expanded, hidden), next_visible(visible_task_indices(ts, expanded, hidden), sel)) == sel,
        next_visible(visible_task_indices(ts, expanded, hidden), prev_visible(visible_task_indices(ts, expanded, hidden), sel)) == sel,
{
    let vis = visible_task_indices(ts, expanded, hidden);
    lemma_visible_tasks(ts, expanded, hidden);
    let k = choose|k: int| 0 <= k < vis.len() && vis[k] == sel;
    lemma_increasing_place(vis, k);
    let n = vis.len() as int;
    let nx = (k + 1) % n;
    assert(0 <= nx < n);
    lemma_increasing_place(vis, nx);
    if k + 1 < n {
        vstd::arithmetic::div_mod::lemma_small_mod((k + 1) as nat, n as nat);
    } else {
        vstd::arithmetic::div_mod::lemma_mod_self_0(n);
    }
    let pv = if k == 0 { n - 1 } else { k - 1 };
    lemma_increasing_place(vis, pv);
    if pv + 1 < n {
        vstd::arithmetic::div_mod::lemma_small_mod((pv + 1) as nat, n as nat);
    } else {
        vstd::arithmetic::div_mod::lemma_mod_self_0(n);
    }
}

/// Whenever some task is shown, moving the selection either way lands on a
/// shown task.
pub proof fn lemma_selection_lands_on_shown(ts: Seq<TaskListItemView>, expanded: Seq<Seq<char>>, hidden: Seq<Seq<char>>, sel: int)
    requires
        visible_task_indices(ts, expanded, hidden).len() > 0,
    ensures
        visible_task_indices(ts, expanded, hidden).contains(next_visible(visible_task_indices(ts, expanded, hidden), sel)),
        visible_task_indices(ts, expanded, hidden).contains(prev_visible(visible_task_indices(ts, expanded, hidden), sel)),
{
    let vis = visible_task_indices(ts, expanded, hidden);
    lemma_position_in_range(vis, sel);
    let p = visible_position(vis, sel);
    let n = vis.len() as int;
    let nx = (p + 1) % n;
    assert(vis[nx] == next_visible(vis, sel));
    let pv = if p == 0 { n - 1 } else { p - 1 };
    assert(vis[pv] == prev_visible(vis, sel));
}

/// Toggling the same task twice leaves the expanded parents as they were.
pub proof fn lemma_expand_toggle_twice(ts: Seq<TaskListItemView>, sel: int, ex: Set<Seq<char>>)
    ensures
        expand_toggled(ts, sel, expand_toggled(ts, sel, ex)) == ex,
{
    if 0 <= sel < ts.len() && ts[sel].has_children {
        let id = ts[sel].id;
        if ex.contains(id) {
            assert(ex.remove(id).insert(id) =~= ex);
        } else {
            assert(ex.insert(id).remove(id) =~= ex);
        }
    }
}

/// Collapsing an expanded parent hides every task recorded under it.
pub proof fn lemma_collapse_hides_children(
    ts: Seq<TaskListItemView>,
    expanded: Seq<Seq<char>>,
    expanded_after: Seq<Seq<char>>,
    hidden: Seq<Seq<char>>,
    sel: int,
    i: int,
)
    requires
        0 <= sel < ts.len(),
        0 <= i < ts.len(),
        ts[sel].has_children,
        expanded.contains(ts[sel].id),
        expanded_after.to_set() == expand_toggled(ts, sel, expanded.to_set()),
        ts[i].parent_id is Some,
        crate::tasks::parent_entry(ts, ts[i].id) == Some(ts[sel].id),
    ensures
        !visible_task_indices(ts, expanded_after, hidden).contains(i),
{
    assert(expanded.to_set().contains(ts[sel].id));
    assert(!expanded_after.to_set().contains(ts[sel].id));
    assert(!expanded_after.contains(ts[sel].id));
    crate::tasks::lemma_visibility_rules(ts, expanded_after, hidden, i);
}

proof fn lemma_first_exists<A>(s: Seq<A>, x: A, k: int)
    requires
        0 <= k < s.len(),
        s[k] == x,
    ensures
        exists|j: int| is_first_place(s, x, j),
    decreases k,
{
    if exists|m: int| 0 <= m < k && s[m] == x {
        let m = choose|m: int| 0 <= m < k && s[m] == x;
        lemma_first_exists(s, x, m);
    } else {
        assert(is_first_place(s, x, k));
    }
}

/// Hiding a status and then toggling it again restores the hidden list; on
/// a list that names each status once, toggling a status twice never changes
/// which statuses are hidden.
pub proof fn lemma_status_toggle_twice(hidden: Seq<Seq<char>>, name: Seq<char>)
    ensures
        !hidden.contains(name) ==> status_toggled(status_toggled(hidden, name), name) == hidden,
        hidden.no_duplicates() ==> status_toggled(status_toggled(hidden, name), name).to_set() == hidden.to_set(),
{
    if hidden.contains(name) {
        if hidden.no_duplicates() {
            let k = choose|k: int| 0 <= k < hidden.len() && hidden[k] == name;
            lemma_first_exists(hidden, name, k);
            let first = first_place(hidden, name);
            assert(is_first_place(hidden, name, first));
            let r = hidden.remove(first);
            assert forall|j: int| 0 <= j < r.len() implies #[trigger] r[j] == (if j < first { hidden[j] } else { hidden[j + 1] }) by {}
            assert(!r.contains(name)) by {
                if r.contains(name) {
                    let j = choose|j: int| 0 <= j < r.len() && r[j] == name;
                    if j < first {
                        assert(hidden[j] == name);
                    } else {
                        assert(hidden[j + 1] == name);
                    }
                }
            }
            let back = r.push(name);
            assert forall|y: Seq<char>| #[trigger] back.to_set().contains(y) <==> hidden.to_set().contains(y) by {
                if back.contains(y) {
                    let m = choose|m: int| 0 <= m < back.len() && back[m] == y;
                    if m < r.len() {
                        if m < first {
                            assert(hidden[m] == y);
                        } else {
                            assert(hidden[m + 1] == y);
                        }
                    } else {
                        assert(hidden[first] == y);
                    }
                }
                if hidden.contains(y) {
                    let m = choose|m: int| 0 <= m < hidden.len() && hidden[m] == y;
                    if y == name {
                        assert(back[r.len() as int] == y);
                    } else if m < first {
                        assert(back[m] == y);
                    } else {
                        assert(m != first);
                        assert(back[m - 1] == y);
                    }
                }
            }
            assert(back.to_set() =~= hidden.to_set());
        }
    } else {
        let p = hidden.push(name);
        assert(p.contains(name)) by {
            assert(p[hidden.len() as int] == name);
        }
        let last = hidden.len() as int;
        assert(is_first_place(p, name, last));
        lemma_first_place_unique(p, name, last);
        assert(p.remove(last) =~= hidden);
    }
}

/// Once a status is hidden, no task with that status is shown.
pub proof fn lemma_hidden_status_not_shown(
    ts: Seq<TaskListItemView>,
    expanded: Seq<Seq<char>>,
    hidden: Seq<Seq<char>>,
    name: Seq<char>,
    i: int,
)
    requires
        !hidden.contains(name),
        0 <= i < ts.len(),
        ts[i].status_name == name,
    ensures
        !visible_task_indices(ts, expanded, status_toggled(hidden, name)).contains(i),
{
    let h2 = status_toggled(hidden, name);
    assert(h2.contains(name)) by {
        assert(h2[hidden.len() as int] == name);
    }
    crate::tasks::lemma_visibility_rules(ts, expanded, h2, i);
}

/// The filter row after moving down among `total` statuses, wrapping round.
pub open spec fn filter_next(selected: int, total: int) -> int {
    if total > 0 {
        (selected + 1) % total
    } else {
        selected
    }
}

/// The filter row after moving up among `total` statuses, wrapping round.
pub open spec fn filter_prev(selected: int, total: int) -> int {
    if total > 0 {
        if selected == 0 {
            total - 1
        } else {
            selected - 1
        }
    } else {
        selected
    }
}

impl InputState {
    /// Takes the loaded list of statuses; a filter selection past its end
    /// goes back to the first row.
    pub fn status_options_loaded(&mut self, options: Vec<String>)
        ensures
            final(self).task_list_status_options@ == options@,
            final(self).task_list_filter_selected == (if old(self).task_list_filter_selected >= options@.len() {
                0
            } else {
                old(self).task_list_filter_selected
            }),
            final(self).task_list_filter_open == old(self).task_list_filter_open,
            final(self).input_mode == old(self).input_mode,
            final(self).selected_agent_id == old(self).selected_agent_id,
            final(self).input_buffer == old(self).input_buffer,
    {
        self.task_list_status_options = options;
        if self.task_list_filter_selected >= self.task_list_status_options.len() {
            self.task_list_filter_selected = 0;
        }
    }

    /// Opens or closes the status filter; opening it selects its first row.
    pub fn toggle_task_list_filter(&mut self)
        ensures
            final(self).task_list_filter_open == !old(self).task_list_filter_open,
            final(self).task_list_filter_selected == (if final(self).task_list_filter_open {
                0
            } else {
                old(self).task_list_filter_selected
            }),
            final(self).task_list_status_options == old(self).task_list_status_options,
            final(self).input_mode == old(self).input_mode,
            final(self).selected_agent_id == old(self).selected_agent_id,
            final(self).input_buffer == old(self).input_buffer,
    {
        self.task_list_filter_open = !self.task_list_filter_open;
        if self.task_list_filter_open {
            self.task_list_filter_selected = 0;
        }
    }

    /// Moves the status filter's selection down, wrapping round.
    pub fn task_list_filter_next(&mut self)
        requires
            old(self).task_list_status_options.len() > 0 ==> old(self).task_list_filter_selected < usize::MAX,
        ensures
            final(self).task_list_filter_selected as int == filter_next(
                old(self).task_list_filter_selected as int,
                old(self).task_list_status_options.len() as int,
            ),
            final(self).task_list_filter_open == old(self).task_list_filter_open,
            final(self).task_list_status_options == old(self).task_list_status_options,
            final(self).input_mode == old(self).input_mode,
            final(self).selected_agent_id == old(self).selected_agent_id,
            final(self).input_buffer == old(self).input_buffer,
    {
        let total = self.task_list_status_options.len();
        if total > 0 {
            self.task_list_filter_selected = (self.task_list_filter_selected + 1) % total;
        }
    }

    /// Moves the status filter's selection up, wrapping round.
    pub fn task_list_filter_prev(&mut self)
        ensures
            final(self).task_list_filter_selected as int == filter_prev(
                old(self).task_list_filter_selected as int,
                old(self).task_list_status_options.len() as int,
            ),
            final(self).task_list_filter_open == old(self).task_list_filter_open,
            final(self).task_list_status_options == old(self).task_list_status_options,
            final(self).input_mode == old(self).input_mode,
            final(self).selected_agent_id == old(self).selected_agent_id,
            final(self).input_buffer == old(self).input_buffer,
    {
        let total = self.task_list_status_options.len();
        if total > 0 {
            if self.task_list_filter_selected == 0 {
                self.task_list_filter_selected = total - 1;
            } else {
                self.task_list_filter_selected = self.task_list_filter_selected - 1;
            }
        }
    }
}

/// On a filter row within the list, moving down and then up, or up and then
/// down, comes back to the same row.
pub proof fn lemma_filter_next_then_prev(selected: int, total: int)
    requires
        0 <= selected < total,
    ensures
        filter_prev(filter_next(selected, total), total) == selected,
        filter_next(filter_prev(selected, total), total) == selected,
{
    if selected + 1 < total {
        vstd::arithmetic::div_mod::lemma_small_mod((selected + 1) as nat, total as nat);
    } else {
        vstd::arithmetic::div_mod::lemma_mod_self_0(total);
    }
    let p = filter_prev(selected, total);
    if p + 1 < total {
        vstd::arithmetic::div_mod::lemma_small_mod((p + 1) as nat, total as nat);
    } else {
        vstd::arithmetic::div_mod::lemma_mod_self_0(total);
    }
}

} // verus!
