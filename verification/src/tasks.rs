//! Project-management tasks: parsing task references, ordering task lists
//! by parent, and deciding which tasks a tree view shows.
use vstd::prelude::*;
use crate::text::{chars_of, contains_chars, contains_text, segment_eq, text_of_segment, trim_text, trim_ws};

verus! {

/// `s` without the characters `c` at its end.
pub open spec fn strip_trailing(s: Seq<char>, c: char) -> Seq<char>
    decreases s.len(),
{
    if s.len() > 0 && s.last() == c {
        strip_trailing(s.drop_last(), c)
    } else {
        s
    }
}

/// Whether `k` is the first position of `c` in `s`.
pub open spec fn is_first_index(s: Seq<char>, c: char, k: int) -> bool {
    0 <= k < s.len() && s[k] == c && forall|j: int| 0 <= j < k ==> s[j] != c
}

/// The pieces of `s` between the occurrences of `c`, as `str::split` gives
/// them (an empty text gives one empty piece).
pub open spec fn split_on(s: Seq<char>, c: char) -> Seq<Seq<char>>
    decreases s.len(),
{
    if exists|k: int| is_first_index(s, c, k) {
        let k = choose|k: int| is_first_index(s, c, k);
        seq![s.take(k)] + split_on(s.skip(k + 1), c)
    } else {
        seq![s]
    }
}

/// Whether every character of `s` is an ASCII digit (true of the empty text).
pub open spec fn all_ascii_digits(s: Seq<char>) -> bool {
    forall|i: int| 0 <= i < s.len() ==> '0' <= #[trigger] s[i] <= '9'
}

/// The first piece, from position `i` on, that follows a piece `task` and is
/// all digits.
pub open spec fn task_gid_from(parts: Seq<Seq<char>>, i: int) -> Option<Seq<char>>
    decreases parts.len() - i,
{
    if i < 0 || i + 1 >= parts.len() {
        None
    } else if parts[i] == "task"@ && all_ascii_digits(parts[i + 1]) {
        Some(parts[i + 1])
    } else {
        task_gid_from(parts, i + 1)
    }
}

/// The first piece, from position `i` on, that comes two after a piece `0`,
/// is not `f`, and is all digits.
pub open spec fn legacy_gid_from(parts: Seq<Seq<char>>, i: int) -> Option<Seq<char>>
    decreases parts.len() - i,
{
    if i < 0 || i + 2 >= parts.len() {
        None
    } else if parts[i] == "0"@ && parts[i + 2] != "f"@ && all_ascii_digits(parts[i + 2]) {
        Some(parts[i + 2])
    } else {
        legacy_gid_from(parts, i + 1)
    }
}

/// The Asana task GID that a URL or bare GID names: in an Asana URL, the
/// piece after `task` (new format) or two after `0` (old format); otherwise
/// the trimmed input.
pub open spec fn asana_task_gid(input: Seq<char>) -> Seq<char> {
    let t = trim_ws(input);
    if contains_text(t, "asana.com"@) {
        let parts = split_on(strip_trailing(t, '/'), '/');
        match task_gid_from(parts, 0) {
            Some(g) => g,
            None => match legacy_gid_from(parts, 0) {
                Some(g) => g,
                None => t,
            },
        }
    } else {
        t
    }
}

proof fn lemma_task_gid_is_piece(parts: Seq<Seq<char>>, i: int)
    ensures
        task_gid_from(parts, i) matches Some(g) ==> parts.contains(g) && all_ascii_digits(g),
    decreases parts.len() - i,
{
    if !(i < 0 || i + 1 >= parts.len()) {
        if !(parts[i] == "task"@ && all_ascii_digits(parts[i + 1])) {
            lemma_task_gid_is_piece(parts, i + 1);
        } else {
            assert(parts[i + 1] == parts[i + 1]);
        }
    }
}

proof fn lemma_legacy_gid_is_piece(parts: Seq<Seq<char>>, i: int)
    ensures
        legacy_gid_from(parts, i) matches Some(g) ==> parts.contains(g) && all_ascii_digits(g),
    decreases parts.len() - i,
{
    if !(i < 0 || i + 2 >= parts.len()) {
        if !(parts[i] == "0"@ && parts[i + 2] != "f"@ && all_ascii_digits(parts[i + 2])) {
            lemma_legacy_gid_is_piece(parts, i + 1);
        } else {
            assert(parts[i + 2] == parts[i + 2]);
        }
    }
}

/// A text of ASCII digits alone is its own GID.
proof fn lemma_digits_are_gid(g: Seq<char>)
    requires
        all_ascii_digits(g),
    ensures
        asana_task_gid(g) == g,
{
    if g.len() > 0 {
        assert('0' <= g[0] <= '9');
        assert('0' <= g.last() <= '9');
    }
    crate::text::lemma_trim_of_trimmed(g);
    reveal_strlit("asana.com");
    if contains_text(g, "asana.com"@) {
        let i = choose|i: int| crate::text::occurs_at(g, "asana.com"@, i);
        assert(g.subrange(i, i + 9)[0] == g[i]);
        assert('0' <= g[i] <= '9');
    }
}

/// Parsing an Asana task GID twice gives what parsing it once gives, and
/// what it gives is the trimmed input or, from an Asana URL, one of the
/// `/`-separated pieces of the trimmed input (trailing `/` dropped) that is
/// made of ASCII digits alone.
pub proof fn lemma_asana_gid_idempotent(input: Seq<char>)
    ensures
        asana_task_gid(asana_task_gid(input)) == asana_task_gid(input),
        asana_task_gid(input) == trim_ws(input) || ({
            let parts = split_on(strip_trailing(trim_ws(input), '/'), '/');
            &&& contains_text(trim_ws(input), "asana.com"@)
            &&& parts.contains(asana_task_gid(input))
            &&& all_ascii_digits(asana_task_gid(input))
        }),
{
    let t = trim_ws(input);
    let parts = split_on(strip_trailing(t, '/'), '/');
    crate::text::lemma_trim_idempotent(input);
    lemma_task_gid_is_piece(parts, 0);
    lemma_legacy_gid_is_piece(parts, 0);
    let r = asana_task_gid(input);
    if r != t {
        lemma_digits_are_gid(r);
    }
}

/// The view of a list of segments of `s`.
pub open spec fn segment_views(s: Seq<char>, segs: Seq<(usize, usize)>) -> Seq<Seq<char>> {
    segs.map_values(|p: (usize, usize)| s.subrange(p.0 as int, p.1 as int))
}

proof fn lemma_split_first(s: Seq<char>, c: char, k: int)
    requires
        is_first_index(s, c, k),
    ensures
        split_on(s, c) == seq![s.take(k)] + split_on(s.skip(k + 1), c),
{
    let k2 = choose|k2: int| is_first_index(s, c, k2);
    assert(k2 == k) by {
        if k2 < k {
            assert(s[k2] != c);
        } else if k < k2 {
            assert(s[k] != c);
        }
    }
}

/// The segments of `cs[0..end]` between the occurrences of `c`.
fn split_segments(cs: &Vec<char>, end: usize, c: char) -> (segs: Vec<(usize, usize)>)
    requires
        end <= cs@.len(),
    ensures
        segment_views(cs@, segs@) == split_on(cs@.take(end as int), c),
        forall|i: int| #![trigger segs@[i]] 0 <= i < segs@.len() ==> segs@[i].0 <= segs@[i].1 <= end,
{
    let ghost body = cs@.take(end as int);
    let mut segs: Vec<(usize, usize)> = Vec::new();
    let mut start: usize = 0;
    let mut j: usize = 0;
    proof {
        assert(body.skip(0) =~= body);
        assert(segment_views(cs@, segs@) =~= Seq::<Seq<char>>::empty());
        assert(Seq::<Seq<char>>::empty() + split_on(body, c) =~= split_on(body, c));
    }
    while j < end
        invariant
            end <= cs@.len(),
            body == cs@.take(end as int),
            start <= j <= end,
            forall|k: int| start <= k < j ==> cs@[k] != c,
            forall|i: int| #![trigger segs@[i]] 0 <= i < segs@.len() ==> segs@[i].0 <= segs@[i].1 <= end,
            segment_views(cs@, segs@) + split_on(body.skip(start as int), c) == split_on(body, c),
        decreases end - j,
    {
        if cs[j] == c {
            let ghost prev = segment_views(cs@, segs@);
            let ghost rest = body.skip(start as int);
            let ghost piece = cs@.subrange(start as int, j as int);
            proof {
                assert(is_first_index(rest, c, j - start));
                lemma_split_first(rest, c, j - start);
                assert(rest.take(j - start) =~= piece);
                assert(rest.skip(j - start + 1) =~= body.skip(j + 1));
            }
            segs.push((start, j));
            proof {
                assert(segment_views(cs@, segs@) =~= prev.push(piece));
                assert(prev.push(piece) + split_on(body.skip(j + 1), c) =~= prev + (seq![piece]
                    + split_on(body.skip(j + 1), c)));
            }
            start = j + 1;
        }
        j = j + 1;
    }
    let ghost prev = segment_views(cs@, segs@);
    let ghost rest = body.skip(start as int);
    proof {
        assert(!exists|k: int| is_first_index(rest, c, k));
        assert(rest =~= cs@.subrange(start as int, end as int));
    }
    segs.push((start, end));
    proof {
        assert(segment_views(cs@, segs@) =~= prev.push(rest));
        assert(prev.push(rest) =~= prev + seq![rest]);
    }
    segs
}

/// Whether every character of `cs[from..to]` is an ASCII digit.
fn segment_all_digits(cs: &Vec<char>, from: usize, to: usize) -> (r: bool)
    requires
        from <= to <= cs@.len(),
    ensures
        r == all_ascii_digits(cs@.subrange(from as int, to as int)),
{
    let mut k = from;
    while k < to
        invariant
            from <= k <= to <= cs@.len(),
            forall|i: int| from <= i < k ==> '0' <= #[trigger] cs@[i] <= '9',
        decreases to - k,
    {
        let ch = cs[k];
        if !('0' <= ch && ch <= '9') {
            assert(cs@.subrange(from as int, to as int)[k - from] == ch);
            return false;
        }
        k = k + 1;
    }
    assert forall|i: int| 0 <= i < to - from implies '0' <= #[trigger] cs@.subrange(from as int, to as int)[i] <= '9' by {
        assert(cs@.subrange(from as int, to as int)[i] == cs@[from + i]);
    }
    true
}

/// Parse an Asana task GID from a URL or bare GID.
/// Supports: `https://app.asana.com/0/{project}/{task}/f`, `https://app.asana.com/0/{project}/{task}`,
/// `https://app.asana.com/1/{workspace}/project/{project}/task/{task_gid}`, or bare `{task_gid}`.
pub fn parse_asana_task_gid(input: &str) -> (r: String)
    ensures
        r@ == asana_task_gid(input@),
{
    let trimmed = trim_text(input);
    let t = trimmed.as_str();
    let cs = chars_of(t);
    if !contains_chars(&cs, "asana.com") {
        return trimmed;
    }
    let mut end = cs.len();
    proof {
        assert(cs@.take(cs@.len() as int) =~= cs@);
    }
    while end > 0 && cs[end - 1] == '/'
        invariant
            end <= cs@.len(),
            strip_trailing(cs@.take(end as int), '/') == strip_trailing(cs@, '/'),
        decreases end,
    {
        assert(cs@.take(end - 1) =~= cs@.take(end as int).drop_last());
        end = end - 1;
    }
    proof {
        assert(cs@.take(cs@.len() as int) =~= cs@);
    }
    let segs = split_segments(&cs, end, '/');
    let ghost parts = segment_views(cs@, segs@);
    assert(parts == split_on(strip_trailing(cs@, '/'), '/')) by {
        assert(strip_trailing(cs@.take(end as int), '/') == cs@.take(end as int));
    }
    let n = segs.len();
    let mut i: usize = 0;
    while i < n && i + 1 < n
        invariant
            n == segs@.len(),
            parts == segment_views(cs@, segs@),
            cs@ == t@,
            t@ == trim_ws(input@),
            contains_text(t@, "asana.com"@),
            parts == split_on(strip_trailing(t@, '/'), '/'),
            forall|k: int| #![trigger segs@[k]] 0 <= k < segs@.len() ==> segs@[k].0 <= segs@[k].1 <= cs@.len(),
            task_gid_from(parts, 0) == task_gid_from(parts, i as int),
            i <= n,
        decreases n - i,
    {
        let (a, b) = segs[i];
        let (c, d) = segs[i + 1];
        assert(segs@[i as int] == (a, b) && segs@[i + 1] == (c, d));
        assert(parts[i as int] == cs@.subrange(a as int, b as int));
        assert(parts[i + 1] == cs@.subrange(c as int, d as int));
        if segment_eq(&cs, a, b, "task") && segment_all_digits(&cs, c, d) {
            return text_of_segment(t, c, d);
        }
        i = i + 1;
    }
    let mut i: usize = 0;
    while i < n && i + 1 < n && i + 2 < n
        invariant
            n == segs@.len(),
            parts == segment_views(cs@, segs@),
            cs@ == t@,
            t@ == trim_ws(input@),
            contains_text(t@, "asana.com"@),
            parts == split_on(strip_trailing(t@, '/'), '/'),
            forall|k: int| #![trigger segs@[k]] 0 <= k < segs@.len() ==> segs@[k].0 <= segs@[k].1 <= cs@.len(),
            task_gid_from(parts, 0) is None,
            legacy_gid_from(parts, 0) == legacy_gid_from(parts, i as int),
            i <= n,
        decreases n - i,
    {
        let (a, b) = segs[i];
        let (c, d) = segs[i + 2];
        assert(segs@[i as int] == (a, b) && segs@[i + 2] == (c, d));
        assert(parts[i as int] == cs@.subrange(a as int, b as int));
        assert(parts[i + 2] == cs@.subrange(c as int, d as int));
        if segment_eq(&cs, a, b, "0") && !segment_eq(&cs, c, d, "f") && segment_all_digits(&cs, c, d) {
            return text_of_segment(t, c, d);
        }
        i = i + 1;
    }
    trimmed
}

} // verus!

verus! {

/// A task in the project-management task list.
#[derive(Debug)]
pub struct TaskListItem {
    pub id: String,
    pub identifier: Option<String>,
    pub name: String,
    pub status_name: String,
    pub url: String,
    pub parent_id: Option<String>,
    pub has_children: bool,
}

/// The view of a [`TaskListItem`].
pub struct TaskListItemView {
    pub id: Seq<char>,
    pub identifier: Option<Seq<char>>,
    pub name: Seq<char>,
    pub status_name: Seq<char>,
    pub url: Seq<char>,
    pub parent_id: Option<Seq<char>>,
    pub has_children: bool,
}

impl View for TaskListItem {
    type V = TaskListItemView;

    open spec fn view(&self) -> TaskListItemView {
        TaskListItemView {
            id: self.id@,
            identifier: crate::agent::opt_text(self.identifier),
            name: self.name@,
            status_name: self.status_name@,
            url: self.url@,
            parent_id: crate::agent::opt_text(self.parent_id),
            has_children: self.has_children,
        }
    }
}

impl TaskListItem {
    /// The same task, as a new value.
    pub fn copy(&self) -> (r: TaskListItem)
        ensures
            r@ == self@,
    {
        TaskListItem {
            id: self.id.clone(),
            identifier: crate::agent::copy_opt_text(&self.identifier),
            name: self.name.clone(),
            status_name: self.status_name.clone(),
            url: self.url.clone(),
            parent_id: crate::agent::copy_opt_text(&self.parent_id),
            has_children: self.has_children,
        }
    }
}

/// The views of a list of tasks.
pub open spec fn task_views(tasks: Seq<TaskListItem>) -> Seq<TaskListItemView> {
    tasks.map_values(|t: TaskListItem| t@)
}

/// Visits task `i` depth first: unless it was visited already (or the depth
/// budget is spent), it is appended, then each task whose parent is `i`'s id
/// is visited in list order.
pub open spec fn visit(ts: Seq<TaskListItemView>, i: int, vis: Seq<int>, budget: nat) -> Seq<int>
    decreases budget, 0int,
{
    if vis.contains(i) || budget == 0 {
        vis
    } else {
        visit_children(ts, ts[i].id, 0, vis.push(i), (budget - 1) as nat)
    }
}

/// Visits, in list order from position `j` on, each task whose parent is `pid`.
pub open spec fn visit_children(ts: Seq<TaskListItemView>, pid: Seq<char>, j: int, vis: Seq<int>, budget: nat) -> Seq<int>
    decreases budget, ts.len() - j + 1,
{
    if j < 0 || j >= ts.len() {
        vis
    } else if ts[j].parent_id == Some(pid) {
        visit_children(ts, pid, j + 1, visit(ts, j, vis, budget), budget)
    } else {
        visit_children(ts, pid, j + 1, vis, budget)
    }
}

/// Visits, in list order from position `j` on, each task without a parent,
/// with a depth budget of the number of tasks.
pub open spec fn visit_roots(ts: Seq<TaskListItemView>, j: int, vis: Seq<int>) -> Seq<int>
    decreases ts.len() - j,
{
    if j < 0 || j >= ts.len() {
        vis
    } else if ts[j].parent_id is None {
        visit_roots(ts, j + 1, visit(ts, j, vis, ts.len() as nat))
    } else {
        visit_roots(ts, j + 1, vis)
    }
}

/// Appends, in list order from position `j` on, every position below `n` not yet in `vis`.
pub open spec fn append_unvisited(n: int, j: int, vis: Seq<int>) -> Seq<int>
    decreases n - j,
{
    if j < 0 || j >= n {
        vis
    } else if vis.contains(j) {
        append_unvisited(n, j + 1, vis)
    } else {
        append_unvisited(n, j + 1, vis.push(j))
    }
}

/// The order in which `sort_tasks_by_parent` lists the tasks: each task
/// without a parent, in list order, followed depth first by its
/// descendants; then every task not reached that way, in list order.
pub open spec fn parent_order(ts: Seq<TaskListItemView>) -> Seq<int> {
    append_unvisited(ts.len() as int, 0, visit_roots(ts, 0, Seq::empty()))
}

/// The tasks reached from a task without a parent, in the order of `parent_order`.
pub open spec fn tree_part(ts: Seq<TaskListItemView>) -> Seq<int> {
    visit_roots(ts, 0, Seq::empty())
}

/// Whether `vis` lists distinct positions below `n`, with `flags` marking exactly them.
pub open spec fn tracks(vis: Seq<int>, flags: Seq<bool>, n: int) -> bool {
    &&& flags.len() == n
    &&& forall|k: int| 0 <= k < vis.len() ==> 0 <= #[trigger] vis[k] < n
    &&& vis.no_duplicates()
    &&& forall|i: int| 0 <= i < n ==> (#[trigger] flags[i] <==> vis.contains(i))
}

/// The positions of `order` as integers.
pub open spec fn positions(order: Seq<usize>) -> Seq<int> {
    order.map_values(|i: usize| i as int)
}

proof fn lemma_positions_push(order: Seq<usize>, i: usize)
    ensures
        positions(order.push(i)) == positions(order).push(i as int),
{
    assert(positions(order.push(i)) =~= positions(order).push(i as int));
}

proof fn lemma_tracks_push(vis: Seq<int>, flags: Seq<bool>, n: int, i: int)
    requires
        tracks(vis, flags, n),
        0 <= i < n,
        !vis.contains(i),
    ensures
        tracks(vis.push(i), flags.update(i, true), n),
{
    let v2 = vis.push(i);
    let f2 = flags.update(i, true);
    assert forall|x: int| 0 <= x < n implies (#[trigger] f2[x] <==> v2.contains(x)) by {
        if x == i {
            assert(v2[vis.len() as int] == i);
        } else {
            if v2.contains(x) {
                let k = choose|k: int| 0 <= k < v2.len() && v2[k] == x;
                assert(vis[k] == x);
            }
            if vis.contains(x) {
                let k = choose|k: int| 0 <= k < vis.len() && vis[k] == x;
                assert(v2[k] == x);
            }
        }
    }
    assert(v2.no_duplicates()) by {
        assert forall|a: int, b: int| 0 <= a < v2.len() && 0 <= b < v2.len() && a != b implies v2[a] != v2[b] by {
            if a == vis.len() && b < vis.len() {
                assert(vis.contains(v2[b]));
            } else if b == vis.len() && a < vis.len() {
                assert(vis.contains(v2[a]));
            }
        }
    }
}

/// Visits task `i` and its descendants, appending them to `order`.
fn collect_tree(
    tasks: &Vec<TaskListItem>,
    i: usize,
    processed: &mut Vec<bool>,
    order: &mut Vec<usize>,
    budget: usize,
)
    requires
        i < tasks@.len(),
        tracks(positions(old(order)@), old(processed)@, tasks@.len() as int),
    ensures
        positions(final(order)@) == visit(task_views(tasks@), i as int, positions(old(order)@), budget as nat),
        tracks(positions(final(order)@), final(processed)@, tasks@.len() as int),
    decreases budget, 0int,
{
    let ghost ts = task_views(tasks@);
    let n = tasks.len();
    if processed[i] || budget == 0 {
        return;
    }
    proof {
        lemma_tracks_push(positions(order@), processed@, n as int, i as int);
        lemma_positions_push(order@, i);
    }
    processed.set(i, true);
    order.push(i);
    let ghost start = positions(order@);
    let mut j: usize = 0;
    while j < n
        invariant
            n == tasks@.len(),
            ts == task_views(tasks@),
            i < n,
            budget > 0,
            j <= n,
            tracks(positions(order@), processed@, n as int),
            visit_children(ts, ts[i as int].id, 0, start, (budget - 1) as nat)
                == visit_children(ts, ts[i as int].id, j as int, positions(order@), (budget - 1) as nat),
        decreases n - j,
    {
        let is_child = match &tasks[j].parent_id {
            Some(p) => *p == tasks[i].id,
            None => false,
        };
        if is_child {
            collect_tree(tasks, j, processed, order, budget - 1);
        }
        j = j + 1;
    }
}

} // verus!

verus! {

/// The task list that `sort_tasks_by_parent` leaves: the tasks in
/// `parent_order`, when that order lists every task once (the law
/// `lemma_parent_order_is_permutation` shows it always does).
pub open spec fn sorted_by_parent(ts: Seq<TaskListItemView>) -> Seq<TaskListItemView> {
    let o = parent_order(ts);
    if o.len() == ts.len() {
        Seq::new(ts.len(), |k: int| ts[o[k]])
    } else {
        ts
    }
}

/// Sort tasks so children appear directly after their parents.
pub fn sort_tasks_by_parent(tasks: &mut Vec<TaskListItem>)
    ensures
        task_views(final(tasks)@) == sorted_by_parent(task_views(old(tasks)@)),
{
    let ghost ts = task_views(tasks@);
    let n = tasks.len();
    let mut processed: Vec<bool> = Vec::new();
    let mut k: usize = 0;
    while k < n
        invariant
            k <= n,
            processed@.len() == k,
            forall|x: int| 0 <= x < k ==> !#[trigger] processed@[x],
        decreases n - k,
    {
        processed.push(false);
        k = k + 1;
    }
    let mut order: Vec<usize> = Vec::new();
    proof {
        assert(positions(order@) =~= Seq::<int>::empty());
    }
    let mut j: usize = 0;
    while j < n
        invariant
            n == tasks@.len(),
            ts == task_views(tasks@),
            j <= n,
            tracks(positions(order@), processed@, n as int),
            visit_roots(ts, 0, Seq::empty()) == visit_roots(ts, j as int, positions(order@)),
        decreases n - j,
    {
        if tasks[j].parent_id.is_none() {
            collect_tree(tasks, j, &mut processed, &mut order, n);
        }
        j = j + 1;
    }
    let mut j: usize = 0;
    while j < n
        invariant
            n == tasks@.len(),
            ts == task_views(tasks@),
            j <= n,
            tracks(positions(order@), processed@, n as int),
            append_unvisited(n as int, 0, visit_roots(ts, 0, Seq::empty()))
                == append_unvisited(n as int, j as int, positions(order@)),
        decreases n - j,
    {
        if !processed[j] {
            proof {
                lemma_tracks_push(positions(order@), processed@, n as int, j as int);
                lemma_positions_push(order@, j);
            }
            processed.set(j, true);
            order.push(j);
        }
        j = j + 1;
    }
    let ghost o = positions(order@);
    assert(o == parent_order(ts));
    if order.len() == n {
        let mut result: Vec<TaskListItem> = Vec::new();
        let mut k: usize = 0;
        while k < n
            invariant
                n == tasks@.len(),
                ts == task_views(tasks@),
                o == positions(order@),
                order@.len() == n,
                tracks(o, processed@, n as int),
                k <= n,
                result@.len() == k,
                forall|x: int| 0 <= x < k ==> (#[trigger] result@[x])@ == ts[o[x]],
            decreases n - k,
        {
            let idx = order[k];
            assert(o[k as int] == idx as int);
            result.push(tasks[idx].copy());
            k = k + 1;
        }
        *tasks = result;
        assert(task_views(tasks@) =~= sorted_by_parent(ts));
    }
}

} // verus!

verus! {

/// Whether `vis` lists distinct positions below `n`.
pub open spec fn distinct_positions(vis: Seq<int>, n: int) -> bool {
    &&& forall|k: int| 0 <= k < vis.len() ==> 0 <= #[trigger] vis[k] < n
    &&& vis.no_duplicates()
}

/// Whether `b` starts with `a`.
pub open spec fn extends(a: Seq<int>, b: Seq<int>) -> bool {
    a.len() <= b.len() && forall|k: int| 0 <= k < a.len() ==> #[trigger] b[k] == a[k]
}

/// Whether some task listed in `vis` has the id `id`.
pub open spec fn lists_id(ts: Seq<TaskListItemView>, vis: Seq<int>, id: Seq<char>) -> bool {
    exists|k: int| 0 <= k < vis.len() && #[trigger] ts[vis[k]].id == id
}

/// Whether every task in `vis` that has a parent comes after a task whose
/// id is that parent.
pub open spec fn parents_first(ts: Seq<TaskListItemView>, vis: Seq<int>) -> bool {
    forall|k: int| 0 <= k < vis.len() && (#[trigger] ts[vis[k]]).parent_id is Some ==>
        exists|k2: int| 0 <= k2 < k && ts[vis[k2]].id == ts[vis[k]].parent_id->0
}

proof fn lemma_push_visited(ts: Seq<TaskListItemView>, vis: Seq<int>, i: int)
    requires
        0 <= i < ts.len(),
        distinct_positions(vis, ts.len() as int),
        !vis.contains(i),
        parents_first(ts, vis),
        ts[i].parent_id matches Some(p) ==> lists_id(ts, vis, p),
    ensures
        distinct_positions(vis.push(i), ts.len() as int),
        parents_first(ts, vis.push(i)),
        extends(vis, vis.push(i)),
        lists_id(ts, vis.push(i), ts[i].id),
{
    let v2 = vis.push(i);
    assert(v2[vis.len() as int] == i);
    assert(v2.no_duplicates()) by {
        assert forall|a: int, b: int| 0 <= a < v2.len() && 0 <= b < v2.len() && a != b implies v2[a] != v2[b] by {
            if a == vis.len() && b < vis.len() {
                assert(vis.contains(v2[b]));
            } else if b == vis.len() && a < vis.len() {
                assert(vis.contains(v2[a]));
            }
        }
    }
    assert forall|k: int| 0 <= k < v2.len() && (#[trigger] ts[v2[k]]).parent_id is Some implies
        exists|k2: int| 0 <= k2 < k && ts[v2[k2]].id == ts[v2[k]].parent_id->0 by {
        if k < vis.len() {
            assert(ts[vis[k]].parent_id is Some);
            let k2 = choose|k2: int| 0 <= k2 < k && ts[vis[k2]].id == ts[vis[k]].parent_id->0;
            assert(v2[k2] == vis[k2]);
        } else {
            let p = ts[i].parent_id->0;
            let k2 = choose|k2: int| 0 <= k2 < vis.len() && #[trigger] ts[vis[k2]].id == p;
            assert(v2[k2] == vis[k2]);
        }
    }
}

proof fn lemma_lists_id_extends(ts: Seq<TaskListItemView>, a: Seq<int>, b: Seq<int>, id: Seq<char>)
    requires
        extends(a, b),
        lists_id(ts, a, id),
    ensures
        lists_id(ts, b, id),
{
    let k = choose|k: int| 0 <= k < a.len() && #[trigger] ts[a[k]].id == id;
    assert(b[k] == a[k]);
}

proof fn lemma_visit(ts: Seq<TaskListItemView>, i: int, vis: Seq<int>, budget: nat)
    requires
        0 <= i < ts.len(),
        distinct_positions(vis, ts.len() as int),
        parents_first(ts, vis),
        ts[i].parent_id matches Some(p) ==> lists_id(ts, vis, p),
    ensures
        distinct_positions(visit(ts, i, vis, budget), ts.len() as int),
        parents_first(ts, visit(ts, i, vis, budget)),
        extends(vis, visit(ts, i, vis, budget)),
        budget > 0 ==> visit(ts, i, vis, budget).contains(i),
    decreases budget, 0int,
{
    if vis.contains(i) || budget == 0 {
    } else {
        lemma_push_visited(ts, vis, i);
        let v2 = vis.push(i);
        lemma_visit_children(ts, ts[i].id, 0, v2, (budget - 1) as nat);
        let r = visit(ts, i, vis, budget);
        assert(r[vis.len() as int] == v2[vis.len() as int]);
    }
}

proof fn lemma_visit_children(ts: Seq<TaskListItemView>, pid: Seq<char>, j: int, vis: Seq<int>, budget: nat)
    requires
        distinct_positions(vis, ts.len() as int),
        parents_first(ts, vis),
        lists_id(ts, vis, pid),
    ensures
        distinct_positions(visit_children(ts, pid, j, vis, budget), ts.len() as int),
        parents_first(ts, visit_children(ts, pid, j, vis, budget)),
        extends(vis, visit_children(ts, pid, j, vis, budget)),
    decreases budget, ts.len() - j + 1,
{
    if j < 0 || j >= ts.len() {
    } else if ts[j].parent_id == Some(pid) {
        lemma_visit(ts, j, vis, budget);
        let v2 = visit(ts, j, vis, budget);
        lemma_lists_id_extends(ts, vis, v2, pid);
        lemma_visit_children(ts, pid, j + 1, v2, budget);
    } else {
        lemma_visit_children(ts, pid, j + 1, vis, budget);
    }
}

proof fn lemma_visit_roots(ts: Seq<TaskListItemView>, j: int, vis: Seq<int>)
    requires
        0 <= j,
        distinct_positions(vis, ts.len() as int),
        parents_first(ts, vis),
    ensures
        distinct_positions(visit_roots(ts, j, vis), ts.len() as int),
        parents_first(ts, visit_roots(ts, j, vis)),
        extends(vis, visit_roots(ts, j, vis)),
        forall|r: int| j <= r < ts.len() && ts[r].parent_id is None ==> visit_roots(ts, j, vis).contains(r),
    decreases ts.len() - j,
{
    if j < 0 || j >= ts.len() {
    } else if ts[j].parent_id is None {
        lemma_visit(ts, j, vis, ts.len() as nat);
        let v2 = visit(ts, j, vis, ts.len() as nat);
        lemma_visit_roots(ts, j + 1, v2);
        let res = visit_roots(ts, j, vis);
        assert(v2.contains(j));
        let k = choose|k: int| 0 <= k < v2.len() && v2[k] == j;
        assert(res[k] == v2[k]);
        assert(res.contains(j));
        assert forall|r: int| j <= r < ts.len() && ts[r].parent_id is None implies res.contains(r) by {
            if r > j {
                assert(visit_roots(ts, j + 1, v2).contains(r));
            }
        }
    } else {
        lemma_visit_roots(ts, j + 1, vis);
    }
}

proof fn lemma_append_unvisited(n: int, j: int, vis: Seq<int>)
    requires
        0 <= j,
        distinct_positions(vis, n),
    ensures
        distinct_positions(append_unvisited(n, j, vis), n),
        extends(vis, append_unvisited(n, j, vis)),
        forall|x: int| j <= x < n ==> append_unvisited(n, j, vis).contains(x),
    decreases n - j,
{
    if j >= n {
    } else if vis.contains(j) {
        lemma_append_unvisited(n, j + 1, vis);
        let r = append_unvisited(n, j, vis);
        let k = choose|k: int| 0 <= k < vis.len() && vis[k] == j;
        assert(r[k] == vis[k]);
    } else {
        let v2 = vis.push(j);
        assert(distinct_positions(v2, n)) by {
            assert forall|a: int, b: int| 0 <= a < v2.len() && 0 <= b < v2.len() && a != b implies v2[a] != v2[b] by {
                if a == vis.len() && b < vis.len() {
                    assert(vis.contains(v2[b]));
                } else if b == vis.len() && a < vis.len() {
                    assert(vis.contains(v2[a]));
                }
            }
        }
        lemma_append_unvisited(n, j + 1, v2);
        let r = append_unvisited(n, j, vis);
        assert(r[vis.len() as int] == v2[vis.len() as int]);
    }
}

/// Distinct positions below `n`, at least `n` of them, include every position below `n`.
proof fn lemma_full_covers(vis: Seq<int>, n: int, i: int)
    requires
        distinct_positions(vis, n),
        vis.len() >= n,
        0 <= i < n,
    ensures
        vis.contains(i),
{
    if !vis.contains(i) {
        vis.unique_seq_to_set();
        vstd::set_lib::lemma_int_range(0, n);
        let rest = vstd::set_lib::set_int_range(0, n).remove(i);
        assert(vis.to_set().subset_of(rest)) by {
            assert forall|x: int| vis.to_set().contains(x) implies rest.contains(x) by {
                let k = choose|k: int| 0 <= k < vis.len() && vis[k] == x;
            }
        }
        vstd::set_lib::lemma_len_subset(vis.to_set(), rest);
    }
}

pub(crate) proof fn lemma_visit_grows(ts: Seq<TaskListItemView>, i: int, vis: Seq<int>, budget: nat)
    requires
        0 <= i < ts.len(),
        distinct_positions(vis, ts.len() as int),
    ensures
        distinct_positions(visit(ts, i, vis, budget), ts.len() as int),
        extends(vis, visit(ts, i, vis, budget)),
    decreases budget, 0int,
{
    if vis.contains(i) || budget == 0 {
    } else {
        let v2 = vis.push(i);
        assert(v2.no_duplicates()) by {
            assert forall|a: int, b: int| 0 <= a < v2.len() && 0 <= b < v2.len() && a != b implies v2[a] != v2[b] by {
                if a == vis.len() && b < vis.len() {
                    assert(vis.contains(v2[b]));
                } else if b == vis.len() && a < vis.len() {
                    assert(vis.contains(v2[a]));
                }
            }
        }
        lemma_visit_children_grows(ts, ts[i].id, 0, v2, (budget - 1) as nat);
        let r = visit(ts, i, vis, budget);
        assert(r[vis.len() as int] == v2[vis.len() as int]);
    }
}

pub(crate) proof fn lemma_visit_children_grows(ts: Seq<TaskListItemView>, pid: Seq<char>, j: int, vis: Seq<int>, budget: nat)
    requires
        distinct_positions(vis, ts.len() as int),
    ensures
        distinct_positions(visit_children(ts, pid, j, vis, budget), ts.len() as int),
        extends(vis, visit_children(ts, pid, j, vis, budget)),
    decreases budget, ts.len() - j + 1,
{
    if j < 0 || j >= ts.len() {
    } else if ts[j].parent_id == Some(pid) {
        lemma_visit_grows(ts, j, vis, budget);
        lemma_visit_children_grows(ts, pid, j + 1, visit(ts, j, vis, budget), budget);
    } else {
        lemma_visit_children_grows(ts, pid, j + 1, vis, budget);
    }
}

proof fn lemma_visit_budget(ts: Seq<TaskListItemView>, i: int, vis: Seq<int>, b1: nat, b2: nat)
    requires
        0 <= i < ts.len(),
        distinct_positions(vis, ts.len() as int),
        b1 + vis.len() >= ts.len(),
        b2 + vis.len() >= ts.len(),
    ensures
        visit(ts, i, vis, b1) == visit(ts, i, vis, b2),
    decreases b1, 0int,
{
    if vis.contains(i) {
    } else {
        if b1 == 0 || b2 == 0 {
            lemma_full_covers(vis, ts.len() as int, i);
        }
        let v2 = vis.push(i);
        assert(v2.no_duplicates()) by {
            assert forall|a: int, b: int| 0 <= a < v2.len() && 0 <= b < v2.len() && a != b implies v2[a] != v2[b] by {
                if a == vis.len() && b < vis.len() {
                    assert(vis.contains(v2[b]));
                } else if b == vis.len() && a < vis.len() {
                    assert(vis.contains(v2[a]));
                }
            }
        }
        lemma_visit_children_budget(ts, ts[i].id, 0, v2, (b1 - 1) as nat, (b2 - 1) as nat);
    }
}

proof fn lemma_visit_children_budget(ts: Seq<TaskListItemView>, pid: Seq<char>, j: int, vis: Seq<int>, b1: nat, b2: nat)
    requires
        distinct_positions(vis, ts.len() as int),
        b1 + vis.len() >= ts.len(),
        b2 + vis.len() >= ts.len(),
    ensures
        visit_children(ts, pid, j, vis, b1) == visit_children(ts, pid, j, vis, b2),
    decreases b1, ts.len() - j + 1,
{
    if j < 0 || j >= ts.len() {
    } else if ts[j].parent_id == Some(pid) {
        lemma_visit_budget(ts, j, vis, b1, b2);
        lemma_visit_grows(ts, j, vis, b1);
        let v = visit(ts, j, vis, b1);
        lemma_visit_children_budget(ts, pid, j + 1, v, b1, b2);
    } else {
        lemma_visit_children_budget(ts, pid, j + 1, vis, b1, b2);
    }
}

/// The depth budget of the walk that `sort_tasks_by_parent` makes never cuts
/// it short: from any set of visited tasks, a walk with a budget of the
/// number of tasks is the same as one with any larger budget, so the order
/// is that of the unbounded depth-first walk.
pub proof fn lemma_walk_budget_suffices(ts: Seq<TaskListItemView>, i: int, vis: Seq<int>, extra: nat)
    requires
        0 <= i < ts.len(),
        distinct_positions(vis, ts.len() as int),
    ensures
        visit(ts, i, vis, ts.len() as nat) == visit(ts, i, vis, (ts.len() + extra) as nat),
{
    lemma_visit_budget(ts, i, vis, ts.len() as nat, (ts.len() + extra) as nat);
}

/// `parent_order` lists every task exactly once, so `sort_tasks_by_parent`
/// always reorders the whole list: the sorted list is the tasks taken in
/// that order.
pub proof fn lemma_parent_order_is_permutation(ts: Seq<TaskListItemView>)
    ensures
        parent_order(ts).len() == ts.len(),
        parent_order(ts).no_duplicates(),
        forall|k: int| 0 <= k < ts.len() ==> 0 <= #[trigger] parent_order(ts)[k] < ts.len(),
        forall|x: int| 0 <= x < ts.len() ==> parent_order(ts).contains(x),
        sorted_by_parent(ts).len() == ts.len(),
        forall|k: int| 0 <= k < ts.len() ==> #[trigger] sorted_by_parent(ts)[k] == ts[parent_order(ts)[k]],
{
    let n = ts.len() as int;
    let e = Seq::<int>::empty();
    assert(parents_first(ts, e));
    lemma_visit_roots(ts, 0, e);
    let t = visit_roots(ts, 0, e);
    lemma_append_unvisited(n, 0, t);
    let o = parent_order(ts);
    o.unique_seq_to_set();
    vstd::set_lib::lemma_int_range(0, n);
    assert(o.to_set() =~= vstd::set_lib::set_int_range(0, n)) by {
        assert forall|x: int| o.to_set().contains(x) implies 0 <= x < n by {
            let k = choose|k: int| 0 <= k < o.len() && o[k] == x;
        }
    }
}

/// In `parent_order`, the tasks reached from a task without a parent come
/// first, each task that has a parent after a task whose id is that parent,
/// and every task without a parent is among them.
pub proof fn lemma_parents_come_first(ts: Seq<TaskListItemView>)
    ensures
        extends(tree_part(ts), parent_order(ts)),
        parents_first(ts, tree_part(ts)),
        forall|r: int| 0 <= r < ts.len() && ts[r].parent_id is None ==> tree_part(ts).contains(r),
{
    let e = Seq::<int>::empty();
    assert(parents_first(ts, e));
    lemma_visit_roots(ts, 0, e);
    lemma_append_unvisited(ts.len() as int, 0, tree_part(ts));
}

} // verus!

verus! {

/// Whether `k` is the last task with id `id` that has a parent.
pub open spec fn is_last_parent_entry(ts: Seq<TaskListItemView>, id: Seq<char>, k: int) -> bool {
    &&& 0 <= k < ts.len()
    &&& ts[k].id == id
    &&& ts[k].parent_id is Some
    &&& forall|j: int| k < j < ts.len() ==> !(#[trigger] ts[j].id == id && ts[j].parent_id is Some)
}

/// The parent recorded for the id `id`: that of the last task with this id
/// that has a parent (later tasks override earlier ones).
pub open spec fn parent_entry(ts: Seq<TaskListItemView>, id: Seq<char>) -> Option<Seq<char>> {
    if exists|k: int| is_last_parent_entry(ts, id, k) {
        ts[choose|k: int| is_last_parent_entry(ts, id, k)].parent_id
    } else {
        None
    }
}

/// Whether `k` is the first task with id `id`.
pub open spec fn is_first_with_id(ts: Seq<TaskListItemView>, id: Seq<char>, k: int) -> bool {
    &&& 0 <= k < ts.len()
    &&& ts[k].id == id
    &&& forall|j: int| 0 <= j < k ==> #[trigger] ts[j].id != id
}

/// Whether the first task with id `id` exists and has a hidden status.
pub open spec fn first_with_id_hidden(ts: Seq<TaskListItemView>, hidden: Seq<Seq<char>>, id: Seq<char>) -> bool {
    exists|k: int| is_first_with_id(ts, id, k) && hidden.contains(ts[k].status_name)
}

/// Walks up the recorded parents from `current`: fails at a parent that is
/// not expanded or whose (first) task has a hidden status; succeeds at an id
/// without a recorded parent or at an id seen before.
pub open spec fn ancestors_visible(
    ts: Seq<TaskListItemView>,
    expanded: Seq<Seq<char>>,
    hidden: Seq<Seq<char>>,
    current: Seq<char>,
    seen: Seq<Seq<char>>,
    fuel: nat,
) -> bool
    decreases fuel,
{
    if seen.contains(current) || fuel == 0 {
        true
    } else {
        match parent_entry(ts, current) {
            None => true,
            Some(p) => {
                if !expanded.contains(p) {
                    false
                } else if first_with_id_hidden(ts, hidden, p) {
                    false
                } else {
                    ancestors_visible(ts, expanded, hidden, p, seen.push(current), (fuel - 1) as nat)
                }
            },
        }
    }
}

/// The ids of the tasks, in list order.
pub open spec fn task_ids(ts: Seq<TaskListItemView>) -> Seq<Seq<char>> {
    ts.map_values(|t: TaskListItemView| t.id)
}

/// Whether `seen` lists distinct ids of tasks.
pub open spec fn seen_task_ids(ts: Seq<TaskListItemView>, seen: Seq<Seq<char>>) -> bool {
    &&& seen.no_duplicates()
    &&& forall|k: int| 0 <= k < seen.len() ==> task_ids(ts).contains(#[trigger] seen[k])
}

proof fn lemma_seen_bounded(ts: Seq<TaskListItemView>, seen: Seq<Seq<char>>)
    requires
        seen_task_ids(ts, seen),
    ensures
        seen.len() <= ts.len(),
{
    seen.unique_seq_to_set();
    task_ids(ts).lemma_cardinality_of_set();
    vstd::seq_lib::seq_to_set_is_finite(task_ids(ts));
    assert(seen.to_set().subset_of(task_ids(ts).to_set())) by {
        assert forall|x: Seq<char>| seen.to_set().contains(x) implies task_ids(ts).to_set().contains(x) by {
            let k = choose|k: int| 0 <= k < seen.len() && seen[k] == x;
            assert(task_ids(ts).contains(seen[k]));
        }
    }
    vstd::set_lib::lemma_len_subset(seen.to_set(), task_ids(ts).to_set());
}

proof fn lemma_walk_fuel(
    ts: Seq<TaskListItemView>,
    expanded: Seq<Seq<char>>,
    hidden: Seq<Seq<char>>,
    current: Seq<char>,
    seen: Seq<Seq<char>>,
    f1: nat,
    f2: nat,
)
    requires
        seen_task_ids(ts, seen),
        f1 + seen.len() >= ts.len() + 1,
        f2 + seen.len() >= ts.len() + 1,
    ensures
        ancestors_visible(ts, expanded, hidden, current, seen, f1) == ancestors_visible(ts, expanded, hidden, current, seen, f2),
    decreases f1,
{
    if seen.contains(current) {
    } else {
        lemma_seen_bounded(ts, seen);
        match parent_entry(ts, current) {
            None => {},
            Some(p) => {
                let k = choose|k: int| is_last_parent_entry(ts, current, k);
                assert(task_ids(ts)[k] == current);
                let s2 = seen.push(current);
                assert(seen_task_ids(ts, s2)) by {
                    assert forall|a: int, b: int| 0 <= a < s2.len() && 0 <= b < s2.len() && a != b implies s2[a] != s2[b] by {
                        if a == seen.len() && b < seen.len() {
                            assert(seen.contains(s2[b]));
                        } else if b == seen.len() && a < seen.len() {
                            assert(seen.contains(s2[a]));
                        }
                    }
                    assert forall|m: int| 0 <= m < s2.len() implies task_ids(ts).contains(#[trigger] s2[m]) by {
                        if m == seen.len() {
                            assert(task_ids(ts)[k] == s2[m]);
                        } else {
                            assert(s2[m] == seen[m]);
                        }
                    }
                }
                lemma_walk_fuel(ts, expanded, hidden, p, s2, (f1 - 1) as nat, (f2 - 1) as nat);
            },
        }
    }
}

/// The walk up the recorded parents in the visibility rule never runs out
/// of steps: with one step more than there are tasks it gives the same
/// answer as with any more steps, so the rule is that of the unbounded walk.
pub proof fn lemma_visibility_walk_suffices(
    ts: Seq<TaskListItemView>,
    expanded: Seq<Seq<char>>,
    hidden: Seq<Seq<char>>,
    id: Seq<char>,
    extra: nat,
)
    ensures
        ancestors_visible(ts, expanded, hidden, id, Seq::empty(), (ts.len() + 1) as nat)
            == ancestors_visible(ts, expanded, hidden, id, Seq::empty(), (ts.len() + 1 + extra) as nat),
{
    lemma_walk_fuel(ts, expanded, hidden, id, Seq::empty(), (ts.len() + 1) as nat, (ts.len() + 1 + extra) as nat);
}

/// Whether task `i` is shown: its status is not hidden, and it has no parent
/// or its ancestors are all expanded and shown. The walk up is given one
/// step more than there are tasks.
pub open spec fn task_visible(ts: Seq<TaskListItemView>, expanded: Seq<Seq<char>>, hidden: Seq<Seq<char>>, i: int) -> bool {
    &&& !hidden.contains(ts[i].status_name)
    &&& (ts[i].parent_id is None || ancestors_visible(ts, expanded, hidden, ts[i].id, Seq::empty(), (ts.len() + 1) as nat))
}

/// The shown tasks among the first `j`, in list order.
pub open spec fn visible_prefix(ts: Seq<TaskListItemView>, expanded: Seq<Seq<char>>, hidden: Seq<Seq<char>>, j: int) -> Seq<int>
    decreases j,
{
    if j <= 0 {
        Seq::empty()
    } else if task_visible(ts, expanded, hidden, j - 1) {
        visible_prefix(ts, expanded, hidden, j - 1).push(j - 1)
    } else {
        visible_prefix(ts, expanded, hidden, j - 1)
    }
}

/// The positions of the shown tasks, in list order.
pub open spec fn visible_task_indices(ts: Seq<TaskListItemView>, expanded: Seq<Seq<char>>, hidden: Seq<Seq<char>>) -> Seq<int> {
    visible_prefix(ts, expanded, hidden, ts.len() as int)
}

/// Whether `names` holds `s`.
pub fn list_contains(names: &[String], s: &String) -> (r: bool)
    ensures
        r == crate::agent::texts(names@).contains(s@),
{
    let ghost v = crate::agent::texts(names@);
    let mut k: usize = 0;
    while k < names.len()
        invariant
            k <= names@.len(),
            v == crate::agent::texts(names@),
            forall|j: int| 0 <= j < k ==> v[j] != s@,
        decreases names.len() - k,
    {
        if names[k] == *s {
            assert(v[k as int] == s@);
            return true;
        }
        k = k + 1;
    }
    assert(!v.contains(s@)) by {
        if v.contains(s@) {
            let j = choose|j: int| 0 <= j < v.len() && v[j] == s@;
        }
    }
    false
}

/// The recorded parent of the id `id`.
fn find_parent_entry(tasks: &Vec<TaskListItem>, id: &String) -> (r: Option<String>)
    ensures
        crate::agent::opt_text(r) == parent_entry(task_views(tasks@), id@),
{
    let ghost ts = task_views(tasks@);
    let mut k = tasks.len();
    while k > 0
        invariant
            k <= tasks@.len(),
            ts == task_views(tasks@),
            forall|j: int| k <= j < ts.len() ==> !(#[trigger] ts[j].id == id@ && ts[j].parent_id is Some),
        decreases k,
    {
        let t = &tasks[k - 1];
        if t.id == *id {
            if let Some(p) = &t.parent_id {
                assert(is_last_parent_entry(ts, id@, k - 1));
                assert(forall|k2: int| is_last_parent_entry(ts, id@, k2) ==> k2 == k - 1);
                return Some(p.clone());
            }
        }
        k = k - 1;
    }
    None
}

/// Whether the first task with id `id` has a hidden status.
fn find_first_hidden(tasks: &Vec<TaskListItem>, hidden: &[String], id: &String) -> (r: bool)
    ensures
        r == first_with_id_hidden(task_views(tasks@), crate::agent::texts(hidden@), id@),
{
    let ghost ts = task_views(tasks@);
    let mut k: usize = 0;
    while k < tasks.len()
        invariant
            k <= tasks@.len(),
            ts == task_views(tasks@),
            forall|j: int| 0 <= j < k ==> #[trigger] ts[j].id != id@,
        decreases tasks.len() - k,
    {
        if tasks[k].id == *id {
            assert(is_first_with_id(ts, id@, k as int));
            assert(forall|k2: int| is_first_with_id(ts, id@, k2) ==> k2 == k);
            return list_contains(hidden, &tasks[k].status_name);
        }
        k = k + 1;
    }
    false
}

fn walk_ancestors(
    tasks: &Vec<TaskListItem>,
    expanded_ids: &[String],
    hidden_status_names: &[String],
    start: &String,
) -> (r: bool)
    ensures
        r == ancestors_visible(
            task_views(tasks@),
            crate::agent::texts(expanded_ids@),
            crate::agent::texts(hidden_status_names@),
            start@,
            Seq::empty(),
            (tasks@.len() + 1) as nat,
        ),
{
    let ghost ts = task_views(tasks@);
    let ghost ex = crate::agent::texts(expanded_ids@);
    let ghost hi = crate::agent::texts(hidden_status_names@);
    let mut current: String = start.clone();
    let mut seen: Vec<String> = Vec::new();
    let mut fuel: usize = tasks.len();
    let ghost goal = ancestors_visible(ts, ex, hi, start@, Seq::empty(), (tasks@.len() + 1) as nat);
    proof {
        assert(crate::agent::texts(seen@) =~= Seq::<Seq<char>>::empty());
    }
    loop
        invariant
            ts == task_views(tasks@),
            ex == crate::agent::texts(expanded_ids@),
            hi == crate::agent::texts(hidden_status_names@),
            fuel <= tasks@.len(),
            goal == ancestors_visible(ts, ex, hi, start@, Seq::empty(), (tasks@.len() + 1) as nat),
            goal == ancestors_visible(ts, ex, hi, current@, crate::agent::texts(seen@), (fuel + 1) as nat),
        decreases fuel,
    {
        if list_contains(seen.as_slice(), &current) {
            return true;
        }
        match find_parent_entry(tasks, &current) {
            None => {
                return true;
            },
            Some(p) => {
                if !list_contains(expanded_ids, &p) {
                    return false;
                }
                if find_first_hidden(tasks, hidden_status_names, &p) {
                    return false;
                }
                if fuel == 0 {
                    assert(ancestors_visible(ts, ex, hi, p@, crate::agent::texts(seen@).push(current@), 0));
                    return true;
                }
                let ghost old_seen = crate::agent::texts(seen@);
                seen.push(current);
                assert(crate::agent::texts(seen@) =~= old_seen.push(current@));
                current = p;
                fuel = fuel - 1;
            },
        }
    }
}

/// The positions of the tasks that a collapsible task tree shows: those whose
/// status is not hidden and whose ancestors are all expanded and shown.
pub fn compute_visible_task_indices(
    tasks: &Vec<TaskListItem>,
    expanded_ids: &[String],
    hidden_status_names: &[String],
) -> (r: Vec<usize>)
    ensures
        positions(r@) == visible_task_indices(
            task_views(tasks@),
            crate::agent::texts(expanded_ids@),
            crate::agent::texts(hidden_status_names@),
        ),
{
    let ghost ts = task_views(tasks@);
    let ghost ex = crate::agent::texts(expanded_ids@);
    let ghost hi = crate::agent::texts(hidden_status_names@);
    let mut r: Vec<usize> = Vec::new();
    let mut j: usize = 0;
    proof {
        assert(positions(r@) =~= Seq::<int>::empty());
    }
    while j < tasks.len()
        invariant
            j <= tasks@.len(),
            ts == task_views(tasks@),
            ex == crate::agent::texts(expanded_ids@),
            hi == crate::agent::texts(hidden_status_names@),
            positions(r@) == visible_prefix(ts, ex, hi, j as int),
        decreases tasks.len() - j,
    {
        let task = &tasks[j];
        let shown = if list_contains(hidden_status_names, &task.status_name) {
            false
        } else if task.parent_id.is_none() {
            true
        } else {
            walk_ancestors(tasks, expanded_ids, hidden_status_names, &task.id)
        };
        if shown {
            proof {
                lemma_positions_push(r@, j);
            }
            r.push(j);
        }
        j = j + 1;
    }
    r
}

} // verus!

verus! {

proof fn lemma_visible_prefix(ts: Seq<TaskListItemView>, expanded: Seq<Seq<char>>, hidden: Seq<Seq<char>>, j: int)
    requires
        0 <= j <= ts.len(),
    ensures
        forall|x: int| #[trigger] visible_prefix(ts, expanded, hidden, j).contains(x)
            <==> (0 <= x < j && task_visible(ts, expanded, hidden, x)),
        forall|a: int, b: int| 0 <= a < b < visible_prefix(ts, expanded, hidden, j).len()
            ==> #[trigger] visible_prefix(ts, expanded, hidden, j)[a] < #[trigger] visible_prefix(ts, expanded, hidden, j)[b],
    decreases j,
{
    if j > 0 {
        lemma_visible_prefix(ts, expanded, hidden, j - 1);
        let p = visible_prefix(ts, expanded, hidden, j - 1);
        if task_visible(ts, expanded, hidden, j - 1) {
            let q = p.push(j - 1);
            assert(q == visible_prefix(ts, expanded, hidden, j));
            assert forall|x: int| #[trigger] q.contains(x) <==> (0 <= x < j && task_visible(ts, expanded, hidden, x)) by {
                if x == j - 1 {
                    assert(q[p.len() as int] == x);
                } else {
                    if q.contains(x) {
                        let k = choose|k: int| 0 <= k < q.len() && q[k] == x;
                        assert(k < p.len());
                        assert(p[k] == x);
                        assert(p.contains(x));
                    }
                    if 0 <= x < j && task_visible(ts, expanded, hidden, x) {
                        assert(p.contains(x));
                        let k = choose|k: int| 0 <= k < p.len() && p[k] == x;
                        assert(q[k] == x);
                    }
                }
            }
            assert forall|a: int, b: int| 0 <= a < b < q.len() implies #[trigger] q[a] < #[trigger] q[b] by {
                if b == p.len() {
                    assert(q[a] == p[a]);
                    assert(p.contains(p[a]));
                } else {
                    assert(q[a] == p[a] && q[b] == p[b]);
                }
            }
        } else {
            assert(p == visible_prefix(ts, expanded, hidden, j));
            assert forall|x: int| #[trigger] p.contains(x) <==> (0 <= x < j && task_visible(ts, expanded, hidden, x)) by {
                if x == j - 1 {
                    assert(!p.contains(x));
                }
            }
        }
    }
}

/// The shown tasks are listed once each, in list order, and a task is shown
/// exactly when its status is not hidden and it has no parent or its walk up
/// the recorded parents passes only expanded parents with shown statuses.
pub proof fn lemma_visible_tasks(ts: Seq<TaskListItemView>, expanded: Seq<Seq<char>>, hidden: Seq<Seq<char>>)
    ensures
        forall|x: int| #[trigger] visible_task_indices(ts, expanded, hidden).contains(x)
            <==> (0 <= x < ts.len() && task_visible(ts, expanded, hidden, x)),
        forall|a: int, b: int| 0 <= a < b < visible_task_indices(ts, expanded, hidden).len()
            ==> visible_task_indices(ts, expanded, hidden)[a] < visible_task_indices(ts, expanded, hidden)[b],
{
    lemma_visible_prefix(ts, expanded, hidden, ts.len() as int);
}

/// A task with a hidden status is never shown; a task without a parent is
/// shown when its status is not hidden; a task whose id has a recorded parent
/// that is not expanded is not shown.
pub proof fn lemma_visibility_rules(ts: Seq<TaskListItemView>, expanded: Seq<Seq<char>>, hidden: Seq<Seq<char>>, i: int)
    requires
        0 <= i < ts.len(),
    ensures
        hidden.contains(ts[i].status_name) ==> !visible_task_indices(ts, expanded, hidden).contains(i),
        !hidden.contains(ts[i].status_name) && ts[i].parent_id is None
            ==> visible_task_indices(ts, expanded, hidden).contains(i),
        ts[i].parent_id is Some && (parent_entry(ts, ts[i].id) matches Some(p) && !expanded.contains(p))
            ==> !visible_task_indices(ts, expanded, hidden).contains(i),
{
    lemma_visible_tasks(ts, expanded, hidden);
    assert(visible_task_indices(ts, expanded, hidden).contains(i) <==> task_visible(ts, expanded, hidden, i));
}

} // verus!

verus! {

proof fn lemma_walk_monotone(
    ts: Seq<TaskListItemView>,
    e1: Seq<Seq<char>>,
    e2: Seq<Seq<char>>,
    h1: Seq<Seq<char>>,
    h2: Seq<Seq<char>>,
    current: Seq<char>,
    seen: Seq<Seq<char>>,
    fuel: nat,
)
    requires
        forall|x: Seq<char>| e1.contains(x) ==> e2.contains(x),
        forall|x: Seq<char>| h1.contains(x) ==> h2.contains(x),
        ancestors_visible(ts, e1, h2, current, seen, fuel),
    ensures
        ancestors_visible(ts, e2, h1, current, seen, fuel),
    decreases fuel,
{
    if !(seen.contains(current) || fuel == 0) {
        if let Some(p) = parent_entry(ts, current) {
            if first_with_id_hidden(ts, h1, p) {
                let k = choose|k: int| is_first_with_id(ts, p, k) && h1.contains(ts[k].status_name);
                assert(first_with_id_hidden(ts, h2, p));
            }
            lemma_walk_monotone(ts, e1, e2, h1, h2, p, seen.push(current), (fuel - 1) as nat);
        }
    }
}

/// Expanding more tasks hides none: every task shown with the expanded ids
/// `e1` is shown with any `e2` that holds all of them, under the same hidden
/// statuses.
pub proof fn lemma_expanding_shows_more(
    ts: Seq<TaskListItemView>,
    e1: Seq<Seq<char>>,
    e2: Seq<Seq<char>>,
    hidden: Seq<Seq<char>>,
)
    requires
        forall|x: Seq<char>| e1.contains(x) ==> e2.contains(x),
    ensures
        forall|i: int| visible_task_indices(ts, e1, hidden).contains(i)
            ==> #[trigger] visible_task_indices(ts, e2, hidden).contains(i),
{
    lemma_visible_tasks(ts, e1, hidden);
    lemma_visible_tasks(ts, e2, hidden);
    assert forall|i: int| visible_task_indices(ts, e1, hidden).contains(i)
        implies #[trigger] visible_task_indices(ts, e2, hidden).contains(i) by {
        assert(task_visible(ts, e1, hidden, i));
        if ts[i].parent_id is Some {
            lemma_walk_monotone(ts, e1, e2, hidden, hidden, ts[i].id, Seq::empty(), (ts.len() + 1) as nat);
        }
    }
}

/// Hiding more statuses shows no more tasks: every task shown with the
/// hidden statuses `h2` is shown with any `h1` that holds only statuses of
/// `h2`, under the same expanded ids.
pub proof fn lemma_hiding_shows_less(
    ts: Seq<TaskListItemView>,
    expanded: Seq<Seq<char>>,
    h1: Seq<Seq<char>>,
    h2: Seq<Seq<char>>,
)
    requires
        forall|x: Seq<char>| h1.contains(x) ==> h2.contains(x),
    ensures
        forall|i: int| visible_task_indices(ts, expanded, h2).contains(i)
            ==> #[trigger] visible_task_indices(ts, expanded, h1).contains(i),
{
    lemma_visible_tasks(ts, expanded, h1);
    lemma_visible_tasks(ts, expanded, h2);
    assert forall|i: int| visible_task_indices(ts, expanded, h2).contains(i)
        implies #[trigger] visible_task_indices(ts, expanded, h1).contains(i) by {
        assert(task_visible(ts, expanded, h2, i));
        if ts[i].parent_id is Some {
            lemma_walk_monotone(ts, expanded, expanded, h1, h2, ts[i].id, Seq::empty(), (ts.len() + 1) as nat);
        }
    }
}

} // verus!
