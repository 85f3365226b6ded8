//! Why sorting the task list by parent a second time changes nothing: the
//! order that the sort picks keeps siblings (tasks with the same parent, or
//! both without one) in list order, and a walk over the sorted list retraces
//! the walk over the original one step for step.
use vstd::prelude::*;
use crate::tasks::{
    append_unvisited, distinct_positions, parent_order, sorted_by_parent, tree_part, visit,
    visit_children, visit_roots, TaskListItemView,
};

verus! {

/// Whether tasks `a` and `b` have the same parent, or both none.
pub open spec fn siblings(ts: Seq<TaskListItemView>, a: int, b: int) -> bool {
    ts[a].parent_id == ts[b].parent_id
}

/// Whether every task listed in `vis` comes after each of its siblings that
/// stands before it in the task list.
pub open spec fn sibling_closed(ts: Seq<TaskListItemView>, vis: Seq<int>) -> bool {
    forall|k: int, a: int|
        #![trigger vis[k], ts[a]]
        0 <= k < vis.len() && 0 <= a < vis[k] && siblings(ts, a, vis[k]) ==> vis.take(k).contains(a)
}

proof fn lemma_push_sibling_closed(ts: Seq<TaskListItemView>, vis: Seq<int>, x: int)
    requires
        sibling_closed(ts, vis),
        forall|a: int| 0 <= a < x && siblings(ts, a, x) ==> vis.contains(a),
    ensures
        sibling_closed(ts, vis.push(x)),
{
    let v2 = vis.push(x);
    assert forall|k: int, a: int|
        #![trigger v2[k], ts[a]]
        0 <= k < v2.len() && 0 <= a < v2[k] && siblings(ts, a, v2[k]) implies v2.take(k).contains(a) by {
        if k < vis.len() {
            assert(v2[k] == vis[k]);
            assert(vis.take(k).contains(a));
            assert(v2.take(k) =~= vis.take(k));
        } else {
            assert(v2.take(k) =~= vis);
        }
    }
}

proof fn lemma_contains_extends(a: Seq<int>, b: Seq<int>, x: int)
    requires
        crate::tasks::extends(a, b),
        a.contains(x),
    ensures
        b.contains(x),
{
    let k = choose|k: int| 0 <= k < a.len() && a[k] == x;
    assert(b[k] == a[k]);
}

proof fn lemma_visit_sibling_closed(ts: Seq<TaskListItemView>, i: int, vis: Seq<int>, budget: nat)
    requires
        0 <= i < ts.len(),
        distinct_positions(vis, ts.len() as int),
        sibling_closed(ts, vis),
        budget > 0 ==> forall|a: int| 0 <= a < i && siblings(ts, a, i) ==> vis.contains(a),
    ensures
        sibling_closed(ts, visit(ts, i, vis, budget)),
        crate::tasks::extends(vis, visit(ts, i, vis, budget)),
        distinct_positions(visit(ts, i, vis, budget), ts.len() as int),
        budget > 0 ==> visit(ts, i, vis, budget).contains(i),
    decreases budget, 0int,
{
    crate::tasks::lemma_visit_grows(ts, i, vis, budget);
    if vis.contains(i) || budget == 0 {
    } else {
        lemma_push_sibling_closed(ts, vis, i);
        let v2 = vis.push(i);
        crate::tasks::lemma_visit_grows(ts, i, vis, budget);
        lemma_children_sibling_closed(ts, ts[i].id, 0, v2, (budget - 1) as nat);
        let r = visit(ts, i, vis, budget);
        assert(r[vis.len() as int] == v2[vis.len() as int]);
        assert(v2[vis.len() as int] == i);
    }
}

proof fn lemma_children_sibling_closed(ts: Seq<TaskListItemView>, pid: Seq<char>, j: int, vis: Seq<int>, budget: nat)
    requires
        0 <= j,
        distinct_positions(vis, ts.len() as int),
        sibling_closed(ts, vis),
        budget > 0 ==> forall|a: int| 0 <= a < j && ts[a].parent_id == Some(pid) ==> vis.contains(a),
    ensures
        sibling_closed(ts, visit_children(ts, pid, j, vis, budget)),
        crate::tasks::extends(vis, visit_children(ts, pid, j, vis, budget)),
        distinct_positions(visit_children(ts, pid, j, vis, budget), ts.len() as int),
    decreases budget, ts.len() - j + 1,
{
    if j >= ts.len() {
    } else if ts[j].parent_id == Some(pid) {
        lemma_visit_sibling_closed(ts, j, vis, budget);
        let v2 = visit(ts, j, vis, budget);
        assert forall|a: int| 0 <= a < j + 1 && ts[a].parent_id == Some(pid) && budget > 0 implies v2.contains(a) by {
            if a < j {
                lemma_contains_extends(vis, v2, a);
            }
        }
        lemma_children_sibling_closed(ts, pid, j + 1, v2, budget);
        assert forall|k: int| 0 <= k < vis.len() implies #[trigger] visit_children(ts, pid, j, vis, budget)[k] == vis[k] by {
            assert(v2[k] == vis[k]);
        }
    } else {
        lemma_children_sibling_closed(ts, pid, j + 1, vis, budget);
    }
}

proof fn lemma_roots_sibling_closed(ts: Seq<TaskListItemView>, j: int, vis: Seq<int>)
    requires
        0 <= j,
        distinct_positions(vis, ts.len() as int),
        sibling_closed(ts, vis),
        forall|a: int| 0 <= a < j && a < ts.len() && ts[a].parent_id is None ==> vis.contains(a),
    ensures
        sibling_closed(ts, visit_roots(ts, j, vis)),
        crate::tasks::extends(vis, visit_roots(ts, j, vis)),
        distinct_positions(visit_roots(ts, j, vis), ts.len() as int),
    decreases ts.len() - j,
{
    if j >= ts.len() {
    } else if ts[j].parent_id is None {
        lemma_visit_sibling_closed(ts, j, vis, ts.len() as nat);
        let v2 = visit(ts, j, vis, ts.len() as nat);
        assert forall|a: int| 0 <= a < j + 1 && a < ts.len() && ts[a].parent_id is None implies v2.contains(a) by {
            if a < j {
                lemma_contains_extends(vis, v2, a);
            }
        }
        lemma_roots_sibling_closed(ts, j + 1, v2);
        assert forall|k: int| 0 <= k < vis.len() implies #[trigger] visit_roots(ts, j, vis)[k] == vis[k] by {
            assert(v2[k] == vis[k]);
        }
    } else {
        lemma_roots_sibling_closed(ts, j + 1, vis);
    }
}

proof fn lemma_append_sibling_closed(ts: Seq<TaskListItemView>, j: int, vis: Seq<int>)
    requires
        0 <= j,
        distinct_positions(vis, ts.len() as int),
        sibling_closed(ts, vis),
        forall|a: int| 0 <= a < j && a < ts.len() ==> vis.contains(a),
    ensures
        sibling_closed(ts, append_unvisited(ts.len() as int, j, vis)),
    decreases ts.len() - j,
{
    let n = ts.len() as int;
    if j >= n {
    } else if vis.contains(j) {
        lemma_append_sibling_closed(ts, j + 1, vis);
    } else {
        let v2 = vis.push(j);
        lemma_push_sibling_closed(ts, vis, j);
        assert(distinct_positions(v2, n)) by {
            assert forall|a: int, b: int| 0 <= a < v2.len() && 0 <= b < v2.len() && a != b implies v2[a] != v2[b] by {
                if a == vis.len() && b < vis.len() {
                    assert(vis.contains(v2[b]));
                } else if b == vis.len() && a < vis.len() {
                    assert(vis.contains(v2[a]));
                }
            }
        }
        assert forall|a: int| 0 <= a < j + 1 && a < n implies v2.contains(a) by {
            if a < j {
                assert(vis.contains(a));
                let k = choose|k: int| 0 <= k < vis.len() && vis[k] == a;
                assert(v2[k] == a);
            } else {
                assert(v2[vis.len() as int] == a);
            }
        }
        lemma_append_sibling_closed(ts, j + 1, v2);
    }
}

/// The order that `sort_tasks_by_parent` picks keeps each task after every
/// sibling (a task with the same parent, or also without one) that stands
/// before it in the list.
pub proof fn lemma_parent_order_keeps_siblings(ts: Seq<TaskListItemView>)
    ensures
        sibling_closed(ts, parent_order(ts)),
{
    let e = Seq::<int>::empty();
    lemma_roots_sibling_closed(ts, 0, e);
    let t = visit_roots(ts, 0, e);
    lemma_append_sibling_closed(ts, 0, t);
}

/// The positions from `j` on whose task has the parent `par`, in list order.
pub open spec fn with_parent(ts: Seq<TaskListItemView>, par: Option<Seq<char>>, j: int) -> Seq<int>
    decreases ts.len() - j,
{
    if j < 0 || j >= ts.len() {
        Seq::empty()
    } else if ts[j].parent_id == par {
        seq![j] + with_parent(ts, par, j + 1)
    } else {
        with_parent(ts, par, j + 1)
    }
}

/// Visits the tasks at the positions `cs`, one after the other.
pub open spec fn visit_all(ts: Seq<TaskListItemView>, cs: Seq<int>, vis: Seq<int>, budget: nat) -> Seq<int>
    decreases cs.len(),
{
    if cs.len() == 0 {
        vis
    } else {
        visit_all(ts, cs.drop_first(), visit(ts, cs[0], vis, budget), budget)
    }
}

proof fn lemma_with_parent(ts: Seq<TaskListItemView>, par: Option<Seq<char>>, j: int)
    requires
        0 <= j,
    ensures
        forall|x: int| #[trigger] with_parent(ts, par, j).contains(x) <==> (j <= x < ts.len() && ts[x].parent_id == par),
        forall|a: int, b: int| 0 <= a < b < with_parent(ts, par, j).len()
            ==> #[trigger] with_parent(ts, par, j)[a] < #[trigger] with_parent(ts, par, j)[b],
    decreases ts.len() - j,
{
    if j < ts.len() {
        lemma_with_parent(ts, par, j + 1);
        let rest = with_parent(ts, par, j + 1);
        if ts[j].parent_id == par {
            let w = seq![j] + rest;
            assert forall|x: int| #[trigger] w.contains(x) <==> (j <= x < ts.len() && ts[x].parent_id == par) by {
                if x == j {
                    assert(w[0] == j);
                } else if w.contains(x) {
                    let k = choose|k: int| 0 <= k < w.len() && w[k] == x;
                    assert(rest[k - 1] == x);
                    assert(rest.contains(x));
                } else if j < x < ts.len() && ts[x].parent_id == par {
                    assert(rest.contains(x));
                    let k = choose|k: int| 0 <= k < rest.len() && rest[k] == x;
                    assert(w[k + 1] == x);
                }
            }
            assert forall|a: int, b: int| 0 <= a < b < w.len() implies #[trigger] w[a] < #[trigger] w[b] by {
                if a == 0 {
                    assert(rest.contains(w[b]));
                } else {
                    assert(w[a] == rest[a - 1] && w[b] == rest[b - 1]);
                }
            }
        } else {
            assert forall|x: int| #[trigger] rest.contains(x) <==> (j <= x < ts.len() && ts[x].parent_id == par) by {
                if x == j {
                    assert(!rest.contains(x));
                }
            }
        }
    }
}

proof fn lemma_children_as_list(ts: Seq<TaskListItemView>, pid: Seq<char>, j: int, vis: Seq<int>, budget: nat)
    requires
        0 <= j,
    ensures
        visit_children(ts, pid, j, vis, budget) == visit_all(ts, with_parent(ts, Some(pid), j), vis, budget),
    decreases ts.len() - j,
{
    if j < ts.len() {
        if ts[j].parent_id == Some(pid) {
            let v2 = visit(ts, j, vis, budget);
            lemma_children_as_list(ts, pid, j + 1, v2, budget);
            let w = with_parent(ts, Some(pid), j);
            assert(w.drop_first() =~= with_parent(ts, Some(pid), j + 1));
        } else {
            lemma_children_as_list(ts, pid, j + 1, vis, budget);
        }
    }
}

proof fn lemma_roots_as_list(ts: Seq<TaskListItemView>, j: int, vis: Seq<int>)
    requires
        0 <= j,
    ensures
        visit_roots(ts, j, vis) == visit_all(ts, with_parent(ts, None, j), vis, ts.len() as nat),
    decreases ts.len() - j,
{
    if j < ts.len() {
        if ts[j].parent_id is None {
            let v2 = visit(ts, j, vis, ts.len() as nat);
            lemma_roots_as_list(ts, j + 1, v2);
            let w = with_parent(ts, None, j);
            assert(w.drop_first() =~= with_parent(ts, None, j + 1));
        } else {
            lemma_roots_as_list(ts, j + 1, vis);
        }
    }
}

/// Two increasing lists of the same integers are the same list.
proof fn lemma_increasing_unique(a: Seq<int>, b: Seq<int>)
    requires
        forall|x: int, y: int| 0 <= x < y < a.len() ==> #[trigger] a[x] < #[trigger] a[y],
        forall|x: int, y: int| 0 <= x < y < b.len() ==> #[trigger] b[x] < #[trigger] b[y],
        forall|x: int| #[trigger] a.contains(x) <==> b.contains(x),
    ensures
        a == b,
    decreases a.len(),
{
    if a.len() == 0 {
        if b.len() > 0 {
            assert(b.contains(b[0]));
            assert(a.contains(b[0]));
        }
        assert(a =~= b);
    } else {
        assert(a.contains(a[0]));
        assert(b.contains(a[0]));
        assert(b.len() > 0);
        assert(b.contains(b[0]));
        assert(a.contains(b[0]));
        let ka = choose|k: int| 0 <= k < a.len() && a[k] == b[0];
        let kb = choose|k: int| 0 <= k < b.len() && b[k] == a[0];
        if ka > 0 {
            assert(a[0] < a[ka]);
        }
        if kb > 0 {
            assert(b[0] < b[kb]);
        }
        assert(a[0] == b[0]);
        let a1 = a.drop_first();
        let b1 = b.drop_first();
        assert forall|x: int| #[trigger] a1.contains(x) <==> b1.contains(x) by {
            if a1.contains(x) {
                let k = choose|k: int| 0 <= k < a1.len() && a1[k] == x;
                assert(a[k + 1] == x);
                assert(a.contains(x));
                assert(a[0] < a[k + 1]);
                assert(b.contains(x));
                let m = choose|m: int| 0 <= m < b.len() && b[m] == x;
                assert(m != 0);
                assert(b1[m - 1] == x);
            }
            if b1.contains(x) {
                let k = choose|k: int| 0 <= k < b1.len() && b1[k] == x;
                assert(b[k + 1] == x);
                assert(b.contains(x));
                assert(b[0] < b[k + 1]);
                assert(a.contains(x));
                let m = choose|m: int| 0 <= m < a.len() && a[m] == x;
                assert(m != 0);
                assert(a1[m - 1] == x);
            }
        }
        assert forall|x: int, y: int| 0 <= x < y < a1.len() implies #[trigger] a1[x] < #[trigger] a1[y] by {
            assert(a1[x] == a[x + 1] && a1[y] == a[y + 1]);
        }
        assert forall|x: int, y: int| 0 <= x < y < b1.len() implies #[trigger] b1[x] < #[trigger] b1[y] by {
            assert(b1[x] == b[x + 1] && b1[y] == b[y + 1]);
        }
        lemma_increasing_unique(a1, b1);
        assert(a =~= seq![a[0]] + a1);
        assert(b =~= seq![b[0]] + b1);
    }
}

/// Where `x` stands in `o`.
pub open spec fn place(o: Seq<int>, x: int) -> int {
    choose|k: int| 0 <= k < o.len() && o[k] == x
}

/// The positions `v` renamed to where they stand in `o`.
pub open spec fn relabel(o: Seq<int>, v: Seq<int>) -> Seq<int> {
    v.map_values(|x: int| place(o, x))
}

/// Whether `o` lists each position below `n` exactly once.
pub open spec fn is_perm(o: Seq<int>, n: int) -> bool {
    &&& o.len() == n
    &&& o.no_duplicates()
    &&& forall|k: int| 0 <= k < n ==> 0 <= #[trigger] o[k] < n
    &&& forall|x: int| 0 <= x < n ==> #[trigger] o.contains(x)
}

/// Whether `s` is `ts` taken in the order `o`, with siblings kept in order.
pub open spec fn reorders(ts: Seq<TaskListItemView>, o: Seq<int>, s: Seq<TaskListItemView>) -> bool {
    &&& is_perm(o, ts.len() as int)
    &&& s.len() == ts.len()
    &&& forall|k: int| 0 <= k < ts.len() ==> #[trigger] s[k] == ts[o[k]]
    &&& forall|a: int, b: int| 0 <= a < b < ts.len() && siblings(ts, a, b) ==> #[trigger] place(o, a) < #[trigger] place(o, b)
}

proof fn lemma_place(o: Seq<int>, n: int, x: int)
    requires
        is_perm(o, n),
        0 <= x < n,
    ensures
        0 <= place(o, x) < n,
        o[place(o, x)] == x,
{
    assert(o.contains(x));
}

proof fn lemma_place_of(o: Seq<int>, n: int, k: int)
    requires
        is_perm(o, n),
        0 <= k < n,
    ensures
        place(o, o[k]) == k,
{
    lemma_place(o, n, o[k]);
}

proof fn lemma_siblings_reordered(ts: Seq<TaskListItemView>, o: Seq<int>, s: Seq<TaskListItemView>, par: Option<Seq<char>>)
    requires
        reorders(ts, o, s),
    ensures
        with_parent(s, par, 0) == relabel(o, with_parent(ts, par, 0)),
{
    let n = ts.len() as int;
    let w = with_parent(ts, par, 0);
    let m = relabel(o, w);
    let ws = with_parent(s, par, 0);
    lemma_with_parent(ts, par, 0);
    lemma_with_parent(s, par, 0);
    assert forall|y: int| #[trigger] ws.contains(y) <==> m.contains(y) by {
        if ws.contains(y) {
            lemma_place_of(o, n, y);
            let x = o[y];
            assert(w.contains(x));
            let k = choose|k: int| 0 <= k < w.len() && w[k] == x;
            assert(m[k] == y);
        }
        if m.contains(y) {
            let k = choose|k: int| 0 <= k < m.len() && m[k] == y;
            assert(w.contains(w[k]));
            lemma_place(o, n, w[k]);
            assert(s[y] == ts[o[y]]);
        }
    }
    assert forall|a: int, b: int| 0 <= a < b < m.len() implies #[trigger] m[a] < #[trigger] m[b] by {
        assert(w[a] < w[b]);
        assert(w.contains(w[a]) && w.contains(w[b]));
        assert(siblings(ts, w[a], w[b]));
        assert(place(o, w[a]) < place(o, w[b]));
    }
    lemma_increasing_unique(ws, m);
}

proof fn lemma_visit_lockstep(
    ts: Seq<TaskListItemView>,
    o: Seq<int>,
    s: Seq<TaskListItemView>,
    i: int,
    vis: Seq<int>,
    budget: nat,
)
    requires
        reorders(ts, o, s),
        0 <= i < ts.len(),
        distinct_positions(vis, ts.len() as int),
    ensures
        visit(s, place(o, i), relabel(o, vis), budget) == relabel(o, visit(ts, i, vis, budget)),
    decreases budget, 0int, 0int,
{
    let n = ts.len() as int;
    lemma_place(o, n, i);
    let rv = relabel(o, vis);
    assert(rv.contains(place(o, i)) == vis.contains(i)) by {
        if vis.contains(i) {
            let k = choose|k: int| 0 <= k < vis.len() && vis[k] == i;
            assert(rv[k] == place(o, i));
        }
        if rv.contains(place(o, i)) {
            let k = choose|k: int| 0 <= k < rv.len() && rv[k] == place(o, i);
            lemma_place(o, n, vis[k]);
        }
    }
    if vis.contains(i) || budget == 0 {
    } else {
        let v2 = vis.push(i);
        assert(relabel(o, v2) =~= rv.push(place(o, i)));
        assert(s[place(o, i)] == ts[i]);
        let id = ts[i].id;
        assert(distinct_positions(v2, n)) by {
            assert forall|a: int, b: int| 0 <= a < v2.len() && 0 <= b < v2.len() && a != b implies v2[a] != v2[b] by {
                if a == vis.len() && b < vis.len() {
                    assert(vis.contains(v2[b]));
                } else if b == vis.len() && a < vis.len() {
                    assert(vis.contains(v2[a]));
                }
            }
        }
        lemma_children_as_list(ts, id, 0, v2, (budget - 1) as nat);
        lemma_children_as_list(s, id, 0, relabel(o, v2), (budget - 1) as nat);
        lemma_siblings_reordered(ts, o, s, Some(id));
        let cs = with_parent(ts, Some(id), 0);
        lemma_with_parent(ts, Some(id), 0);
        assert forall|k: int| 0 <= k < cs.len() implies 0 <= #[trigger] cs[k] < n by {
            assert(cs.contains(cs[k]));
        }
        lemma_all_lockstep(ts, o, s, cs, v2, (budget - 1) as nat);
    }
}

proof fn lemma_all_lockstep(
    ts: Seq<TaskListItemView>,
    o: Seq<int>,
    s: Seq<TaskListItemView>,
    cs: Seq<int>,
    vis: Seq<int>,
    budget: nat,
)
    requires
        reorders(ts, o, s),
        forall|k: int| 0 <= k < cs.len() ==> 0 <= #[trigger] cs[k] < ts.len(),
        distinct_positions(vis, ts.len() as int),
    ensures
        visit_all(s, relabel(o, cs), relabel(o, vis), budget) == relabel(o, visit_all(ts, cs, vis, budget)),
    decreases budget, 1int, cs.len(),
{
    if cs.len() > 0 {
        lemma_visit_lockstep(ts, o, s, cs[0], vis, budget);
        let v2 = visit(ts, cs[0], vis, budget);
        crate::tasks::lemma_visit_grows(ts, cs[0], vis, budget);
        assert forall|k: int| 0 <= k < cs.drop_first().len() implies 0 <= #[trigger] cs.drop_first()[k] < ts.len() by {
            assert(cs.drop_first()[k] == cs[k + 1]);
        }
        lemma_all_lockstep(ts, o, s, cs.drop_first(), v2, budget);
        assert(relabel(o, cs).drop_first() =~= relabel(o, cs.drop_first()));
        assert(relabel(o, cs)[0] == place(o, cs[0]));
    }
}

proof fn lemma_append_to_range(n: int, m: int, j: int)
    requires
        0 <= m <= n,
        0 <= j <= n,
    ensures
        append_unvisited(n, j, Seq::new((if j < m { m } else { j }) as nat, |k: int| k))
            == Seq::new(n as nat, |k: int| k),
    decreases n - j,
{
    let r = Seq::new((if j < m { m } else { j }) as nat, |k: int| k);
    if j < n {
        if j < m {
            assert(r[j] == j);
            lemma_append_to_range(n, m, j + 1);
        } else {
            assert(!r.contains(j));
            assert(r.push(j) =~= Seq::new((j + 1) as nat, |k: int| k));
            lemma_append_to_range(n, m, j + 1);
        }
    } else {
        assert(r =~= Seq::new(n as nat, |k: int| k));
    }
}

/// Sorting the task list by parent a second time leaves it as the first
/// sort left it: the sorted list is already in the order the sort picks.
pub proof fn lemma_sort_idempotent(ts: Seq<TaskListItemView>)
    ensures
        sorted_by_parent(sorted_by_parent(ts)) == sorted_by_parent(ts),
{
    let n = ts.len() as int;
    crate::tasks::lemma_parent_order_is_permutation(ts);
    crate::tasks::lemma_parents_come_first(ts);
    lemma_parent_order_keeps_siblings(ts);
    let o = parent_order(ts);
    let s = sorted_by_parent(ts);
    assert forall|a: int, b: int| 0 <= a < b < n && siblings(ts, a, b) implies #[trigger] place(o, a) < #[trigger] place(o, b) by {
        lemma_place(o, n, a);
        lemma_place(o, n, b);
        let k = place(o, b);
        assert(o[k] == b);
        assert(o.take(k).contains(a));
        let k1 = choose|k1: int| 0 <= k1 < o.take(k).len() && o.take(k)[k1] == a;
        assert(o[k1] == a);
        assert(o[place(o, a)] == a);
    }
    assert(reorders(ts, o, s));
    let e = Seq::<int>::empty();
    let t = tree_part(ts);
    lemma_roots_as_list(ts, 0, e);
    lemma_roots_as_list(s, 0, e);
    lemma_siblings_reordered(ts, o, s, None);
    let roots = with_parent(ts, None, 0);
    lemma_with_parent(ts, None, 0);
    assert forall|k: int| 0 <= k < roots.len() implies 0 <= #[trigger] roots[k] < n by {
        assert(roots.contains(roots[k]));
    }
    lemma_all_lockstep(ts, o, s, roots, e, n as nat);
    assert(relabel(o, e) =~= e);
    let m = t.len() as int;
    let rt = Seq::new(m as nat, |k: int| k);
    assert(relabel(o, t) =~= rt) by {
        assert forall|k: int| 0 <= k < m implies #[trigger] relabel(o, t)[k] == k by {
            assert(t[k] == o[k]);
            lemma_place_of(o, n, k);
        }
    }
    assert(tree_part(s) == rt);
    lemma_append_to_range(n, m, 0);
    assert(parent_order(s) == Seq::new(n as nat, |k: int| k));
    assert(sorted_by_parent(s) =~= s);
}

} // verus!
