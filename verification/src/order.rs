use crate::task::TaskView;
use vstd::prelude::*;
use vstd::relations::injective_on;
use vstd::set_lib::{lemma_int_range, lemma_map_size, lemma_subset_equality, set_int_range};

verus! {

/// Whether `t` is listed in the given completion group: soft-deleted tasks
/// belong to no group.
pub open spec fn in_group(t: TaskView, completed: bool) -> bool {
    !t.deleted && t.completed == completed
}

/// Whether the task at `j` is listed before the task at `i` of the same
/// group. Among incomplete tasks the starred ones come first; then the
/// smaller display id; then the earlier position in the store.
pub open spec fn precedes(s: Seq<TaskView>, j: int, i: int) -> bool {
    if !s[i].completed && s[j].starred != s[i].starred {
        s[j].starred
    } else if s[j].id != s[i].id {
        s[j].id < s[i].id
    } else {
        j < i
    }
}

/// Whether the task at `j` counts towards the rank of the task at `i`.
pub open spec fn ahead(s: Seq<TaskView>, j: int, i: int) -> bool {
    in_group(s[j], s[i].completed) && precedes(s, j, i)
}

/// How many of the first `n` tasks are listed before the task at `i` in its
/// group.
pub open spec fn count_ahead(s: Seq<TaskView>, i: int, n: int) -> nat
    decreases n,
{
    if n <= 0 {
        0
    } else {
        count_ahead(s, i, n - 1) + if ahead(s, n - 1, i) { 1nat } else { 0nat }
    }
}

/// How many of the first `n` tasks are in the given group.
pub open spec fn count_group(s: Seq<TaskView>, completed: bool, n: int) -> nat
    decreases n,
{
    if n <= 0 {
        0
    } else {
        count_group(s, completed, n - 1) + if in_group(s[n - 1], completed) { 1nat } else { 0nat }
    }
}

/// The number of tasks in a group.
pub open spec fn group_size(s: Seq<TaskView>, completed: bool) -> nat {
    count_group(s, completed, s.len() as int)
}

/// The zero-based place of the task at `i` within its group's listing.
pub open spec fn rank(s: Seq<TaskView>, i: int) -> nat {
    count_ahead(s, i, s.len() as int)
}

/// The display id that renumbering gives the task at `i`: incomplete tasks
/// are numbered from 1 in listing order, completed tasks continue after them.
pub open spec fn display_id(s: Seq<TaskView>, i: int) -> nat {
    if s[i].completed {
        group_size(s, false) + rank(s, i) + 1
    } else {
        rank(s, i) + 1
    }
}

/// The store after a renumbering pass: every live task gets its display id,
/// soft-deleted tasks are left as they are.
pub open spec fn renumbered(s: Seq<TaskView>) -> Seq<TaskView> {
    Seq::new(
        s.len(),
        |i: int| if s[i].deleted { s[i] } else { s[i].with_id(display_id(s, i)) },
    )
}

/// The first id that no live task uses after renumbering.
pub open spec fn next_free_id(s: Seq<TaskView>) -> nat {
    group_size(s, false) + group_size(s, true) + 1
}

/// Whether some task of the given group carries the display id `v`.
pub open spec fn id_in_use(s: Seq<TaskView>, completed: bool, v: int) -> bool {
    exists|i: int| 0 <= i < s.len() && in_group(#[trigger] s[i], completed) && s[i].id == v
}

/// The ids of a store are dense: the incomplete tasks carry exactly the ids
/// `1..=K`, the completed tasks exactly `K+1..=K+M`, each id once, where `K`
/// and `M` are the sizes of the two groups.
pub open spec fn dense(s: Seq<TaskView>) -> bool {
    let k = group_size(s, false);
    let m = group_size(s, true);
    &&& forall|i: int|
        0 <= i < s.len() && in_group(#[trigger] s[i], false) ==> 1 <= s[i].id <= k
    &&& forall|i: int|
        0 <= i < s.len() && in_group(#[trigger] s[i], true) ==> k + 1 <= s[i].id <= k + m
    &&& forall|i: int, j: int|
        0 <= i < j < s.len() && !s[i].deleted && in_group(s[j], s[i].completed) ==> (
        #[trigger] s[i]).id != (#[trigger] s[j]).id
    &&& forall|v: int| 1 <= v <= k ==> #[trigger] id_in_use(s, false, v)
    &&& forall|v: int| k < v <= k + m ==> #[trigger] id_in_use(s, true, v)
}

/// The store is as a renumbering pass leaves it.
pub open spec fn settled(s: Seq<TaskView>) -> bool {
    renumbered(s) == s
}

/// The positions of the tasks of one group.
pub open spec fn group_positions(s: Seq<TaskView>, completed: bool) -> Set<int> {
    Set::new(|i: int| 0 <= i < s.len() && in_group(s[i], completed))
}

/// The two groups together are no more than the store holds.
pub proof fn lemma_group_sizes_bound(s: Seq<TaskView>)
    ensures
        group_size(s, false) + group_size(s, true) <= s.len(),
{
    lemma_group_counts_bound(s, s.len() as int);
}

/// Of the first `n` tasks no more than `n` are in the two groups.
proof fn lemma_group_counts_bound(s: Seq<TaskView>, n: int)
    requires
        0 <= n,
    ensures
        count_group(s, false, n) + count_group(s, true, n) <= n,
    decreases n,
{
    if n > 0 {
        lemma_group_counts_bound(s, n - 1);
    }
}

/// A task is never ahead of itself, and the tasks ahead of it are fewer than
/// its group.
proof fn lemma_count_ahead_bound(s: Seq<TaskView>, i: int, n: int)
    requires
        0 <= i < s.len(),
        0 <= n <= s.len(),
        !s[i].deleted,
    ensures
        count_ahead(s, i, n) + (if i < n { 1nat } else { 0nat }) <= count_group(
            s,
            s[i].completed,
            n,
        ),
    decreases n,
{
    if n > 0 {
        lemma_count_ahead_bound(s, i, n - 1);
    }
}

/// Whoever is listed before a task has fewer tasks ahead of it.
proof fn lemma_count_ahead_monotone(s: Seq<TaskView>, j: int, i: int, n: int)
    requires
        0 <= i < s.len(),
        0 <= j < s.len(),
        0 <= n <= s.len(),
        !s[i].deleted,
        ahead(s, j, i),
    ensures
        count_ahead(s, j, n) + (if j < n { 1nat } else { 0nat }) <= count_ahead(s, i, n),
    decreases n,
{
    if n > 0 {
        lemma_count_ahead_monotone(s, j, i, n - 1);
    }
}

/// Within a group the rank tells the listing order, and no two tasks share
/// a rank.
pub proof fn lemma_rank_order(s: Seq<TaskView>, j: int, i: int)
    requires
        0 <= i < s.len(),
        0 <= j < s.len(),
        !s[i].deleted,
        in_group(s[j], s[i].completed),
    ensures
        precedes(s, j, i) <==> rank(s, j) < rank(s, i),
        rank(s, j) == rank(s, i) <==> j == i,
{
    if j != i {
        if precedes(s, j, i) {
            lemma_count_ahead_monotone(s, j, i, s.len() as int);
        } else {
            assert(precedes(s, i, j));
            lemma_count_ahead_monotone(s, i, j, s.len() as int);
        }
    }
}

/// The rank of a task is below the size of its group.
pub proof fn lemma_rank_bound(s: Seq<TaskView>, i: int)
    requires
        0 <= i < s.len(),
        !s[i].deleted,
    ensures
        rank(s, i) < group_size(s, s[i].completed),
{
    lemma_count_ahead_bound(s, i, s.len() as int);
}

/// The positions of a group among the first `n` are as many as `count_group`
/// counts.
proof fn lemma_group_positions_len(s: Seq<TaskView>, completed: bool, n: int)
    requires
        0 <= n <= s.len(),
    ensures
        group_positions(s, completed).intersect(set_int_range(0, n)).finite(),
        group_positions(s, completed).intersect(set_int_range(0, n)).len() == count_group(
            s,
            completed,
            n,
        ),
    decreases n,
{
    let g = group_positions(s, completed);
    lemma_int_range(0, n);
    if n == 0 {
        assert(g.intersect(set_int_range(0, n)) =~= Set::empty());
    } else {
        lemma_group_positions_len(s, completed, n - 1);
        let before = g.intersect(set_int_range(0, n - 1));
        let after = g.intersect(set_int_range(0, n));
        if in_group(s[n - 1], completed) {
            assert(after =~= before.insert(n - 1));
        } else {
            assert(after =~= before);
        }
    }
}

/// Every place of a group's listing is taken by one of its tasks.
pub proof fn lemma_rank_onto(s: Seq<TaskView>, completed: bool, v: int)
    requires
        0 <= v < group_size(s, completed),
    ensures
        exists|i: int| 0 <= i < s.len() && in_group(#[trigger] s[i], completed) && rank(s, i) == v,
{
    let g = group_positions(s, completed);
    let k = group_size(s, completed) as int;
    let f = |i: int| rank(s, i) as int;
    lemma_group_positions_len(s, completed, s.len() as int);
    assert(g.intersect(set_int_range(0, s.len() as int)) =~= g);
    assert(injective_on(f, g)) by {
        assert forall|a: int, b: int| g.contains(a) && g.contains(b) && #[trigger] f(a) == #[trigger] f(
            b,
        ) implies a == b by {
            lemma_rank_order(s, a, b);
        }
    }
    let y = g.map(f);
    lemma_map_size(g, y, f);
    lemma_int_range(0, k);
    assert(y.subset_of(set_int_range(0, k))) by {
        assert forall|w: int| y.contains(w) implies set_int_range(0, k).contains(w) by {
            let a = choose|a: int| g.contains(a) && w == f(a);
            lemma_rank_bound(s, a);
        }
    }
    lemma_subset_equality(y, set_int_range(0, k));
    assert(set_int_range(0, k).contains(v));
    assert(y.contains(v));
    let a = choose|a: int| g.contains(a) && v == f(a);
    assert(0 <= a < s.len() && in_group(s[a], completed) && rank(s, a) == v);
}

/// The position in the store of the task that stands at `place` in the
/// listing of a group.
pub open spec fn listed_at(s: Seq<TaskView>, completed: bool, place: int) -> int {
    choose|i: int| 0 <= i < s.len() && in_group(#[trigger] s[i], completed) && rank(s, i) == place
}

/// The listing of a group: the positions of its tasks in the order in which
/// they are shown.
pub open spec fn listing(s: Seq<TaskView>, completed: bool) -> Seq<int> {
    Seq::new(group_size(s, completed), |place: int| listed_at(s, completed, place))
}

/// The listing holds each task of the group once, at the place of its rank.
pub proof fn lemma_listing(s: Seq<TaskView>, completed: bool)
    ensures
        listing(s, completed).len() == group_size(s, completed),
        forall|place: int|
            0 <= place < group_size(s, completed) ==> {
                let i = #[trigger] listing(s, completed)[place];
                0 <= i < s.len() && in_group(s[i], completed) && rank(s, i) == place
            },
        forall|i: int|
            0 <= i < s.len() && in_group(#[trigger] s[i], completed) ==> rank(s, i) < group_size(
                s,
                completed,
            ) && listing(s, completed)[rank(s, i) as int] == i,
{
    assert forall|place: int| 0 <= place < group_size(s, completed) implies {
        let i = #[trigger] listing(s, completed)[place];
        0 <= i < s.len() && in_group(s[i], completed) && rank(s, i) == place
    } by {
        lemma_rank_onto(s, completed, place);
    }
    assert forall|i: int| 0 <= i < s.len() && in_group(#[trigger] s[i], completed) implies rank(
        s,
        i,
    ) < group_size(s, completed) && listing(s, completed)[rank(s, i) as int] == i by {
        lemma_rank_bound(s, i);
        let place = rank(s, i) as int;
        lemma_rank_onto(s, completed, place);
        let j = listing(s, completed)[place];
        lemma_rank_order(s, j, i);
    }
}

/// Two stores list their tasks alike: the same tasks are live, in the same
/// groups, and in each group the same task comes before the same other.
pub open spec fn same_listing(s: Seq<TaskView>, t: Seq<TaskView>) -> bool {
    &&& s.len() == t.len()
    &&& forall|i: int|
        0 <= i < s.len() ==> (#[trigger] s[i]).deleted == t[i].deleted && (!s[i].deleted
            ==> s[i].completed == t[i].completed)
    &&& forall|j: int, i: int|
        0 <= i < s.len() && 0 <= j < s.len() && !s[i].deleted && in_group(s[j], s[i].completed)
            ==> #[trigger] precedes(s, j, i) == precedes(t, j, i)
}

/// Stores that list their tasks alike agree in every count.
proof fn lemma_same_listing_counts(s: Seq<TaskView>, t: Seq<TaskView>, i: int, n: int)
    requires
        same_listing(s, t),
        0 <= n <= s.len(),
        0 <= i < s.len(),
    ensures
        count_group(s, true, n) == count_group(t, true, n),
        count_group(s, false, n) == count_group(t, false, n),
        !s[i].deleted ==> count_ahead(s, i, n) == count_ahead(t, i, n),
    decreases n,
{
    if n > 0 {
        lemma_same_listing_counts(s, t, i, n - 1);
        assert(s[n - 1].deleted == t[n - 1].deleted);
        assert(s[i].deleted == t[i].deleted);
        if !s[i].deleted && in_group(s[n - 1], s[i].completed) {
            assert(precedes(s, n - 1, i) == precedes(t, n - 1, i));
        }
    }
}

/// Stores that list their tasks alike are renumbered alike.
pub proof fn lemma_same_listing_ids(s: Seq<TaskView>, t: Seq<TaskView>)
    requires
        same_listing(s, t),
    ensures
        group_size(s, false) == group_size(t, false),
        group_size(s, true) == group_size(t, true),
        next_free_id(s) == next_free_id(t),
        forall|i: int|
            0 <= i < s.len() && !s[i].deleted ==> #[trigger] display_id(s, i) == display_id(t, i),
{
    if s.len() > 0 {
        lemma_same_listing_counts(s, t, 0, s.len() as int);
    }
    assert forall|i: int| 0 <= i < s.len() && !s[i].deleted implies #[trigger] display_id(s, i)
        == display_id(t, i) by {
        lemma_same_listing_counts(s, t, i, s.len() as int);
        assert(s[i].completed == t[i].completed);
    }
}

/// Renumbering keeps the listing: only the ids change, and they change in
/// step with the order they are taken from.
pub proof fn lemma_renumbered_same_listing(s: Seq<TaskView>)
    ensures
        same_listing(s, renumbered(s)),
{
    let t = renumbered(s);
    assert forall|j: int, i: int|
        0 <= i < s.len() && 0 <= j < s.len() && !s[i].deleted && in_group(
            s[j],
            s[i].completed,
        ) implies #[trigger] precedes(s, j, i) == precedes(t, j, i) by {
        lemma_rank_order(s, j, i);
    }
}

/// After a renumbering pass the ids are dense.
pub proof fn lemma_renumbered_dense(s: Seq<TaskView>)
    ensures
        dense(renumbered(s)),
{
    let t = renumbered(s);
    lemma_renumbered_same_listing(s);
    lemma_same_listing_ids(s, t);
    let k = group_size(t, false);
    let m = group_size(t, true);
    assert forall|i: int| 0 <= i < t.len() && in_group(#[trigger] t[i], false) implies 1
        <= t[i].id <= k by {
        lemma_rank_bound(s, i);
    }
    assert forall|i: int| 0 <= i < t.len() && in_group(#[trigger] t[i], true) implies k + 1
        <= t[i].id <= k + m by {
        lemma_rank_bound(s, i);
    }
    assert forall|i: int, j: int|
        0 <= i < j < t.len() && !t[i].deleted && in_group(t[j], t[i].completed) implies (
    #[trigger] t[i]).id != (#[trigger] t[j]).id by {
        lemma_rank_order(s, j, i);
    }
    assert forall|v: int| 1 <= v <= k implies #[trigger] id_in_use(t, false, v) by {
        lemma_rank_onto(s, false, v - 1);
        let i = choose|i: int|
            0 <= i < s.len() && in_group(#[trigger] s[i], false) && rank(s, i) == v - 1;
        assert(in_group(t[i], false) && t[i].id == v);
    }
    assert forall|v: int| k < v <= k + m implies #[trigger] id_in_use(t, true, v) by {
        lemma_rank_onto(s, true, v - k - 1);
        let i = choose|i: int|
            0 <= i < s.len() && in_group(#[trigger] s[i], true) && rank(s, i) == v - k - 1;
        assert(in_group(t[i], true) && t[i].id == v);
    }
}

/// Renumbering twice gives what renumbering once gives.
pub proof fn lemma_renumbered_settled(s: Seq<TaskView>)
    ensures
        settled(renumbered(s)),
        dense(renumbered(s)),
        next_free_id(renumbered(s)) == next_free_id(s),
{
    let t = renumbered(s);
    lemma_renumbered_same_listing(s);
    lemma_same_listing_ids(s, t);
    lemma_renumbered_dense(s);
    assert(renumbered(t) =~= t);
}

/// A store that a renumbering pass would leave as it is has dense ids.
pub proof fn lemma_settled_dense(s: Seq<TaskView>)
    requires
        settled(s),
    ensures
        dense(s),
{
    lemma_renumbered_dense(s);
}

} // verus!
