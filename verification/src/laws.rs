use crate::command::ClockView;
use crate::ids::{id_text, task_id_of};
use crate::number::{
    decimal_digits, is_digit, lemma_decimal_digits_value, lemma_parse_decimal_digits,
};
use crate::order::{
    dense, display_id, group_size, in_group, lemma_group_sizes_bound, lemma_listing,
    lemma_rank_order, lemma_renumbered_dense, lemma_renumbered_settled, lemma_same_listing_ids,
    listing, precedes, renumbered, same_listing, settled,
};
use crate::session::{after_save, step, Key, SessionView};
use crate::store::{
    all_resolve, lemma_first_match, lookup, positions, remove_all, resolve, Change,
};
use crate::task::TaskView;
use vstd::prelude::*;

verus! {

/// After a renumbering pass, whatever the store held before, the incomplete
/// tasks carry exactly the ids `1..=K` and the completed tasks exactly
/// `K+1..=K+M`, without gaps and without an id used twice in a group.
pub proof fn law_renumbered_dense(s: Seq<TaskView>)
    ensures
        dense(renumbered(s)),
{
    lemma_renumbered_dense(s);
}

/// A second renumbering pass changes nothing.
pub proof fn law_renumber_idempotent(s: Seq<TaskView>)
    ensures
        renumbered(renumbered(s)) == renumbered(s),
{
    lemma_renumbered_settled(s);
}

/// Renumbering lists a starred incomplete task before every incomplete task
/// without a star; two incomplete tasks that are both starred or both not
/// keep the order of the ids they had, and so do two completed tasks,
/// starred or not.
pub proof fn law_starred_first(s: Seq<TaskView>, i: int, j: int)
    requires
        0 <= i < s.len(),
        0 <= j < s.len(),
        !s[i].deleted,
        in_group(s[j], s[i].completed),
    ensures
        !s[i].completed && s[i].starred && !s[j].starred ==> renumbered(s)[i].id < renumbered(
            s,
        )[j].id,
        (s[i].completed || s[i].starred == s[j].starred) && s[i].id < s[j].id ==> renumbered(
            s,
        )[i].id < renumbered(s)[j].id,
{
    lemma_rank_order(s, i, j);
}

/// In a store that was renumbered, every starred incomplete task has a
/// smaller id than every incomplete task without a star.
pub proof fn law_starred_ids_first(s: Seq<TaskView>, i: int, j: int)
    requires
        settled(s),
        0 <= i < s.len(),
        0 <= j < s.len(),
        in_group(s[i], false),
        in_group(s[j], false),
        s[i].starred,
        !s[j].starred,
    ensures
        s[i].id < s[j].id,
{
    law_starred_first(s, i, j);
    assert(renumbered(s)[i] == s[i]);
    assert(renumbered(s)[j] == s[j]);
}

/// In a store that was renumbered the task at a place of a listing carries
/// the id of that place: the incomplete tasks count from 1 in the order in
/// which they are listed, the completed tasks go on after them.
pub proof fn law_listing_ids(s: Seq<TaskView>, completed: bool, place: int)
    requires
        settled(s),
        0 <= place < group_size(s, completed),
    ensures
        s[listing(s, completed)[place]].id == (if completed {
            group_size(s, false)
        } else {
            0
        }) + place + 1,
{
    lemma_listing(s, completed);
    let i = listing(s, completed)[place];
    assert(renumbered(s)[i] == s[i]);
}

/// A batch remove acts on the store that the caller saw: where every id of
/// the batch resolves, the tasks deleted are exactly those that the ids
/// resolved to before anything was deleted, and every other task keeps all
/// but its id.
pub proof fn law_remove_snapshot(s: Seq<TaskView>, ids: Seq<Seq<char>>, i: int)
    requires
        all_resolve(s, ids),
        0 <= i < s.len(),
    ensures
        ({
            let after = renumbered(remove_all(s, positions(s, ids)));
            &&& after.len() == s.len()
            &&& after[i].deleted == (s[i].deleted || exists|k: int|
                0 <= k < ids.len() && resolve(s, #[trigger] ids[k]) == Some(i))
            &&& after[i].same_content(TaskView { deleted: after[i].deleted, ..s[i] })
        }),
{
    let at = positions(s, ids);
    if at.contains(i) {
        let k = choose|k: int| 0 <= k < at.len() && at[k] == i;
        assert(resolve(s, ids[k]) == Some(i));
    } else {
        assert forall|k: int| 0 <= k < ids.len() implies resolve(s, #[trigger] ids[k]) != Some(
            i,
        ) by {
            assert(at[k] == resolve(s, ids[k]).unwrap());
        }
    }
}

/// Removing one task is a batch remove of one id.
pub proof fn law_remove_one(s: Seq<TaskView>, id: Seq<char>)
    requires
        resolve(s, id) is Some,
    ensures
        all_resolve(s, seq![id]),
        remove_all(s, positions(s, seq![id])) == Change::Remove.apply_to(s, id),
{
    let i = resolve(s, id)->0;
    lemma_first_match(s, task_id_of(id).0, task_id_of(id).1, s.len() as int);
    let at = positions(s, seq![id]);
    assert(at =~= seq![i]);
    assert(remove_all(s, at) =~= s.update(i, Change::Remove.apply(s[i]))) by {
        assert forall|k: int| 0 <= k < s.len() implies #[trigger] remove_all(s, at)[k] == s.update(
            i,
            Change::Remove.apply(s[i]),
        )[k] by {
            if k == i {
                assert(at[0] == i);
            }
        }
    }
}

/// A soft-deleted task is out of everything: no id text resolves to it, no
/// listing holds it, and a renumbering pass leaves it as it is.
pub proof fn law_deleted_inert(s: Seq<TaskView>, i: int)
    requires
        0 <= i < s.len(),
        s[i].deleted,
    ensures
        forall|id_text: Seq<char>| #[trigger] resolve(s, id_text) != Some(i),
        forall|id: nat, completed: bool| #[trigger] lookup(s, id, completed) != Some(i),
        forall|completed: bool, place: int|
            0 <= place < listing(s, completed).len() ==> #[trigger] listing(s, completed)[place]
                != i,
        renumbered(s)[i] == s[i],
{
    assert forall|id: nat, completed: bool| #[trigger] lookup(s, id, completed) != Some(i) by {
        lemma_first_match(s, id, completed, s.len() as int);
    }
    assert forall|completed: bool, place: int|
        0 <= place < listing(s, completed).len() implies #[trigger] listing(s, completed)[place]
        != i by {
        lemma_listing(s, completed);
    }
}

/// What a soft-deleted task holds plays no part in the ids of the others:
/// two stores that agree in their live tasks give them the same ids.
pub proof fn law_deleted_ignored(s: Seq<TaskView>, t: Seq<TaskView>)
    requires
        s.len() == t.len(),
        forall|i: int| 0 <= i < s.len() ==> (#[trigger] s[i]).deleted == t[i].deleted,
        forall|i: int| 0 <= i < s.len() && !s[i].deleted ==> #[trigger] s[i] == t[i],
    ensures
        forall|i: int|
            0 <= i < s.len() && !s[i].deleted ==> #[trigger] renumbered(s)[i] == renumbered(t)[i],
{
    assert(same_listing(s, t)) by {
        assert forall|i: int| 0 <= i < s.len() implies (#[trigger] s[i]).deleted == t[i].deleted
            && (!s[i].deleted ==> s[i].completed == t[i].completed) by {
            if !s[i].deleted {
                assert(s[i] == t[i]);
            }
        }
        assert forall|j: int, i: int|
            0 <= i < s.len() && 0 <= j < s.len() && !s[i].deleted && in_group(
                s[j],
                s[i].completed,
            ) implies #[trigger] precedes(s, j, i) == precedes(t, j, i) by {
            assert(s[i] == t[i] && s[j] == t[j]);
        }
    }
    lemma_same_listing_ids(s, t);
    assert forall|i: int| 0 <= i < s.len() && !s[i].deleted implies #[trigger] renumbered(s)[i]
        == renumbered(t)[i] by {
        assert(display_id(s, i) == display_id(t, i));
        assert(s[i] == t[i]);
    }
}

/// No change brings a soft-deleted task back: a task that is deleted before
/// an operation is deleted after it.
pub proof fn law_deleted_stays(s: Seq<TaskView>, change: Change, id_text: Seq<char>, i: int)
    requires
        0 <= i < s.len(),
        s[i].deleted,
    ensures
        renumbered(change.apply_to(s, id_text))[i] == s[i],
{
    law_deleted_inert(s, i);
    assert(resolve(s, id_text) != Some(i));
    lemma_first_match(s, task_id_of(id_text).0, task_id_of(id_text).1, s.len() as int);
}

/// The id text of a number and a group reads back as that number and that
/// group.
pub proof fn law_id_text_round_trip(n: nat, marked: bool)
    requires
        n <= usize::MAX,
    ensures
        task_id_of(id_text(n, marked)) == (n, marked),
{
    lemma_parse_decimal_digits(n, usize::MAX as nat);
    lemma_decimal_digits_value(n);
    let digits = decimal_digits(n);
    if marked {
        assert(id_text(n, marked).drop_last() =~= digits);
    } else {
        assert(is_digit(digits[digits.len() - 1]));
    }
}

/// In a store with dense ids the id of a live task resolves to that task.
pub proof fn law_id_resolves(s: Seq<TaskView>, i: int)
    requires
        dense(s),
        s.len() < usize::MAX,
        0 <= i < s.len(),
        !s[i].deleted,
    ensures
        resolve(s, id_text(s[i].id, s[i].completed)) == Some(i),
{
    lemma_group_sizes_bound(s);
    law_id_text_round_trip(s[i].id, s[i].completed);
    lemma_first_match(s, s[i].id, s[i].completed, s.len() as int);
}

/// Completing a task and then taking it back, by the id that it got in the
/// completed group, puts it into the incomplete group again with its
/// description, its star, its due date and its creation time as they were;
/// only its id may be another. No other task changes but in its id.
pub proof fn law_complete_then_uncomplete(s: Seq<TaskView>, id: Seq<char>, k: int)
    requires
        settled(s),
        s.len() < usize::MAX,
        Change::Complete.target(s, id) is Some,
        0 <= k < s.len(),
    ensures
        ({
            let i = Change::Complete.target(s, id)->0;
            let done = renumbered(Change::Complete.apply_to(s, id));
            let back = id_text(done[i].id, true);
            let undone = renumbered(Change::Uncomplete.apply_to(done, back));
            &&& 0 <= i < s.len()
            &&& in_group(s[i], false)
            &&& in_group(done[i], true)
            &&& Change::Uncomplete.target(done, back) == Some(i)
            &&& in_group(undone[i], false)
            &&& undone.len() == s.len()
            &&& undone[k].same_content(s[k])
        }),
{
    let i = Change::Complete.target(s, id)->0;
    lemma_first_match(s, task_id_of(id).0, task_id_of(id).1, s.len() as int);
    let changed = Change::Complete.apply_to(s, id);
    let done = renumbered(changed);
    lemma_renumbered_dense(changed);
    law_id_resolves(done, i);
    lemma_group_sizes_bound(done);
    law_id_text_round_trip(done[i].id, true);
}

/// Building a store anew from the tasks of a store that was renumbered
/// gives the same store, and building one from any tasks keeps of every
/// task all but its id.
pub proof fn law_reload(s: Seq<TaskView>, i: int)
    requires
        0 <= i < s.len(),
    ensures
        renumbered(s).len() == s.len(),
        renumbered(s)[i].same_content(s[i]),
        settled(s) ==> renumbered(s) == s,
{
}

/// Nothing but a save that succeeded clears the mark of unsaved changes: no
/// key does, and a save that failed does not.
pub proof fn law_unsaved_kept(
    session: SessionView,
    s: Seq<TaskView>,
    key: Key,
    clock: ClockView,
    then_quit: bool,
)
    requires
        session.modified,
    ensures
        step(session, s, key, clock).0.modified,
        after_save(session, false, then_quit).0.modified,
        !after_save(session, true, then_quit).0.modified,
{
}

/// Whatever the command line holds, the enter key brings the session back
/// to the task list; and a key leaves the store as it was unless it is the
/// enter key at the end of a command line.
pub proof fn law_commands_return(session: SessionView, s: Seq<TaskView>, key: Key, clock: ClockView)
    ensures
        session.state is CommandEntry && key == Key::Char('\n') ==> step(
            session,
            s,
            key,
            clock,
        ).0.state is Browse,
        !(session.state is CommandEntry && key == Key::Char('\n')) ==> step(
            session,
            s,
            key,
            clock,
        ).1 == s,
{
}

} // verus!
