use crate::ids::{parse_task_id, task_id_of};
use crate::order::{
    count_ahead, count_group, dense, display_id, group_size, in_group, lemma_group_sizes_bound,
    lemma_listing, lemma_rank_bound, lemma_rank_order, lemma_renumbered_settled,
    lemma_same_listing_ids, lemma_settled_dense, listing, next_free_id, precedes, rank,
    renumbered, same_listing, settled,
};
use crate::task::{views, Task, TaskError, TaskView};
use crate::text::texts;
use crate::time::{Date, DateView, Timestamp, TimestampView};
use vstd::prelude::*;

verus! {

/// Whether a task answers to the display id `id` in the given group.
pub open spec fn answers(t: TaskView, id: nat, completed: bool) -> bool {
    in_group(t, completed) && t.id == id
}

/// The first of the first `n` tasks that answers to the id.
pub open spec fn first_match(s: Seq<TaskView>, id: nat, completed: bool, n: int) -> Option<int>
    decreases n,
{
    if n <= 0 {
        None
    } else {
        match first_match(s, id, completed, n - 1) {
            Some(i) => Some(i),
            None => if answers(s[n - 1], id, completed) {
                Some(n - 1)
            } else {
                None
            },
        }
    }
}

/// The position of the task that an id resolves to: the first live task of
/// the group that carries the id.
pub open spec fn lookup(s: Seq<TaskView>, id: nat, completed: bool) -> Option<int> {
    first_match(s, id, completed, s.len() as int)
}

/// The position that an id text resolves to.
pub open spec fn resolve(s: Seq<TaskView>, id_text: Seq<char>) -> Option<int> {
    lookup(s, task_id_of(id_text).0, task_id_of(id_text).1)
}

/// What `first_match` finds is the first position that answers, and it finds
/// nothing only where nothing answers.
pub proof fn lemma_first_match(s: Seq<TaskView>, id: nat, completed: bool, n: int)
    requires
        0 <= n <= s.len(),
    ensures
        match first_match(s, id, completed, n) {
            Some(i) => 0 <= i < n && answers(s[i], id, completed) && forall|j: int|
                0 <= j < i ==> !answers(#[trigger] s[j], id, completed),
            None => forall|j: int| 0 <= j < n ==> !answers(#[trigger] s[j], id, completed),
        },
    decreases n,
{
    if n > 0 {
        lemma_first_match(s, id, completed, n - 1);
    }
}

/// Once found, the first match stays the first match of any longer stretch.
proof fn lemma_first_match_extends(s: Seq<TaskView>, id: nat, completed: bool, n: int, m: int)
    requires
        0 <= n <= m,
        first_match(s, id, completed, n) is Some,
    ensures
        first_match(s, id, completed, m) == first_match(s, id, completed, n),
    decreases m - n,
{
    if n < m {
        lemma_first_match_extends(s, id, completed, n, m - 1);
    }
}

/// A change that one operation makes to one task.
#[derive(Clone, Copy, Debug, PartialEq, Eq, Structural)]
pub enum Change {
    /// Moves an incomplete task to the completed group.
    Complete,
    /// Moves a completed task back to the incomplete group.
    Uncomplete,
    /// Pins the task to the top of the incomplete group.
    Star,
    /// Takes the pin away.
    Unstar,
    /// Soft-deletes the task.
    Remove,
    /// Sets the due date.
    Due(Date),
}

impl Change {
    /// The task after the change.
    pub open spec fn apply(self, t: TaskView) -> TaskView {
        match self {
            Change::Complete => TaskView { completed: true, ..t },
            Change::Uncomplete => TaskView { completed: false, ..t },
            Change::Star => TaskView { starred: true, ..t },
            Change::Unstar => TaskView { starred: false, ..t },
            Change::Remove => TaskView { deleted: true, ..t },
            Change::Due(date) => TaskView { due_date: Some(date@), ..t },
        }
    }

    /// The position of the task that the change is made to, for an id as the
    /// user wrote it. An id without the mark `c` names an incomplete task and
    /// one with the mark a completed task, so only the first can be
    /// completed and only the second taken back.
    pub open spec fn target(self, s: Seq<TaskView>, id_text: Seq<char>) -> Option<int> {
        match self {
            Change::Complete => if task_id_of(id_text).1 {
                None
            } else {
                resolve(s, id_text)
            },
            Change::Uncomplete => if task_id_of(id_text).1 {
                resolve(s, id_text)
            } else {
                None
            },
            _ => resolve(s, id_text),
        }
    }

    /// The store after the change was made to the task that `id_text` names,
    /// or the store as it was where the id names none. Ids are not yet
    /// recomputed.
    pub open spec fn apply_to(self, s: Seq<TaskView>, id_text: Seq<char>) -> Seq<TaskView> {
        match self.target(s, id_text) {
            Some(i) => s.update(i, self.apply(s[i])),
            None => s,
        }
    }
}

/// Whether every id of a batch resolves.
pub open spec fn all_resolve(s: Seq<TaskView>, ids: Seq<Seq<char>>) -> bool {
    forall|k: int| 0 <= k < ids.len() ==> resolve(s, #[trigger] ids[k]) is Some
}

/// The positions that the ids of a batch resolve to, all against the same
/// store.
pub open spec fn positions(s: Seq<TaskView>, ids: Seq<Seq<char>>) -> Seq<int> {
    Seq::new(ids.len(), |k: int| resolve(s, ids[k]).unwrap())
}

/// The store with the tasks at the given positions soft-deleted. Ids are not
/// yet recomputed.
pub open spec fn remove_all(s: Seq<TaskView>, at: Seq<int>) -> Seq<TaskView> {
    Seq::new(
        s.len(),
        |i: int| if at.contains(i) { Change::Remove.apply(s[i]) } else { s[i] },
    )
}

/// The store after `change` was tried for each id in turn, each attempt
/// seeing what the earlier ones left. Ids are not recomputed in between.
pub open spec fn apply_each(change: Change, s: Seq<TaskView>, ids: Seq<Seq<char>>) -> Seq<
    TaskView,
>
    decreases ids.len(),
{
    if ids.len() == 0 {
        s
    } else {
        change.apply_to(apply_each(change, s, ids.drop_last()), ids.last())
    }
}

/// The ids of a batch for which `change` found its task, in the order of the
/// batch.
pub open spec fn applied(change: Change, s: Seq<TaskView>, ids: Seq<Seq<char>>) -> Seq<Seq<char>>
    decreases ids.len(),
{
    if ids.len() == 0 {
        Seq::empty()
    } else {
        let done = applied(change, s, ids.drop_last());
        if change.target(apply_each(change, s, ids.drop_last()), ids.last()) is Some {
            done.push(ids.last())
        } else {
            done
        }
    }
}

/// A task with a new description and a new due date, each only where one is
/// given.
pub open spec fn edited(
    t: TaskView,
    description: Option<Seq<char>>,
    due_date: Option<DateView>,
) -> TaskView {
    TaskView {
        description: match description {
            Some(text) => text,
            None => t.description,
        },
        due_date: match due_date {
            Some(date) => Some(date),
            None => t.due_date,
        },
        ..t
    }
}

/// A task as it is added: incomplete, without a star, not deleted.
pub open spec fn new_task(
    id: nat,
    description: Seq<char>,
    due_date: Option<DateView>,
    created_at: TimestampView,
) -> TaskView {
    TaskView {
        id,
        description,
        completed: false,
        created_at,
        due_date,
        starred: false,
        deleted: false,
    }
}

/// Whether two stores differ at most in descriptions and due dates.
pub open spec fn same_numbering(s: Seq<TaskView>, t: Seq<TaskView>) -> bool {
    &&& s.len() == t.len()
    &&& forall|i: int|
        0 <= i < s.len() ==> {
            &&& (#[trigger] s[i]).id == t[i].id
            &&& s[i].completed == t[i].completed
            &&& s[i].starred == t[i].starred
            &&& s[i].deleted == t[i].deleted
        }
}

/// Descriptions and due dates play no part in the numbering.
pub proof fn lemma_same_numbering_settled(s: Seq<TaskView>, t: Seq<TaskView>)
    requires
        same_numbering(s, t),
        settled(s),
    ensures
        settled(t),
        dense(t),
        next_free_id(t) == next_free_id(s),
{
    assert(same_listing(s, t)) by {
        assert forall|i: int| 0 <= i < s.len() implies (#[trigger] s[i]).deleted == t[i].deleted
            && (!s[i].deleted ==> s[i].completed == t[i].completed) by {}
        assert forall|j: int, i: int|
            0 <= i < s.len() && 0 <= j < s.len() && !s[i].deleted && in_group(
                s[j],
                s[i].completed,
            ) implies #[trigger] precedes(s, j, i) == precedes(t, j, i) by {
            assert(s[i].id == t[i].id && s[j].id == t[j].id);
        }
    }
    lemma_same_listing_ids(s, t);
    assert forall|i: int| 0 <= i < t.len() implies #[trigger] renumbered(t)[i] == t[i] by {
        assert(renumbered(s)[i] == s[i]);
        assert(s[i].id == t[i].id);
    }
    assert(renumbered(t) =~= t);
    lemma_settled_dense(t);
}

/// Setting due dates for a batch of ids leaves the numbering alone.
proof fn lemma_due_each_same_numbering(date: Date, s: Seq<TaskView>, ids: Seq<Seq<char>>)
    ensures
        same_numbering(s, apply_each(Change::Due(date), s, ids)),
    decreases ids.len(),
{
    if ids.len() > 0 {
        lemma_due_each_same_numbering(date, s, ids.drop_last());
        let before = apply_each(Change::Due(date), s, ids.drop_last());
        match Change::Due(date).target(before, ids.last()) {
            Some(i) => {
                lemma_first_match(
                    before,
                    task_id_of(ids.last()).0,
                    task_id_of(ids.last()).1,
                    before.len() as int,
                );
            },
            None => {},
        }
    }
}

/// A batch in which no id found its task leaves the store as it was.
proof fn lemma_none_applied(change: Change, s: Seq<TaskView>, ids: Seq<Seq<char>>)
    requires
        applied(change, s, ids).len() == 0,
    ensures
        apply_each(change, s, ids) == s,
    decreases ids.len(),
{
    if ids.len() > 0 {
        lemma_none_applied(change, s, ids.drop_last());
    }
}

/// Whether the task at `j` is listed before the task at `i` of its group.
fn listed_before(tasks: &Vec<Task>, j: usize, i: usize) -> (r: bool)
    requires
        j < tasks.len(),
        i < tasks.len(),
    ensures
        r == precedes(views(tasks@), j as int, i as int),
{
    let a = &tasks[j];
    let b = &tasks[i];
    if !b.completed && a.starred != b.starred {
        a.starred
    } else if a.id != b.id {
        a.id < b.id
    } else {
        j < i
    }
}

/// The number of live tasks in a group.
fn count_in_group(tasks: &Vec<Task>, completed: bool) -> (r: usize)
    ensures
        r == group_size(views(tasks@), completed),
{
    let ghost s = views(tasks@);
    let mut count: usize = 0;
    let mut j: usize = 0;
    while j < tasks.len()
        invariant
            j <= tasks.len(),
            s == views(tasks@),
            count == count_group(s, completed, j as int),
            count <= j,
        decreases tasks.len() - j,
    {
        if !tasks[j].deleted && tasks[j].completed == completed {
            count += 1;
        }
        j += 1;
    }
    count
}

/// The place of the task at `i` in the listing of its group.
fn rank_of(tasks: &Vec<Task>, i: usize) -> (r: usize)
    requires
        i < tasks.len(),
    ensures
        r == rank(views(tasks@), i as int),
        r <= tasks.len(),
{
    let ghost s = views(tasks@);
    let completed = tasks[i].completed;
    let mut count: usize = 0;
    let mut j: usize = 0;
    while j < tasks.len()
        invariant
            j <= tasks.len(),
            i < tasks.len(),
            s == views(tasks@),
            completed == s[i as int].completed,
            count == count_ahead(s, i as int, j as int),
            count <= j,
        decreases tasks.len() - j,
    {
        if !tasks[j].deleted && tasks[j].completed == completed && listed_before(tasks, j, i) {
            count += 1;
        }
        j += 1;
    }
    count
}

/// The renumbering pass: gives every live task its display id and returns
/// the first id that is left free.
///
/// Incomplete tasks are numbered from 1, the starred ones first and then by
/// the id they had; completed tasks follow, by the id they had. Soft-deleted
/// tasks are not touched.
pub fn renumber(tasks: &mut Vec<Task>) -> (next: usize)
    requires
        old(tasks).len() < usize::MAX,
    ensures
        views(final(tasks)@) == renumbered(views(old(tasks)@)),
        next == next_free_id(views(old(tasks)@)),
{
    let ghost s = views(tasks@);
    let n = tasks.len();
    let incomplete = count_in_group(tasks, false);
    let completed = count_in_group(tasks, true);
    proof {
        lemma_group_sizes_bound(s);
    }
    let mut ids: Vec<usize> = Vec::new();
    let mut i: usize = 0;
    while i < n
        invariant
            i <= n,
            n == tasks.len(),
            n < usize::MAX,
            s == views(tasks@),
            incomplete == group_size(s, false),
            incomplete + completed <= n,
            ids.len() == i,
            forall|k: int|
                0 <= k < i && !s[k].deleted ==> (#[trigger] ids[k]) as nat == display_id(s, k),
        decreases n - i,
    {
        if tasks[i].deleted {
            ids.push(0);
        } else {
            let r = rank_of(tasks, i);
            proof {
                lemma_rank_bound(s, i as int);
                lemma_group_sizes_bound(s);
            }
            if tasks[i].completed {
                ids.push(incomplete + r + 1);
            } else {
                ids.push(r + 1);
            }
        }
        i += 1;
    }
    let mut i: usize = 0;
    while i < n
        invariant
            i <= n,
            n == tasks.len(),
            n == s.len(),
            ids.len() == n,
            forall|k: int|
                0 <= k < n && !s[k].deleted ==> (#[trigger] ids[k]) as nat == display_id(s, k),
            forall|k: int| 0 <= k < i ==> (#[trigger] tasks[k])@ == renumbered(s)[k],
            forall|k: int| i <= k < n ==> (#[trigger] tasks[k])@ == s[k],
        decreases n - i,
    {
        if !tasks[i].deleted {
            tasks[i].id = ids[i];
        }
        i += 1;
    }
    assert(views(tasks@) =~= renumbered(s));
    incomplete + completed + 1
}

/// The task store: every task ever added, the soft-deleted ones included, in
/// the order in which they were added.
pub struct TodoList {
    tasks: Vec<Task>,
    next_id: usize,
}

impl View for TodoList {
    type V = Seq<TaskView>;

    closed spec fn view(&self) -> Seq<TaskView> {
        views(self.tasks@)
    }
}

impl TodoList {
    /// The provisional id that the next added task gets before renumbering.
    pub closed spec fn watermark(&self) -> nat {
        self.next_id as nat
    }

    /// The store is between two operations: the ids are what renumbering
    /// assigns, so they are dense, and the watermark is the first id not in
    /// use.
    pub open spec fn wf(&self) -> bool {
        &&& settled(self@)
        &&& dense(self@)
        &&& self.watermark() == next_free_id(self@)
        &&& self@.len() < usize::MAX
    }

    /// A store of the given tasks, renumbered.
    pub fn new(tasks: Vec<Task>) -> (r: TodoList)
        requires
            tasks.len() < usize::MAX,
        ensures
            r@ == renumbered(views(tasks@)),
            r.wf(),
    {
        let mut tasks = tasks;
        let ghost s = views(tasks@);
        let next_id = renumber(&mut tasks);
        proof {
            lemma_renumbered_settled(s);
        }
        TodoList { tasks, next_id }
    }

    /// Runs the renumbering pass over the store. A pass over a store that
    /// was just renumbered changes nothing.
    pub fn reassign_ids(&mut self)
        requires
            old(self)@.len() < usize::MAX,
        ensures
            final(self)@ == renumbered(old(self)@),
            final(self).wf(),
            settled(old(self)@) ==> final(self)@ == old(self)@,
    {
        let ghost s = self@;
        self.next_id = renumber(&mut self.tasks);
        proof {
            lemma_renumbered_settled(s);
        }
    }

    /// The number of tasks that the store holds, soft-deleted ones included.
    pub fn len(&self) -> (n: usize)
        ensures
            n == self@.len(),
    {
        self.tasks.len()
    }

    /// The tasks of the store in the order in which they were added.
    pub fn tasks(&self) -> (r: &Vec<Task>)
        ensures
            views(r@) == self@,
    {
        &self.tasks
    }

    /// The provisional id that the next added task gets.
    pub fn next_id(&self) -> (r: usize)
        ensures
            r == self.watermark(),
    {
        self.next_id
    }

    /// The listing of a group: the positions of its live tasks in the order
    /// in which they are shown. Starred incomplete tasks come first; within
    /// that, tasks come by their display id.
    pub fn listing(&self, completed: bool) -> (r: Vec<usize>)
        ensures
            r@.len() == listing(self@, completed).len(),
            forall|place: int|
                0 <= place < r@.len() ==> (#[trigger] r@[place]) as int == listing(
                    self@,
                    completed,
                )[place] && r@[place] < self@.len(),
    {
        let ghost s = self@;
        let size = count_in_group(&self.tasks, completed);
        let mut order: Vec<usize> = vec![0; size];
        let mut i: usize = 0;
        proof {
            lemma_listing(s, completed);
        }
        while i < self.tasks.len()
            invariant
                i <= self.tasks.len(),
                s == self@,
                order.len() == size,
                size == group_size(s, completed),
                forall|j: int|
                    0 <= j < s.len() && in_group(#[trigger] s[j], completed) ==> rank(s, j) < size
                        && listing(s, completed)[rank(s, j) as int] == j,
                forall|j: int|
                    0 <= j < i && in_group(#[trigger] s[j], completed) ==> order[rank(s, j) as int]
                        == j,
            decreases self.tasks.len() - i,
        {
            if !self.tasks[i].deleted && self.tasks[i].completed == completed {
                let place = rank_of(&self.tasks, i);
                assert(in_group(s[i as int], completed));
                proof {
                    assert forall|j: int| 0 <= j < i && in_group(#[trigger] s[j], completed) implies rank(
                        s,
                        j,
                    ) != place by {
                        lemma_rank_order(s, j, i as int);
                    }
                }
                order.set(place, i);
            }
            i += 1;
        }
        proof {
            assert forall|place: int| 0 <= place < order@.len() implies (#[trigger] order@[place]) as int
                == listing(s, completed)[place] && order@[place] < s.len() by {
                let j = listing(s, completed)[place];
                assert(in_group(s[j], completed));
            }
        }
        order
    }

    /// The position of the first live task of the group that carries `id`.
    pub fn position(&self, id: usize, completed: bool) -> (r: Option<usize>)
        ensures
            match r {
                Some(i) => i < self@.len() && lookup(self@, id as nat, completed) == Some(i as int),
                None => lookup(self@, id as nat, completed) is None,
            },
    {
        let mut j: usize = 0;
        while j < self.tasks.len()
            invariant
                j <= self.tasks.len(),
                first_match(self@, id as nat, completed, j as int) is None,
            decreases self.tasks.len() - j,
        {
            let t = &self.tasks[j];
            if !t.deleted && t.completed == completed && t.id == id {
                proof {
                    lemma_first_match_extends(
                        self@,
                        id as nat,
                        completed,
                        j + 1,
                        self@.len() as int,
                    );
                }
                return Some(j);
            }
            j += 1;
        }
        None
    }

    /// The position of the task that an id text resolves to.
    pub fn find(&self, id_str: &str) -> (r: Option<usize>)
        ensures
            match r {
                Some(i) => i < self@.len() && resolve(self@, id_str@) == Some(i as int),
                None => resolve(self@, id_str@) is None,
            },
    {
        let (id, completed) = parse_task_id(id_str);
        self.position(id, completed)
    }

    /// The task that an id text resolves to.
    pub fn get_task(&self, id_str: &str) -> (r: Option<&Task>)
        ensures
            match resolve(self@, id_str@) {
                Some(i) => r is Some && r->0@ == self@[i],
                None => r is None,
            },
    {
        match self.find(id_str) {
            Some(i) => Some(&self.tasks[i]),
            None => None,
        }
    }

    /// Appends a new task, incomplete and unstarred, and renumbers. Returns
    /// the task as the store now holds it.
    pub fn add_task(
        &mut self,
        description: String,
        due_date: Option<Date>,
        created_at: Timestamp,
    ) -> (r: Task)
        requires
            old(self).wf(),
            old(self)@.len() + 1 < usize::MAX,
        ensures
            final(self).wf(),
            final(self)@ == renumbered(
                old(self)@.push(
                    new_task(
                        next_free_id(old(self)@),
                        description@,
                        match due_date {
                            Some(date) => Some(date@),
                            None => None,
                        },
                        created_at@,
                    ),
                ),
            ),
            r@ == final(self)@.last(),
    {
        let ghost s = self@;
        let task = Task {
            id: self.next_id,
            description,
            completed: false,
            created_at,
            due_date,
            starred: false,
            deleted: false,
        };
        self.tasks.push(task);
        assert(self@ =~= s.push(task@));
        self.reassign_ids();
        self.tasks[self.tasks.len() - 1].duplicate()
    }

    /// Makes `change` to the task at `i` and renumbers.
    fn change_at(&mut self, i: usize, change: Change)
        requires
            old(self).wf(),
            i < old(self)@.len(),
        ensures
            final(self).wf(),
            final(self)@ == renumbered(old(self)@.update(i as int, change.apply(old(self)@[i as int]))),
    {
        self.set_at(i, change);
        self.reassign_ids();
    }

    /// Resolves the id for `change`, makes the change and renumbers; where
    /// the id resolves to nothing, fails with `error` and changes nothing.
    fn change_one(&mut self, id_str: &str, change: Change, error: TaskError) -> (r: Result<
        (),
        TaskError,
    >)
        requires
            old(self).wf(),
        ensures
            final(self).wf(),
            match change.target(old(self)@, id_str@) {
                Some(i) => r is Ok && final(self)@ == renumbered(
                    change.apply_to(old(self)@, id_str@),
                ),
                None => r == Err::<(), TaskError>(error) && final(self)@ == old(self)@,
            },
    {
        match self.target_of(id_str, change) {
            Some(i) => {
                self.change_at(i, change);
                Ok(())
            },
            None => Err(error),
        }
    }

    /// The position of the task that `change` is made to for an id text.
    fn target_of(&self, id_str: &str, change: Change) -> (r: Option<usize>)
        ensures
            match r {
                Some(i) => i < self@.len() && change.target(self@, id_str@) == Some(i as int),
                None => change.target(self@, id_str@) is None,
            },
    {
        let (id, completed) = parse_task_id(id_str);
        match change {
            Change::Complete => if completed {
                None
            } else {
                self.position(id, completed)
            },
            Change::Uncomplete => if completed {
                self.position(id, completed)
            } else {
                None
            },
            _ => self.position(id, completed),
        }
    }

    /// Completes the incomplete task that the id names.
    ///
    /// Fails with `InvalidState`, changing nothing, where the id names no
    /// incomplete task: it carries the mark of the completed group, or no
    /// live incomplete task carries its number.
    pub fn mark_done(&mut self, id_str: &str) -> (r: Result<(), TaskError>)
        requires
            old(self).wf(),
        ensures
            final(self).wf(),
            match Change::Complete.target(old(self)@, id_str@) {
                Some(i) => r is Ok && final(self)@ == renumbered(
                    Change::Complete.apply_to(old(self)@, id_str@),
                ),
                None => r == Err::<(), TaskError>(TaskError::InvalidState) && final(self)@ == old(
                    self,
                )@,
            },
    {
        self.change_one(id_str, Change::Complete, TaskError::InvalidState)
    }

    /// Takes the completed task that the id names back to the incomplete
    /// group.
    ///
    /// Fails with `InvalidState`, changing nothing, where the id names no
    /// completed task: it lacks the mark `c`, or no live completed task
    /// carries its number.
    pub fn mark_undone(&mut self, id_str: &str) -> (r: Result<(), TaskError>)
        requires
            old(self).wf(),
        ensures
            final(self).wf(),
            match Change::Uncomplete.target(old(self)@, id_str@) {
                Some(i) => r is Ok && final(self)@ == renumbered(
                    Change::Uncomplete.apply_to(old(self)@, id_str@),
                ),
                None => r == Err::<(), TaskError>(TaskError::InvalidState) && final(self)@ == old(
                    self,
                )@,
            },
    {
        self.change_one(id_str, Change::Uncomplete, TaskError::InvalidState)
    }

    /// Stars the task that the id names; starring a starred task is no
    /// error. Fails with `NotFound` where the id resolves to nothing.
    pub fn star_task(&mut self, id_str: &str) -> (r: Result<(), TaskError>)
        requires
            old(self).wf(),
        ensures
            final(self).wf(),
            match resolve(old(self)@, id_str@) {
                Some(i) => r is Ok && final(self)@ == renumbered(
                    Change::Star.apply_to(old(self)@, id_str@),
                ),
                None => r == Err::<(), TaskError>(TaskError::NotFound) && final(self)@ == old(
                    self,
                )@,
            },
    {
        self.change_one(id_str, Change::Star, TaskError::NotFound)
    }

    /// Takes the star from the task that the id names; a task without a
    /// star is no error. Fails with `NotFound` where the id resolves to
    /// nothing.
    pub fn unstar_task(&mut self, id_str: &str) -> (r: Result<(), TaskError>)
        requires
            old(self).wf(),
        ensures
            final(self).wf(),
            match resolve(old(self)@, id_str@) {
                Some(i) => r is Ok && final(self)@ == renumbered(
                    Change::Unstar.apply_to(old(self)@, id_str@),
                ),
                None => r == Err::<(), TaskError>(TaskError::NotFound) && final(self)@ == old(
                    self,
                )@,
            },
    {
        self.change_one(id_str, Change::Unstar, TaskError::NotFound)
    }

    /// Replaces the description, the due date or both of the task that the
    /// id names; what is not given stays. Fails with `NotFound`, changing
    /// nothing, where the id resolves to nothing.
    pub fn edit_task(
        &mut self,
        id_str: &str,
        new_desc: Option<&str>,
        due_date: Option<Date>,
    ) -> (r: Result<(), TaskError>)
        requires
            old(self).wf(),
        ensures
            final(self).wf(),
            match resolve(old(self)@, id_str@) {
                Some(i) => r is Ok && final(self)@ == old(self)@.update(
                    i,
                    edited(
                        old(self)@[i],
                        match new_desc {
                            Some(text) => Some(text@),
                            None => None,
                        },
                        match due_date {
                            Some(date) => Some(date@),
                            None => None,
                        },
                    ),
                ),
                None => r == Err::<(), TaskError>(TaskError::NotFound) && final(self)@ == old(
                    self,
                )@,
            },
    {
        let ghost s = self@;
        match self.find(id_str) {
            Some(i) => {
                if let Some(text) = new_desc {
                    self.tasks[i].description = text.to_owned();
                }
                if due_date.is_some() {
                    self.tasks[i].due_date = due_date;
                }
                proof {
                    let desc = match new_desc {
                        Some(text) => Some(text@),
                        None => None,
                    };
                    let due = match due_date {
                        Some(date) => Some(date@),
                        None => None,
                    };
                    assert(self@ =~= s.update(i as int, edited(s[i as int], desc, due)));
                    lemma_same_numbering_settled(s, self@);
                }
                Ok(())
            },
            None => Err(TaskError::NotFound),
        }
    }

    /// Soft-deletes a batch of tasks at once.
    ///
    /// Every id is resolved against the store as the caller saw it, before
    /// anything is deleted. If one of them resolves to nothing the call fails
    /// with `NotFound` and deletes nothing. Otherwise all the tasks are
    /// deleted, the store is renumbered once, and the numbers that the tasks
    /// carried are returned in the order of the batch.
    pub fn remove_tasks(&mut self, id_strs: &[String]) -> (r: Result<Vec<usize>, TaskError>)
        requires
            old(self).wf(),
        ensures
            final(self).wf(),
            if all_resolve(old(self)@, texts(id_strs@)) {
                &&& r is Ok
                &&& r->Ok_0@.len() == id_strs@.len()
                &&& forall|k: int|
                    0 <= k < id_strs@.len() ==> (#[trigger] r->Ok_0@[k]) as nat == old(
                        self,
                    )@[positions(old(self)@, texts(id_strs@))[k]].id
                &&& final(self)@ == renumbered(
                    remove_all(old(self)@, positions(old(self)@, texts(id_strs@))),
                )
            } else {
                r == Err::<Vec<usize>, TaskError>(TaskError::NotFound) && final(self)@ == old(
                    self,
                )@
            },
    {
        let ghost s = self@;
        let ghost ids = texts(id_strs@);
        let mut found: Vec<usize> = Vec::new();
        let mut display_ids: Vec<usize> = Vec::new();
        let mut k: usize = 0;
        while k < id_strs.len()
            invariant
                k <= id_strs.len(),
                self@ == s,
                self.wf(),
                ids == texts(id_strs@),
                found.len() == k,
                display_ids.len() == k,
                forall|j: int| 0 <= j < k ==> (#[trigger] found[j]) < s.len(),
                forall|j: int|
                    0 <= j < k ==> {
                        &&& resolve(s, #[trigger] ids[j]) == Some(found[j] as int)
                        &&& found[j] < s.len()
                        &&& display_ids[j] as nat == s[found[j] as int].id
                    },
            decreases id_strs.len() - k,
        {
            match self.find(id_strs[k].as_str()) {
                Some(i) => {
                    found.push(i);
                    display_ids.push(self.tasks[i].id);
                },
                None => {
                    assert(resolve(s, ids[k as int]) is None);
                    return Err(TaskError::NotFound);
                },
            }
            k += 1;
        }
        assert(all_resolve(s, ids));
        let ghost at = positions(s, ids);
        assert(at =~= found@.map_values(|i: usize| i as int));
        let mut k: usize = 0;
        while k < found.len()
            invariant
                k <= found.len(),
                self@.len() == s.len(),
                at == found@.map_values(|i: usize| i as int),
                forall|j: int| 0 <= j < found.len() ==> (#[trigger] found[j]) < s.len(),
                forall|i: int|
                    0 <= i < s.len() ==> #[trigger] self@[i] == if at.take(k as int).contains(i) {
                        Change::Remove.apply(s[i])
                    } else {
                        s[i]
                    },
            decreases found.len() - k,
        {
            let i = found[k];
            let ghost before = self@;
            self.tasks[i].deleted = true;
            proof {
                let prev = at.take(k as int);
                let next = at.take(k + 1);
                assert(next =~= prev.push(i as int));
                assert forall|p: int| 0 <= p < s.len() implies #[trigger] self@[p] == if next.contains(
                    p,
                ) {
                    Change::Remove.apply(s[p])
                } else {
                    s[p]
                } by {
                    assert(before[p] == if prev.contains(p) {
                        Change::Remove.apply(s[p])
                    } else {
                        s[p]
                    });
                    if p == i {
                        assert(next.last() == i);
                    } else if prev.contains(p) {
                        let w = choose|w: int| 0 <= w < prev.len() && prev[w] == p;
                        assert(next[w] == p);
                    } else if next.contains(p) {
                        let w = choose|w: int| 0 <= w < next.len() && next[w] == p;
                        assert(prev[w] == p);
                    }
                }
            }
            k += 1;
        }
        assert(at.take(found.len() as int) == at);
        assert(self@ =~= remove_all(s, at));
        self.reassign_ids();
        Ok(display_ids)
    }

    /// Soft-deletes the task that the id names and renumbers. Fails with
    /// `NotFound`, changing nothing, where the id resolves to nothing.
    pub fn remove_task(&mut self, id_str: &str) -> (r: Result<(), TaskError>)
        requires
            old(self).wf(),
        ensures
            final(self).wf(),
            match resolve(old(self)@, id_str@) {
                Some(i) => r is Ok && final(self)@ == renumbered(
                    Change::Remove.apply_to(old(self)@, id_str@),
                ),
                None => r == Err::<(), TaskError>(TaskError::NotFound) && final(self)@ == old(
                    self,
                )@,
            },
    {
        self.change_one(id_str, Change::Remove, TaskError::NotFound)
    }

    /// Tries `change` for each id in turn, without renumbering, and returns
    /// the ids for which it found its task.
    fn change_each(&mut self, id_strs: &[String], change: Change) -> (done: Vec<String>)
        ensures
            final(self)@ == apply_each(change, old(self)@, texts(id_strs@)),
            final(self)@.len() == old(self)@.len(),
            final(self).watermark() == old(self).watermark(),
            texts(done@) == applied(change, old(self)@, texts(id_strs@)),
    {
        let ghost s = self@;
        let ghost ids = texts(id_strs@);
        let mut done: Vec<String> = Vec::new();
        let mut k: usize = 0;
        while k < id_strs.len()
            invariant
                k <= id_strs.len(),
                ids == texts(id_strs@),
                self@.len() == s.len(),
                self.watermark() == old(self).watermark(),
                self@ == apply_each(change, s, ids.take(k as int)),
                texts(done@) == applied(change, s, ids.take(k as int)),
            decreases id_strs.len() - k,
        {
            let ghost before = self@;
            let ghost done_before = texts(done@);
            assert(ids.take(k + 1).drop_last() == ids.take(k as int));
            assert(ids.take(k + 1).last() == id_strs[k as int]@);
            match self.target_of(id_strs[k].as_str(), change) {
                Some(i) => {
                    self.set_at(i, change);
                    done.push(id_strs[k].clone());
                    assert(texts(done@) =~= done_before.push(id_strs[k as int]@));
                },
                None => {},
            }
            k += 1;
        }
        assert(ids.take(k as int) == ids);
        done
    }

    /// Makes `change` to the task at `i`.
    fn set_at(&mut self, i: usize, change: Change)
        requires
            i < old(self)@.len(),
        ensures
            final(self)@ == old(self)@.update(i as int, change.apply(old(self)@[i as int])),
            final(self).watermark() == old(self).watermark(),
    {
        let ghost s = self@;
        match change {
            Change::Complete => {
                self.tasks[i].completed = true;
            },
            Change::Uncomplete => {
                self.tasks[i].completed = false;
            },
            Change::Star => {
                self.tasks[i].starred = true;
            },
            Change::Unstar => {
                self.tasks[i].starred = false;
            },
            Change::Remove => {
                self.tasks[i].deleted = true;
            },
            Change::Due(date) => {
                self.tasks[i].due_date = Some(date);
            },
        }
        assert(self@ =~= s.update(i as int, change.apply(s[i as int])));
    }

    /// Completes each task of a batch that can be completed.
    ///
    /// The ids are tried one after the other against the numbers that the
    /// caller saw; one that names no incomplete task is passed over. Where
    /// none succeeds the call fails with `InvalidState` and changes nothing.
    /// Otherwise the store is renumbered once and the ids that succeeded are
    /// returned in the order of the batch.
    pub fn mark_done_multiple(&mut self, id_strs: &[String]) -> (r: Result<Vec<String>, TaskError>)
        requires
            old(self).wf(),
        ensures
            final(self).wf(),
            if applied(Change::Complete, old(self)@, texts(id_strs@)).len() == 0 {
                r == Err::<Vec<String>, TaskError>(TaskError::InvalidState) && final(self)@ == old(
                    self,
                )@
            } else {
                &&& r is Ok
                &&& texts(r->Ok_0@) == applied(Change::Complete, old(self)@, texts(id_strs@))
                &&& final(self)@ == renumbered(
                    apply_each(Change::Complete, old(self)@, texts(id_strs@)),
                )
            },
    {
        let ghost s = self@;
        let done = self.change_each(id_strs, Change::Complete);
        if done.len() == 0 {
            proof {
                lemma_none_applied(Change::Complete, s, texts(id_strs@));
            }
            return Err(TaskError::InvalidState);
        }
        self.reassign_ids();
        Ok(done)
    }

    /// Takes each task of a batch that is completed back to the incomplete
    /// group.
    ///
    /// An id that names no completed task is passed over. Where none
    /// succeeds the call fails with `InvalidState` and changes nothing.
    /// Otherwise the store is renumbered once and the ids that succeeded are
    /// returned in the order of the batch.
    pub fn mark_undone_multiple(&mut self, id_strs: &[String]) -> (r: Result<
        Vec<String>,
        TaskError,
    >)
        requires
            old(self).wf(),
        ensures
            final(self).wf(),
            if applied(Change::Uncomplete, old(self)@, texts(id_strs@)).len() == 0 {
                r == Err::<Vec<String>, TaskError>(TaskError::InvalidState) && final(self)@ == old(
                    self,
                )@
            } else {
                &&& r is Ok
                &&& texts(r->Ok_0@) == applied(Change::Uncomplete, old(self)@, texts(id_strs@))
                &&& final(self)@ == renumbered(
                    apply_each(Change::Uncomplete, old(self)@, texts(id_strs@)),
                )
            },
    {
        let ghost s = self@;
        let done = self.change_each(id_strs, Change::Uncomplete);
        if done.len() == 0 {
            proof {
                lemma_none_applied(Change::Uncomplete, s, texts(id_strs@));
            }
            return Err(TaskError::InvalidState);
        }
        self.reassign_ids();
        Ok(done)
    }

    /// Sets the due date of each task of a batch.
    ///
    /// An id that resolves to nothing is passed over. Where none resolves
    /// the call fails with `NotFound`. Otherwise the ids that resolved are
    /// returned in the order of the batch. The numbering does not change.
    pub fn edit_tasks_due_date(&mut self, id_strs: &[String], due_date: Date) -> (r: Result<
        Vec<String>,
        TaskError,
    >)
        requires
            old(self).wf(),
        ensures
            final(self).wf(),
            final(self)@ == apply_each(Change::Due(due_date), old(self)@, texts(id_strs@)),
            if applied(Change::Due(due_date), old(self)@, texts(id_strs@)).len() == 0 {
                r == Err::<Vec<String>, TaskError>(TaskError::NotFound) && final(self)@ == old(
                    self,
                )@
            } else {
                r is Ok && texts(r->Ok_0@) == applied(
                    Change::Due(due_date),
                    old(self)@,
                    texts(id_strs@),
                )
            },
    {
        let ghost s = self@;
        let done = self.change_each(id_strs, Change::Due(due_date));
        proof {
            lemma_due_each_same_numbering(due_date, s, texts(id_strs@));
            lemma_same_numbering_settled(s, self@);
        }
        if done.len() == 0 {
            proof {
                lemma_none_applied(Change::Due(due_date), s, texts(id_strs@));
            }
            return Err(TaskError::NotFound);
        }
        Ok(done)
    }
}

} // verus!
