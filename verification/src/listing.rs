use crate::ids::{format_id, id_text};
use crate::number::{decimal_digits, decimal_text, lemma_usize_digits};
use crate::order::listing;
use crate::store::TodoList;
use crate::task::{views, Task, TaskView};
use crate::text::{
    chars_of, fixed_width_string, pad_right, padded, padded_chars, string_of, truncate_str,
    truncated,
};
use crate::time::{
    date_text_of, get_due_status, status_of_days, whole_days_until, Date,
    DateView, DueStatus, Timestamp, TimestampView,
};
use vstd::prelude::*;

verus! {

/// The columns that a description may take in a list before it is cut.
pub const DESCRIPTION_COLUMNS: usize = 36;

/// The columns of the description field of a list.
pub const DESCRIPTION_FIELD: usize = 40;

/// The columns that a screen line keeps for everything but the id and the
/// description.
pub const SCREEN_RESERVE: usize = 20;

/// One line of the task list, ready to be printed.
pub struct ListRow {
    /// The id as the user types it: the number, with `c` for a completed
    /// task.
    pub id: String,
    pub starred: bool,
    pub completed: bool,
    /// The description, cut to fit and brought to the width of its field.
    pub description: String,
    /// The due date, year first.
    pub due_date: Option<String>,
    /// How near the due date of an incomplete task is. A completed task is
    /// shown without urgency: `Normal` with a due date, `NoDue` without.
    pub status: DueStatus,
}

/// The mathematical value of a [`ListRow`].
pub struct ListRowView {
    pub id: Seq<char>,
    pub starred: bool,
    pub completed: bool,
    pub description: Seq<char>,
    pub due_date: Option<Seq<char>>,
    pub status: DueStatus,
}

impl View for ListRow {
    type V = ListRowView;

    open spec fn view(&self) -> ListRowView {
        ListRowView {
            id: self.id@,
            starred: self.starred,
            completed: self.completed,
            description: self.description@,
            due_date: match self.due_date {
                Some(text) => Some(text@),
                None => None,
            },
            status: self.status,
        }
    }
}

/// The text of a due date.
pub open spec fn due_text_of(due_date: Option<DateView>) -> Option<Seq<char>> {
    match due_date {
        Some(d) => Some(date_text_of(d.year, d.month, d.day)),
        None => None,
    }
}

/// The status that a list shows for a task at the moment `now`.
pub open spec fn shown_status(t: TaskView, now: TimestampView) -> DueStatus {
    match t.due_date {
        Some(d) => if t.completed {
            DueStatus::Normal
        } else {
            status_of_days(whole_days_until(d.year, d.month, d.day, now.secs, now.nanos))
        },
        None => DueStatus::NoDue,
    }
}

/// The list line of a task at the moment `now`.
pub open spec fn list_row_of(t: TaskView, now: TimestampView) -> ListRowView {
    ListRowView {
        id: id_text(t.id, t.completed),
        starred: t.starred,
        completed: t.completed,
        description: padded(
            truncated(t.description, DESCRIPTION_COLUMNS as nat),
            DESCRIPTION_FIELD as nat,
        ),
        due_date: due_text_of(t.due_date),
        status: shown_status(t, now),
    }
}

/// The text of a due date, if there is one.
fn due_text(due_date: &Option<Date>) -> (r: Option<String>)
    ensures
        match r {
            Some(text) => due_date is Some && due_text_of(Some(due_date->0@)) == Some(text@),
            None => due_date is None,
        },
{
    match due_date {
        Some(d) => Some(d.text()),
        None => None,
    }
}

/// The list line of a task at the moment `now`.
pub fn list_row(task: &Task, now: &Timestamp) -> (r: ListRow)
    ensures
        r@ == list_row_of(task@, now@),
{
    let cut = truncate_str(task.description.as_str(), DESCRIPTION_COLUMNS);
    let status = match &task.due_date {
        Some(d) => if task.completed {
            DueStatus::Normal
        } else {
            get_due_status(Some(d), now)
        },
        None => DueStatus::NoDue,
    };
    ListRow {
        id: format_id(task.id, task.completed),
        starred: task.starred,
        completed: task.completed,
        description: fixed_width_string(cut.as_str(), DESCRIPTION_FIELD),
        due_date: due_text(&task.due_date),
        status,
    }
}

/// A description as a screen line shows it in `width` characters: one that
/// is longer is cut so that, with three dots at its end, it fills the width.
pub open spec fn fitted(description: Seq<char>, width: nat) -> Seq<char> {
    if description.len() > width {
        description.take(if width >= 3 {
            width - 3
        } else {
            0
        }) + seq!['.', '.', '.']
    } else {
        description
    }
}

/// The number of digits of the longest id among the first `n` tasks of the
/// store that are live, and 1 where there is none.
pub open spec fn id_width_of(s: Seq<TaskView>, n: int) -> nat
    decreases n,
{
    if n <= 0 {
        1
    } else if !s[n - 1].deleted && decimal_digits(s[n - 1].id).len() > id_width_of(s, n - 1) {
        decimal_digits(s[n - 1].id).len()
    } else {
        id_width_of(s, n - 1)
    }
}

/// The mark that a screen line starts with.
pub open spec fn check_mark(completed: bool) -> Seq<char> {
    if completed {
        seq!['[', '\u{2713}', ']']
    } else {
        seq!['[', ' ', ']']
    }
}

/// The screen line of a task: its mark, its id with a full stop, its
/// description and its due date behind `due_label`, the id and the
/// description each brought to the width of its column.
pub open spec fn screen_line_of(
    t: TaskView,
    id_width: nat,
    description_width: nat,
    due_label: Seq<char>,
) -> Seq<char> {
    check_mark(t.completed) + seq![' '] + padded_chars(
        decimal_digits(t.id).push('.'),
        id_width + 1,
    ) + seq![' '] + padded_chars(fitted(t.description, description_width), description_width)
        + seq![' '] + match t.due_date {
        Some(d) => due_label + date_text_of(d.year, d.month, d.day),
        None => Seq::empty(),
    }
}

/// The width that is left for descriptions on a screen of `terminal_width`
/// characters.
pub open spec fn description_width_of(s: Seq<TaskView>, terminal_width: nat) -> nat {
    if terminal_width >= id_width_of(s, s.len() as int) + SCREEN_RESERVE {
        (terminal_width - (id_width_of(s, s.len() as int) + SCREEN_RESERVE)) as nat
    } else {
        0
    }
}

/// The positions of the live tasks in the order of the screen: the
/// incomplete tasks as they are listed, then the completed ones.
pub open spec fn display_order(s: Seq<TaskView>) -> Seq<int> {
    listing(s, false) + listing(s, true)
}

/// The screen line of a task.
pub fn screen_line(task: &Task, id_width: usize, description_width: usize, due_label: &str) -> (r:
    String)
    requires
        id_width < usize::MAX,
    ensures
        r@ == screen_line_of(task@, id_width as nat, description_width as nat, due_label@),
{
    let mut out = String::new();
    out.push('[');
    out.push(if task.completed {
        '\u{2713}'
    } else {
        ' '
    });
    out.push(']');
    assert(out@ =~= check_mark(task.completed));
    out.push(' ');
    let mut id = decimal_text(task.id);
    id.push('.');
    out.append(pad_right(id.as_str(), id_width + 1).as_str());
    out.push(' ');
    let chars = chars_of(task.description.as_str());
    let shown = if chars.len() > description_width {
        let keep: usize = if description_width >= 3 {
            (description_width - 3) as usize
        } else {
            0
        };
        let mut cut = string_of(&chars, 0, keep);
        assert(chars@.subrange(0, keep as int) == task@.description.take(keep as int));
        cut.push('.');
        cut.push('.');
        cut.push('.');
        assert(cut@ =~= fitted(task@.description, description_width as nat));
        cut
    } else {
        task.description.clone()
    };
    out.append(pad_right(shown.as_str(), description_width).as_str());
    out.push(' ');
    match &task.due_date {
        Some(d) => {
            out.append(due_label);
            out.append(d.text().as_str());
        },
        None => {},
    }
    assert(out@ =~= screen_line_of(
        task@,
        id_width as nat,
        description_width as nat,
        due_label@,
    ));
    out
}

impl TodoList {
    /// The lines of one group of the task list at the moment `now`, in the
    /// order in which they are shown.
    pub fn list_tasks(&self, completed: bool, now: &Timestamp) -> (r: Vec<ListRow>)
        ensures
            r@.len() == listing(self@, completed).len(),
            forall|place: int|
                0 <= place < r@.len() ==> (#[trigger] r@[place])@ == list_row_of(
                    self@[listing(self@, completed)[place]],
                    now@,
                ),
    {
        let order = self.listing(completed);
        let tasks = self.tasks();
        let mut rows: Vec<ListRow> = Vec::new();
        let mut place: usize = 0;
        while place < order.len()
            invariant
                place <= order.len(),
                views(tasks@) == self@,
                order@.len() == listing(self@, completed).len(),
                forall|p: int|
                    0 <= p < order@.len() ==> (#[trigger] order@[p]) as int == listing(
                        self@,
                        completed,
                    )[p] && order@[p] < self@.len(),
                rows.len() == place,
                forall|p: int|
                    0 <= p < place ==> (#[trigger] rows@[p])@ == list_row_of(
                        self@[listing(self@, completed)[p]],
                        now@,
                    ),
            decreases order.len() - place,
        {
            let i = order[place];
            assert(order@[place as int] < self@.len());
            rows.push(list_row(&tasks[i], now));
            place += 1;
        }
        rows
    }

    /// The number of digits of the longest id that a live task carries, and
    /// 1 for a store without live tasks.
    pub fn id_width(&self) -> (r: usize)
        ensures
            r == id_width_of(self@, self@.len() as int),
            1 <= r <= 20,
    {
        let tasks = self.tasks();
        let mut width: usize = 1;
        let mut i: usize = 0;
        while i < tasks.len()
            invariant
                i <= tasks.len(),
                views(tasks@) == self@,
                width == id_width_of(self@, i as int),
                1 <= width <= 20,
            decreases tasks.len() - i,
        {
            if !tasks[i].deleted {
                proof {
                    lemma_usize_digits(tasks[i as int].id);
                }
                let n = decimal_text(tasks[i].id).as_str().unicode_len();
                if n > width {
                    width = n;
                }
            }
            i += 1;
        }
        width
    }

    /// The lines of the full-screen view for a terminal of `terminal_width`
    /// characters: one for each live task, the incomplete tasks first.
    pub fn screen_lines(&self, terminal_width: usize, due_label: &str) -> (r: Vec<String>)
        ensures
            r@.len() == display_order(self@).len(),
            forall|place: int|
                0 <= place < r@.len() ==> (#[trigger] r@[place])@ == screen_line_of(
                    self@[display_order(self@)[place]],
                    id_width_of(self@, self@.len() as int),
                    description_width_of(self@, terminal_width as nat),
                    due_label@,
                ),
    {
        let id_width = self.id_width();
        let description_width = if terminal_width >= id_width + SCREEN_RESERVE {
            terminal_width - (id_width + SCREEN_RESERVE)
        } else {
            0
        };
        let mut order = self.listing(false);
        let mut rest = self.listing(true);
        let ghost first = order@;
        let ghost second = rest@;
        order.append(&mut rest);
        assert(order@ == first + second);
        let tasks = self.tasks();
        let mut lines: Vec<String> = Vec::new();
        let mut place: usize = 0;
        proof {
            assert forall|p: int| 0 <= p < order@.len() implies (#[trigger] order@[p]) as int
                == display_order(self@)[p] && order@[p] < self@.len() by {
                if p < first.len() {
                    assert(order@[p] == first[p]);
                } else {
                    assert(order@[p] == second[p - first.len()]);
                }
            }
        }
        while place < order.len()
            invariant
                place <= order.len(),
                views(tasks@) == self@,
                id_width <= 20,
                id_width == id_width_of(self@, self@.len() as int),
                description_width == description_width_of(self@, terminal_width as nat),
                order@.len() == display_order(self@).len(),
                forall|p: int|
                    0 <= p < order@.len() ==> (#[trigger] order@[p]) as int == display_order(
                        self@,
                    )[p] && order@[p] < self@.len(),
                lines.len() == place,
                forall|p: int|
                    0 <= p < place ==> (#[trigger] lines@[p])@ == screen_line_of(
                        self@[display_order(self@)[p]],
                        id_width as nat,
                        description_width as nat,
                        due_label@,
                    ),
            decreases order.len() - place,
        {
            let i = order[place];
            assert(order@[place as int] < self@.len());
            lines.push(screen_line(&tasks[i], id_width, description_width, due_label));
            place += 1;
        }
        lines
    }
}

} // verus!
