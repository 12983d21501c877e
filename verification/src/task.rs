use crate::time::{Date, DateView, Timestamp, TimestampView};
use vstd::prelude::*;

verus! {

/// Why an operation did nothing.
#[derive(Clone, Copy, Debug, PartialEq, Eq, Structural)]
pub enum TaskError {
    /// The id answers to no task of its group.
    NotFound,
    /// The id answers to no task that can be completed, or to none that can
    /// be taken back.
    InvalidState,
    /// A command line lacks a word or has one too many.
    Syntax,
    /// A text is no date.
    Format,
}

/// One task as the store holds it.
///
/// The position of a task in the store is its stable identity; `id` is the
/// number shown to the user, which the store recomputes after every change.
pub struct Task {
    pub id: usize,
    pub description: String,
    pub completed: bool,
    pub created_at: Timestamp,
    pub due_date: Option<Date>,
    pub starred: bool,
    pub deleted: bool,
}

/// The mathematical value of a [`Task`].
pub struct TaskView {
    pub id: nat,
    pub description: Seq<char>,
    pub completed: bool,
    pub created_at: TimestampView,
    pub due_date: Option<DateView>,
    pub starred: bool,
    pub deleted: bool,
}

impl View for Task {
    type V = TaskView;

    open spec fn view(&self) -> TaskView {
        TaskView {
            id: self.id as nat,
            description: self.description@,
            completed: self.completed,
            created_at: self.created_at@,
            due_date: match self.due_date {
                Some(date) => Some(date@),
                None => None,
            },
            starred: self.starred,
            deleted: self.deleted,
        }
    }
}

impl TaskView {
    /// The same task under another display id.
    pub open spec fn with_id(self, id: nat) -> TaskView {
        TaskView { id, ..self }
    }

    /// Whether two tasks agree in everything but the display id.
    pub open spec fn same_content(self, other: TaskView) -> bool {
        self.with_id(0) == other.with_id(0)
    }
}

impl Task {
    /// A fresh copy of the task.
    pub fn duplicate(&self) -> (r: Task)
        ensures
            r@ == self@,
    {
        Task {
            id: self.id,
            description: self.description.clone(),
            completed: self.completed,
            created_at: self.created_at,
            due_date: self.due_date,
            starred: self.starred,
            deleted: self.deleted,
        }
    }
}

/// The views of a sequence of tasks.
pub open spec fn views(tasks: Seq<Task>) -> Seq<TaskView> {
    tasks.map_values(|t: Task| t@)
}

} // verus!
