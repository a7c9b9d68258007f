//! The task record and its mathematical view.

use vstd::prelude::*;

verus! {

/// One unit of work tracked by the store.
#[derive(Debug)]
pub struct Task {
    /// Positive identifier, assigned by the store and never reused.
    pub id: u64,
    /// Short name of the task; the store only holds tasks with a non-empty title.
    pub title: String,
    /// Free text, possibly empty.
    pub description: String,
    /// Whether the task has been marked as done.
    pub completed: bool,
}

/// What a [`Task`] holds, as plain mathematical values.
pub struct TaskView {
    pub id: nat,
    pub title: Seq<char>,
    pub description: Seq<char>,
    pub completed: bool,
}

impl View for Task {
    type V = TaskView;

    open spec fn view(&self) -> TaskView {
        TaskView {
            id: self.id as nat,
            title: self.title@,
            description: self.description@,
            completed: self.completed,
        }
    }
}

impl Clone for Task {
    /// A copy that holds the same values.
    fn clone(&self) -> (copy: Task)
        ensures
            copy@ == self@,
    {
        Task {
            id: self.id,
            title: self.title.clone(),
            description: self.description.clone(),
            completed: self.completed,
        }
    }
}

impl TaskView {
    /// The same record, marked as done.
    pub open spec fn done(self) -> TaskView {
        TaskView { completed: true, ..self }
    }
}

/// The views of a sequence of tasks, in the same order.
pub open spec fn task_views(tasks: Seq<Task>) -> Seq<TaskView> {
    Seq::new(tasks.len(), |i: int| tasks[i]@)
}

} // verus!
