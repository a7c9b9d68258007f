//! The task store: the authoritative collection of tasks together with the
//! counter that hands out identifiers.
//!
//! Collection and counter live in one value. Every mutation takes the store
//! by exclusive reference and every read by shared reference, so a mutation
//! never overlaps another mutation or a read, while reads may overlap each
//! other. Whoever shares a store between workers puts the whole value behind
//! a single lock.

use vstd::prelude::*;
use vstd::string::StringExecFns;
use crate::error::{ErrorKind, ErrorView, ServiceError};
use crate::task::{task_views, Task, TaskView};
use crate::text::{decimal, decimal_string};

verus! {

/// The state of a store: its tasks in insertion order and the identifier
/// that the next added task receives.
pub struct StoreView {
    pub tasks: Seq<TaskView>,
    pub next_id: nat,
}

impl StoreView {
    /// The state of a fresh store: no task, and 1 as the first identifier.
    pub open spec fn empty() -> StoreView {
        StoreView { tasks: Seq::empty(), next_id: 1 }
    }

    /// Counter and collection agree: the task at position `i` carries the
    /// identifier `i + 1`, every title is non-empty, and the counter is one
    /// more than the number of tasks.
    pub open spec fn wf(self) -> bool {
        &&& self.next_id == self.tasks.len() + 1
        &&& forall|i: int|
            0 <= i < self.tasks.len() ==> {
                &&& (#[trigger] self.tasks[i]).id == i + 1
                &&& self.tasks[i].title.len() > 0
            }
    }

    /// Whether a task with identifier `id` is in the store.
    pub open spec fn holds(self, id: nat) -> bool {
        exists|i: int| 0 <= i < self.tasks.len() && (#[trigger] self.tasks[i]).id == id
    }

    /// A position at which the task with identifier `id` stands, if the
    /// store holds one.
    pub open spec fn slot(self, id: nat) -> int {
        choose|i: int| 0 <= i < self.tasks.len() && (#[trigger] self.tasks[i]).id == id
    }

    /// The task with identifier `id`, if the store holds one.
    pub open spec fn get(self, id: nat) -> Option<TaskView> {
        if self.holds(id) {
            Some(self.tasks[self.slot(id)])
        } else {
            None
        }
    }

    /// The task that adding `title` and `description` creates.
    pub open spec fn created(self, title: Seq<char>, description: Seq<char>) -> TaskView {
        TaskView { id: self.next_id, title, description, completed: false }
    }

    /// The state after a task with the given non-empty title was added.
    pub open spec fn add(self, title: Seq<char>, description: Seq<char>) -> StoreView {
        StoreView {
            tasks: self.tasks.push(self.created(title, description)),
            next_id: self.next_id + 1,
        }
    }

    /// The state after the task with identifier `id` was marked as done;
    /// the same state if the store holds no such task.
    pub open spec fn complete(self, id: nat) -> StoreView {
        if self.holds(id) {
            StoreView {
                tasks: self.tasks.update(self.slot(id), self.tasks[self.slot(id)].done()),
                ..self
            }
        } else {
            self
        }
    }
}

/// One request to change a store.
pub enum Mutation {
    /// Add a task with this title and description.
    Add { title: Seq<char>, description: Seq<char> },
    /// Mark the task with this identifier as done.
    Complete { id: nat },
}

impl Mutation {
    /// Whether this is a request to add a task that the store accepts.
    pub open spec fn adds(self) -> bool {
        self matches Mutation::Add { title, .. } && title.len() > 0
    }
}

impl StoreView {
    /// The state after one mutation: a rejected one leaves it unchanged.
    pub open spec fn step(self, m: Mutation) -> StoreView {
        match m {
            Mutation::Add { title, description } => if title.len() > 0 {
                self.add(title, description)
            } else {
                self
            },
            Mutation::Complete { id } => self.complete(id),
        }
    }
}

/// The failure reported when a title is empty.
pub open spec fn empty_title() -> ErrorView {
    ErrorView { kind: ErrorKind::InvalidArgument, reason: empty_title_reason() }
}

/// The failure reported when no task has the identifier `id`.
pub open spec fn missing_task(id: nat) -> ErrorView {
    ErrorView { kind: ErrorKind::NotFound, reason: not_found_reason(id) }
}

/// The reason given when a title is empty.
pub open spec fn empty_title_reason() -> Seq<char> {
    "title must not be empty"@
}

/// The reason given when no task has the identifier `id`.
pub open spec fn not_found_reason(id: nat) -> Seq<char> {
    "Task with ID "@ + decimal(id) + " not found"@
}

/// In a well-formed state the task with identifier `id` stands at
/// position `id - 1`, and nowhere else.
pub proof fn lemma_slot(s: StoreView, id: nat)
    requires
        s.wf(),
    ensures
        s.holds(id) <==> 1 <= id <= s.tasks.len(),
        s.holds(id) ==> s.slot(id) == id - 1,
{
    if 1 <= id <= s.tasks.len() {
        assert(s.tasks[id - 1].id == id);
    }
}

/// The store of tasks.
pub struct TaskStore {
    tasks: Vec<Task>,
    next_id: u64,
}

impl View for TaskStore {
    type V = StoreView;

    closed spec fn view(&self) -> StoreView {
        StoreView { tasks: task_views(self.tasks@), next_id: self.next_id as nat }
    }
}

impl TaskStore {
    /// An empty store whose first task will receive the identifier 1.
    pub fn new() -> (store: TaskStore)
        ensures
            store@ == StoreView::empty(),
            store@.wf(),
    {
        let store = TaskStore { tasks: Vec::new(), next_id: 1 };
        assert(store@.tasks =~= Seq::empty());
        store
    }

    /// The identifier that the next added task receives.
    pub fn next_id(&self) -> (id: u64)
        ensures
            id == self@.next_id,
    {
        self.next_id
    }

    /// The number of tasks in the store.
    pub fn len(&self) -> (n: usize)
        ensures
            n == self@.tasks.len(),
    {
        self.tasks.len()
    }

    /// Adds a task and returns a copy of it.
    ///
    /// An empty title is rejected as an invalid argument and leaves the
    /// store, counter included, as it was. Otherwise the new task receives
    /// the current counter value, the counter moves on by one, and the task
    /// is appended: both happen in this one call.
    pub fn add_task(&mut self, title: String, description: String) -> (r: Result<Task, ServiceError>)
        requires
            old(self)@.wf(),
            old(self)@.next_id < u64::MAX,
        ensures
            final(self)@.wf(),
            final(self)@ == old(self)@.step(
                Mutation::Add { title: title@, description: description@ },
            ),
            title@.len() == 0 ==> r is Err && r->Err_0@ == empty_title(),
            title@.len() > 0 ==> r is Ok && r->Ok_0@ == old(self)@.created(title@, description@),
    {
        if title.as_str().is_empty() {
            return Err(
                ServiceError::new(ErrorKind::InvalidArgument, "title must not be empty".to_owned()),
            );
        }
        let task = Task { id: self.next_id, title, description, completed: false };
        let copy = task.clone();
        self.next_id = self.next_id + 1;
        self.tasks.push(task);
        assert(self@.tasks =~= old(self)@.tasks.push(copy@));
        Ok(copy)
    }

    /// The position of the task with identifier `id`, if the store holds one.
    fn position(&self, id: u64) -> (r: Option<usize>)
        requires
            self@.wf(),
        ensures
            r is Some <==> self@.holds(id as nat),
            r is Some ==> r->Some_0 == self@.slot(id as nat) && r->Some_0 < self.tasks.len(),
    {
        let mut i: usize = 0;
        while i < self.tasks.len()
            invariant
                self@.wf(),
                i <= self.tasks.len(),
                forall|j: int| 0 <= j < i ==> self@.tasks[j].id != id,
            decreases self.tasks.len() - i,
        {
            if self.tasks[i].id == id {
                proof {
                    assert(self@.tasks[i as int].id == id);
                    lemma_slot(self@, id as nat);
                }
                return Some(i);
            }
            i = i + 1;
        }
        None
    }

    /// Marks the task with identifier `id` as done and returns a copy of it.
    ///
    /// Fails as not found, without touching the store, if it holds no such
    /// task. Marking a task that is already done succeeds and changes
    /// nothing.
    pub fn complete_task(&mut self, id: u64) -> (r: Result<Task, ServiceError>)
        requires
            old(self)@.wf(),
        ensures
            final(self)@.wf(),
            final(self)@ == old(self)@.step(Mutation::Complete { id: id as nat }),
            old(self)@.holds(id as nat) ==> r is Ok && Some(r->Ok_0@) == final(self)@.get(id as nat)
                && r->Ok_0@ == old(self)@.get(id as nat)->Some_0.done(),
            !old(self)@.holds(id as nat) ==> final(self)@ == old(self)@ && r is Err && r->Err_0@
                == missing_task(id as nat),
    {
        match self.position(id) {
            Some(i) => {
                let mut task = self.tasks[i].clone();
                task.completed = true;
                let copy = task.clone();
                self.tasks.set(i, task);
                proof {
                    assert(self@.tasks =~= old(self)@.tasks.update(
                        i as int,
                        old(self)@.tasks[i as int].done(),
                    ));
                    lemma_slot(self@, id as nat);
                }
                Ok(copy)
            },
            None => Err(not_found(id)),
        }
    }

    /// A copy of the task with identifier `id`; fails as not found if the
    /// store holds no such task.
    pub fn get_task(&self, id: u64) -> (r: Result<Task, ServiceError>)
        requires
            self@.wf(),
        ensures
            self@.holds(id as nat) ==> r is Ok && Some(r->Ok_0@) == self@.get(id as nat),
            !self@.holds(id as nat) ==> r is Err && r->Err_0@ == missing_task(id as nat),
    {
        match self.position(id) {
            Some(i) => Ok(self.tasks[i].clone()),
            None => Err(not_found(id)),
        }
    }

    /// A snapshot of all tasks, in insertion order.
    pub fn list_tasks(&self) -> (snapshot: Vec<Task>)
        ensures
            task_views(snapshot@) == self@.tasks,
    {
        let mut snapshot: Vec<Task> = Vec::new();
        let mut i: usize = 0;
        while i < self.tasks.len()
            invariant
                i <= self.tasks.len(),
                snapshot@.len() == i,
                forall|j: int| 0 <= j < i ==> snapshot@[j]@ == self.tasks@[j]@,
            decreases self.tasks.len() - i,
        {
            snapshot.push(self.tasks[i].clone());
            i = i + 1;
        }
        snapshot
    }
}

/// The failure reported when no task has the identifier `id`.
fn not_found(id: u64) -> (e: ServiceError)
    ensures
        e@ == missing_task(id as nat),
{
    let mut reason = "Task with ID ".to_owned();
    reason.append(decimal_string(id).as_str());
    reason.append(" not found");
    ServiceError::new(ErrorKind::NotFound, reason)
}

} // verus!
