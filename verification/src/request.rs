//! Typed requests, and what the service answers to them.
//!
//! A [`Request`] is an invocation whose parameters have already been
//! validated. [`perform`] runs it against a store. Nothing here knows how
//! the request arrived, so the same operations serve any entry point.

use vstd::prelude::*;
use vstd::string::StringExecFns;
use crate::error::{ErrorView, ServiceError};
use crate::store::{empty_title, missing_task, Mutation, StoreView, TaskStore};
use crate::task::{task_views, Task, TaskView};
use crate::text::{decimal, decimal_string};

verus! {

/// An invocation with typed parameters.
#[derive(Debug)]
pub enum Request {
    AddTask { title: String, description: String },
    CompleteTask { id: u64 },
    ListTasks,
    GetTask { id: u64 },
}

/// What a [`Request`] holds, as plain mathematical values.
pub enum RequestView {
    AddTask { title: Seq<char>, description: Seq<char> },
    CompleteTask { id: nat },
    ListTasks,
    GetTask { id: nat },
}

impl View for Request {
    type V = RequestView;

    open spec fn view(&self) -> RequestView {
        match self {
            Request::AddTask { title, description } => RequestView::AddTask {
                title: title@,
                description: description@,
            },
            Request::CompleteTask { id } => RequestView::CompleteTask { id: *id as nat },
            Request::ListTasks => RequestView::ListTasks,
            Request::GetTask { id } => RequestView::GetTask { id: *id as nat },
        }
    }
}

/// The structured result of a successful invocation.
#[derive(Debug)]
pub enum Payload {
    /// The task that was created; the summary confirms the creation.
    Created(Task),
    /// The task that was marked as done; the summary confirms it.
    Completed(Task),
    /// The task that was looked up.
    Found(Task),
    /// All tasks in insertion order, with their number.
    Listing { total: usize, tasks: Vec<Task> },
}

/// What a [`Payload`] holds, as plain mathematical values.
pub enum PayloadView {
    Created(TaskView),
    Completed(TaskView),
    Found(TaskView),
    Listing { total: nat, tasks: Seq<TaskView> },
}

impl View for Payload {
    type V = PayloadView;

    open spec fn view(&self) -> PayloadView {
        match self {
            Payload::Created(task) => PayloadView::Created(task@),
            Payload::Completed(task) => PayloadView::Completed(task@),
            Payload::Found(task) => PayloadView::Found(task@),
            Payload::Listing { total, tasks } => PayloadView::Listing {
                total: *total as nat,
                tasks: task_views(tasks@),
            },
        }
    }
}

/// The uniform answer to a successful invocation: a summary for a human
/// reader, and the structured result.
#[derive(Debug)]
pub struct Envelope {
    pub summary: String,
    pub payload: Payload,
}

/// What an [`Envelope`] holds, as plain mathematical values.
pub struct EnvelopeView {
    pub summary: Seq<char>,
    pub payload: PayloadView,
}

impl View for Envelope {
    type V = EnvelopeView;

    open spec fn view(&self) -> EnvelopeView {
        EnvelopeView { summary: self.summary@, payload: self.payload@ }
    }
}

/// The view of an answer: that of the envelope, or that of the failure.
pub open spec fn answer_view(answer: Result<Envelope, ServiceError>) -> Result<
    EnvelopeView,
    ErrorView,
> {
    match answer {
        Ok(envelope) => Ok(envelope@),
        Err(error) => Err(error@),
    }
}

/// The summary that confirms the creation of `task`.
pub open spec fn added_summary(task: TaskView) -> Seq<char> {
    "Task '"@ + task.title + "' added successfully with ID "@ + decimal(task.id)
}

/// The summary that confirms that `task` is done.
pub open spec fn completed_summary(task: TaskView) -> Seq<char> {
    "Task '"@ + task.title + "' marked as completed"@
}

/// The summary that goes with a task that was looked up.
pub open spec fn found_summary(task: TaskView) -> Seq<char> {
    "Task '"@ + task.title + "' found"@
}

/// The summary that goes with a listing of `total` tasks.
pub open spec fn listing_summary(total: nat) -> Seq<char> {
    "Total tasks: "@ + decimal(total)
}


impl RequestView {
    /// The change that the request asks for, if it asks for one.
    pub open spec fn mutation(self) -> Option<Mutation> {
        match self {
            RequestView::AddTask { title, description } => Some(
                Mutation::Add { title, description },
            ),
            RequestView::CompleteTask { id } => Some(Mutation::Complete { id }),
            RequestView::ListTasks => None,
            RequestView::GetTask { id } => None,
        }
    }

    /// The state in which the request leaves a store that was in state `s`.
    pub open spec fn effect(self, s: StoreView) -> StoreView {
        match self.mutation() {
            Some(m) => s.step(m),
            None => s,
        }
    }

    /// The answer to the request from a store in state `s`.
    pub open spec fn outcome(self, s: StoreView) -> Result<EnvelopeView, ErrorView> {
        match self {
            RequestView::AddTask { title, description } => if title.len() == 0 {
                Err(empty_title())
            } else {
                let task = s.created(title, description);
                Ok(EnvelopeView { summary: added_summary(task), payload: PayloadView::Created(task) })
            },
            RequestView::CompleteTask { id } => match s.get(id) {
                Some(task) => Ok(
                    EnvelopeView {
                        summary: completed_summary(task.done()),
                        payload: PayloadView::Completed(task.done()),
                    },
                ),
                None => Err(missing_task(id)),
            },
            RequestView::ListTasks => Ok(
                EnvelopeView {
                    summary: listing_summary(s.tasks.len()),
                    payload: PayloadView::Listing { total: s.tasks.len(), tasks: s.tasks },
                },
            ),
            RequestView::GetTask { id } => match s.get(id) {
                Some(task) => Ok(
                    EnvelopeView { summary: found_summary(task), payload: PayloadView::Found(task) },
                ),
                None => Err(missing_task(id)),
            },
        }
    }
}

/// Runs `request` against `store` and wraps the result.
///
/// The store changes exactly as the request asks, and not at all when the
/// request fails or only reads.
pub fn perform(store: &mut TaskStore, request: Request) -> (answer: Result<Envelope, ServiceError>)
    requires
        old(store)@.wf(),
        old(store)@.next_id < u64::MAX,
    ensures
        final(store)@.wf(),
        final(store)@ == request@.effect(old(store)@),
        answer_view(answer) == request@.outcome(old(store)@),
{
    match request {
        Request::AddTask { title, description } => {
            match store.add_task(title, description) {
                Ok(task) => {
                    let mut summary = "Task '".to_owned();
                    summary.append(task.title.as_str());
                    summary.append("' added successfully with ID ");
                    summary.append(decimal_string(task.id).as_str());
                    Ok(Envelope { summary, payload: Payload::Created(task) })
                },
                Err(error) => Err(error),
            }
        },
        Request::CompleteTask { id } => {
            match store.complete_task(id) {
                Ok(task) => {
                    let mut summary = "Task '".to_owned();
                    summary.append(task.title.as_str());
                    summary.append("' marked as completed");
                    Ok(Envelope { summary, payload: Payload::Completed(task) })
                },
                Err(error) => Err(error),
            }
        },
        Request::ListTasks => {
            let tasks = store.list_tasks();
            let total = tasks.len();
            let mut summary = "Total tasks: ".to_owned();
            summary.append(decimal_string(total as u64).as_str());
            Ok(Envelope { summary, payload: Payload::Listing { total, tasks } })
        },
        Request::GetTask { id } => {
            match store.get_task(id) {
                Ok(task) => {
                    let mut summary = "Task '".to_owned();
                    summary.append(task.title.as_str());
                    summary.append("' found");
                    Ok(Envelope { summary, payload: Payload::Found(task) })
                },
                Err(error) => Err(error),
            }
        },
    }
}

} // verus!
