//! Histories of a store: what holds after any sequence of mutations.
//!
//! Mutations take the store by exclusive reference, so whatever the callers
//! and however they are scheduled, the store goes through its mutations one
//! after the other. A statement about every sequence of mutations is
//! therefore a statement about every execution.

use vstd::prelude::*;
use crate::store::{lemma_slot, Mutation, StoreView};

verus! {

impl StoreView {
    /// The state after the mutations of `ms`, applied in order.
    pub open spec fn run(self, ms: Seq<Mutation>) -> StoreView
        decreases ms.len(),
    {
        if ms.len() == 0 {
            self
        } else {
            self.run(ms.drop_last()).step(ms.last())
        }
    }

    /// The identifiers handed out while the mutations of `ms` are applied
    /// in order, one for each accepted addition.
    pub open spec fn issued(self, ms: Seq<Mutation>) -> Seq<nat>
        decreases ms.len(),
    {
        if ms.len() == 0 {
            Seq::empty()
        } else if ms.last().adds() {
            self.issued(ms.drop_last()).push(self.run(ms.drop_last()).next_id)
        } else {
            self.issued(ms.drop_last())
        }
    }
}

/// How many of the mutations of `ms` are additions that the store accepts.
pub open spec fn accepted_additions(ms: Seq<Mutation>) -> nat
    decreases ms.len(),
{
    if ms.len() == 0 {
        0
    } else if ms.last().adds() {
        accepted_additions(ms.drop_last()) + 1
    } else {
        accepted_additions(ms.drop_last())
    }
}

/// One mutation keeps a well-formed state well-formed, never lowers the
/// counter, and never removes a task.
pub proof fn lemma_step(s: StoreView, m: Mutation)
    requires
        s.wf(),
    ensures
        s.step(m).wf(),
        s.step(m).next_id == s.next_id + (if m.adds() { 1nat } else { 0nat }),
        s.step(m).tasks.len() == s.tasks.len() + (if m.adds() { 1nat } else { 0nat }),
{
}

/// Any sequence of mutations keeps a well-formed state well-formed. The
/// store then holds one more task for each accepted addition, and hands
/// out one identifier for each.
pub proof fn lemma_run(s: StoreView, ms: Seq<Mutation>)
    requires
        s.wf(),
    ensures
        s.run(ms).wf(),
        s.run(ms).tasks.len() == s.tasks.len() + accepted_additions(ms),
        s.run(ms).next_id == s.next_id + accepted_additions(ms),
        s.issued(ms).len() == accepted_additions(ms),
    decreases ms.len(),
{
    if ms.len() > 0 {
        lemma_run(s, ms.drop_last());
    }
}

/// Starting from an empty store, the number of tasks listed after any
/// sequence of mutations is the number of additions that were accepted.
pub proof fn lemma_listing_counts_additions(ms: Seq<Mutation>)
    ensures
        StoreView::empty().run(ms).tasks.len() == accepted_additions(ms),
{
    lemma_run(StoreView::empty(), ms);
}

/// Every identifier handed out during a history is at least the counter
/// at its start and below the counter at its end.
pub proof fn lemma_issued_bounds(s: StoreView, ms: Seq<Mutation>, i: int)
    requires
        s.wf(),
        0 <= i < s.issued(ms).len(),
    ensures
        s.next_id <= s.issued(ms)[i] < s.run(ms).next_id,
    decreases ms.len(),
{
    if ms.len() > 0 {
        let before = ms.drop_last();
        lemma_run(s, before);
        if i < s.issued(before).len() {
            lemma_issued_bounds(s, before, i);
        }
    }
}

/// The identifiers handed out during a history are strictly increasing:
/// a later addition always receives a larger identifier than an earlier
/// one, so no identifier is handed out twice.
pub proof fn lemma_issued_increasing(s: StoreView, ms: Seq<Mutation>, i: int, j: int)
    requires
        s.wf(),
        0 <= i < j < s.issued(ms).len(),
    ensures
        s.issued(ms)[i] < s.issued(ms)[j],
    decreases ms.len(),
{
    if ms.len() > 0 {
        let before = ms.drop_last();
        if j < s.issued(before).len() {
            lemma_issued_increasing(s, before, i, j);
        } else {
            lemma_issued_bounds(s, before, i);
        }
    }
}

/// Marking a task as done twice is the same as marking it once: the task
/// is still there, it is done, and the second request changes nothing.
pub proof fn lemma_complete_idempotent(s: StoreView, id: nat)
    requires
        s.wf(),
        s.holds(id),
    ensures
        s.complete(id).holds(id),
        s.complete(id).get(id) == Some(s.get(id)->Some_0.done()),
        s.complete(id).get(id)->Some_0.completed,
        s.complete(id).complete(id) == s.complete(id),
{
    let once = s.complete(id);
    lemma_slot(once, id);
    assert(once.complete(id).tasks =~= once.tasks);
}

/// A request to mark a task that the store does not hold changes nothing.
pub proof fn lemma_complete_missing(s: StoreView, id: nat)
    requires
        !s.holds(id),
    ensures
        s.complete(id) == s,
{
}

/// A rejected addition leaves no trace: whatever is added next receives
/// the identifier, and leads to the state, that it would have without the
/// rejected request.
pub proof fn lemma_rejected_addition(
    s: StoreView,
    description: Seq<char>,
    next_title: Seq<char>,
    next_description: Seq<char>,
)
    ensures
        s.step(Mutation::Add { title: Seq::empty(), description }) == s,
        s.step(Mutation::Add { title: Seq::empty(), description }).created(
            next_title,
            next_description,
        ) == s.created(next_title, next_description),
        s.step(Mutation::Add { title: Seq::empty(), description }).step(
            Mutation::Add { title: next_title, description: next_description },
        ) == s.step(Mutation::Add { title: next_title, description: next_description }),
{
}

} // verus!
