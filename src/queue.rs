use crate::canvas::PendingUpdate;
use crate::command::{action_for, dispatch, Action, Command};
use crate::frame::SourceAddr;
use concurrent_queue::ConcurrentQueue;
use vstd::prelude::*;

verus! {

#[verifier::external_type_specification]
#[verifier::external_body]
#[verifier::reject_recursive_types(T)]
pub struct ExConcurrentQueue<T>(ConcurrentQueue<T>);

/// Relies on `ConcurrentQueue::unbounded`: a queue with no capacity limit.
#[verifier::external_body]
fn unbounded_queue() -> ConcurrentQueue<PendingUpdate> {
    ConcurrentQueue::unbounded()
}

/// Relies on `ConcurrentQueue::push`, which takes `&self`, so that many
/// producers may push at once. An unbounded queue that is never closed
/// accepts every item, so its result carries nothing.
#[verifier::external_body]
fn push_update(q: &ConcurrentQueue<PendingUpdate>, u: PendingUpdate) {
    let _ = q.push(u);
}

/// Relies on `ConcurrentQueue::try_iter`, which pops items in queue order
/// until the queue is empty. Producers may push meanwhile, so what comes
/// out is known only to the caller.
#[verifier::external_body]
fn drain_queue(q: &ConcurrentQueue<PendingUpdate>) -> Vec<PendingUpdate> {
    q.try_iter().collect()
}

/// The unbounded multi-producer, single-consumer queue of pixel writes that
/// stand between decoding and the canvas. Pushing never blocks or fails.
pub struct UpdateQueue {
    inner: ConcurrentQueue<PendingUpdate>,
}

impl UpdateQueue {
    /// An empty queue.
    pub fn new() -> (q: UpdateQueue) {
        UpdateQueue { inner: unbounded_queue() }
    }

    /// Queues one pixel write.
    pub fn push(&self, u: PendingUpdate) {
        push_update(&self.inner, u);
    }

    /// Takes every write queued so far, oldest first. Writes pushed while it
    /// runs may or may not be among them.
    pub fn drain(&self) -> (us: Vec<PendingUpdate>) {
        drain_queue(&self.inner)
    }

    /// Carries out the decision about one command from `source` on a
    /// `width` by `height` canvas: a pixel write is queued, and the returned
    /// action says what is left to do (a size reply to send, or nothing).
    pub fn handle(&self, command: Command, source: SourceAddr, width: u16, height: u16) -> (a: Action)
        ensures
            a == action_for(command, source, width, height),
    {
        let a = dispatch(command, source, width, height);
        if let Action::Enqueue(u) = a {
            self.push(u);
        }
        a
    }
}

} // verus!
