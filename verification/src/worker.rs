//! The host's workers: one per configured channel, each polling its queue
//! and forwarding what it finds. The decisions live here; the polling,
//! forwarding and sleeping are done by the caller.

use vstd::prelude::*;
use crate::host::channel_names;
use crate::service_bus::Queue;

verus! {

/// The worker `worker_id` serves the channel `channel`.
pub struct Assignment {
    pub worker_id: usize,
    pub channel: String,
}

/// What a worker does after peeking its queue.
#[derive(Debug, PartialEq, Eq)]
pub enum WorkerAction {
    /// The peek failed: peek again at once.
    Retry,
    /// Messages were found: forward them, then wait before the next peek.
    Deliver(String),
    /// Nothing was found: wait before the next peek.
    Wait,
}

/// What a worker does after a peek that answered `peeked`.
pub open spec fn action_for(peeked: Result<String, String>) -> WorkerAction {
    match peeked {
        Err(_) => WorkerAction::Retry,
        Ok(messages) => if messages@.len() == 0 {
            WorkerAction::Wait
        } else {
            WorkerAction::Deliver(messages)
        },
    }
}

/// The messages that `actions` forward, in order.
pub open spec fn delivered(actions: Seq<WorkerAction>) -> Seq<String>
    decreases actions.len(),
{
    if actions.len() == 0 {
        Seq::empty()
    } else {
        let rest = delivered(actions.drop_last());
        match actions.last() {
            WorkerAction::Deliver(messages) => rest.push(messages),
            _ => rest,
        }
    }
}

/// The answers among `peeks` that found messages, in order.
pub open spec fn found(peeks: Seq<Result<String, String>>) -> Seq<String>
    decreases peeks.len(),
{
    if peeks.len() == 0 {
        Seq::empty()
    } else {
        let rest = found(peeks.drop_last());
        match peeks.last() {
            Ok(messages) => if messages@.len() == 0 { rest } else { rest.push(messages) },
            Err(_) => rest,
        }
    }
}

/// One worker per channel, in order: worker `i` serves `channels[i]`.
pub fn assign_workers(channels: &Vec<String>) -> (plan: Vec<Assignment>)
    ensures
        plan@.len() == channels@.len(),
        forall|i: int| 0 <= i < plan@.len() ==> (#[trigger] plan@[i]).worker_id == i
            && plan@[i].channel@ == channels@[i]@,
{
    let mut plan: Vec<Assignment> = Vec::new();
    let n = channels.len();
    let mut i: usize = 0;
    while i < n
        invariant
            n == channels.len(),
            i <= n,
            plan@.len() == i,
            forall|j: int| 0 <= j < i ==> (#[trigger] plan@[j]).worker_id == j
                && plan@[j].channel@ == channels@[j]@,
        decreases n - i,
    {
        plan.push(Assignment { worker_id: i, channel: channels[i].clone() });
        i = i + 1;
    }
    plan
}

/// What a worker does with the outcome of one peek of its queue: a failed
/// peek is retried at once, an empty one waits, and messages are forwarded.
pub fn next_action(peeked: Result<String, String>) -> (action: WorkerAction)
    ensures
        action == action_for(peeked),
        match peeked {
            Err(_) => action == WorkerAction::Retry,
            Ok(messages) => if messages@.len() == 0 {
                action == WorkerAction::Wait
            } else {
                action == WorkerAction::Deliver(messages)
            },
        },
{
    match peeked {
        Err(_) => WorkerAction::Retry,
        Ok(messages) => if messages.as_str().is_empty() {
            WorkerAction::Wait
        } else {
            WorkerAction::Deliver(messages)
        },
    }
}

/// Over any run of peeks, a worker forwards exactly the answers that found
/// messages, in the order they came, each once: a failed or empty peek
/// forwards nothing.
pub proof fn lemma_worker_forwards_what_it_found(peeks: Seq<Result<String, String>>, actions: Seq<WorkerAction>)
    requires
        actions.len() == peeks.len(),
        forall|i: int| 0 <= i < peeks.len() ==> #[trigger] actions[i] == action_for(peeks[i]),
    ensures
        delivered(actions) == found(peeks),
    decreases peeks.len(),
{
    if peeks.len() > 0 {
        let n = peeks.len() - 1;
        assert forall|i: int| 0 <= i < n implies #[trigger] actions.drop_last()[i] == action_for(peeks.drop_last()[i]) by {
            assert(actions[i] == action_for(peeks[i]));
        }
        lemma_worker_forwards_what_it_found(peeks.drop_last(), actions.drop_last());
        assert(actions[n] == action_for(peeks[n]));
    }
}

/// Every worker finds a queue for its channel in the host client built for
/// the same channels: the host client has a queue for each configured
/// channel, and each worker serves one of them.
pub proof fn lemma_every_worker_has_a_queue(
    channels: Seq<String>,
    queues: Map<Seq<char>, Queue>,
    plan: Seq<Assignment>,
)
    requires
        queues.dom() == channel_names(channels),
        plan.len() == channels.len(),
        forall|i: int| 0 <= i < plan.len() ==> (#[trigger] plan[i]).worker_id == i
            && plan[i].channel@ == channels[i]@,
    ensures
        forall|i: int| 0 <= i < plan.len() ==> queues.contains_key((#[trigger] plan[i]).channel@),
{
    assert forall|i: int| 0 <= i < plan.len() implies queues.contains_key((#[trigger] plan[i]).channel@) by {
        assert(channels[i]@ == plan[i].channel@);
        assert(channel_names(channels).contains(plan[i].channel@));
    }
}

}
