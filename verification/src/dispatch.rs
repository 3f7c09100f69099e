//! Outbound dispatch queue: accepts descriptions of locally committed
//! side effects and hands them, in submission order, to the consumer
//! that turns them into signed outgoing deliveries. Submission decides
//! on the queue alone and completes at once, so the submitting
//! request never waits on — and is never altered by — delivery, which
//! is best-effort and the consumer's concern.

use vstd::prelude::*;
use std::collections::VecDeque;
use crate::objects::{Community, Person};

verus! {

/// A side effect to propagate to the federation, created when a local
/// mutation commits and consumed exactly once by the queue's consumer.
#[derive(Clone, Debug)]
pub enum SendActivityData {
    /// A community was removed or purged by a moderator.
    RemoveCommunity {
        moderator: Person,
        community: Community,
        reason: Option<String>,
        removed: bool,
    },
}

/// Whether the queue accepted a submission. A saturated queue rejects
/// the new item: the explicit backpressure policy, reported to the
/// caller as an observable failure rather than buffered without bound.
#[derive(Clone, Copy, Debug, PartialEq, Eq, Structural)]
pub enum SubmitOutcome {
    Accepted,
    Saturated,
}

/// What submitting leaves in the queue: an appended item, or the queue
/// unchanged when it already holds `cap` pending items.
pub open spec fn spec_submit(
    queue: Seq<SendActivityData>,
    cap: nat,
    item: SendActivityData,
) -> (SubmitOutcome, Seq<SendActivityData>) {
    if queue.len() < cap {
        (SubmitOutcome::Accepted, queue.push(item))
    } else {
        (SubmitOutcome::Saturated, queue)
    }
}

/// The pending dispatch items in FIFO submission order, capped.
pub struct DispatchQueue {
    items: VecDeque<SendActivityData>,
    capacity: usize,
}

impl View for DispatchQueue {
    type V = Seq<SendActivityData>;

    closed spec fn view(&self) -> Seq<SendActivityData> {
        self.items@
    }
}

impl DispatchQueue {
    /// The cap on pending items the queue was made with.
    pub closed spec fn cap(&self) -> nat {
        self.capacity as nat
    }

    /// An empty queue that holds at most `capacity` pending items.
    pub fn new(capacity: usize) -> (q: DispatchQueue)
        ensures
            q@ == Seq::<SendActivityData>::empty(),
            q.cap() == capacity as nat,
    {
        DispatchQueue { items: VecDeque::new(), capacity }
    }

    /// Submit a dispatch item. Returns at once: the result depends on
    /// the queue's length against its cap alone, never on the item's
    /// destinations or their reachability, and nothing that later
    /// happens to the item alters it.
    pub fn submit(&mut self, item: SendActivityData) -> (r: SubmitOutcome)
        ensures
            final(self).cap() == old(self).cap(),
            (r, final(self)@) == spec_submit(old(self)@, old(self).cap(), item),
            r == SubmitOutcome::Accepted <==> old(self)@.len() < old(self).cap(),
    {
        if self.items.len() < self.capacity {
            self.items.push_back(item);
            SubmitOutcome::Accepted
        } else {
            SubmitOutcome::Saturated
        }
    }

    /// Hand the consumer the oldest pending item: items leave the
    /// queue in exactly the order they were accepted.
    pub fn pop_next(&mut self) -> (r: Option<SendActivityData>)
        ensures
            final(self).cap() == old(self).cap(),
            old(self)@.len() == 0 ==> r is None && final(self)@ == old(self)@,
            old(self)@.len() > 0 ==> r == Some(old(self)@[0]) && final(self)@
                == old(self)@.drop_first(),
    {
        let r = self.items.pop_front();
        proof {
            if old(self)@.len() > 0 {
                assert(self@ =~= old(self)@.drop_first());
            }
        }
        r
    }

    /// How many items are pending.
    pub fn len(&self) -> (n: usize)
        ensures
            n == self@.len(),
    {
        self.items.len()
    }

    /// The cap this queue was made with.
    pub fn capacity(&self) -> (c: usize)
        ensures
            c as nat == self.cap(),
    {
        self.capacity
    }
}

/// FIFO ordering of accepted submissions: when the queue accepts `a`
/// and then `b`, `a` stands before `b`, and a consumer that drains the
/// queue meets `a` first — two items from the same submitter are never
/// reordered relative to each other.
pub proof fn lemma_fifo_submission_order(
    queue: Seq<SendActivityData>,
    cap: nat,
    a: SendActivityData,
    b: SendActivityData,
)
    requires
        queue.len() + 2 <= cap,
    ensures
        ({
            let (ra, q1) = spec_submit(queue, cap, a);
            let (rb, q2) = spec_submit(q1, cap, b);
            &&& ra == SubmitOutcome::Accepted
            &&& rb == SubmitOutcome::Accepted
            &&& q2 == queue.push(a).push(b)
            &&& q2[queue.len() as int] == a
            &&& q2[queue.len() as int + 1] == b
        }),
{
}

} // verus!
