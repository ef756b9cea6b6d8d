use vstd::prelude::*;
use crate::errors::{ErrorStrategy, QueueStatus};
use crate::marshal::WorkItem;

verus! {

/// A cross-thread callback channel: it makes one runtime-thread-only
/// callback primitive safely invocable from any thread, without the caller
/// blocking on execution. The channel wraps exactly one native primitive,
/// captured once at construction and immutable thereafter, and carries a
/// FIFO queue of work items awaiting the runtime thread. `invoke` only
/// appends to the queue and returns; execution happens later, when the
/// runtime thread drains the queue through `take_next`.
///
/// In the host, the channel is reference-counted and shared across threads;
/// the queue below is the channel's abstract state, the one all those
/// references observe.
#[derive(Debug)]
pub struct Channel<V> {
    /// Identifies the native callback primitive this channel wraps.
    pub primitive: u64,
    /// What the runtime thread does with a failure discovered while a work
    /// item from this channel executes.
    pub strategy: ErrorStrategy,
    /// False once runtime teardown has invalidated the channel; a closed
    /// channel refuses new work.
    pub open: bool,
    /// The work items enqueued and not yet executed, in submission order.
    pub queue: Vec<WorkItem<V>>,
}

/// What a channel looks like the moment it is constructed: it wraps the
/// given primitive under the given failure policy, is open, and has nothing
/// queued.
pub open spec fn fresh_channel<V>(c: Channel<V>, primitive: u64, strategy: ErrorStrategy) -> bool {
    &&& c.primitive == primitive
    &&& c.strategy == strategy
    &&& c.open
    &&& c.queue@ == Seq::<WorkItem<V>>::empty()
}

impl<V> Channel<V> {
    /// Wrap one native callback primitive into a channel with the given
    /// failure policy. The new channel is open and its queue is empty.
    pub fn new(primitive: u64, strategy: ErrorStrategy) -> (r: Self)
        ensures
            fresh_channel(r, primitive, strategy),
    {
        Channel { primitive, strategy, open: true, queue: Vec::new() }
    }

    /// Enqueue a work item for execution on the runtime thread and return
    /// immediately: the caller never waits for the work to run, and nothing
    /// is executed here. Work submitted to one channel runs in submission
    /// order. A closed channel refuses the work and reports `Closed`; the
    /// host decides what that means under the channel's severity policy.
    pub fn invoke(&mut self, work: WorkItem<V>) -> (r: QueueStatus)
        ensures
            final(self).primitive == old(self).primitive,
            final(self).strategy == old(self).strategy,
            final(self).open == old(self).open,
            old(self).open ==> {
                &&& final(self).queue@ == old(self).queue@.push(work)
                &&& r == QueueStatus::Queued
            },
            !old(self).open ==> {
                &&& final(self).queue@ == old(self).queue@
                &&& r == QueueStatus::Closed
            },
    {
        if self.open {
            self.queue.push(work);
            QueueStatus::Queued
        } else {
            QueueStatus::Closed
        }
    }

    /// Runtime-thread side: remove and hand out the oldest queued work item,
    /// or `None` if the queue is empty. Each work item leaves the queue the
    /// moment it is handed out, so it is executed at most once; together with
    /// FIFO order this is the channel's whole ordering guarantee.
    pub fn take_next(&mut self) -> (r: Option<WorkItem<V>>)
        ensures
            final(self).primitive == old(self).primitive,
            final(self).strategy == old(self).strategy,
            final(self).open == old(self).open,
            old(self).queue@.len() == 0 ==> {
                &&& r is None
                &&& final(self).queue@ == old(self).queue@
            },
            old(self).queue@.len() > 0 ==> {
                &&& r == Some(old(self).queue@[0])
                &&& final(self).queue@ == old(self).queue@.remove(0)
            },
    {
        if self.queue.len() == 0 {
            None
        } else {
            Some(self.queue.remove(0))
        }
    }

    /// Model of runtime teardown invalidating the channel: further `invoke`
    /// calls are refused with `QueueStatus::Closed`.
    pub fn close(&mut self)
        ensures
            final(self).primitive == old(self).primitive,
            final(self).strategy == old(self).strategy,
            final(self).queue@ == old(self).queue@,
            !final(self).open,
    {
        self.open = false;
    }
}

} // verus!
