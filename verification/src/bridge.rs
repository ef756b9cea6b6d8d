use vstd::prelude::*;
use crate::channel::{fresh_channel, Channel};
use crate::errors::{ConstructionError, ErrorStrategy, MarshalError, QueueStatus};
use crate::marshal::WorkItem;
use crate::pending::{spec_settle_fulfill, spec_settle_reject, PendingValue, SettleState, Settlement};
use crate::slot::OnceSlot;

verus! {

/// Which of the bridge's two channels a delivered result belongs to.
#[derive(Debug, PartialEq, Eq, Clone, Copy)]
pub enum Target {
    Fulfill,
    Reject,
}

/// What the runtime thread learned from executing one step of bridge work,
/// and what the host must do next.
#[derive(Debug, PartialEq, Eq)]
pub enum Action {
    /// The queue was empty; nothing ran.
    Idle,
    /// A value was handed to the pending value's single-assignment
    /// settlement (a no-op when the value had already settled).
    Settled,
    /// The dequeued work item defers to a caller-supplied producer: the host
    /// must run the producer this token identifies, on this thread, and hand
    /// its result back through `Bridge::deliver`.
    RunProducer(u64),
    /// The dequeued work item carries a serialized payload: the host must
    /// convert it into a native value, on this thread, and hand the result
    /// back through `Bridge::deliver`.
    ConvertPayload(Vec<u8>),
    /// A work item failed under the `Fatal` strategy: the host must treat
    /// the failure as process-fatal. The pending value is untouched.
    Abort(MarshalError),
    /// A work item failed under the `Ignore` strategy: the failure was
    /// discarded. The pending value is untouched.
    Discarded,
}

/// The pair of channels exposed to calling code: the only object that
/// crosses thread boundaries. `fulfill` and `reject` are built atop it.
#[derive(Debug)]
pub struct ResolutionHandle<V> {
    pub fulfill_channel: Channel<V>,
    pub reject_channel: Channel<V>,
}

/// One bridge: the pending value together with the resolution handle that
/// settles it. Exactly one pending value exists per bridge, and both
/// channels exist before `create` returns.
#[derive(Debug)]
pub struct Bridge<V> {
    pub handle: ResolutionHandle<V>,
    pub value: PendingValue<V>,
}

/// The bridge's mathematical model: the settlement state of its pending
/// value and the contents, in submission order, of its two work queues. Each
/// operation's contract says how it moves the model; the laws about the
/// bridge are stated over the model's transition functions.
pub ghost struct BridgeModel<V> {
    pub state: SettleState<V>,
    pub fulfill_queue: Seq<WorkItem<V>>,
    pub reject_queue: Seq<WorkItem<V>>,
}

/// Model transition of `fulfill` on an open channel: the work item joins the
/// back of the fulfill queue; the pending value and the other queue do not
/// move.
pub open spec fn spec_enqueue_fulfill<V>(m: BridgeModel<V>, w: WorkItem<V>) -> BridgeModel<V> {
    BridgeModel {
        state: m.state,
        fulfill_queue: m.fulfill_queue.push(w),
        reject_queue: m.reject_queue,
    }
}

/// Model transition of `reject` on an open channel: the mirror of
/// `spec_enqueue_fulfill`.
pub open spec fn spec_enqueue_reject<V>(m: BridgeModel<V>, w: WorkItem<V>) -> BridgeModel<V> {
    BridgeModel {
        state: m.state,
        fulfill_queue: m.fulfill_queue,
        reject_queue: m.reject_queue.push(w),
    }
}

/// Model transition of `step_fulfill`: the oldest fulfill work item leaves
/// the queue. A raw value settles the pending value at once (first
/// settlement wins); a producer or payload item settles nothing until the
/// host delivers its result.
pub open spec fn spec_run_fulfill_head<V>(m: BridgeModel<V>) -> BridgeModel<V> {
    if m.fulfill_queue.len() == 0 {
        m
    } else {
        BridgeModel {
            state: match m.fulfill_queue[0] {
                WorkItem::Raw(v) => spec_settle_fulfill(m.state, v),
                WorkItem::Producer(t) => m.state,
                WorkItem::Payload(p) => m.state,
            },
            fulfill_queue: m.fulfill_queue.remove(0),
            reject_queue: m.reject_queue,
        }
    }
}

/// Model transition of `step_reject`: the mirror of `spec_run_fulfill_head`.
pub open spec fn spec_run_reject_head<V>(m: BridgeModel<V>) -> BridgeModel<V> {
    if m.reject_queue.len() == 0 {
        m
    } else {
        BridgeModel {
            state: match m.reject_queue[0] {
                WorkItem::Raw(v) => spec_settle_reject(m.state, Settlement::Value(v)),
                WorkItem::Producer(t) => m.state,
                WorkItem::Payload(p) => m.state,
            },
            fulfill_queue: m.fulfill_queue,
            reject_queue: m.reject_queue.remove(0),
        }
    }
}

/// Model transition of `deliver`: a successful result settles the pending
/// value on its work item's own channel (first settlement wins); a failure
/// is resolved by that channel's severity policy. The queues do not move.
pub open spec fn spec_deliver<V>(
    m: BridgeModel<V>,
    strategy: ErrorStrategy,
    target: Target,
    produced: Result<V, MarshalError>,
) -> BridgeModel<V> {
    BridgeModel {
        state: match produced {
            Ok(v) => match target {
                Target::Fulfill => spec_settle_fulfill(m.state, v),
                Target::Reject => spec_settle_reject(m.state, Settlement::Value(v)),
            },
            Err(e) => match strategy {
                ErrorStrategy::Fatal => m.state,
                ErrorStrategy::PropagateAsRejection => spec_settle_reject(
                    m.state,
                    Settlement::DeliveryFailure(e),
                ),
                ErrorStrategy::Ignore => m.state,
            },
        },
        fulfill_queue: m.fulfill_queue,
        reject_queue: m.reject_queue,
    }
}

/// What a bridge looks like the moment `create` returns: unsettled, with two
/// fresh channels wrapping the two captured primitives under one failure
/// policy.
pub open spec fn fresh_bridge<V>(
    b: Bridge<V>,
    fulfill_primitive: u64,
    reject_primitive: u64,
    strategy: ErrorStrategy,
) -> bool {
    &&& b.value.state is Pending
    &&& fresh_channel(b.handle.fulfill_channel, fulfill_primitive, strategy)
    &&& fresh_channel(b.handle.reject_channel, reject_primitive, strategy)
}

/// The failure policy that governs results delivered for `target`.
pub open spec fn channel_strategy<V>(b: Bridge<V>, target: Target) -> ErrorStrategy {
    match target {
        Target::Fulfill => b.handle.fulfill_channel.strategy,
        Target::Reject => b.handle.reject_channel.strategy,
    }
}

/// The initializer's work. The host runtime's future constructor invokes it
/// synchronously, before the constructor call returns, handing over the two
/// native callback primitives; each is wrapped into a channel and stored in
/// its single-assignment slot, to be drained by the outer scope afterwards.
pub fn capture_channels<V>(
    fulfill_slot: &mut OnceSlot<Channel<V>>,
    reject_slot: &mut OnceSlot<Channel<V>>,
    fulfill_primitive: u64,
    reject_primitive: u64,
    strategy: ErrorStrategy,
)
    requires
        old(fulfill_slot).contents is None,
        old(reject_slot).contents is None,
    ensures
        final(fulfill_slot).contents matches Some(c)
            && fresh_channel(c, fulfill_primitive, strategy),
        final(reject_slot).contents matches Some(c)
            && fresh_channel(c, reject_primitive, strategy),
{
    fulfill_slot.fill(Channel::new(fulfill_primitive, strategy));
    reject_slot.fill(Channel::new(reject_primitive, strategy));
}

/// Drain both slots after the constructor call returns and assemble the
/// resolution handle. An empty slot means the initializer never ran: a
/// programming-invariant violation surfaced as a `ConstructionError`, never
/// to be retried.
pub fn assemble<V>(
    fulfill_slot: &mut OnceSlot<Channel<V>>,
    reject_slot: &mut OnceSlot<Channel<V>>,
) -> (r: Result<ResolutionHandle<V>, ConstructionError>)
    ensures
        final(fulfill_slot).contents is None,
        final(reject_slot).contents is None,
        old(fulfill_slot).contents is None
            ==> r == Err::<ResolutionHandle<V>, ConstructionError>(
                ConstructionError::FulfillChannelMissing,
            ),
        old(fulfill_slot).contents is Some && old(reject_slot).contents is None
            ==> r == Err::<ResolutionHandle<V>, ConstructionError>(
                ConstructionError::RejectChannelMissing,
            ),
        old(fulfill_slot).contents matches Some(f)
            ==> (old(reject_slot).contents matches Some(c)
            ==> (r matches Ok(h) && h.fulfill_channel == f && h.reject_channel == c)),
{
    let fulfill_channel = fulfill_slot.take();
    let reject_channel = reject_slot.take();
    match (fulfill_channel, reject_channel) {
        (Some(f), Some(c)) => Ok(ResolutionHandle { fulfill_channel: f, reject_channel: c }),
        (None, _) => Err(ConstructionError::FulfillChannelMissing),
        (_, None) => Err(ConstructionError::RejectChannelMissing),
    }
}

/// The pending-value factory. The host looks up the runtime's future
/// constructor and invokes it; the initializer (`capture_channels`) runs
/// synchronously inside that call and fills one single-assignment slot per
/// channel; the outer scope then drains both slots and assembles the handle.
/// Because the initializer runs before the constructor call returns, the
/// slots are provably non-empty here and construction provably succeeds.
pub fn create<V>(
    fulfill_primitive: u64,
    reject_primitive: u64,
    strategy: ErrorStrategy,
) -> (r: Result<Bridge<V>, ConstructionError>)
    ensures
        r matches Ok(b) && fresh_bridge(b, fulfill_primitive, reject_primitive, strategy),
{
    let mut fulfill_slot: OnceSlot<Channel<V>> = OnceSlot::new();
    let mut reject_slot: OnceSlot<Channel<V>> = OnceSlot::new();
    capture_channels(
        &mut fulfill_slot,
        &mut reject_slot,
        fulfill_primitive,
        reject_primitive,
        strategy,
    );
    match assemble(&mut fulfill_slot, &mut reject_slot) {
        Ok(handle) => Ok(Bridge { handle, value: PendingValue::new() }),
        Err(e) => Err(e),
    }
}

impl<V> Bridge<V> {
    /// The bridge's mathematical model: its settlement state and the
    /// contents of its two queues.
    pub open spec fn model(self) -> BridgeModel<V> {
        BridgeModel {
            state: self.value.state,
            fulfill_queue: self.handle.fulfill_channel.queue@,
            reject_queue: self.handle.reject_channel.queue@,
        }
    }

    /// Enqueue an outcome on the fulfill channel and return at once. Nothing
    /// settles here: when this returns, the pending value is exactly as it
    /// was, no producer has run, and the work item waits in the queue for
    /// the runtime thread.
    pub fn fulfill(&mut self, outcome: WorkItem<V>) -> (r: QueueStatus)
        ensures
            old(self).handle.fulfill_channel.open ==> final(self).model()
                == spec_enqueue_fulfill(old(self).model(), outcome),
            !old(self).handle.fulfill_channel.open ==> final(self).model() == old(self).model(),
            final(self).value == old(self).value,
            final(self).handle.reject_channel == old(self).handle.reject_channel,
            final(self).handle.fulfill_channel.primitive
                == old(self).handle.fulfill_channel.primitive,
            final(self).handle.fulfill_channel.strategy
                == old(self).handle.fulfill_channel.strategy,
            final(self).handle.fulfill_channel.open == old(self).handle.fulfill_channel.open,
            old(self).handle.fulfill_channel.open ==> {
                &&& final(self).handle.fulfill_channel.queue@
                    == old(self).handle.fulfill_channel.queue@.push(outcome)
                &&& r == QueueStatus::Queued
            },
            !old(self).handle.fulfill_channel.open ==> {
                &&& final(self).handle.fulfill_channel.queue@
                    == old(self).handle.fulfill_channel.queue@
                &&& r == QueueStatus::Closed
            },
    {
        self.handle.fulfill_channel.invoke(outcome)
    }

    /// Enqueue an outcome on the reject channel and return at once. The same
    /// non-blocking contract as `fulfill`, on the other channel.
    pub fn reject(&mut self, outcome: WorkItem<V>) -> (r: QueueStatus)
        ensures
            old(self).handle.reject_channel.open ==> final(self).model()
                == spec_enqueue_reject(old(self).model(), outcome),
            !old(self).handle.reject_channel.open ==> final(self).model() == old(self).model(),
            final(self).value == old(self).value,
            final(self).handle.fulfill_channel == old(self).handle.fulfill_channel,
            final(self).handle.reject_channel.primitive
                == old(self).handle.reject_channel.primitive,
            final(self).handle.reject_channel.strategy
                == old(self).handle.reject_channel.strategy,
            final(self).handle.reject_channel.open == old(self).handle.reject_channel.open,
            old(self).handle.reject_channel.open ==> {
                &&& final(self).handle.reject_channel.queue@
                    == old(self).handle.reject_channel.queue@.push(outcome)
                &&& r == QueueStatus::Queued
            },
            !old(self).handle.reject_channel.open ==> {
                &&& final(self).handle.reject_channel.queue@
                    == old(self).handle.reject_channel.queue@
                &&& r == QueueStatus::Closed
            },
    {
        self.handle.reject_channel.invoke(outcome)
    }

    /// Runtime-thread side: execute the oldest work item on the fulfill
    /// channel. A raw value settles the pending value at once (first
    /// settlement wins); a producer or payload item is surfaced to the host
    /// as an action, exactly once, the moment it leaves the queue; the
    /// pending value is untouched until the host delivers the result.
    pub fn step_fulfill(&mut self) -> (r: Action)
        ensures
            final(self).model() == spec_run_fulfill_head(old(self).model()),
            final(self).handle.reject_channel == old(self).handle.reject_channel,
            final(self).handle.fulfill_channel.primitive
                == old(self).handle.fulfill_channel.primitive,
            final(self).handle.fulfill_channel.strategy
                == old(self).handle.fulfill_channel.strategy,
            final(self).handle.fulfill_channel.open == old(self).handle.fulfill_channel.open,
            old(self).handle.fulfill_channel.queue@.len() == 0 ==> {
                &&& r == Action::Idle
                &&& final(self).value == old(self).value
                &&& final(self).handle.fulfill_channel.queue@
                    == old(self).handle.fulfill_channel.queue@
            },
            old(self).handle.fulfill_channel.queue@.len() > 0 ==> {
                &&& final(self).handle.fulfill_channel.queue@
                    == old(self).handle.fulfill_channel.queue@.remove(0)
                &&& match old(self).handle.fulfill_channel.queue@[0] {
                    WorkItem::Raw(v) => r == Action::Settled && final(self).value.state
                        == spec_settle_fulfill(old(self).value.state, v),
                    WorkItem::Producer(t) => r == Action::RunProducer(t) && final(self).value
                        == old(self).value,
                    WorkItem::Payload(p) => r == Action::ConvertPayload(p) && final(self).value
                        == old(self).value,
                }
            },
    {
        match self.handle.fulfill_channel.take_next() {
            None => Action::Idle,
            Some(WorkItem::Raw(v)) => {
                self.value.settle_fulfilled(v);
                Action::Settled
            }
            Some(WorkItem::Producer(t)) => Action::RunProducer(t),
            Some(WorkItem::Payload(p)) => Action::ConvertPayload(p),
        }
    }

    /// Runtime-thread side: execute the oldest work item on the reject
    /// channel. The mirror of `step_fulfill`: a raw value settles the
    /// pending value to `Rejected` (first settlement wins); producer and
    /// payload items are surfaced to the host exactly once.
    pub fn step_reject(&mut self) -> (r: Action)
        ensures
            final(self).model() == spec_run_reject_head(old(self).model()),
            final(self).handle.fulfill_channel == old(self).handle.fulfill_channel,
            final(self).handle.reject_channel.primitive
                == old(self).handle.reject_channel.primitive,
            final(self).handle.reject_channel.strategy
                == old(self).handle.reject_channel.strategy,
            final(self).handle.reject_channel.open == old(self).handle.reject_channel.open,
            old(self).handle.reject_channel.queue@.len() == 0 ==> {
                &&& r == Action::Idle
                &&& final(self).value == old(self).value
                &&& final(self).handle.reject_channel.queue@
                    == old(self).handle.reject_channel.queue@
            },
            old(self).handle.reject_channel.queue@.len() > 0 ==> {
                &&& final(self).handle.reject_channel.queue@
                    == old(self).handle.reject_channel.queue@.remove(0)
                &&& match old(self).handle.reject_channel.queue@[0] {
                    WorkItem::Raw(v) => r == Action::Settled && final(self).value.state
                        == spec_settle_reject(old(self).value.state, Settlement::Value(v)),
                    WorkItem::Producer(t) => r == Action::RunProducer(t) && final(self).value
                        == old(self).value,
                    WorkItem::Payload(p) => r == Action::ConvertPayload(p) && final(self).value
                        == old(self).value,
                }
            },
    {
        match self.handle.reject_channel.take_next() {
            None => Action::Idle,
            Some(WorkItem::Raw(v)) => {
                self.value.settle_rejected(Settlement::Value(v));
                Action::Settled
            }
            Some(WorkItem::Producer(t)) => Action::RunProducer(t),
            Some(WorkItem::Payload(p)) => Action::ConvertPayload(p),
        }
    }

    /// Runtime-thread side: accept the result of a producer run or a payload
    /// conversion and finish the work item it came from. A successful result
    /// settles the pending value on the work item's own channel (first
    /// settlement wins). A failure is governed by that channel's severity
    /// policy: `Fatal` tells the host to abort, `PropagateAsRejection` turns
    /// the failure into a rejection of the pending value, `Ignore` discards
    /// it. Both queues are untouched.
    pub fn deliver(&mut self, target: Target, produced: Result<V, MarshalError>) -> (r: Action)
        ensures
            final(self).model() == spec_deliver(
                old(self).model(),
                channel_strategy(*old(self), target),
                target,
                produced,
            ),
            final(self).handle == old(self).handle,
            produced matches Ok(v) ==> (target == Target::Fulfill ==> r == Action::Settled
                && final(self).value.state == spec_settle_fulfill(old(self).value.state, v)),
            produced matches Ok(v) ==> (target == Target::Reject ==> r == Action::Settled
                && final(self).value.state
                == spec_settle_reject(old(self).value.state, Settlement::Value(v))),
            produced matches Err(e) ==> (channel_strategy(*old(self), target)
                == ErrorStrategy::Fatal ==> r == Action::Abort(e)
                && final(self).value == old(self).value),
            produced matches Err(e) ==> (channel_strategy(*old(self), target)
                == ErrorStrategy::PropagateAsRejection ==> r == Action::Settled
                && final(self).value.state == spec_settle_reject(
                old(self).value.state,
                Settlement::DeliveryFailure(e),
            )),
            produced matches Err(e) ==> (channel_strategy(*old(self), target)
                == ErrorStrategy::Ignore ==> r == Action::Discarded
                && final(self).value == old(self).value),
    {
        let strategy = match target {
            Target::Fulfill => self.handle.fulfill_channel.strategy,
            Target::Reject => self.handle.reject_channel.strategy,
        };
        match produced {
            Ok(v) => {
                match target {
                    Target::Fulfill => self.value.settle_fulfilled(v),
                    Target::Reject => self.value.settle_rejected(Settlement::Value(v)),
                }
                Action::Settled
            }
            Err(e) => match strategy {
                ErrorStrategy::Fatal => Action::Abort(e),
                ErrorStrategy::PropagateAsRejection => {
                    self.value.settle_rejected(Settlement::DeliveryFailure(e));
                    Action::Settled
                }
                ErrorStrategy::Ignore => Action::Discarded,
            },
        }
    }
}

} // verus!
