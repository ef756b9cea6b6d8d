use vstd::prelude::*;
use crate::bridge::{
    spec_enqueue_fulfill, spec_enqueue_reject, spec_run_fulfill_head, spec_run_reject_head,
    BridgeModel,
};
use crate::marshal::WorkItem;
use crate::pending::{spec_settle_fulfill, spec_settle_reject, SettleState, Settlement};

verus! {

/// A single fulfillment is observed exactly once. Enqueued on a bridge whose
/// fulfill queue is empty and whose pending value is unsettled, and executed
/// by the runtime thread, it settles the pending value to `Fulfilled` with
/// exactly the delivered payload; its work item leaves the queue with the
/// step that executes it, so nothing can deliver it a second time, and the
/// reject queue is untouched throughout.
pub proof fn lemma_single_fulfill_settles<V>(m: BridgeModel<V>, v: V)
    requires
        m.state is Pending,
        m.fulfill_queue.len() == 0,
    ensures
        spec_run_fulfill_head(spec_enqueue_fulfill(m, WorkItem::Raw(v))).state
            == SettleState::Fulfilled(v),
        spec_run_fulfill_head(spec_enqueue_fulfill(m, WorkItem::Raw(v))).fulfill_queue
            == m.fulfill_queue,
        spec_run_fulfill_head(spec_enqueue_fulfill(m, WorkItem::Raw(v))).reject_queue
            == m.reject_queue,
{
    assert(m.fulfill_queue.push(WorkItem::Raw(v)).remove(0) =~= m.fulfill_queue);
}

/// Enqueueing settles nothing: when `fulfill` or `reject` returns to its
/// caller, the pending value is exactly as it was, and the work item's
/// execution is still entirely ahead. This is the bridge's non-blocking
/// guarantee, stated over the model.
pub proof fn lemma_enqueue_settles_nothing<V>(m: BridgeModel<V>, w: WorkItem<V>)
    ensures
        spec_enqueue_fulfill(m, w).state == m.state,
        spec_enqueue_reject(m, w).state == m.state,
{
}

/// Settlement is terminal: once the pending value is fulfilled or rejected,
/// no later settlement attempt changes it, whatever the attempt carries.
/// This is the single-assignment rule every transition defers to.
pub proof fn lemma_settlement_terminal<V>(s: SettleState<V>, v: V, w: Settlement<V>)
    requires
        !(s is Pending),
    ensures
        spec_settle_fulfill(s, v) == s,
        spec_settle_reject(s, w) == s,
{
}

/// If both a fulfillment and a rejection are enqueued on one bridge, from
/// whatever threads, the one the runtime thread executes first determines
/// the final state and the other is a no-op, in either execution order.
pub proof fn lemma_cross_channel_race<V>(m: BridgeModel<V>, v: V, w: V)
    requires
        m.state is Pending,
        m.fulfill_queue.len() == 1,
        m.fulfill_queue[0] == WorkItem::<V>::Raw(v),
        m.reject_queue.len() == 1,
        m.reject_queue[0] == WorkItem::<V>::Raw(w),
    ensures
        spec_run_reject_head(spec_run_fulfill_head(m)).state == SettleState::Fulfilled(v),
        spec_run_fulfill_head(spec_run_reject_head(m)).state
            == SettleState::Rejected(Settlement::Value(w)),
{
}

/// A producer work item settles nothing by being dequeued: `step_fulfill`
/// only removes it from the queue and surfaces it to the host, so the
/// producer runs on the runtime thread, after its one work item is gone, and
/// the pending value moves only when the host delivers the producer's
/// result.
pub proof fn lemma_producer_defers_settlement<V>(m: BridgeModel<V>, t: u64)
    requires
        m.fulfill_queue.len() > 0,
        m.fulfill_queue[0] == WorkItem::<V>::Producer(t),
    ensures
        spec_run_fulfill_head(m).state == m.state,
        spec_run_fulfill_head(m).fulfill_queue == m.fulfill_queue.remove(0),
        spec_run_fulfill_head(m).reject_queue == m.reject_queue,
{
}

} // verus!
