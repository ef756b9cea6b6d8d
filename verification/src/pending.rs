use vstd::prelude::*;
use crate::errors::MarshalError;

verus! {

/// What a settlement carries: a marshaled native value, or the delivery
/// failure that a channel under the `PropagateAsRejection` strategy turned
/// into a rejection.
#[derive(Debug, PartialEq, Eq)]
pub enum Settlement<V> {
    Value(V),
    DeliveryFailure(MarshalError),
}

/// The state of a pending asynchronous value. `Pending` moves to `Fulfilled`
/// or `Rejected`; both are terminal and there is no reverse transition.
#[derive(Debug, PartialEq, Eq)]
pub enum SettleState<V> {
    Pending,
    Fulfilled(V),
    Rejected(Settlement<V>),
}

/// Single-assignment settlement of a fulfillment: the value lands only on a
/// pending state; a settled state is left unchanged.
pub open spec fn spec_settle_fulfill<V>(s: SettleState<V>, v: V) -> SettleState<V> {
    if s is Pending {
        SettleState::Fulfilled(v)
    } else {
        s
    }
}

/// Single-assignment settlement of a rejection: the settlement lands only on
/// a pending state; a settled state is left unchanged.
pub open spec fn spec_settle_reject<V>(s: SettleState<V>, w: Settlement<V>) -> SettleState<V> {
    if s is Pending {
        SettleState::Rejected(w)
    } else {
        s
    }
}

/// The bridge's model of the host runtime's single-assignment future: an
/// unresolved asynchronous result that settles exactly once. The bridge only
/// triggers its settlement; the host owns its lifetime.
#[derive(Debug)]
pub struct PendingValue<V> {
    pub state: SettleState<V>,
}

impl<V> PendingValue<V> {
    /// A fresh, unsettled pending value.
    pub fn new() -> (r: Self)
        ensures
            r.state is Pending,
    {
        PendingValue { state: SettleState::Pending }
    }

    /// Settle to `Fulfilled(v)` if still pending; the first settlement
    /// executed wins and every later attempt is a no-op.
    pub fn settle_fulfilled(&mut self, v: V)
        ensures
            final(self).state == spec_settle_fulfill(old(self).state, v),
    {
        match &self.state {
            SettleState::Pending => {
                self.state = SettleState::Fulfilled(v);
            }
            _ => {}
        }
    }

    /// Settle to `Rejected(w)` if still pending; the first settlement
    /// executed wins and every later attempt is a no-op.
    pub fn settle_rejected(&mut self, w: Settlement<V>)
        ensures
            final(self).state == spec_settle_reject(old(self).state, w),
    {
        match &self.state {
            SettleState::Pending => {
                self.state = SettleState::Rejected(w);
            }
            _ => {}
        }
    }
}

} // verus!
