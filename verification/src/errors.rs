use vstd::prelude::*;

verus! {

/// Why bridge construction failed: one of the single-assignment slots that
/// the future constructor's initializer must fill was still empty when the
/// constructor call returned. This is a programming-invariant violation, not
/// a runtime condition; `bridge::create` proves it cannot happen when the
/// initializer runs.
#[derive(Debug, PartialEq, Eq)]
pub enum ConstructionError {
    FulfillChannelMissing,
    RejectChannelMissing,
}

/// A failure discovered only while a work item executes on the runtime
/// thread: the caller-supplied producer raised, or a serializable payload
/// could not be converted into the runtime's native representation.
#[derive(Debug, PartialEq, Eq)]
pub enum MarshalError {
    ProducerFailed(String),
    PayloadConversionFailed(String),
}

/// Per-channel policy for a failure discovered after the calling thread has
/// already returned control. There is no remaining code path on the caller
/// side to react, so the channel either escalates to a process-fatal
/// condition, converts the failure into a rejection of the pending value, or
/// discards it.
#[derive(Debug, PartialEq, Eq, Clone, Copy)]
pub enum ErrorStrategy {
    Fatal,
    PropagateAsRejection,
    Ignore,
}

/// Synchronous outcome of enqueueing a work item on a channel: either the
/// work was queued for the runtime thread, or the channel had already been
/// closed by runtime teardown and the work was refused.
#[derive(Debug, PartialEq, Eq, Clone, Copy)]
pub enum QueueStatus {
    Queued,
    Closed,
}

} // verus!
