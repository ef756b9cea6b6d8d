use vstd::prelude::*;

verus! {

/// A deferred computation, created when a caller hands an outcome to
/// `fulfill` or `reject` and consumed exactly once by the runtime thread.
/// The three variants are the three shapes of caller-chosen outcome:
///
/// - `Raw`: a value already expressed as a thread-portable handle. It is
///   captured here and emitted unchanged when the work item runs; between
///   capture and execution it is only moved, never inspected.
/// - `Producer`: a token for a computation that needs the runtime's own
///   execution context, so it can run nowhere but the runtime thread. The
///   host maps the token to the caller's producer and runs it lazily,
///   exactly once, when the work item executes; the result comes back to the
///   bridge through `Bridge::deliver`.
/// - `Payload`: serialized structured data with no thread affinity,
///   converted into the runtime's native representation entirely on the
///   runtime thread; the conversion's result also comes back through
///   `Bridge::deliver`.
#[derive(Debug, PartialEq, Eq)]
pub enum WorkItem<V> {
    Raw(V),
    Producer(u64),
    Payload(Vec<u8>),
}

} // verus!
