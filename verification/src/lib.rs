//! A bridge that lets arbitrary worker threads deliver a single result,
//! success or failure, into a pending asynchronous value owned by a
//! single-threaded cooperative runtime. The delivery's continuation executes
//! only on the runtime's own thread.
//!
//! This crate verifies the bridge's logic over plain values: the
//! single-assignment settlement of the pending value, the two-phase
//! construction protocol that captures the native callback primitives, the
//! FIFO channels that carry deferred work to the runtime thread, and the
//! error-severity policy for failures discovered after the caller has
//! relinquished control. The host runtime's own primitives (the future
//! constructor, the thread-safe callback, the native value builders) are
//! external collaborators driven by the embedding around this library.

pub mod bridge;
pub mod channel;
pub mod errors;
pub mod laws;
pub mod marshal;
pub mod pending;
pub mod slot;
