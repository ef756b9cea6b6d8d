use vstd::prelude::*;

verus! {

/// A single-assignment slot for the two-phase construction protocol. The
/// host runtime's future constructor invokes an initializer synchronously,
/// before the constructor call returns; the channel each native primitive is
/// wrapped into must cross from that nested call back to the outer scope.
/// The slot is created empty before the constructor is invoked, written
/// exactly once by the initializer, and drained exactly once after the call
/// returns. The whole sequence runs on one thread before any handle escapes,
/// so no concurrency hazard exists here.
#[derive(Debug)]
pub struct OnceSlot<T> {
    pub contents: Option<T>,
}

impl<T> OnceSlot<T> {
    /// A fresh, empty slot.
    pub fn new() -> (r: Self)
        ensures
            r.contents is None,
    {
        OnceSlot { contents: None }
    }

    /// Write the slot's one value. Single assignment: only an empty slot may
    /// be filled.
    pub fn fill(&mut self, v: T)
        requires
            old(self).contents is None,
        ensures
            final(self).contents == Some(v),
    {
        self.contents = Some(v);
    }

    /// Drain the slot: hand out whatever it holds and leave it empty.
    pub fn take(&mut self) -> (r: Option<T>)
        ensures
            r == old(self).contents,
            final(self).contents is None,
    {
        self.contents.take()
    }
}

} // verus!
