use vstd::prelude::*;

verus! {

/// A single process-wide slot for a disconnect callback, set at most once
/// effectively: registering a callback replaces whatever was stored before,
/// so at any time at most one callback — the latest registered — can be
/// invoked. The native layer fires the stored callback when a read detects
/// that the device is gone; holders serialize access to the slot with a
/// lock held only long enough to read-and-invoke or to replace.
pub struct CallbackSlot<T> {
    stored: Option<T>,
}

impl<T> View for CallbackSlot<T> {
    type V = Option<T>;

    closed spec fn view(&self) -> Option<T> {
        self.stored
    }
}

impl<T> CallbackSlot<T> {
    /// An empty slot: no callback has been registered.
    pub fn new() -> (slot: Self)
        ensures
            slot@ is None,
    {
        CallbackSlot { stored: None }
    }

    /// Register a callback. The new callback fully replaces the previous
    /// registration — no chaining, no multiple subscribers — and the old
    /// one, no longer invocable, is handed back.
    pub fn replace(&mut self, callback: T) -> (previous: Option<T>)
        ensures
            final(self)@ == Some(callback),
            previous == old(self)@,
    {
        let previous = self.stored.take();
        self.stored = Some(callback);
        previous
    }

    /// The callback that a disconnect would invoke now: the latest one
    /// registered, if any.
    pub fn current(&self) -> (callback: Option<&T>)
        ensures
            callback is Some <==> self@ is Some,
            callback is Some ==> *callback->0 == self@->0,
    {
        self.stored.as_ref()
    }
}

} // verus!
