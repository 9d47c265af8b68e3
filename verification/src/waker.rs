//! The waker-coordination cell: single-slot storage for the most recently
//! registered wake handle, used to tell an executor that new events are
//! waiting for the next poll cycle.

use vstd::prelude::*;

verus! {

/// `core::task::Waker` is opaque here: the library stores and hands back
/// wake handles but never looks inside one.
#[verifier::external_type_specification]
#[verifier::external_body]
pub struct ExWaker(core::task::Waker);

/// Relies on `core::task::Waker::wake`: consumes the handle and notifies the
/// executor that owns the task it belongs to. Nothing about the library's own
/// state changes.
#[verifier::external_body]
fn wake_now(w: core::task::Waker) {
    w.wake()
}

/// Holds at most one pending wake target. Registering replaces the previous
/// target; waking takes the target out and notifies it, so each registration
/// is notified at most once.
pub struct WakerCell {
    cell: Option<core::task::Waker>,
}

impl View for WakerCell {
    type V = Option<core::task::Waker>;

    closed spec fn view(&self) -> Option<core::task::Waker> {
        self.cell
    }
}

impl WakerCell {
    /// An empty cell: no wake target yet.
    pub fn new() -> (r: Self)
        ensures
            r@ is None,
    {
        WakerCell { cell: None }
    }

    /// Make `w` the wake target, replacing any previous one.
    pub fn register(&mut self, w: core::task::Waker)
        ensures
            final(self)@ == Some(w),
    {
        self.cell = Some(w);
    }

    /// Notify the registered wake target, if there is one, and clear it.
    pub fn wake(&mut self)
        ensures
            final(self)@ is None,
    {
        let prev = self.cell.take();
        match prev {
            Some(w) => wake_now(w),
            None => {},
        }
    }
}

} // verus!
