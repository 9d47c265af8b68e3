//! The controller-facing surface over one slot.
//!
//! A `BaseController` owns the slot that the role-restricted controller
//! handles of an application share. Each of the five control operations is a
//! synchronous, non-blocking send of one specific event; each reports a full
//! queue by handing the rejected event back to the caller.

use crate::handler::{
    drain_cell, drain_state, spec_exec_policy, FlowEvent, FlowState, FnControlEvent,
    UserControlEvent,
};
use crate::slot::{spec_send_effect, Slot, SlotView};
use vstd::prelude::*;

verus! {

/// The shared backing object behind the function-side, user-side and
/// adapter-side controller handles: one slot, plus the five role operations.
pub struct BaseController<U, const N: usize> {
    slot: Slot<U, N>,
}

impl<U, const N: usize> View for BaseController<U, N> {
    type V = SlotView<U>;

    closed spec fn view(&self) -> SlotView<U> {
        self.slot@
    }
}

impl<U, const N: usize> Default for BaseController<U, N> {
    /// A fresh controller core: empty queue, no pending payload, no wake
    /// target.
    fn default() -> (r: Self)
        ensures
            r.wf(),
            r@.events == Seq::<FlowEvent<U>>::empty(),
            r@.invoked is None,
            r@.waker is None,
    {
        BaseController { slot: Slot::default() }
    }
}

impl<U, const N: usize> BaseController<U, N> {
    /// The queue never holds more than its fixed capacity of `N` events.
    pub open spec fn wf(&self) -> bool {
        self@.events.len() <= N as nat
    }

    /// Enqueue one event and notify the registered waker; on a full queue
    /// the event comes back to the caller untouched.
    pub fn send(&mut self, item: FlowEvent<U>) -> (r: Result<(), FlowEvent<U>>)
        requires
            old(self).wf(),
        ensures
            final(self).wf(),
            spec_send_effect(old(self)@, final(self)@, r, item, N as nat),
    {
        self.slot.send(item)
    }

    /// One poll cycle: register `waker`, drain and apply every queued event
    /// in arrival order, and report the final state together with whether
    /// the wrapped future may be polled this cycle.
    pub fn consume(&mut self, current: &FlowState, waker: core::task::Waker) -> (r: (
        FlowState,
        bool,
    ))
        requires
            old(self).wf(),
        ensures
            final(self).wf(),
            final(self)@.events == Seq::<FlowEvent<U>>::empty(),
            final(self)@.waker == Some(waker),
            r.0 == drain_state(*current, old(self)@.events),
            final(self)@.invoked == drain_cell(*current, old(self)@.events, old(self)@.invoked),
            r.1 == spec_exec_policy(r.0),
    {
        self.slot.consume(current, waker)
    }

    /// Claim a delivered rendezvous payload; each payload is claimed at most
    /// once.
    pub fn take_invoked(&mut self) -> (r: Option<U>)
        ensures
            r == old(self)@.invoked,
            final(self)@.invoked is None,
            final(self)@.events == old(self)@.events,
            final(self)@.waker == old(self)@.waker,
    {
        self.slot.take_invoked()
    }

    /// Reset for reuse by a different flow: drop every queued event and any
    /// unclaimed rendezvous payload.
    pub fn reset(&mut self)
        ensures
            final(self).wf(),
            final(self)@.events == Seq::<FlowEvent<U>>::empty(),
            final(self)@.invoked is None,
            final(self)@.waker == old(self)@.waker,
    {
        self.slot.reset()
    }

    /// Ask the flow to pause: sends the `Pause` user event.
    pub fn pause(&mut self) -> (r: Result<(), FlowEvent<U>>)
        requires
            old(self).wf(),
        ensures
            final(self).wf(),
            spec_send_effect(
                old(self)@,
                final(self)@,
                r,
                FlowEvent::User(UserControlEvent::Pause),
                N as nat,
            ),
    {
        self.slot.send(FlowEvent::User(UserControlEvent::Pause))
    }

    /// Ask the flow to resume: sends the `Resume` user event.
    pub fn resume(&mut self) -> (r: Result<(), FlowEvent<U>>)
        requires
            old(self).wf(),
        ensures
            final(self).wf(),
            spec_send_effect(
                old(self)@,
                final(self)@,
                r,
                FlowEvent::User(UserControlEvent::Resume),
                N as nat,
            ),
    {
        self.slot.send(FlowEvent::User(UserControlEvent::Resume))
    }

    /// Ask the flow to cancel: sends the `Cancel` user event, which wins from
    /// every non-terminal state.
    pub fn cancel(&mut self) -> (r: Result<(), FlowEvent<U>>)
        requires
            old(self).wf(),
        ensures
            final(self).wf(),
            spec_send_effect(
                old(self)@,
                final(self)@,
                r,
                FlowEvent::User(UserControlEvent::Cancel),
                N as nat,
            ),
    {
        self.slot.send(FlowEvent::User(UserControlEvent::Cancel))
    }

    /// Hand user input to the flow: sends `Invoke(input)`, which resolves a
    /// pending block. On a full queue the payload comes back inside the
    /// rejected event.
    pub fn invoke(&mut self, input: U) -> (r: Result<(), FlowEvent<U>>)
        requires
            old(self).wf(),
        ensures
            final(self).wf(),
            spec_send_effect(
                old(self)@,
                final(self)@,
                r,
                FlowEvent::User(UserControlEvent::Invoke(input)),
                N as nat,
            ),
    {
        self.slot.send(FlowEvent::User(UserControlEvent::Invoke(input)))
    }

    /// Announce that the function is blocked awaiting user input: sends the
    /// `Block` function event. The blocked function is released, and its
    /// payload delivered, by a later `invoke`.
    pub fn block(&mut self) -> (r: Result<(), FlowEvent<U>>)
        requires
            old(self).wf(),
        ensures
            final(self).wf(),
            spec_send_effect(
                old(self)@,
                final(self)@,
                r,
                FlowEvent::Fn(FnControlEvent::Block),
                N as nat,
            ),
    {
        self.slot.send(FlowEvent::Fn(FnControlEvent::Block))
    }
}

} // verus!
