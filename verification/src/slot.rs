//! The control resource: one bounded FIFO of events, one state machine
//! instance, one waker-coordination cell, and one rendezvous cell that hands
//! an `Invoke` payload to a blocked function.
//!
//! A slot is long-lived: it may outlive any single flow and is explicitly
//! reset between uses.

use crate::handler::{
    delivers, drain_cell, drain_state, invoke_payload, spec_exec_policy, spec_transition,
    FlowEvent, FlowEventHandler, FlowState, Handler, UserControlEvent,
};
use crate::waker::WakerCell;
use std::collections::VecDeque;
use vstd::prelude::*;

verus! {

/// The mathematical content of a slot: the queued events in arrival order,
/// the pending rendezvous payload, and the registered wake target.
pub struct SlotView<U> {
    pub events: Seq<FlowEvent<U>>,
    pub invoked: Option<U>,
    pub waker: Option<core::task::Waker>,
}

/// What sending `item` into a slot of capacity `cap` does: with room in the
/// queue the event is appended and the spent wake target is gone; against a
/// full queue the event comes back to the caller and nothing changes. The
/// rendezvous cell is never touched by a send.
pub open spec fn spec_send_effect<U>(
    pre: SlotView<U>,
    post: SlotView<U>,
    r: Result<(), FlowEvent<U>>,
    item: FlowEvent<U>,
    cap: nat,
) -> bool {
    &&& post.invoked == pre.invoked
    &&& (r is Ok <==> pre.events.len() < cap)
    &&& pre.events.len() < cap ==> post.events == pre.events.push(item) && post.waker is None
    &&& pre.events.len() >= cap ==> {
        &&& (r matches Err(e) && e == item)
        &&& post.events == pre.events
        &&& post.waker == pre.waker
    }
}

/// The control-plane resource shared by one flow and its controllers: a FIFO
/// of at most `N` events, the lifecycle state machine, a cell holding the
/// most recently registered waker, and a cell holding an `Invoke` payload
/// delivered to a blocked function but not yet claimed by it.
pub struct Slot<U, const N: usize> {
    channel: VecDeque<FlowEvent<U>>,
    handler: FlowEventHandler,
    waker: WakerCell,
    invoked: Option<U>,
}

impl<U, const N: usize> View for Slot<U, N> {
    type V = SlotView<U>;

    closed spec fn view(&self) -> SlotView<U> {
        SlotView { events: self.channel@, invoked: self.invoked, waker: self.waker@ }
    }
}

impl<U, const N: usize> Default for Slot<U, N> {
    /// A fresh slot: empty queue, no pending payload, no wake target.
    fn default() -> (r: Self)
        ensures
            r.wf(),
            r@.events == Seq::<FlowEvent<U>>::empty(),
            r@.invoked is None,
            r@.waker is None,
    {
        Slot {
            channel: VecDeque::new(),
            handler: FlowEventHandler {},
            waker: WakerCell::new(),
            invoked: None,
        }
    }
}

impl<U, const N: usize> Slot<U, N> {
    /// The queue never holds more than its fixed capacity of `N` events.
    pub open spec fn wf(&self) -> bool {
        self@.events.len() <= N as nat
    }

    /// Enqueue one event and notify the registered waker, so the next poll
    /// cycle observes the event. On a full queue the event is returned to the
    /// caller untouched and nothing else changes: the queue still holds
    /// exactly its `N` events and no wake target is spent.
    pub fn send(&mut self, item: FlowEvent<U>) -> (r: Result<(), FlowEvent<U>>)
        requires
            old(self).wf(),
        ensures
            final(self).wf(),
            spec_send_effect(old(self)@, final(self)@, r, item, N as nat),
    {
        if self.channel.len() < N {
            self.channel.push_back(item);
            self.waker.wake();
            Ok(())
        } else {
            Err(item)
        }
    }

    /// One poll cycle of the control plane, the sole entry point used by the
    /// flow adapter. Registers `waker` as the new wake target, then dequeues
    /// and applies every queued event in arrival order, running the
    /// transient hook for each state visited and delivering an `Invoke`
    /// payload to the rendezvous cell whenever one resolves a pending block.
    /// Returns the final state and whether the wrapped future may be polled
    /// this cycle.
    ///
    /// The waker is registered before the queue is drained, so an event
    /// enqueued while the drain runs always finds a wake target: no wakeup
    /// is lost between the last dequeue and the registration.
    pub fn consume(&mut self, current: &FlowState, waker: core::task::Waker) -> (r: (
        FlowState,
        bool,
    ))
        requires
            old(self).wf(),
        ensures
            final(self).wf(),
            final(self)@.events == Seq::<FlowEvent<U>>::empty(),
            final(self)@.waker == Some(waker),
            r.0 == drain_state(*current, old(self)@.events),
            final(self)@.invoked == drain_cell(*current, old(self)@.events, old(self)@.invoked),
            r.1 == spec_exec_policy(r.0),
    {
        self.waker.register(waker);

        let mut state: FlowState = *current;
        while self.channel.len() > 0
            invariant
                self.wf(),
                self@.waker == Some(waker),
                drain_state(state, self@.events) == drain_state(*current, old(self)@.events),
                drain_cell(state, self@.events, self@.invoked) == drain_cell(
                    *current,
                    old(self)@.events,
                    old(self)@.invoked,
                ),
            decreases self@.events.len(),
        {
            let ghost q_pre = self@.events;
            let ghost cell_pre = self@.invoked;
            match self.channel.pop_front() {
                Some(event) => {
                    let prev: FlowState = state;
                    state = self.handler.transition(&prev, &event);
                    if let FlowEvent::User(UserControlEvent::Invoke(x)) = event {
                        if prev == FlowState::Blocked {
                            self.invoked = Some(x);
                        }
                    }
                    <FlowEventHandler as Handler<FlowState, FlowEvent<U>>>::transient_exec(
                        &self.handler,
                        &state,
                    );
                    proof {
                        assert(self@.events =~= q_pre.skip(1));
                        assert(state == spec_transition(prev, q_pre[0]));
                        assert(drain_state(prev, q_pre) == drain_state(state, self@.events));
                        assert(self@.invoked == if delivers(prev, q_pre[0]) {
                            Some(invoke_payload(q_pre[0]))
                        } else {
                            cell_pre
                        });
                        assert(drain_cell(prev, q_pre, cell_pre) == drain_cell(
                            state,
                            self@.events,
                            self@.invoked,
                        ));
                    }
                },
                None => {},
            }
        }
        let may_poll = <FlowEventHandler as Handler<FlowState, FlowEvent<U>>>::exec_policy(
            &self.handler,
            &state,
        );
        (state, may_poll)
    }

    /// Claim the payload delivered by the most recent block-resolving
    /// `Invoke`, if one is pending. Taking it empties the cell, so each
    /// delivered payload is claimed at most once.
    pub fn take_invoked(&mut self) -> (r: Option<U>)
        ensures
            r == old(self)@.invoked,
            final(self)@.invoked is None,
            final(self)@.events == old(self)@.events,
            final(self)@.waker == old(self)@.waker,
    {
        self.invoked.take()
    }

    /// Reset the slot for reuse by a different flow: drop every queued event
    /// and any unclaimed rendezvous payload. Only safe once no flow is
    /// polling this slot any more.
    pub fn reset(&mut self)
        ensures
            final(self).wf(),
            final(self)@.events == Seq::<FlowEvent<U>>::empty(),
            final(self)@.invoked is None,
            final(self)@.waker == old(self)@.waker,
    {
        self.channel.clear();
        self.invoked = None;
    }
}

} // verus!
