//! A control plane for pausable, resumable, cancellable asynchronous
//! computations.
//!
//! A wrapped computation ("the function") is driven through a six-state
//! lifecycle by events sent from the user side and from the function itself.
//! The heart of the crate is verified: the total transition function over
//! states and events, the bounded FIFO event queue, the waker-coordination
//! cell, the drain loop that applies a batch of events in arrival order, and
//! the one-shot rendezvous cell that hands an `Invoke` payload to a blocked
//! function exactly once.
//!
//! The pieces that must touch an executor — polling a pinned future, cloning
//! and building wakers, timers, task spawning, the shared placement of one
//! slot behind several role-restricted handles — live in the application
//! shell around this library. The library decides on every poll cycle what
//! the next state is and whether the wrapped future may be polled; the shell
//! only acts on that decision.

mod control;
mod data;
mod handler;
mod runtime;
mod slot;
mod waker;

pub use control::BaseController;
pub use data::{spec_push_effect, spec_recv_effect, DataChannel, DataChannelView};
pub use handler::{
    delivers, drain_cell, drain_state, invoke_payload, is_terminal,
    lemma_block_invoke_round_trip, lemma_cancel_precedence, lemma_drain_composes,
    lemma_drain_empty, lemma_idle_policy, lemma_pause_resume_round_trip,
    lemma_terminal_absorbing, lemma_terminal_absorbs_batch, lemma_transition_total,
    spec_exec_policy, spec_transition, FlowEvent, FlowEventHandler, FlowState, FnControlEvent,
    Handler, UserControlEvent,
};
pub use runtime::{EmbassyRuntime, TokioRuntime};
pub use slot::{spec_send_effect, Slot, SlotView};
pub use waker::WakerCell;
