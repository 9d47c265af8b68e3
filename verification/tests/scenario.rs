//! An end-to-end run of the control plane, driven the way a future adapter
//! drives it: one `consume` per poll cycle, the wrapped computation stepped
//! only when the cycle allows it.

use flows::{FlowState, Slot, UserControlEvent};
use std::sync::Arc;
use std::task::{Wake, Waker};

struct NoopWake;

impl Wake for NoopWake {
    fn wake(self: Arc<Self>) {}
}

fn noop_waker() -> Waker {
    Waker::from(Arc::new(NoopWake))
}

/// Stands for the wrapped function: emits 1..=5, one value per step it is
/// granted, and reports completion once all five are out.
struct Emitter {
    next: u32,
    emitted: Vec<u32>,
}

impl Emitter {
    fn step(&mut self) -> bool {
        if self.next <= 5 {
            self.emitted.push(self.next);
            self.next += 1;
        }
        self.next > 5
    }
}

/// One poll cycle of a flow adapter: drain the control queue, store the new
/// state, and step the wrapped computation only when the cycle allows it.
fn poll_cycle(slot: &mut Slot<u32, 4>, state: &mut FlowState, emitter: &mut Emitter) -> bool {
    let (next, may_poll) = slot.consume(state, noop_waker());
    *state = next;
    if may_poll {
        emitter.step()
    } else {
        false
    }
}

#[test]
fn paused_flow_emits_nothing_and_finishes_after_resume() {
    let mut slot: Slot<u32, 4> = Slot::default();
    let mut state = FlowState::default();
    let mut emitter = Emitter {
        next: 1,
        emitted: Vec::new(),
    };

    // two cycles: values 1 and 2 come out
    assert!(!poll_cycle(&mut slot, &mut state, &mut emitter));
    assert!(!poll_cycle(&mut slot, &mut state, &mut emitter));
    assert_eq!(emitter.emitted, vec![1, 2]);

    // the user pauses; nothing is emitted however often the flow is polled
    assert!(slot
        .send(flows::FlowEvent::User(UserControlEvent::Pause))
        .is_ok());
    for _ in 0..3 {
        assert!(!poll_cycle(&mut slot, &mut state, &mut emitter));
        assert_eq!(state, FlowState::Paused);
    }
    assert_eq!(emitter.emitted, vec![1, 2]);

    // the user resumes; the remaining values come out in order
    assert!(slot
        .send(flows::FlowEvent::User(UserControlEvent::Resume))
        .is_ok());
    assert!(!poll_cycle(&mut slot, &mut state, &mut emitter));
    assert_eq!(state, FlowState::Running);
    assert!(!poll_cycle(&mut slot, &mut state, &mut emitter));
    let done = poll_cycle(&mut slot, &mut state, &mut emitter);

    assert!(done);
    assert_eq!(emitter.emitted, vec![1, 2, 3, 4, 5]);
}

#[test]
fn cancelled_flow_never_steps_again() {
    let mut slot: Slot<u32, 4> = Slot::default();
    let mut state = FlowState::default();
    let mut emitter = Emitter {
        next: 1,
        emitted: Vec::new(),
    };

    assert!(!poll_cycle(&mut slot, &mut state, &mut emitter));
    assert!(slot
        .send(flows::FlowEvent::User(UserControlEvent::Cancel))
        .is_ok());
    for _ in 0..4 {
        assert!(!poll_cycle(&mut slot, &mut state, &mut emitter));
        assert_eq!(state, FlowState::Cancelled);
    }
    assert_eq!(emitter.emitted, vec![1]);
}
