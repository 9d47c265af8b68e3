use flows::{BaseController, FlowEvent, FlowState, FnControlEvent, UserControlEvent};
use std::sync::Arc;
use std::task::{Wake, Waker};

struct NoopWake;

impl Wake for NoopWake {
    fn wake(self: Arc<Self>) {}
}

fn noop_waker() -> Waker {
    Waker::from(Arc::new(NoopWake))
}

#[test]
fn each_user_operation_sends_its_own_event() {
    let mut ctrl: BaseController<u32, 8> = BaseController::default();
    assert!(ctrl.pause().is_ok());
    let (state, _) = ctrl.consume(&FlowState::Running, noop_waker());
    assert_eq!(state, FlowState::Paused);

    assert!(ctrl.resume().is_ok());
    let (state, _) = ctrl.consume(&state, noop_waker());
    assert_eq!(state, FlowState::Running);

    assert!(ctrl.block().is_ok());
    let (state, _) = ctrl.consume(&state, noop_waker());
    assert_eq!(state, FlowState::Blocked);

    assert!(ctrl.invoke(11).is_ok());
    let (state, _) = ctrl.consume(&state, noop_waker());
    assert_eq!(state, FlowState::Running);
    assert_eq!(ctrl.take_invoked(), Some(11));

    assert!(ctrl.cancel().is_ok());
    let (state, may_poll) = ctrl.consume(&state, noop_waker());
    assert_eq!(state, FlowState::Cancelled);
    assert!(!may_poll);
}

#[test]
fn full_queue_hands_each_operation_its_event_back() {
    let mut ctrl: BaseController<u32, 1> = BaseController::default();
    assert!(ctrl.pause().is_ok());
    assert!(matches!(
        ctrl.pause(),
        Err(FlowEvent::User(UserControlEvent::Pause))
    ));
    assert!(matches!(
        ctrl.resume(),
        Err(FlowEvent::User(UserControlEvent::Resume))
    ));
    assert!(matches!(
        ctrl.cancel(),
        Err(FlowEvent::User(UserControlEvent::Cancel))
    ));
    assert!(matches!(
        ctrl.invoke(3),
        Err(FlowEvent::User(UserControlEvent::Invoke(3)))
    ));
    assert!(matches!(
        ctrl.block(),
        Err(FlowEvent::Fn(FnControlEvent::Block))
    ));
    // the queued Pause survived all the rejections
    let (state, _) = ctrl.consume(&FlowState::Running, noop_waker());
    assert_eq!(state, FlowState::Paused);
}

#[test]
fn send_and_reset_are_available_on_the_controller_core() {
    let mut ctrl: BaseController<u32, 4> = BaseController::default();
    assert!(ctrl
        .send(FlowEvent::User(UserControlEvent::Pause))
        .is_ok());
    ctrl.reset();
    let (state, may_poll) = ctrl.consume(&FlowState::Running, noop_waker());
    assert_eq!(state, FlowState::Running);
    assert!(may_poll);
}
