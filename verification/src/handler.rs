//! The lifecycle state machine: the states a flow can be in, the events that
//! drive it, and the total transition function over them.

use vstd::prelude::*;

verus! {

/// The six-valued lifecycle state of a flow.
///
/// `Cancelled`, `Completed` and `Error` are terminal: once reached, no event
/// moves the flow out of them.
#[derive(Clone, Copy, Debug, PartialEq, Eq, Structural)]
pub enum FlowState {
    Running,
    Paused,
    Blocked,
    Cancelled,
    Completed,
    Error,
}

impl Default for FlowState {
    /// A freshly wrapped computation starts out running.
    fn default() -> (r: Self)
        ensures
            r == FlowState::Running,
    {
        FlowState::Running
    }
}

/// Control requests issued by the user side.
pub enum UserControlEvent<U> {
    Pause,
    Resume,
    Invoke(U),
    Cancel,
}

/// Control requests issued by the wrapped function itself.
pub enum FnControlEvent {
    Block,
}

/// Any event that can drive the state machine, tagged by who sent it.
pub enum FlowEvent<U> {
    User(UserControlEvent<U>),
    Fn(FnControlEvent),
}

/// Whether a state is terminal: every event leaves it unchanged.
pub open spec fn is_terminal(s: FlowState) -> bool {
    s is Cancelled || s is Completed || s is Error
}

/// The transition table. It is total: every (state, event) pair has a defined
/// next state. Terminal states absorb everything; `Cancel` wins from any
/// non-terminal state; `Pause` and `Block` leave `Running`; `Resume` and
/// `Invoke` return to `Running` from `Paused` and `Blocked` respectively;
/// every other pair leaves the state unchanged.
pub open spec fn spec_transition<U>(current: FlowState, event: FlowEvent<U>) -> FlowState {
    match (current, event) {
        (FlowState::Completed, _) => FlowState::Completed,
        (FlowState::Error, _) => FlowState::Error,
        (FlowState::Cancelled, _) => FlowState::Cancelled,
        (_, FlowEvent::User(UserControlEvent::Cancel)) => FlowState::Cancelled,
        (FlowState::Running, FlowEvent::User(UserControlEvent::Pause)) => FlowState::Paused,
        (FlowState::Running, FlowEvent::Fn(FnControlEvent::Block)) => FlowState::Blocked,
        (FlowState::Paused, FlowEvent::User(UserControlEvent::Resume)) => FlowState::Running,
        (FlowState::Blocked, FlowEvent::User(UserControlEvent::Invoke(_))) => FlowState::Running,
        (_, _) => current,
    }
}

/// The execution policy: the wrapped future may be polled only while the
/// flow is `Running`; in every other state a poll cycle leaves it untouched.
pub open spec fn spec_exec_policy(s: FlowState) -> bool {
    s is Running
}

/// Whether applying `event` in state `current` resolves a pending block:
/// an `Invoke` payload is delivered exactly on the Blocked -> Running edge.
pub open spec fn delivers<U>(current: FlowState, event: FlowEvent<U>) -> bool {
    current is Blocked && event matches FlowEvent::User(UserControlEvent::Invoke(_))
}

/// The payload carried by an `Invoke` event.
pub open spec fn invoke_payload<U>(event: FlowEvent<U>) -> U
    recommends
        event matches FlowEvent::User(UserControlEvent::Invoke(_)),
{
    match event {
        FlowEvent::User(UserControlEvent::Invoke(x)) => x,
        _ => arbitrary(),
    }
}

/// The state reached after applying a whole batch of events, in order.
pub open spec fn drain_state<U>(current: FlowState, events: Seq<FlowEvent<U>>) -> FlowState
    decreases events.len(),
{
    if events.len() == 0 {
        current
    } else {
        drain_state(spec_transition(current, events[0]), events.skip(1))
    }
}

/// The rendezvous cell after applying a whole batch of events, in order: a
/// payload is stored whenever an event resolves a pending block, the most
/// recent delivery winning.
pub open spec fn drain_cell<U>(
    current: FlowState,
    events: Seq<FlowEvent<U>>,
    cell: Option<U>,
) -> Option<U>
    decreases events.len(),
{
    if events.len() == 0 {
        cell
    } else {
        drain_cell(
            spec_transition(current, events[0]),
            events.skip(1),
            if delivers(current, events[0]) {
                Some(invoke_payload(events[0]))
            } else {
                cell
            },
        )
    }
}

/// A state machine a slot can be driven by: a transition function over states
/// and events, a hook run for every intermediate state visited while a batch
/// of events is drained, and the policy saying in which final states the
/// wrapped future may be polled.
pub trait Handler<ST, E> {
    /// The mathematical transition function this handler computes.
    spec fn next_spec(&self, current: ST, event: E) -> ST;

    /// In which states the wrapped future may be polled.
    spec fn exec_policy_spec(&self, state: ST) -> bool;

    /// Compute the state that `event` moves `current` to.
    fn transition(&self, current: &ST, event: &E) -> (next: ST)
        ensures
            next == self.next_spec(*current, *event),
    ;

    /// Hook run once for every intermediate state visited while draining a
    /// batch of events.
    fn transient_exec(&self, state: &ST);

    /// The execution policy for the final state of a drain.
    fn exec_policy(&self, state: &ST) -> (r: bool)
        ensures
            r == self.exec_policy_spec(*state),
    ;
}

/// The lifecycle handler: the one state machine instance every slot carries.
pub struct FlowEventHandler {}

impl Default for FlowEventHandler {
    fn default() -> (r: Self)
        ensures
            r == (FlowEventHandler {}),
    {
        FlowEventHandler {}
    }
}

impl<U> Handler<FlowState, FlowEvent<U>> for FlowEventHandler {
    open spec fn next_spec(&self, current: FlowState, event: FlowEvent<U>) -> FlowState {
        spec_transition(current, event)
    }

    open spec fn exec_policy_spec(&self, state: FlowState) -> bool {
        spec_exec_policy(state)
    }

    fn transition(&self, current: &FlowState, event: &FlowEvent<U>) -> (next: FlowState) {
        match (*current, event) {
            (FlowState::Completed, _) => FlowState::Completed,
            (FlowState::Error, _) => FlowState::Error,
            (FlowState::Cancelled, _) => FlowState::Cancelled,
            (_, FlowEvent::User(UserControlEvent::Cancel)) => FlowState::Cancelled,
            (FlowState::Running, FlowEvent::User(UserControlEvent::Pause)) => FlowState::Paused,
            (FlowState::Running, FlowEvent::Fn(FnControlEvent::Block)) => FlowState::Blocked,
            (FlowState::Paused, FlowEvent::User(UserControlEvent::Resume)) => FlowState::Running,
            (FlowState::Blocked, FlowEvent::User(UserControlEvent::Invoke(_))) => {
                FlowState::Running
            },
            (_, _) => *current,
        }
    }

    /// Behavior for a state passed through while a batch of events is
    /// drained. An extension point: there is nothing to do per intermediate
    /// state today.
    fn transient_exec(&self, state: &FlowState) {
        match state {
            _ => {},
        }
    }

    fn exec_policy(&self, state: &FlowState) -> (r: bool) {
        match state {
            FlowState::Running => true,
            _ => false,
        }
    }
}

/// Totality: for every state and every event the transition function yields a
/// defined next state, one of the six lifecycle states.
pub proof fn lemma_transition_total<U>(current: FlowState, event: FlowEvent<U>)
    ensures
        spec_transition(current, event) is Running || spec_transition(current, event) is Paused
            || spec_transition(current, event) is Blocked || spec_transition(
            current,
            event,
        ) is Cancelled || spec_transition(current, event) is Completed || spec_transition(
            current,
            event,
        ) is Error,
{
}

/// Absorption: a terminal state never transitions away, whatever the event.
pub proof fn lemma_terminal_absorbing<U>(current: FlowState, event: FlowEvent<U>)
    requires
        is_terminal(current),
    ensures
        spec_transition(current, event) == current,
{
}

/// Absorption over batches: once a terminal state is reached, a whole batch
/// of further events leaves it unchanged, so a cancellation processed early
/// in a drain overrides everything after it in the same batch.
pub proof fn lemma_terminal_absorbs_batch<U>(current: FlowState, events: Seq<FlowEvent<U>>)
    requires
        is_terminal(current),
    ensures
        drain_state(current, events) == current,
    decreases events.len(),
{
    if events.len() > 0 {
        lemma_terminal_absorbing(current, events[0]);
        lemma_terminal_absorbs_batch(spec_transition(current, events[0]), events.skip(1));
    }
}

/// Cancel precedence: from every non-terminal state, `Cancel` cancels.
pub proof fn lemma_cancel_precedence<U>(current: FlowState)
    requires
        !is_terminal(current),
    ensures
        spec_transition::<U>(current, FlowEvent::User(UserControlEvent::Cancel))
            == FlowState::Cancelled,
{
}

/// Pause/Resume round trip: pausing a running flow and then resuming it
/// leaves it running again.
pub proof fn lemma_pause_resume_round_trip<U>()
    ensures
        spec_transition::<U>(
            spec_transition::<U>(FlowState::Running, FlowEvent::User(UserControlEvent::Pause)),
            FlowEvent::User(UserControlEvent::Resume),
        ) == FlowState::Running,
{
}

/// Block/Invoke round trip: a running flow that blocks returns to running on
/// the next `Invoke`, and draining that two-event batch delivers the invoke
/// payload to the rendezvous cell.
pub proof fn lemma_block_invoke_round_trip<U>(x: U)
    ensures
        spec_transition(
            spec_transition::<U>(FlowState::Running, FlowEvent::Fn(FnControlEvent::Block)),
            FlowEvent::User(UserControlEvent::Invoke(x)),
        ) == FlowState::Running,
        drain_state(
            FlowState::Running,
            seq![
                FlowEvent::<U>::Fn(FnControlEvent::Block),
                FlowEvent::<U>::User(UserControlEvent::Invoke(x)),
            ],
        ) == FlowState::Running,
        drain_cell(
            FlowState::Running,
            seq![
                FlowEvent::<U>::Fn(FnControlEvent::Block),
                FlowEvent::<U>::User(UserControlEvent::Invoke(x)),
            ],
            Option::<U>::None,
        ) == Some(x),
{
    let events = seq![
        FlowEvent::<U>::Fn(FnControlEvent::Block),
        FlowEvent::<U>::User(UserControlEvent::Invoke(x)),
    ];
    let tail = events.skip(1);
    assert(tail =~= seq![FlowEvent::<U>::User(UserControlEvent::Invoke(x))]);
    assert(tail.skip(1) =~= Seq::<FlowEvent<U>>::empty());
    assert(spec_transition(FlowState::Running, events[0]) == FlowState::Blocked);
    assert(spec_transition(FlowState::Blocked, tail[0]) == FlowState::Running);
    assert(drain_state(FlowState::Running, events) == drain_state(FlowState::Blocked, tail));
    assert(drain_state(FlowState::Blocked, tail) == drain_state(
        FlowState::Running,
        tail.skip(1),
    ));
    assert(drain_state(FlowState::Running, tail.skip(1)) == FlowState::Running);
    assert(!delivers(FlowState::Running, events[0]));
    assert(delivers(FlowState::Blocked, tail[0]));
    assert(invoke_payload(tail[0]) == x);
    assert(drain_cell(FlowState::Running, events, Option::<U>::None) == drain_cell(
        FlowState::Blocked,
        tail,
        Option::<U>::None,
    ));
    assert(drain_cell(FlowState::Blocked, tail, Option::<U>::None) == drain_cell(
        FlowState::Running,
        tail.skip(1),
        Some(x),
    ));
    assert(drain_cell(FlowState::Running, tail.skip(1), Some(x)) == Some(x));
}

/// Draining no events changes nothing: a poll cycle that finds the queue
/// empty reports the state it started from, so an idle flow stays where it
/// is.
pub proof fn lemma_drain_empty<U>(s: FlowState)
    ensures
        drain_state::<U>(s, Seq::empty()) == s,
        forall|cell: Option<U>| drain_cell(s, Seq::empty(), cell) == cell,
{
}

/// Draining composes over batches: applying one combined batch equals
/// applying its parts in successive cycles. Events therefore take effect in
/// the single total order of their arrival, however the poll cycles split
/// them up.
pub proof fn lemma_drain_composes<U>(s: FlowState, a: Seq<FlowEvent<U>>, b: Seq<FlowEvent<U>>)
    ensures
        drain_state(s, a + b) == drain_state(drain_state(s, a), b),
    decreases a.len(),
{
    if a.len() == 0 {
        assert(a + b =~= b);
    } else {
        assert((a + b)[0] == a[0]);
        assert((a + b).skip(1) =~= a.skip(1) + b);
        lemma_drain_composes(spec_transition(s, a[0]), a.skip(1), b);
    }
}

/// Idle policy: a flow that is paused, blocked or cancelled is never allowed
/// to poll its wrapped future.
pub proof fn lemma_idle_policy(s: FlowState)
    ensures
        (s is Paused || s is Blocked || s is Cancelled) ==> !spec_exec_policy(s),
{
}

} // verus!
