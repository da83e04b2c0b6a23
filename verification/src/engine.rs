use vstd::prelude::*;
use barter::execution::FillEvent;
use barter::portfolio::position::Position;
use barter::portfolio::position::PositionExit;
use barter::portfolio::position::PositionUpdate;
use barter::portfolio::Balance;
use barter::portfolio::OrderEvent;
use crate::market::DataKind;
use crate::market::MarketEvent;
use crate::strategy::Signal;
use crate::strategy::SignalForceExit;

verus! {

/// Everything that can happen in the engine. The set is closed: the router
/// handles each of the ten variants, and there is no other.
#[derive(PartialEq, Debug)]
pub enum EngineEvent {
    Market(MarketEvent<DataKind>),
    Signal(Signal),
    SignalForceExit(SignalForceExit),
    OrderNew(OrderEvent),
    OrderUpdate,
    Fill(FillEvent),
    PositionNew(Position),
    PositionUpdate(PositionUpdate),
    PositionExit(PositionExit),
    Balance(Balance),
}

/// What the consumer does with an event that it has taken from the queue.
#[derive(PartialEq, Debug)]
pub enum Action {
    /// The event was observed; nothing is shown.
    Observe,
    /// The event is shown in full.
    Report(EngineEvent),
}

/// The action that an event calls for: a market event is observed, every
/// other event is reported with all that it carries.
pub open spec fn action_for(event: EngineEvent) -> Action {
    match event {
        EngineEvent::Market(_) => Action::Observe,
        _ => Action::Report(event),
    }
}

/// Routes one event: decides what the consumer does with it.
pub fn dispatch(event: EngineEvent) -> (action: Action)
    ensures
        action == action_for(event),
{
    match event {
        EngineEvent::Market(_) => Action::Observe,
        EngineEvent::Signal(signal) => Action::Report(EngineEvent::Signal(signal)),
        EngineEvent::SignalForceExit(exit) => Action::Report(EngineEvent::SignalForceExit(exit)),
        EngineEvent::OrderNew(order) => Action::Report(EngineEvent::OrderNew(order)),
        EngineEvent::OrderUpdate => Action::Report(EngineEvent::OrderUpdate),
        EngineEvent::Fill(fill) => Action::Report(EngineEvent::Fill(fill)),
        EngineEvent::PositionNew(position) => Action::Report(EngineEvent::PositionNew(position)),
        EngineEvent::PositionUpdate(update) => Action::Report(EngineEvent::PositionUpdate(update)),
        EngineEvent::PositionExit(exit) => Action::Report(EngineEvent::PositionExit(exit)),
        EngineEvent::Balance(balance) => Action::Report(EngineEvent::Balance(balance)),
    }
}

/// The two states of the consumer.
#[derive(Copy, Clone, PartialEq, Eq, Structural, Debug)]
pub enum RouterState {
    /// The consumer takes events from the queue.
    Draining,
    /// Every producer is gone and the queue is empty. This state is final.
    Closed,
}

/// The state after the consumer was handed what the queue gave: an event, or
/// nothing once every producer is gone and the queue is empty.
pub open spec fn next_state(state: RouterState, received: Option<EngineEvent>) -> RouterState {
    match (state, received) {
        (RouterState::Draining, Some(_)) => RouterState::Draining,
        _ => RouterState::Closed,
    }
}

/// The action of a step: a draining consumer dispatches the event that it was
/// handed; otherwise there is nothing to do.
pub open spec fn next_action(state: RouterState, received: Option<EngineEvent>) -> Option<Action> {
    match (state, received) {
        (RouterState::Draining, Some(event)) => Some(action_for(event)),
        _ => None,
    }
}

/// One step of the consumer: from its state and what the queue gave to its
/// next state and the action to perform.
pub fn step(state: RouterState, received: Option<EngineEvent>) -> (r: (RouterState, Option<Action>))
    ensures
        r.0 == next_state(state, received),
        r.1 == next_action(state, received),
{
    match state {
        RouterState::Draining => match received {
            Some(event) => (RouterState::Draining, Some(dispatch(event))),
            None => (RouterState::Closed, None),
        },
        RouterState::Closed => (RouterState::Closed, None),
    }
}

/// The actions that a queue of events calls for, in the order of the queue.
pub open spec fn actions_for(events: Seq<EngineEvent>) -> Seq<Action> {
    Seq::new(events.len(), |i: int| action_for(events[i]))
}

/// Runs a draining consumer over a queue that its producers have left: each
/// event is dispatched, in the order of the queue, and then the consumer
/// closes.
pub fn drain(queue: Vec<EngineEvent>) -> (r: (RouterState, Vec<Action>))
    ensures
        r.0 == RouterState::Closed,
        r.1@ == actions_for(queue@),
{
    let mut state = RouterState::Draining;
    let mut actions: Vec<Action> = Vec::new();
    for event in iter: queue
        invariant
            state == RouterState::Draining,
            iter.seq() == queue@,
            actions@.len() == iter.index(),
            forall|j: int| 0 <= j < iter.index() ==> actions@[j] == action_for(queue@[j]),
    {
        let (next, action) = step(state, Some(event));
        state = next;
        match action {
            Some(action) => {
                actions.push(action);
            },
            None => {},
        }
    }
    let (closed, _) = step(state, None);
    assert(actions@ =~= actions_for(queue@));
    (closed, actions)
}

/// The state of a consumer after a run of steps, one for each thing that the
/// queue gave.
pub open spec fn state_after(state: RouterState, received: Seq<Option<EngineEvent>>) -> RouterState
    decreases received.len(),
{
    if received.len() == 0 {
        state
    } else {
        next_state(state_after(state, received.drop_last()), received.last())
    }
}

/// Nothing is dropped and nothing changes place: a queue gives one action for
/// each event, the action at each place is that of the event at that place,
/// and a reported event is the event itself. So of two events the one that was
/// enqueued first is dispatched first.
pub proof fn lemma_dispatch_keeps_order(queue: Seq<EngineEvent>, i: int)
    requires
        0 <= i < queue.len(),
    ensures
        actions_for(queue).len() == queue.len(),
        actions_for(queue)[i] == action_for(queue[i]),
        !(queue[i] is Market) ==> actions_for(queue)[i] == Action::Report(queue[i]),
        queue[i] is Market ==> actions_for(queue)[i] == Action::Observe,
{
}

/// A closed consumer stays closed and does nothing more.
pub proof fn lemma_closed_is_final(received: Option<EngineEvent>)
    ensures
        next_state(RouterState::Closed, received) == RouterState::Closed,
        next_action(RouterState::Closed, received) is None,
{
}

/// Shutdown: the end of the stream closes the consumer, and whatever follows
/// leaves it closed.
pub proof fn lemma_end_of_stream_closes(received: Seq<Option<EngineEvent>>, k: int)
    requires
        0 <= k < received.len(),
        received[k] is None,
    ensures
        state_after(RouterState::Draining, received) == RouterState::Closed,
    decreases received.len(),
{
    if k < received.len() - 1 {
        lemma_end_of_stream_closes(received.drop_last(), k);
    }
}

/// While events keep coming, a draining consumer keeps draining.
pub proof fn lemma_events_keep_draining(received: Seq<Option<EngineEvent>>)
    requires
        forall|k: int| 0 <= k < received.len() ==> received[k] is Some,
    ensures
        state_after(RouterState::Draining, received) == RouterState::Draining,
    decreases received.len(),
{
    if received.len() > 0 {
        lemma_events_keep_draining(received.drop_last());
    }
}

} // verus!
