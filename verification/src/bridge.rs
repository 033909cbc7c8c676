//! The three ways of getting two connections to relay between: dialing both
//! (agent), accepting one and dialing the other (forward), accepting both
//! (listen).
//!
//! Each is a state machine without I/O. The caller dials, accepts and sleeps,
//! and reports what happened. Connections are known here by a number that the
//! caller gives them.

use vstd::prelude::*;

verus! {

/// Seconds between a failed dial of the agent and its next attempt.
pub const RETRY_DELAY_SECS: u64 = 5;

/// One of the two endpoints of an agent, or of the two listeners of listen
/// mode.
#[derive(Clone, Copy, Debug, PartialEq, Eq, Structural)]
pub enum Side {
    First,
    Second,
}

/// Where an agent stands.
#[derive(Clone, Copy, Debug, PartialEq, Eq, Structural)]
pub enum AgentState {
    /// A dial of `endpoint` is under way.
    Dialing { endpoint: Side },
    /// The last dial of `endpoint` failed; the agent waits before the next.
    Waiting { endpoint: Side },
    /// Both endpoints are connected and the relay runs.
    Relaying,
}

/// What happened outside.
#[derive(Clone, Copy, Debug, PartialEq, Eq, Structural)]
pub enum AgentEvent {
    Connected,
    ConnectFailed,
    DelayElapsed,
    RelayEnded,
}

/// What the agent's caller is to do in a state.
#[derive(Clone, Copy, Debug, PartialEq, Eq, Structural)]
pub enum AgentAction {
    Dial { endpoint: Side },
    Sleep { seconds: u64 },
    Relay,
}

/// The state in which every agent starts, and starts over.
pub open spec fn agent_start() -> AgentState {
    AgentState::Dialing { endpoint: Side::First }
}

/// What is under way in `state`.
pub open spec fn agent_action(state: AgentState) -> AgentAction {
    match state {
        AgentState::Dialing { endpoint } => AgentAction::Dial { endpoint },
        AgentState::Waiting { endpoint } => AgentAction::Sleep { seconds: RETRY_DELAY_SECS },
        AgentState::Relaying => AgentAction::Relay,
    }
}

/// The state after `event`. An event that the state does not wait for changes
/// nothing.
pub open spec fn agent_next(state: AgentState, event: AgentEvent) -> AgentState {
    match (state, event) {
        (AgentState::Dialing { endpoint: Side::First }, AgentEvent::Connected) => {
            AgentState::Dialing { endpoint: Side::Second }
        },
        (AgentState::Dialing { endpoint: Side::Second }, AgentEvent::Connected) => {
            AgentState::Relaying
        },
        (AgentState::Dialing { endpoint }, AgentEvent::ConnectFailed) => AgentState::Waiting {
            endpoint,
        },
        (AgentState::Waiting { endpoint }, AgentEvent::DelayElapsed) => AgentState::Dialing {
            endpoint,
        },
        (AgentState::Relaying, AgentEvent::RelayEnded) => agent_start(),
        _ => state,
    }
}

/// The state after a sequence of events.
pub open spec fn agent_run(state: AgentState, events: Seq<AgentEvent>) -> AgentState
    decreases events.len(),
{
    if events.len() == 0 {
        state
    } else {
        agent_next(agent_run(state, events.drop_last()), events.last())
    }
}

impl AgentState {
    /// The state in which every agent starts.
    pub fn start() -> (state: AgentState)
        ensures
            state == agent_start(),
    {
        AgentState::Dialing { endpoint: Side::First }
    }

    /// What the caller is to do now.
    pub fn action(&self) -> (action: AgentAction)
        ensures
            action == agent_action(*self),
    {
        match self {
            AgentState::Dialing { endpoint } => AgentAction::Dial { endpoint: *endpoint },
            AgentState::Waiting { endpoint } => AgentAction::Sleep { seconds: RETRY_DELAY_SECS },
            AgentState::Relaying => AgentAction::Relay,
        }
    }

    /// The state after `event`.
    pub fn on(&self, event: AgentEvent) -> (next: AgentState)
        ensures
            next == agent_next(*self, event),
    {
        match (*self, event) {
            (AgentState::Dialing { endpoint: Side::First }, AgentEvent::Connected) => {
                AgentState::Dialing { endpoint: Side::Second }
            },
            (AgentState::Dialing { endpoint: Side::Second }, AgentEvent::Connected) => {
                AgentState::Relaying
            },
            (AgentState::Dialing { endpoint }, AgentEvent::ConnectFailed) => {
                AgentState::Waiting { endpoint }
            },
            (AgentState::Waiting { endpoint }, AgentEvent::DelayElapsed) => {
                AgentState::Dialing { endpoint }
            },
            (AgentState::Relaying, AgentEvent::RelayEnded) => AgentState::start(),
            (state, _) => state,
        }
    }
}

/// Whether `event` is a failed dial or the end of a delay.
pub open spec fn is_setback(event: AgentEvent) -> bool {
    event == AgentEvent::ConnectFailed || event == AgentEvent::DelayElapsed
}

/// However often the dial of an endpoint fails, the agent goes on: it is
/// dialing that endpoint or waiting to dial it again, never anything else.
pub proof fn lemma_agent_keeps_dialing(endpoint: Side, events: Seq<AgentEvent>)
    requires
        forall|i: int| 0 <= i < events.len() ==> is_setback(#[trigger] events[i]),
    ensures
        agent_run(AgentState::Dialing { endpoint }, events) == (AgentState::Dialing { endpoint })
            || agent_run(AgentState::Dialing { endpoint }, events) == (AgentState::Waiting {
            endpoint,
        }),
    decreases events.len(),
{
    if events.len() > 0 {
        lemma_agent_keeps_dialing(endpoint, events.drop_last());
    }
}

/// A failed dial is followed by a delay of the fixed length and then by a new
/// dial of the same endpoint.
pub proof fn lemma_agent_retries_after_delay(endpoint: Side)
    ensures
        agent_action(agent_next(AgentState::Dialing { endpoint }, AgentEvent::ConnectFailed))
            == (AgentAction::Sleep { seconds: RETRY_DELAY_SECS }),
        agent_action(
            agent_next(
                agent_next(AgentState::Dialing { endpoint }, AgentEvent::ConnectFailed),
                AgentEvent::DelayElapsed,
            ),
        ) == (AgentAction::Dial { endpoint }),
{
}

/// The relay starts once both endpoints were reached, the first before the
/// second, and the agent starts over when the relay has ended.
pub proof fn lemma_agent_circuit()
    ensures
        agent_run(agent_start(), seq![AgentEvent::Connected, AgentEvent::Connected])
            == AgentState::Relaying,
        agent_next(AgentState::Relaying, AgentEvent::RelayEnded) == agent_start(),
{
    let events = seq![AgentEvent::Connected, AgentEvent::Connected];
    assert(events.drop_last() =~= seq![AgentEvent::Connected]);
    assert(events.drop_last().drop_last() =~= Seq::<AgentEvent>::empty());
    reveal_with_fuel(agent_run, 3);
}

/// Where the handling of one accepted connection stands in forward mode.
#[derive(Clone, Copy, Debug, PartialEq, Eq, Structural)]
pub enum ForwardState {
    /// The dial of the fixed target is under way.
    Dialing,
    /// The target was reached and the relay runs.
    Relaying,
    /// The target was not reached: the accepted connection is dropped.
    Dropped,
}

/// What the caller is to do with an accepted connection.
#[derive(Clone, Copy, Debug, PartialEq, Eq, Structural)]
pub enum ForwardAction {
    Dial,
    Relay,
    /// Log the failed dial and close the accepted connection.
    Drop,
}

/// What is to be done in `state`.
pub open spec fn forward_action(state: ForwardState) -> ForwardAction {
    match state {
        ForwardState::Dialing => ForwardAction::Dial,
        ForwardState::Relaying => ForwardAction::Relay,
        ForwardState::Dropped => ForwardAction::Drop,
    }
}

/// The state after the dial ended. There is one dial for each accepted
/// connection: a state that is not dialing stays as it is.
pub open spec fn forward_next(state: ForwardState, connected: bool) -> ForwardState {
    match state {
        ForwardState::Dialing => if connected {
            ForwardState::Relaying
        } else {
            ForwardState::Dropped
        },
        _ => state,
    }
}

impl ForwardState {
    /// The state of a connection that was just accepted.
    pub fn start() -> (state: ForwardState)
        ensures
            state == ForwardState::Dialing,
    {
        ForwardState::Dialing
    }

    /// What the caller is to do now.
    pub fn action(&self) -> (action: ForwardAction)
        ensures
            action == forward_action(*self),
    {
        match self {
            ForwardState::Dialing => ForwardAction::Dial,
            ForwardState::Relaying => ForwardAction::Relay,
            ForwardState::Dropped => ForwardAction::Drop,
        }
    }

    /// The state after the dial ended.
    pub fn on_dial(&self, connected: bool) -> (next: ForwardState)
        ensures
            next == forward_next(*self, connected),
    {
        match self {
            ForwardState::Dialing => if connected {
                ForwardState::Relaying
            } else {
                ForwardState::Dropped
            },
            ForwardState::Relaying => ForwardState::Relaying,
            ForwardState::Dropped => ForwardState::Dropped,
        }
    }
}

/// Where listen mode stands.
#[derive(Clone, Copy, Debug, PartialEq, Eq, Structural)]
pub enum ListenState {
    /// Waiting for a connection on the first listener.
    AwaitingFirst,
    /// Connection `first` came in on the first listener; waiting for one on
    /// the second.
    AwaitingSecond { first: u64 },
    /// An accept failed: the mode has ended.
    Failed,
}

/// What happened on the listener that was waited on.
#[derive(Clone, Copy, Debug, PartialEq, Eq, Structural)]
pub enum ListenEvent {
    Accepted { connection: u64 },
    AcceptFailed,
}

/// What the caller is to do next.
#[derive(Clone, Copy, Debug, PartialEq, Eq, Structural)]
pub enum ListenNext {
    Accept { listener: Side },
    /// Give up and report the failed accept.
    Fail,
}

/// Two connections to relay between: one of the first listener and one of
/// the second.
#[derive(Clone, Copy, Debug, PartialEq, Eq, Structural)]
pub struct Pair {
    pub first: u64,
    pub second: u64,
}

/// One step of listen mode.
#[derive(Clone, Copy, Debug, PartialEq, Eq, Structural)]
pub struct ListenStep {
    /// The relay to start, if a pair is complete.
    pub pair: Option<Pair>,
    pub next: ListenNext,
}

/// What is waited for in `state`.
pub open spec fn listen_pending(state: ListenState) -> ListenNext {
    match state {
        ListenState::AwaitingFirst => ListenNext::Accept { listener: Side::First },
        ListenState::AwaitingSecond { first } => ListenNext::Accept { listener: Side::Second },
        ListenState::Failed => ListenNext::Fail,
    }
}

/// The state after `event`.
pub open spec fn listen_next(state: ListenState, event: ListenEvent) -> ListenState {
    match (state, event) {
        (ListenState::AwaitingFirst, ListenEvent::Accepted { connection }) => {
            ListenState::AwaitingSecond { first: connection }
        },
        (ListenState::AwaitingSecond { first }, ListenEvent::Accepted { connection }) => {
            ListenState::AwaitingFirst
        },
        _ => ListenState::Failed,
    }
}

/// The pair that `event` completes, if any.
pub open spec fn listen_pair(state: ListenState, event: ListenEvent) -> Option<Pair> {
    match (state, event) {
        (ListenState::AwaitingSecond { first }, ListenEvent::Accepted { connection }) => Some(
            Pair { first, second: connection },
        ),
        _ => None,
    }
}

/// The state after a sequence of events.
pub open spec fn listen_run(state: ListenState, events: Seq<ListenEvent>) -> ListenState
    decreases events.len(),
{
    if events.len() == 0 {
        state
    } else {
        listen_next(listen_run(state, events.drop_last()), events.last())
    }
}

/// The pairs that a sequence of events completes, in order.
pub open spec fn listen_pairs(state: ListenState, events: Seq<ListenEvent>) -> Seq<Pair>
    decreases events.len(),
{
    if events.len() == 0 {
        Seq::empty()
    } else {
        let before = listen_pairs(state, events.drop_last());
        match listen_pair(listen_run(state, events.drop_last()), events.last()) {
            Some(pair) => before.push(pair),
            None => before,
        }
    }
}

impl ListenState {
    /// The state in which listen mode starts.
    pub fn start() -> (state: ListenState)
        ensures
            state == ListenState::AwaitingFirst,
    {
        ListenState::AwaitingFirst
    }

    /// What the caller is to do now.
    pub fn pending(&self) -> (next: ListenNext)
        ensures
            next == listen_pending(*self),
    {
        match self {
            ListenState::AwaitingFirst => ListenNext::Accept { listener: Side::First },
            ListenState::AwaitingSecond { first } => ListenNext::Accept { listener: Side::Second },
            ListenState::Failed => ListenNext::Fail,
        }
    }

    /// Takes note of `event`: says which relay to start, if any, and what to
    /// wait for next.
    pub fn on(&mut self, event: ListenEvent) -> (step: ListenStep)
        ensures
            *final(self) == listen_next(*old(self), event),
            step.pair == listen_pair(*old(self), event),
            step.next == listen_pending(*final(self)),
    {
        let state = *self;
        match (state, event) {
            (ListenState::AwaitingFirst, ListenEvent::Accepted { connection }) => {
                *self = ListenState::AwaitingSecond { first: connection };
                ListenStep { pair: None, next: ListenNext::Accept { listener: Side::Second } }
            },
            (ListenState::AwaitingSecond { first }, ListenEvent::Accepted { connection }) => {
                *self = ListenState::AwaitingFirst;
                ListenStep {
                    pair: Some(Pair { first, second: connection }),
                    next: ListenNext::Accept { listener: Side::First },
                }
            },
            _ => {
                *self = ListenState::Failed;
                ListenStep { pair: None, next: ListenNext::Fail }
            },
        }
    }
}

/// The accepts of `rounds` rounds: in each round one connection on the first
/// listener, then one on the second.
pub open spec fn accepts(first: Seq<u64>, second: Seq<u64>, rounds: nat) -> Seq<ListenEvent>
    decreases rounds,
{
    if rounds == 0 {
        Seq::empty()
    } else {
        accepts(first, second, (rounds - 1) as nat).push(
            ListenEvent::Accepted { connection: first[rounds - 1] },
        ).push(ListenEvent::Accepted { connection: second[rounds - 1] })
    }
}

/// The connections are paired by the order of their arrival: the relay of
/// round `k` joins the `k`-th connection of the first listener with the
/// `k`-th of the second.
pub proof fn lemma_listen_pairs_in_order(first: Seq<u64>, second: Seq<u64>, rounds: nat)
    requires
        rounds <= first.len(),
        rounds <= second.len(),
    ensures
        listen_run(ListenState::AwaitingFirst, accepts(first, second, rounds))
            == ListenState::AwaitingFirst,
        listen_pairs(ListenState::AwaitingFirst, accepts(first, second, rounds)).len() == rounds,
        forall|k: int|
            0 <= k < rounds ==> #[trigger] listen_pairs(
                ListenState::AwaitingFirst,
                accepts(first, second, rounds),
            )[k] == (Pair { first: first[k], second: second[k] }),
    decreases rounds,
{
    if rounds > 0 {
        let earlier = accepts(first, second, (rounds - 1) as nat);
        let half = earlier.push(ListenEvent::Accepted { connection: first[rounds - 1] });
        let all = accepts(first, second, rounds);
        lemma_listen_pairs_in_order(first, second, (rounds - 1) as nat);
        assert(half.drop_last() =~= earlier);
        assert(all.drop_last() =~= half);
        assert(listen_run(ListenState::AwaitingFirst, half) == (ListenState::AwaitingSecond {
            first: first[rounds - 1],
        }));
        assert(listen_pairs(ListenState::AwaitingFirst, half) == listen_pairs(
            ListenState::AwaitingFirst,
            earlier,
        ));
    }
}

/// A failed accept ends listen mode for good: no later event completes a
/// pair.
pub proof fn lemma_listen_failure_is_final(event: ListenEvent)
    ensures
        listen_next(ListenState::Failed, event) == ListenState::Failed,
        listen_pair(ListenState::Failed, event) == None::<Pair>,
        forall|state: ListenState|
            listen_next(state, ListenEvent::AcceptFailed) == ListenState::Failed,
{
}

} // verus!
