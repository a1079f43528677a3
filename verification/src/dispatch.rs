//! The decisions of the server's dispatch loop.
//!
//! The loop takes requests off one channel, runs each under its own context
//! and sends a response back for each. A request is raced against its
//! deadline: if the deadline is reached first, the loop stops waiting and
//! answers that the deadline was exceeded, and whatever the operation yields
//! later is thrown away. Requests are in flight side by side, so that
//! responses may leave in another order than the requests came; the request
//! id tells which is which. When the channel ends, the requests in flight
//! are seen to their end before the transport is let go.
//!
//! What is here is the loop's memory and its rule: from the state and an
//! event to the next state and what to do. To receive, to run operations,
//! to keep timers and to send is the part of whoever drives it.

use crate::error::RpcError;
use crate::error::ServerError;
use crate::time::AbsoluteTime;
use vstd::prelude::*;

verus! {

/// Where a dispatch loop stands, but for the requests it has in flight.
#[derive(Clone, Copy, Debug, PartialEq, Eq, Structural)]
pub enum Stage {
    /// No channel has been attached yet.
    Idle,
    /// Requests are taken off the channel.
    Open,
    /// The channel has ended; requests in flight are still seen to their
    /// end.
    Draining,
    /// The transport has been let go.
    Closed,
}

/// The state of a dispatch loop as told from outside.
#[derive(Clone, Copy, Debug, PartialEq, Eq, Structural)]
pub enum Phase {
    /// No channel has been attached yet.
    Idle,
    /// Waiting for a request, with none in flight.
    Receiving,
    /// Requests are in flight, and more are taken.
    Dispatching,
    /// Requests are in flight, and no more are taken.
    Draining,
    /// The transport has been let go.
    Closed,
}

/// A request whose operation has been started and whose response is still
/// owed.
#[derive(Clone, Copy, Debug)]
pub struct InFlight {
    /// The id that the client gave the request.
    pub id: u64,
    /// The reading of the local clock at which waiting ends.
    pub deadline: AbsoluteTime,
}

/// What happens to a dispatch loop.
#[derive(Clone, Copy, Debug)]
pub enum Event {
    /// A channel has been attached.
    Attach,
    /// A request has come in, with the deadline that its context holds.
    Request { id: u64, deadline: AbsoluteTime },
    /// The operation of a request has finished, at the reading `now`.
    Completed { id: u64, now: AbsoluteTime },
    /// The timer of a request has fired, at the reading `now`.
    DeadlineElapsed { id: u64, now: AbsoluteTime },
    /// The channel has ended: no request will come any more.
    EndOfStream,
}

/// What is sent back for a request.
#[derive(Clone, Copy, Debug, PartialEq, Eq, Structural)]
pub enum Reply {
    /// What the operation has yielded.
    Normal,
    /// The finding that the deadline was reached first.
    DeadlineExceeded,
}

/// What the driver of the loop is to do after an event.
#[derive(Clone, Copy, Debug, PartialEq, Eq, Structural)]
pub enum Action {
    /// Nothing.
    Nothing,
    /// Start the operation of the request, under a context that holds its
    /// deadline, and set a timer for the deadline.
    Start { id: u64 },
    /// Send the response for the request.
    Respond { id: u64, reply: Reply },
    /// Throw away what the operation has yielded: the request has been
    /// answered already, or was never started.
    Discard { id: u64 },
    /// Leave the request unserved: its id is that of a request in flight, or
    /// no requests are taken.
    Refuse { id: u64 },
}

/// The answer of the loop to an event.
#[derive(Clone, Copy, Debug, PartialEq, Eq, Structural)]
pub struct Reaction {
    /// What to do.
    pub action: Action,
    /// Whether to let the transport go afterwards.
    pub release_transport: bool,
}

/// The state of a dispatch loop: its stage and the requests in flight, in
/// the order in which they came.
pub struct DispatchState {
    pub stage: Stage,
    pub in_flight: Seq<InFlight>,
}

/// Whether a request with the id `id` is among `requests`.
pub open spec fn holds(requests: Seq<InFlight>, id: u64) -> bool {
    exists|i: int| 0 <= i < requests.len() && (#[trigger] requests[i]).id == id
}

/// The place among `requests` of a request with the id `id`.
pub open spec fn slot(requests: Seq<InFlight>, id: u64) -> int {
    choose|i: int| 0 <= i < requests.len() && (#[trigger] requests[i]).id == id
}

/// Whether no two of `requests` have the same id.
pub open spec fn distinct(requests: Seq<InFlight>) -> bool {
    forall|i: int, j: int|
        0 <= i < j < requests.len() ==> (#[trigger] requests[i]).id != (#[trigger] requests[j]).id
}

/// Who wins the race of an operation that finishes at the reading `now`
/// against the deadline: the operation, as long as the deadline has not been
/// reached.
pub open spec fn race(deadline: nat, now: nat) -> Reply {
    if now < deadline {
        Reply::Normal
    } else {
        Reply::DeadlineExceeded
    }
}

/// The response that goes to the client when the loop has decided on `reply`
/// and the operation has yielded `result`: what the operation has yielded,
/// its error as it was made, or the finding that the deadline was exceeded,
/// in which case what the operation has yielded does not count.
pub open spec fn response_for<Resp>(reply: Reply, result: Result<Resp, ServerError>) -> Result<
    Resp,
    RpcError,
> {
    match reply {
        Reply::DeadlineExceeded => Err(RpcError::DeadlineExceeded),
        Reply::Normal => match result {
            Ok(response) => Ok(response),
            Err(error) => Err(RpcError::Server(error)),
        },
    }
}

impl Reply {
    /// The response that goes to the client, the operation having yielded
    /// `result`.
    pub fn response<Resp>(self, result: Result<Resp, ServerError>) -> (response: Result<
        Resp,
        RpcError,
    >)
        ensures
            response == response_for(self, result),
    {
        match self {
            Reply::DeadlineExceeded => Err(RpcError::DeadlineExceeded),
            Reply::Normal => match result {
                Ok(response) => Ok(response),
                Err(error) => Err(RpcError::Server(error)),
            },
        }
    }
}

impl DispatchState {
    /// The ids in flight differ from each other, there are requests in
    /// flight only while a channel is attached, and a loop that drains has
    /// something left to drain.
    pub open spec fn wf(self) -> bool {
        &&& distinct(self.in_flight)
        &&& forall|i: int| 0 <= i < self.in_flight.len() ==> (#[trigger] self.in_flight[i]).deadline.wf()
        &&& (self.stage == Stage::Idle || self.stage == Stage::Closed) ==> self.in_flight.len() == 0
        &&& self.stage == Stage::Draining ==> self.in_flight.len() > 0
    }

    /// The state as told from outside.
    pub open spec fn phase(self) -> Phase {
        match self.stage {
            Stage::Idle => Phase::Idle,
            Stage::Open => if self.in_flight.len() == 0 {
                Phase::Receiving
            } else {
                Phase::Dispatching
            },
            Stage::Draining => Phase::Draining,
            Stage::Closed => Phase::Closed,
        }
    }

    /// The state after the request at `index` has been answered: the request
    /// is no longer in flight, and a loop that was draining and has nothing
    /// left is closed.
    pub open spec fn settled(self, index: int) -> DispatchState {
        let rest = self.in_flight.remove(index);
        DispatchState {
            stage: if self.stage == Stage::Draining && rest.len() == 0 {
                Stage::Closed
            } else {
                self.stage
            },
            in_flight: rest,
        }
    }

    /// Whether the transport is let go when the request at `index` has been
    /// answered.
    pub open spec fn settling_releases(self, index: int) -> bool {
        self.stage == Stage::Draining && self.in_flight.len() == 1
    }

    /// The rule of the loop: the state after `event`.
    pub open spec fn next(self, event: Event) -> DispatchState {
        match event {
            Event::Attach => if self.stage == Stage::Idle {
                DispatchState { stage: Stage::Open, in_flight: self.in_flight }
            } else {
                self
            },
            Event::Request { id, deadline } => if self.stage == Stage::Open && !holds(
                self.in_flight,
                id,
            ) {
                DispatchState {
                    stage: self.stage,
                    in_flight: self.in_flight.push(InFlight { id, deadline }),
                }
            } else {
                self
            },
            Event::Completed { id, now } => if holds(self.in_flight, id) {
                self.settled(slot(self.in_flight, id))
            } else {
                self
            },
            Event::DeadlineElapsed { id, now } => if holds(self.in_flight, id)
                && now@ >= self.in_flight[slot(self.in_flight, id)].deadline@ {
                self.settled(slot(self.in_flight, id))
            } else {
                self
            },
            Event::EndOfStream => match self.stage {
                Stage::Idle => DispatchState { stage: Stage::Closed, in_flight: self.in_flight },
                Stage::Open => if self.in_flight.len() == 0 {
                    DispatchState { stage: Stage::Closed, in_flight: self.in_flight }
                } else {
                    DispatchState { stage: Stage::Draining, in_flight: self.in_flight }
                },
                Stage::Draining => self,
                Stage::Closed => self,
            },
        }
    }

    /// The rule of the loop: what to do after `event`.
    pub open spec fn reaction(self, event: Event) -> Reaction {
        match event {
            Event::Attach => Reaction { action: Action::Nothing, release_transport: false },
            Event::Request { id, deadline } => if self.stage == Stage::Open && !holds(
                self.in_flight,
                id,
            ) {
                Reaction { action: Action::Start { id }, release_transport: false }
            } else {
                Reaction { action: Action::Refuse { id }, release_transport: false }
            },
            Event::Completed { id, now } => if holds(self.in_flight, id) {
                let index = slot(self.in_flight, id);
                Reaction {
                    action: Action::Respond {
                        id,
                        reply: race(self.in_flight[index].deadline@, now@),
                    },
                    release_transport: self.settling_releases(index),
                }
            } else {
                Reaction { action: Action::Discard { id }, release_transport: false }
            },
            Event::DeadlineElapsed { id, now } => if holds(self.in_flight, id)
                && now@ >= self.in_flight[slot(self.in_flight, id)].deadline@ {
                Reaction {
                    action: Action::Respond { id, reply: Reply::DeadlineExceeded },
                    release_transport: self.settling_releases(slot(self.in_flight, id)),
                }
            } else {
                Reaction { action: Action::Nothing, release_transport: false }
            },
            Event::EndOfStream => Reaction {
                action: Action::Nothing,
                release_transport: self.stage == Stage::Idle || (self.stage == Stage::Open
                    && self.in_flight.len() == 0),
            },
        }
    }
}

/// The memory of a dispatch loop.
pub struct Dispatcher {
    stage: Stage,
    in_flight: Vec<InFlight>,
}

impl View for Dispatcher {
    type V = DispatchState;

    closed spec fn view(&self) -> DispatchState {
        DispatchState { stage: self.stage, in_flight: self.in_flight@ }
    }
}

impl Dispatcher {
    /// The state is well-formed at all times.
    #[verifier::type_invariant]
    pub closed spec fn wf(self) -> bool {
        self@.wf()
    }

    /// A loop to which no channel has been attached yet.
    pub fn new() -> (dispatcher: Dispatcher)
        ensures
            dispatcher.wf(),
            dispatcher@.stage == Stage::Idle,
            dispatcher@.in_flight.len() == 0,
    {
        Dispatcher { stage: Stage::Idle, in_flight: Vec::new() }
    }

    /// The state of the loop as told from outside.
    pub fn phase(&self) -> (phase: Phase)
        ensures
            phase == self@.phase(),
    {
        match self.stage {
            Stage::Idle => Phase::Idle,
            Stage::Open => if self.in_flight.len() == 0 {
                Phase::Receiving
            } else {
                Phase::Dispatching
            },
            Stage::Draining => Phase::Draining,
            Stage::Closed => Phase::Closed,
        }
    }

    /// The number of requests in flight.
    pub fn in_flight(&self) -> (n: usize)
        ensures
            n == self@.in_flight.len(),
    {
        self.in_flight.len()
    }

    /// Takes `event` into the state and says what to do: the loop as it is
    /// after the event, and the answer to the event.
    pub fn step(self, event: Event) -> (out: (Dispatcher, Reaction))
        ensures
            out.0.wf(),
            out.0@ == self@.next(event),
            out.1 == self@.reaction(event),
    {
        proof {
            use_type_invariant(&self);
        }
        let quiet = Reaction { action: Action::Nothing, release_transport: false };
        let Dispatcher { stage, in_flight } = self;
        let mut in_flight = in_flight;
        match event {
            Event::Attach => {
                let stage = match stage {
                    Stage::Idle => Stage::Open,
                    other => other,
                };
                (Dispatcher { stage, in_flight }, quiet)
            },
            Event::Request { id, deadline } => {
                let open = match stage {
                    Stage::Open => true,
                    _ => false,
                };
                if open && find(&in_flight, id).is_none() {
                    proof {
                        use_type_invariant(deadline);
                    }
                    in_flight.push(InFlight { id, deadline });
                    (
                        Dispatcher { stage, in_flight },
                        Reaction { action: Action::Start { id }, release_transport: false },
                    )
                } else {
                    (
                        Dispatcher { stage, in_flight },
                        Reaction { action: Action::Refuse { id }, release_transport: false },
                    )
                }
            },
            Event::Completed { id, now } => {
                match find(&in_flight, id) {
                    Some(index) => {
                        let reply = if in_flight[index].deadline.has_passed(now) {
                            Reply::DeadlineExceeded
                        } else {
                            Reply::Normal
                        };
                        let (stage, release_transport) = settle(stage, &mut in_flight, index);
                        (
                            Dispatcher { stage, in_flight },
                            Reaction { action: Action::Respond { id, reply }, release_transport },
                        )
                    },
                    None => (
                        Dispatcher { stage, in_flight },
                        Reaction { action: Action::Discard { id }, release_transport: false },
                    ),
                }
            },
            Event::DeadlineElapsed { id, now } => {
                match find(&in_flight, id) {
                    Some(index) => {
                        if in_flight[index].deadline.has_passed(now) {
                            let (stage, release_transport) = settle(stage, &mut in_flight, index);
                            (
                                Dispatcher { stage, in_flight },
                                Reaction {
                                    action: Action::Respond { id, reply: Reply::DeadlineExceeded },
                                    release_transport,
                                },
                            )
                        } else {
                            (Dispatcher { stage, in_flight }, quiet)
                        }
                    },
                    None => (Dispatcher { stage, in_flight }, quiet),
                }
            },
            Event::EndOfStream => {
                match stage {
                    Stage::Idle => (
                        Dispatcher { stage: Stage::Closed, in_flight },
                        Reaction { action: Action::Nothing, release_transport: true },
                    ),
                    Stage::Open => {
                        if in_flight.len() == 0 {
                            (
                                Dispatcher { stage: Stage::Closed, in_flight },
                                Reaction { action: Action::Nothing, release_transport: true },
                            )
                        } else {
                            (Dispatcher { stage: Stage::Draining, in_flight }, quiet)
                        }
                    },
                    other => (Dispatcher { stage: other, in_flight }, quiet),
                }
            },
        }
    }
}

/// The place among `requests` of the request with the id `id`, if there is
/// one.
fn find(requests: &Vec<InFlight>, id: u64) -> (found: Option<usize>)
    requires
        distinct(requests@),
    ensures
        found.is_some() <==> holds(requests@, id),
        found matches Some(index) ==> index == slot(requests@, id) && index < requests@.len()
            && requests@[index as int].id == id,
{
    let mut i: usize = 0;
    while i < requests.len()
        invariant
            i <= requests.len(),
            distinct(requests@),
            forall|k: int| 0 <= k < i ==> (#[trigger] requests@[k]).id != id,
        decreases requests.len() - i,
    {
        if requests[i].id == id {
            return Some(i);
        }
        i = i + 1;
    }
    None
}

/// Takes the request at `index` out of the requests in flight; a loop that
/// was draining and has none left is closed, and lets the transport go.
fn settle(stage: Stage, requests: &mut Vec<InFlight>, index: usize) -> (out: (Stage, bool))
    requires
        index < old(requests)@.len(),
        (DispatchState { stage, in_flight: old(requests)@ }).wf(),
    ensures
        (DispatchState { stage: out.0, in_flight: final(requests)@ }).wf(),
        (DispatchState { stage: out.0, in_flight: final(requests)@ }) == (DispatchState {
            stage,
            in_flight: old(requests)@,
        }).settled(index as int),
        out.1 == (DispatchState { stage, in_flight: old(requests)@ }).settling_releases(
            index as int,
        ),
{
    requests.remove(index);
    let draining = match stage {
        Stage::Draining => true,
        _ => false,
    };
    if draining && requests.len() == 0 {
        (Stage::Closed, true)
    } else {
        (stage, false)
    }
}

/// A request is among the requests in flight at the place that [`slot`]
/// names, and at no other.
pub proof fn lemma_slot_is_the_place(requests: Seq<InFlight>, id: u64, index: int)
    requires
        distinct(requests),
        0 <= index < requests.len(),
        requests[index].id == id,
    ensures
        holds(requests, id),
        slot(requests, id) == index,
{
}

/// Every event takes a well-formed state to a well-formed state.
pub proof fn lemma_next_is_well_formed(state: DispatchState, event: Event)
    requires
        state.wf(),
        event matches Event::Request { id, deadline } ==> deadline.wf(),
    ensures
        state.next(event).wf(),
{
    match event {
        Event::Request { id, deadline } => {
            if state.stage == Stage::Open && !holds(state.in_flight, id) {
                let grown = state.in_flight.push(InFlight { id, deadline });
                assert(distinct(grown));
            }
        },
        Event::Completed { id, now } => {
            if holds(state.in_flight, id) {
                lemma_settled_is_well_formed(state, slot(state.in_flight, id));
            }
        },
        Event::DeadlineElapsed { id, now } => {
            if holds(state.in_flight, id) {
                lemma_settled_is_well_formed(state, slot(state.in_flight, id));
            }
        },
        _ => {},
    }
}

/// To answer a request in flight leaves a well-formed state, in which that
/// request is no longer in flight.
pub proof fn lemma_settled_is_well_formed(state: DispatchState, index: int)
    requires
        state.wf(),
        0 <= index < state.in_flight.len(),
    ensures
        state.settled(index).wf(),
        !holds(state.settled(index).in_flight, state.in_flight[index].id),
        state.settled(index).in_flight.len() == state.in_flight.len() - 1,
{
    let rest = state.in_flight.remove(index);
    assert(distinct(rest));
}

/// A request is answered once: when the loop has sent a response for it, the
/// request is no longer in flight, so that whatever its operation or its
/// timer reports afterwards is thrown away or passed over.
pub proof fn lemma_one_response_per_request(state: DispatchState, event: Event, later: AbsoluteTime)
    requires
        state.wf(),
        state.reaction(event).action is Respond,
    ensures
        ({
            let id = state.reaction(event).action->Respond_id;
            let after = state.next(event);
            &&& !holds(after.in_flight, id)
            &&& after.reaction(Event::Completed { id, now: later }).action == Action::Discard { id }
            &&& after.reaction(Event::DeadlineElapsed { id, now: later }).action == Action::Nothing
            &&& after.next(Event::Completed { id, now: later }) == after
            &&& after.next(Event::DeadlineElapsed { id, now: later }) == after
        }),
{
    match event {
        Event::Completed { id, now } => {
            let index = slot(state.in_flight, id);
            lemma_settled_is_well_formed(state, index);
        },
        Event::DeadlineElapsed { id, now } => {
            let index = slot(state.in_flight, id);
            lemma_settled_is_well_formed(state, index);
        },
        _ => {},
    }
}

/// The race of an operation against its deadline: for a request in flight,
/// an operation that finishes before the deadline is reached has its result
/// sent, one that finishes later has the finding sent that the deadline was
/// exceeded, and a timer that fires once the deadline is reached has that
/// finding sent at once.
pub proof fn lemma_deadline_race(state: DispatchState, index: int, now: AbsoluteTime)
    requires
        state.wf(),
        0 <= index < state.in_flight.len(),
    ensures
        ({
            let request = state.in_flight[index];
            let completed = state.reaction(Event::Completed { id: request.id, now }).action;
            let elapsed = state.reaction(Event::DeadlineElapsed { id: request.id, now }).action;
            &&& now@ < request.deadline@ ==> completed == Action::Respond {
                id: request.id,
                reply: Reply::Normal,
            } && elapsed == Action::Nothing
            &&& now@ >= request.deadline@ ==> completed == Action::Respond {
                id: request.id,
                reply: Reply::DeadlineExceeded,
            } && elapsed == Action::Respond { id: request.id, reply: Reply::DeadlineExceeded }
        }),
{
    lemma_slot_is_the_place(state.in_flight, state.in_flight[index].id, index);
}

/// The transport is let go only by the event that closes the loop, and a
/// closed loop has no request in flight: what was in flight when the channel
/// ended has been answered before.
pub proof fn lemma_release_follows_drain(state: DispatchState, event: Event)
    requires
        state.wf(),
    ensures
        state.reaction(event).release_transport ==> state.stage != Stage::Closed && state.next(
            event,
        ).stage == Stage::Closed && state.next(event).in_flight.len() == 0,
        state.next(event).stage == Stage::Closed && state.stage != Stage::Closed ==> state.reaction(
            event,
        ).release_transport,
{
}

/// A closed loop stays closed: no event changes it, starts an operation or
/// sends a response, and the transport is not let go a second time.
pub proof fn lemma_closed_is_final(state: DispatchState, event: Event)
    requires
        state.wf(),
        state.stage == Stage::Closed,
    ensures
        state.next(event) == state,
        !(state.reaction(event).action is Start),
        !(state.reaction(event).action is Respond),
        !state.reaction(event).release_transport,
{
}

} // verus!
