//! The finite-state machine that drives a client: one transition per tick,
//! decided by what the transport operation of the current state reported.
use crate::api::ApiClientError;
use crate::opamp::Channel;
use vstd::prelude::*;

verus! {

/// The states of a client, each with the short token that the step leading to
/// it reported.
#[derive(Clone, Debug, PartialEq)]
pub enum State {
    Disconnected(String),
    Connecting(String),
    Connected(String),
    Polling(String),
    Sending(String),
    Waiting(String),
}

/// What a transport operation reports back to the state machine.
#[derive(Clone, Debug, PartialEq)]
pub enum StateResponse {
    /// The operation made progress; the token travels to the next state.
    Reply(String),
    /// A recoverable failure.
    Error(String),
    /// Nothing happened.
    Nothing,
}

/// A state without its token.
#[derive(Clone, Copy, Debug, PartialEq, Eq, Structural)]
pub enum Phase {
    Disconnected,
    Connecting,
    Connected,
    Polling,
    Sending,
    Waiting,
}

/// The transport operation that a state invokes on its tick.
#[derive(Clone, Copy, Debug, PartialEq, Eq, Structural)]
pub enum Operation {
    /// No operation: the tick only moves on.
    Idle,
    Connect,
    Handshake,
    Poll,
    Send,
    Wait,
}

/// The mathematical value of a [`State`].
pub struct StateView {
    pub phase: Phase,
    pub token: Seq<char>,
}

/// What a tick observed, as a mathematical value: the three responses of a
/// transport operation, and the hard failure of one.
pub enum Outcome {
    Reply(Seq<char>),
    Quiet,
    Error(Seq<char>),
    Exception(Seq<char>),
}

impl View for State {
    type V = StateView;

    open spec fn view(&self) -> StateView {
        match *self {
            State::Disconnected(t) => StateView { phase: Phase::Disconnected, token: t@ },
            State::Connecting(t) => StateView { phase: Phase::Connecting, token: t@ },
            State::Connected(t) => StateView { phase: Phase::Connected, token: t@ },
            State::Polling(t) => StateView { phase: Phase::Polling, token: t@ },
            State::Sending(t) => StateView { phase: Phase::Sending, token: t@ },
            State::Waiting(t) => StateView { phase: Phase::Waiting, token: t@ },
        }
    }
}

impl View for StateResponse {
    type V = Outcome;

    open spec fn view(&self) -> Outcome {
        match *self {
            StateResponse::Reply(t) => Outcome::Reply(t@),
            StateResponse::Error(t) => Outcome::Error(t@),
            StateResponse::Nothing => Outcome::Quiet,
        }
    }
}

/// The outcome that the result of a transport operation stands for. A hard
/// failure carries the text of its error.
pub open spec fn outcome_of(result: Result<StateResponse, ApiClientError>) -> Outcome {
    match result {
        Ok(response) => response@,
        Err(e) => Outcome::Exception(e.details@),
    }
}

/// The operation invoked in each phase.
pub open spec fn operation_of(phase: Phase) -> Operation {
    match phase {
        Phase::Disconnected => Operation::Idle,
        Phase::Connecting => Operation::Connect,
        Phase::Connected => Operation::Handshake,
        Phase::Polling => Operation::Poll,
        Phase::Sending => Operation::Send,
        Phase::Waiting => Operation::Wait,
    }
}

/// The state with the given phase and token.
pub open spec fn at(phase: Phase, token: Seq<char>) -> StateView {
    StateView { phase, token }
}

/// The transition table. A disconnected client starts to connect whatever was
/// observed. A reply moves forward and hands its token on; silence moves
/// forward with an empty token, or stays where polling and waiting are
/// concerned; a recoverable error falls back to polling once a handshake was
/// made and to disconnected before; a hard failure forces a reconnect.
pub open spec fn transition(s: StateView, o: Outcome) -> StateView {
    match s.phase {
        Phase::Disconnected => at(Phase::Connecting, Seq::empty()),
        Phase::Connecting => match o {
            Outcome::Reply(t) => at(Phase::Connected, t),
            Outcome::Quiet => at(Phase::Connected, Seq::empty()),
            Outcome::Error(t) => at(Phase::Disconnected, t),
            Outcome::Exception(t) => at(Phase::Disconnected, t),
        },
        Phase::Connected => match o {
            Outcome::Reply(t) => at(Phase::Sending, t),
            Outcome::Quiet => at(Phase::Polling, Seq::empty()),
            Outcome::Error(t) => at(Phase::Disconnected, t),
            Outcome::Exception(t) => at(Phase::Disconnected, t),
        },
        Phase::Polling => match o {
            Outcome::Reply(t) => at(Phase::Sending, t),
            Outcome::Quiet => s,
            Outcome::Error(t) => at(Phase::Disconnected, t),
            Outcome::Exception(t) => at(Phase::Connecting, t),
        },
        Phase::Sending => match o {
            Outcome::Reply(t) => at(Phase::Waiting, t),
            Outcome::Quiet => at(Phase::Polling, Seq::empty()),
            Outcome::Error(t) => at(Phase::Polling, t),
            Outcome::Exception(t) => at(Phase::Connecting, t),
        },
        Phase::Waiting => match o {
            Outcome::Reply(t) => at(Phase::Polling, t),
            Outcome::Quiet => s,
            Outcome::Error(t) => at(Phase::Polling, t),
            Outcome::Exception(t) => at(Phase::Connecting, t),
        },
    }
}

impl State {
    /// The phase of this state.
    pub fn phase(&self) -> (p: Phase)
        ensures
            p == self@.phase,
    {
        match self {
            State::Disconnected(_) => Phase::Disconnected,
            State::Connecting(_) => Phase::Connecting,
            State::Connected(_) => Phase::Connected,
            State::Polling(_) => Phase::Polling,
            State::Sending(_) => Phase::Sending,
            State::Waiting(_) => Phase::Waiting,
        }
    }

    /// The token of this state.
    pub fn token(&self) -> (t: &String)
        ensures
            t@ == self@.token,
    {
        match self {
            State::Disconnected(t) => t,
            State::Connecting(t) => t,
            State::Connected(t) => t,
            State::Polling(t) => t,
            State::Sending(t) => t,
            State::Waiting(t) => t,
        }
    }

    /// The state with the given phase and token.
    pub fn with(phase: Phase, token: String) -> (s: State)
        ensures
            s@ == at(phase, token@),
    {
        match phase {
            Phase::Disconnected => State::Disconnected(token),
            Phase::Connecting => State::Connecting(token),
            Phase::Connected => State::Connected(token),
            Phase::Polling => State::Polling(token),
            Phase::Sending => State::Sending(token),
            Phase::Waiting => State::Waiting(token),
        }
    }

    /// The transport operation that the next tick invokes.
    pub fn operation(&self) -> (op: Operation)
        ensures
            op == operation_of(self@.phase),
    {
        match self {
            State::Disconnected(_) => Operation::Idle,
            State::Connecting(_) => Operation::Connect,
            State::Connected(_) => Operation::Handshake,
            State::Polling(_) => Operation::Poll,
            State::Sending(_) => Operation::Send,
            State::Waiting(_) => Operation::Wait,
        }
    }

    /// One tick on a transport that does its own input and output: invokes
    /// the operation of this state on `client` and moves on by what it
    /// returns. A disconnected client invokes nothing.
    pub fn evaluate<T: Channel>(self, client: &mut T) -> (next: Result<State, ApiClientError>)
        ensures
            next matches Ok(s) && exists|o: Outcome| s@ == #[trigger] transition(self@, o),
            self@.phase == Phase::Disconnected ==> (next matches Ok(s) && s@ == at(
                Phase::Connecting,
                Seq::empty(),
            )),
    {
        let result = match self.operation() {
            Operation::Idle => Ok(StateResponse::Nothing),
            Operation::Connect => client.connect(),
            Operation::Handshake => client.handshake(),
            Operation::Poll => client.poll(),
            Operation::Send => client.send(),
            Operation::Wait => client.wait(),
        };
        let ghost observed = outcome_of(result);
        let next = self.advance(result);
        assert(next@ == transition(self@, observed));
        Ok(next)
    }

    /// One step of the transition table: the state that follows `self` once
    /// its operation has returned `result`.
    pub fn advance(self, result: Result<StateResponse, ApiClientError>) -> (next: State)
        ensures
            next@ == transition(self@, outcome_of(result)),
    {
        match self {
            State::Disconnected(_) => State::Connecting(String::new()),
            State::Connecting(_) => match result {
                Ok(StateResponse::Reply(t)) => State::Connected(t),
                Ok(StateResponse::Nothing) => State::Connected(String::new()),
                Ok(StateResponse::Error(t)) => State::Disconnected(t),
                Err(e) => State::Disconnected(e.details),
            },
            State::Connected(_) => match result {
                Ok(StateResponse::Reply(t)) => State::Sending(t),
                Ok(StateResponse::Nothing) => State::Polling(String::new()),
                Ok(StateResponse::Error(t)) => State::Disconnected(t),
                Err(e) => State::Disconnected(e.details),
            },
            State::Polling(token) => match result {
                Ok(StateResponse::Reply(t)) => State::Sending(t),
                Ok(StateResponse::Nothing) => State::Polling(token),
                Ok(StateResponse::Error(t)) => State::Disconnected(t),
                Err(e) => State::Connecting(e.details),
            },
            State::Sending(_) => match result {
                Ok(StateResponse::Reply(t)) => State::Waiting(t),
                Ok(StateResponse::Nothing) => State::Polling(String::new()),
                Ok(StateResponse::Error(t)) => State::Polling(t),
                Err(e) => State::Connecting(e.details),
            },
            State::Waiting(token) => match result {
                Ok(StateResponse::Reply(t)) => State::Polling(t),
                Ok(StateResponse::Nothing) => State::Waiting(token),
                Ok(StateResponse::Error(t)) => State::Polling(t),
                Err(e) => State::Connecting(e.details),
            },
        }
    }
}

/// A tick on which nothing is heard leaves a polling and a waiting client
/// where it is, token included, however often it is repeated, and takes a
/// disconnected client to the start of a connection attempt, after which the
/// next tick is the attempt itself.
pub proof fn lemma_quiet_ticks(s: StateView)
    ensures
        s.phase == Phase::Waiting || s.phase == Phase::Polling ==> transition(s, Outcome::Quiet)
            == s && transition(transition(s, Outcome::Quiet), Outcome::Quiet) == s,
        s.phase == Phase::Disconnected ==> forall|o: Outcome| #[trigger]
            transition(s, o) == at(Phase::Connecting, Seq::empty()),
        s.phase == Phase::Disconnected ==> operation_of(transition(s, Outcome::Quiet).phase)
            == Operation::Connect,
{
}

} // verus!
