//! The client over a WebSocket: a full-duplex transport, in which outbound
//! messages are written as binary frames and inbound frames are read one at a
//! time and dispatched on the spot.
//!
//! The socket itself is held by the driver of the client. It is told what to
//! write and hands in what it has read.
use crate::address::{address_of, address_text, is_url};
use crate::api::{
    service_error, ApiCallbacks, ApiClientError, ConnectionSettings, HostInfo, CONNECT_EXHAUSTED,
    SOCKET_RECEIVE, SOCKET_SEND,
};
use crate::backoff::next_backoff;
use crate::codec::{frame, framed, unframe, unframed};
use crate::opamp::spec::{AgentHealth, AgentToServer, AgentToServerView, ServerToAgent};
use crate::session::{
    features_of, fresh_store, messages, refreshed, retry_pause, stamped, with_health,
    ConnectStep, Session, SessionView,
};
use crate::state::{
    at, operation_of, outcome_of, transition, Operation, Outcome, Phase, StateResponse,
};
use vstd::prelude::*;
use vstd::string::*;

verus! {

/// What can be read from a socket.
#[derive(Clone, Debug, PartialEq)]
pub enum Frame {
    Text(String),
    Binary(Vec<u8>),
    Ping(Vec<u8>),
    Pong(Vec<u8>),
    Close,
    /// A frame that is none of the others.
    Raw,
}

/// The client over a WebSocket.
pub struct WsClient<C: ApiCallbacks> {
    session: Session<C>,
    address: url::Url,
}

/// The mathematical value of a [`WsClient`].
pub struct WsClientView {
    pub session: SessionView,
    /// The address of the server. It never changes.
    pub address: url::Url,
}

/// The payload that a reading of the socket holds: that of a binary frame.
/// Other frames, the end of the stream and a failed reading hold none.
pub open spec fn payload_in(reading: Result<Option<Frame>, ApiClientError>) -> Option<Seq<u8>> {
    match reading {
        Ok(Some(Frame::Binary(bytes))) => unframed(bytes@),
        _ => None,
    }
}

/// The text of the error of a client that gives up connecting.
pub open spec fn exhausted_text(detail: Seq<char>) -> Seq<char> {
    "Failed to connect to websocket: "@ + detail
}

/// The error for a frame that could not be written, for the reason `detail`.
pub open spec fn send_failure(detail: Seq<char>) -> (u32, Seq<char>) {
    service_error(SOCKET_SEND, "Websocket send error "@ + detail)
}

/// The error for a reading that failed for the reason `detail`.
pub open spec fn receive_failure(detail: Seq<char>) -> (u32, Seq<char>) {
    (SOCKET_RECEIVE, "WebSocket receive error "@ + detail)
}

/// The messages of `queue` as they go on the wire after `seqno` messages:
/// numbered on from there in their order, all with the capabilities and
/// flags `features`.
pub open spec fn stamped_all(queue: Seq<AgentToServerView>, seqno: u64, features: (u64, u64)) -> Seq<
    AgentToServerView,
> {
    Seq::new(queue.len(), |i: int| stamped(queue[i], (seqno + i + 1) as u64, features))
}

/// The frames of one flush carry increasing sequence numbers, all above the
/// number of the last message sent before, and the capabilities and flags
/// that they were given.
pub proof fn lemma_flush_numbers_increase(
    queue: Seq<AgentToServerView>,
    seqno: u64,
    features: (u64, u64),
)
    requires
        seqno + queue.len() <= u64::MAX,
    ensures
        forall|i: int|
            0 <= i < queue.len() ==> seqno < (#[trigger] stamped_all(
                queue,
                seqno,
                features,
            )[i]).sequence_num,
        forall|i: int, j: int|
            0 <= i < j < queue.len() ==> stamped_all(queue, seqno, features)[i].sequence_num
                < stamped_all(queue, seqno, features)[j].sequence_num,
        forall|i: int|
            0 <= i < queue.len() ==> ((#[trigger] stamped_all(
                queue,
                seqno,
                features,
            )[i]).capabilities, stamped_all(queue, seqno, features)[i].flags) == features,
{
}

impl WsClientView {
    /// The session when a connection attempt begins: the agent is not known
    /// to be healthy, whatever was stored before.
    pub open spec fn cleared(self, store: AgentToServerView) -> SessionView {
        SessionView { store: Some(with_health(store, false)), ..self.session }
    }

    /// Whether `base` is the session of this client as a connection attempt
    /// or a handshake finds it: with the health in the agent state set to
    /// unhealthy, the agent state being the stored one or, where none is
    /// stored, one created for the purpose.
    pub open spec fn opening(self, base: SessionView) -> bool {
        match self.session.store {
            Some(m) => base == self.cleared(m),
            None => exists|m: AgentToServerView|
                #[trigger] fresh_store(m, self.session.settings, self.session.host) && base
                    == self.cleared(m),
        }
    }

    /// The response and the pause that a connection attempt comes to, and
    /// the count of failed attempts after it.
    pub open spec fn attempted(self, opened: Result<(), String>, retry_limit: u32) -> (
        u32,
        Outcome,
        Option<u64>,
    ) {
        match opened {
            Ok(_) => (0, Outcome::Reply("connected"@), None),
            Err(detail) => {
                let count = next_backoff(self.session.backoff);
                (
                    count,
                    match retry_pause(count, retry_limit) {
                        Some(_) => Outcome::Quiet,
                        None => Outcome::Exception(exhausted_text(detail@)),
                    },
                    retry_pause(count, retry_limit),
                )
            },
        }
    }
}

impl<C: ApiCallbacks> View for WsClient<C> {
    type V = WsClientView;

    closed spec fn view(&self) -> WsClientView {
        WsClientView { session: self.session@, address: self.address }
    }
}

/// The error for a frame that could not be written.
pub fn send_error(detail: &str) -> (e: ApiClientError)
    ensures
        e@ == send_failure(detail@),
{
    let mut text = String::from_str("Websocket send error ");
    text.append(detail);
    ApiClientError::new(SOCKET_SEND, text.as_str())
}

/// The error for a reading that failed.
pub fn receive_error(detail: &str) -> (e: ApiClientError)
    ensures
        e@ == receive_failure(detail@),
{
    let mut details = String::from_str("WebSocket receive error ");
    details.append(detail);
    ApiClientError { code: SOCKET_RECEIVE, details }
}

/// The payload that a reading of the socket holds, if it holds one.
pub fn inbound_payload(reading: Result<Option<Frame>, ApiClientError>) -> (payload: Option<
    Vec<u8>,
>)
    ensures
        payload is Some <==> payload_in(reading) is Some,
        payload matches Some(p) ==> payload_in(reading) == Some(p@),
{
    match reading {
        Ok(Some(Frame::Binary(bytes))) => unframe(bytes.as_slice()),
        _ => None,
    }
}

/// The frame that carries the encoded message `payload` to the server: a
/// binary frame, with the header byte before the payload.
pub fn outbound_frame(payload: &[u8]) -> (out: Frame)
    ensures
        out matches Frame::Binary(bytes) && bytes@ == framed(payload@),
{
    Frame::Binary(frame(payload))
}

/// The response of a send, given what came of writing the frames: a failure
/// to write is a recoverable error with the text of the failure.
pub fn send_response(written: Result<(), ApiClientError>) -> (response: Result<
    StateResponse,
    ApiClientError,
>)
    ensures
        outcome_of(response) == match written {
            Ok(_) => Outcome::Reply("messages sent"@),
            Err(e) => Outcome::Error(e.details@),
        },
{
    match written {
        Ok(_) => Ok(StateResponse::Reply(String::from_str("messages sent"))),
        Err(e) => Ok(StateResponse::Error(e.details)),
    }
}

impl<C: ApiCallbacks> WsClient<C> {
    /// A client for the server that `settings` name: disconnected, with
    /// nothing stored or queued.
    pub fn new(settings: ConnectionSettings, callback: C, host: HostInfo) -> (client: Self)
        requires
            is_url(address_text(settings)),
        ensures
            client@.session == (SessionView {
                settings,
                host,
                store: None,
                outbox: Seq::empty(),
                seqno: 0,
                backoff: 0,
                state: at(Phase::Disconnected, Seq::empty()),
            }),
            client@.session.wf(),
    {
        let address = match address_of(&settings) {
            Some(url) => url,
            None => vstd::pervasive::unreached(),
        };
        WsClient { session: Session::new(settings, callback, host), address }
    }

    /// A client for the server that `settings` name, where these name a URL.
    pub fn try_new(settings: ConnectionSettings, callback: C, host: HostInfo) -> (client: Option<
        Self,
    >)
        ensures
            client is Some <==> is_url(address_text(settings)),
            client matches Some(c) ==> c@.session == (SessionView {
                settings,
                host,
                store: None,
                outbox: Seq::empty(),
                seqno: 0,
                backoff: 0,
                state: at(Phase::Disconnected, Seq::empty()),
            }) && c@.session.wf(),
    {
        if address_of(&settings).is_some() {
            Some(Self::new(settings, callback, host))
        } else {
            None
        }
    }

    /// The address of the server: the URL that the settings named when the
    /// client was made.
    pub fn address(&self) -> (address: &url::Url)
        ensures
            *address == self@.address,
    {
        &self.address
    }

    /// The identifier of the agent instance.
    pub fn get_instance_id(&self) -> (id: &String)
        ensures
            id@ == self@.session.instance(),
    {
        self.session.get_instance_id()
    }

    /// What the transports have in common of this client.
    pub fn session(&self) -> (session: &Session<C>)
        ensures
            session@ == self@.session,
    {
        &self.session
    }

    /// The agent state, which is created on the first call.
    pub fn get_status(&mut self) -> (status: Result<AgentToServer, ApiClientError>)
        requires
            old(self)@.session.wf(),
        ensures
            final(self)@.address == old(self)@.address,
            final(self)@.session.wf(),
            status matches Ok(m) && final(self)@.session.store == Some(m@),
            final(self)@.session == (SessionView {
                store: final(self)@.session.store,
                ..old(self)@.session
            }),
            old(self)@.session.store is Some ==> final(self)@.session.store == old(
                self,
            )@.session.store,
            old(self)@.session.store is None ==> fresh_store(
                final(self)@.session.store->0,
                old(self)@.session.settings,
                old(self)@.session.host,
            ),
    {
        self.session.get_status()
    }

    /// Overwrites the health in the agent state, which is created first where
    /// it does not exist yet.
    pub fn set_health(&mut self, healthy: bool)
        requires
            old(self)@.session.wf(),
        ensures
            final(self)@.address == old(self)@.address,
            final(self)@.session.wf(),
            final(self)@.session == (SessionView {
                store: final(self)@.session.store,
                ..old(self)@.session
            }),
            old(self)@.session.store matches Some(m) ==> final(self)@.session.store == Some(
                with_health(m, healthy),
            ),
            old(self)@.session.store is None ==> exists|m: AgentToServerView|
                #[trigger] fresh_store(m, old(self)@.session.settings, old(self)@.session.host)
                    && final(self)@.session.store == Some(with_health(m, healthy)),
    {
        self.session.set_health(healthy)
    }

    /// The health in the agent state, with its time refreshed to `nanos`.
    pub fn get_health_at(&self, nanos: u128) -> (health: Option<AgentHealth>)
        requires
            self@.session.wf(),
            self@.session.store is Some,
        ensures
            health matches Some(h) && h@ == refreshed(self@.session.store->0.health->0, nanos),
    {
        self.session.get_health_at(nanos)
    }

    /// Takes in what came of opening the socket.
    ///
    /// Whatever came of it, the agent is not known to be healthy before it
    /// polls. An open socket is a connection, and the count of failed
    /// attempts starts again. A failure is followed by a pause that doubles
    /// with every failure, until `retry_limit` failures are passed: then the
    /// client gives up with an error.
    pub fn connect(&mut self, opened: Result<(), String>, retry_limit: u32) -> (step: ConnectStep)
        requires
            old(self)@.session.wf(),
        ensures
            final(self)@.address == old(self)@.address,
            final(self)@.session.wf(),
            final(self)@.session.store is Some,
            old(self)@.opening(
                SessionView { backoff: old(self)@.session.backoff, ..final(self)@.session },
            ),
            final(self)@.session.backoff == old(self)@.attempted(opened, retry_limit).0,
            outcome_of(step.response) == old(self)@.attempted(opened, retry_limit).1,
            step.pause_secs == old(self)@.attempted(opened, retry_limit).2,
            step.response matches Err(e) ==> e.code == CONNECT_EXHAUSTED,
    {
        self.session.set_health(false);
        match opened {
            Ok(_) => {
                self.session.connected();
                ConnectStep {
                    response: Ok(StateResponse::Reply(String::from_str("connected"))),
                    pause_secs: None,
                }
            },
            Err(detail) => match self.session.connect_failed(retry_limit) {
                Some(secs) => ConnectStep {
                    response: Ok(StateResponse::Nothing),
                    pause_secs: Some(secs),
                },
                None => {
                    let mut details = String::from_str("Failed to connect to websocket: ");
                    details.append(detail.as_str());
                    ConnectStep {
                        response: Err(ApiClientError { code: CONNECT_EXHAUSTED, details }),
                        pause_secs: None,
                    }
                },
            },
        }
    }

    /// Queues the agent state as the first message to the server. The agent
    /// is not known to be healthy before it polls.
    pub fn handshake(&mut self) -> (response: Result<StateResponse, ApiClientError>)
        requires
            old(self)@.session.wf(),
        ensures
            final(self)@.address == old(self)@.address,
            final(self)@.session.wf(),
            outcome_of(response) == Outcome::Reply("handshake enqueued"@),
            final(self)@.session.store matches Some(status) && old(self)@.opening(
                SessionView { outbox: old(self)@.session.outbox, ..final(self)@.session },
            ) && final(self)@.session.outbox == old(self)@.session.outbox.push(status),
    {
        self.session.set_health(false);
        match self.session.get_status() {
            Ok(status) => {
                self.session.enqueue(status);
                assert(self@.session.outbox =~= old(self)@.session.outbox.push(
                    self@.session.store->0,
                ));
                Ok(StateResponse::Reply(String::from_str("handshake enqueued")))
            },
            Err(e) => vstd::pervasive::unreached(),
        }
    }

    /// The first half of a poll, at the time `now`. An agent that polls again
    /// reports itself healthy. Where the queue holds anything then, the poll
    /// ends with the response to flush it. Else nothing is returned: a frame
    /// is to be read, and the poll is to be ended with what it held.
    pub fn poll_begin_at(&mut self, now: u128) -> (response: Option<StateResponse>)
        requires
            old(self)@.session.wf(),
            old(self)@.session.store is Some,
        ensures
            final(self)@.address == old(self)@.address,
            final(self)@.session == old(self)@.session.recovered(now),
            final(self)@.session.wf(),
            final(self)@.session.healthy(),
            opt_view(response) == if final(self)@.session.outbox.len() > 0 {
                Some(Outcome::Reply("flushing queue"@))
            } else {
                None
            },
    {
        self.session.report_recovery_at(now);
        if self.session.pending() > 0 {
            Some(StateResponse::Reply(String::from_str("flushing queue")))
        } else {
            None
        }
    }

    /// The second half of a poll: the message that was read, if there was
    /// one, is dispatched, and the callback of the loop is asked.
    pub fn poll_end(&mut self, inbound: Option<ServerToAgent>) -> (response: Result<
        StateResponse,
        ApiClientError,
    >)
        requires
            old(self)@.session.wf(),
            old(self)@.session.store is Some,
        ensures
            final(self)@.address == old(self)@.address,
            final(self)@.session.wf(),
            exists|dispatched: SessionView|
                #[trigger] old(self)@.session.received(dispatched, inbound) && dispatched.looped(
                    final(self)@.session,
                ),
            outcome_of(response) == final(self)@.session.pending_outcome(),
            old(self)@.session.healthy() ==> final(self)@.session.healthy(),
    {
        if let Some(msg) = &inbound {
            self.session.dispatch(msg);
        }
        let ghost dispatched = self@.session;
        assert(old(self)@.session.received(dispatched, inbound));
        self.session.run_loop();
        Ok(self.session.pending_response())
    }

    /// Takes everything out of the queue and makes it ready for the wire:
    /// every message gets the next sequence number, and the capabilities and
    /// flags of the agent state, or none where there is no agent state.
    pub fn flush(&mut self) -> (frames: Vec<AgentToServer>)
        requires
            old(self)@.session.seqno + old(self)@.session.outbox.len() <= u64::MAX,
        ensures
            final(self)@.address == old(self)@.address,
            messages(frames@) == stamped_all(
                old(self)@.session.outbox,
                old(self)@.session.seqno,
                features_of(old(self)@.session.store, (0, 0)),
            ),
            frames@.len() == old(self)@.session.outbox.len(),
            forall|i: int|
                0 <= i < frames@.len() ==> (#[trigger] frames@[i])@ == stamped(
                    old(self)@.session.outbox[i],
                    (old(self)@.session.seqno + i + 1) as u64,
                    features_of(old(self)@.session.store, (0, 0)),
                ),
            final(self)@.session == (SessionView {
                outbox: Seq::empty(),
                seqno: (old(self)@.session.seqno + old(self)@.session.outbox.len()) as u64,
                ..old(self)@.session
            }),
    {
        let mut frames: Vec<AgentToServer> = Vec::new();
        let ghost queue = self@.session.outbox;
        let ghost first = self@.session.seqno;
        let ghost features = features_of(self@.session.store, (0, 0));
        assert(queue.skip(0) =~= queue);
        while self.session.pending() > 0
            invariant
                frames@.len() <= queue.len(),
                first + queue.len() <= u64::MAX,
                queue == old(self)@.session.outbox,
                first == old(self)@.session.seqno,
                features == features_of(old(self)@.session.store, (0, 0)),
                self@.address == old(self)@.address,
                self@.session == (SessionView {
                    outbox: queue.skip(frames@.len() as int),
                    seqno: (first + frames@.len()) as u64,
                    ..old(self)@.session
                }),
                forall|i: int|
                    0 <= i < frames@.len() ==> (#[trigger] frames@[i])@ == stamped(
                        queue[i],
                        (first + i + 1) as u64,
                        features,
                    ),
            decreases self@.session.outbox.len(),
        {
            let ghost done = frames@.len() as int;
            match self.session.take_next() {
                Some(message) => {
                    let out = self.session.stamp(message, (0, 0));
                    frames.push(out);
                    assert(queue.skip(done).drop_first() =~= queue.skip(done + 1));
                },
                None => {},
            }
        }
        assert(queue.skip(frames@.len() as int).len() == 0);
        assert(self@.session.outbox =~= Seq::empty());
        assert(messages(frames@) =~= stamped_all(queue, first as u64, features));
        frames
    }

    /// Waits for nothing: what the server has to say is read by the polls.
    pub fn wait(&mut self) -> (response: Result<StateResponse, ApiClientError>)
        ensures
            final(self)@ == old(self)@,
            outcome_of(response) == Outcome::Reply(Seq::empty()),
    {
        Ok(StateResponse::Reply(String::new()))
    }

    /// The operation that the next tick invokes.
    pub fn operation(&self) -> (op: Operation)
        ensures
            op == operation_of(self@.session.state.phase),
    {
        self.session.state().operation()
    }

    /// Moves the state machine on by one tick, in which the operation of the
    /// current state has returned `result`.
    pub fn advance(&mut self, result: Result<StateResponse, ApiClientError>)
        ensures
            final(self)@.address == old(self)@.address,
            final(self)@.session == (SessionView {
                state: transition(old(self)@.session.state, outcome_of(result)),
                ..old(self)@.session
            }),
    {
        self.session.advance(result);
    }
}

/// The response of a step of a poll, as a mathematical value.
pub open spec fn opt_view(response: Option<StateResponse>) -> Option<Outcome> {
    match response {
        Some(r) => Some(r@),
        None => None,
    }
}

} // verus!
