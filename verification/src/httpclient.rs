//! The client over HTTP: a half-duplex transport, in which every outbound
//! message is one request, and what the server has to say comes back as the
//! response to it.
//!
//! The requests themselves are made by the driver of the client. It is told
//! what to send and hands back what came of it.
use crate::address::{address_of, address_text, is_url};
use crate::api::{ApiCallbacks, ApiClientError, ConnectionSettings, HostInfo, CONNECT_EXHAUSTED};
use crate::backoff::next_backoff;
use crate::codec::{
    body_of, header_views, headers_of, request_body, request_headers, REQUEST_TIMEOUT_SECS,
};
use crate::opamp::spec::agent::opt_view;
use crate::opamp::spec::{AgentHealth, AgentToServer, AgentToServerView, ServerToAgent};
use crate::session::{
    features_of, fresh_store, heartbeat, refreshed, retry_pause, stamped, with_health, ConnectStep,
    Session, SessionView,
};
use crate::state::{
    at, operation_of, outcome_of, transition, Operation, Outcome, Phase, StateResponse,
};
use vstd::prelude::*;
use vstd::string::*;

verus! {

/// The nanoseconds of silence after which the client sends a heartbeat.
pub const SERVER_POLL_DELAY: u128 = 30_000_000_000;

/// The status that stands for a server that is not there.
pub const NOT_FOUND: u16 = 404;

/// What came of probing the server.
#[derive(Clone, Debug, PartialEq)]
pub enum Probe {
    /// The server answered, with this status and this text for it.
    Answered { status: u16, text: String },
    /// The server could not be reached; the text says why.
    Unreachable(String),
}

/// One request, ready to be made.
#[derive(Clone, Debug, PartialEq)]
pub struct Request {
    pub headers: Vec<(String, String)>,
    pub body: Vec<u8>,
    pub timeout_secs: u64,
}

/// What the client asks of its driver while it sends.
#[derive(Debug, PartialEq)]
pub enum SendStep {
    /// Post this message, and report what came of it.
    Post(AgentToServer),
    /// Nothing is left to post; this is the response of the send.
    Done(StateResponse),
}

/// The client over HTTP.
pub struct HttpClient<C: ApiCallbacks> {
    session: Session<C>,
    address: url::Url,
    last_sent_timestamp: u128,
    inbox: Vec<ServerToAgent>,
    compress: bool,
}

/// The mathematical value of an [`HttpClient`].
pub struct HttpClientView {
    pub session: SessionView,
    /// The time at which the last message was handed out to be posted.
    pub last_sent: u128,
    /// The responses that wait to be dispatched, oldest first.
    pub inbox: Seq<ServerToAgent>,
    /// Whether the bodies of requests are compressed.
    pub compress: bool,
    /// The address of the server. It never changes.
    pub address: url::Url,
}

/// Whether a heartbeat is due at `now`: more than the delay has passed since
/// the last message was sent.
pub open spec fn heartbeat_due(last_sent: u128, now: u128) -> bool {
    now - last_sent > SERVER_POLL_DELAY
}

/// The oldest response in an inbox, if there is one.
pub open spec fn oldest(inbox: Seq<ServerToAgent>) -> Option<ServerToAgent> {
    if inbox.len() > 0 {
        Some(inbox[0])
    } else {
        None
    }
}

/// The response to a probe that the server answered: any status but the one
/// for a missing server says that it is there.
pub open spec fn answered_outcome(status: u16, text: Seq<char>) -> Outcome {
    if status != NOT_FOUND {
        Outcome::Reply("remote server present"@)
    } else {
        Outcome::Error(text)
    }
}

/// The text of the error of a client that gives up connecting.
pub open spec fn exhausted_text(detail: Seq<char>) -> Seq<char> {
    "Failed to connect to endpoint: "@ + detail
}

impl HttpClientView {
    /// The client after a probe, with the response and the pause that the
    /// probe comes to.
    pub open spec fn probed(self, probe: Probe, retry_limit: u32) -> (
        HttpClientView,
        Outcome,
        Option<u64>,
    ) {
        match probe {
            Probe::Answered { status, text } => (
                if status != NOT_FOUND {
                    HttpClientView { session: SessionView { backoff: 0, ..self.session }, ..self }
                } else {
                    self
                },
                answered_outcome(status, text@),
                None,
            ),
            Probe::Unreachable(detail) => {
                let count = next_backoff(self.session.backoff);
                (
                    HttpClientView {
                        session: SessionView { backoff: count, ..self.session },
                        ..self
                    },
                    match retry_pause(count, retry_limit) {
                        Some(_) => Outcome::Error("endpoint not responding: retrying .."@),
                        None => Outcome::Exception(exhausted_text(detail@)),
                    },
                    retry_pause(count, retry_limit),
                )
            },
        }
    }

    /// Whether `after` and `response` are what a poll at `now` makes of this
    /// client. An agent that polls again reports itself healthy. Where the
    /// queue holds anything then, it is to be flushed. Else, where a heartbeat
    /// is due, one is queued. Else the oldest response in the inbox, if there
    /// is one, is dispatched, and the callback of the loop is asked.
    pub open spec fn polled(self, after: HttpClientView, response: Outcome, now: u128) -> bool {
        let recovered = self.session.recovered(now);
        if recovered.outbox.len() > 0 {
            &&& after == (HttpClientView { session: recovered, ..self })
            &&& response == Outcome::Reply("flushing queue"@)
        } else if heartbeat_due(self.last_sent, now) {
            &&& after == (HttpClientView {
                session: recovered.queued(seq![heartbeat(recovered.instance())]),
                ..self
            })
            &&& response == Outcome::Reply("server poll"@)
        } else {
            &&& after == (HttpClientView {
                session: after.session,
                inbox: if self.inbox.len() > 0 {
                    self.inbox.drop_first()
                } else {
                    self.inbox
                },
                ..self
            })
            &&& exists|dispatched: SessionView|
                #[trigger] recovered.received(dispatched, oldest(self.inbox)) && dispatched.looped(
                    after.session,
                )
            &&& response == after.session.pending_outcome()
        }
    }

    /// The client after it has handed out its oldest queued message to be
    /// posted at `now`, and that message as it goes on the wire: with the
    /// next sequence number, and with the capabilities and flags of the agent
    /// state, or its own where there is no agent state.
    pub open spec fn posting(self, now: u128) -> (HttpClientView, AgentToServerView) {
        let m = self.session.outbox[0];
        (
            HttpClientView {
                session: SessionView {
                    outbox: self.session.outbox.drop_first(),
                    seqno: (self.session.seqno + 1) as u64,
                    ..self.session
                },
                last_sent: now,
                ..self
            },
            stamped(
                m,
                (self.session.seqno + 1) as u64,
                features_of(self.session.store, (m.capabilities, m.flags)),
            ),
        )
    }

    /// The client after a post came to `result`, and the response of the
    /// send where the post ends it: a message of the server joins the inbox;
    /// a response that could not be read is dropped; a failure ends the send,
    /// and what was still queued is dropped.
    pub open spec fn posted(self, result: Result<Option<ServerToAgent>, ApiClientError>) -> (
        HttpClientView,
        Option<Outcome>,
    ) {
        match result {
            Ok(Some(message)) => (
                HttpClientView { inbox: self.inbox.push(message), ..self },
                None,
            ),
            Ok(None) => (self, None),
            Err(e) => (
                HttpClientView {
                    session: SessionView { outbox: Seq::empty(), ..self.session },
                    ..self
                },
                Some(Outcome::Error(e.details@)),
            ),
        }
    }
}

/// Two messages that are posted one after the other carry increasing
/// sequence numbers, both above the number of the last message sent before.
pub proof fn lemma_post_numbers_increase(client: HttpClientView, first_at: u128, second_at: u128)
    requires
        client.session.outbox.len() >= 2,
        client.session.seqno + 2 <= u64::MAX,
    ensures
        ({
            let first = client.posting(first_at);
            let second = first.0.posting(second_at);
            client.session.seqno < first.1.sequence_num < second.1.sequence_num
        }),
{
}

impl<C: ApiCallbacks> View for HttpClient<C> {
    type V = HttpClientView;

    closed spec fn view(&self) -> HttpClientView {
        HttpClientView {
            session: self.session@,
            last_sent: self.last_sent_timestamp,
            inbox: self.inbox@,
            compress: self.compress,
            address: self.address,
        }
    }
}

/// The body of a request, or the error in its place, as mathematical values.
pub open spec fn request_body_view(request: Result<Request, ApiClientError>) -> Result<
    Seq<u8>,
    (u32, Seq<char>),
> {
    match request {
        Ok(r) => Ok(r.body@),
        Err(e) => Err(e@),
    }
}

/// The mathematical value of what a send asks of the driver.
pub open spec fn send_step_view(step: SendStep) -> Result<AgentToServerView, Outcome> {
    match step {
        SendStep::Post(m) => Ok(m@),
        SendStep::Done(response) => Err(response@),
    }
}

impl<C: ApiCallbacks> HttpClient<C> {
    /// A client for the server that `settings` name: disconnected, with
    /// nothing stored, queued or received, and without compression.
    pub fn new(settings: ConnectionSettings, callback: C, host: HostInfo) -> (client: Self)
        requires
            is_url(address_text(settings)),
        ensures
            client@ == (HttpClientView {
                session: SessionView {
                    settings,
                    host,
                    store: None,
                    outbox: Seq::empty(),
                    seqno: 0,
                    backoff: 0,
                    state: at(Phase::Disconnected, Seq::empty()),
                },
                last_sent: 0,
                inbox: Seq::empty(),
                compress: false,
                address: client@.address,
            }),
            client@.session.wf(),
    {
        let address = match address_of(&settings) {
            Some(url) => url,
            None => vstd::pervasive::unreached(),
        };
        HttpClient {
            session: Session::new(settings, callback, host),
            address,
            last_sent_timestamp: 0,
            inbox: Vec::new(),
            compress: false,
        }
    }

    /// A client for the server that `settings` name, where these name a URL.
    pub fn try_new(settings: ConnectionSettings, callback: C, host: HostInfo) -> (client: Option<
        Self,
    >)
        ensures
            client is Some <==> is_url(address_text(settings)),
            client matches Some(c) ==> c@ == (HttpClientView {
                session: SessionView {
                    settings,
                    host,
                    store: None,
                    outbox: Seq::empty(),
                    seqno: 0,
                    backoff: 0,
                    state: at(Phase::Disconnected, Seq::empty()),
                },
                last_sent: 0,
                inbox: Seq::empty(),
                compress: false,
                address: c@.address,
            }) && c@.session.wf(),
    {
        if address_of(&settings).is_some() {
            Some(Self::new(settings, callback, host))
        } else {
            None
        }
    }

    /// The address of the server: the URL that the settings named when the
    /// client was made.
    pub fn address(&self) -> (address: &url::Url)
        ensures
            *address == self@.address,
    {
        &self.address
    }

    /// The identifier of the agent instance.
    pub fn get_instance_id(&self) -> (id: &String)
        ensures
            id@ == self@.session.instance(),
    {
        self.session.get_instance_id()
    }

    /// What the transports have in common of this client.
    pub fn session(&self) -> (session: &Session<C>)
        ensures
            session@ == self@.session,
    {
        &self.session
    }

    /// The responses that wait to be dispatched, oldest first.
    pub fn inbox(&self) -> (inbox: &Vec<ServerToAgent>)
        ensures
            inbox@ == self@.inbox,
    {
        &self.inbox
    }

    /// The number of responses that wait to be dispatched.
    pub fn received(&self) -> (n: usize)
        ensures
            n == self@.inbox.len(),
    {
        self.inbox.len()
    }

    /// The time at which the last message was handed out to be posted.
    pub fn last_sent_timestamp(&self) -> (nanos: u128)
        ensures
            nanos == self@.last_sent,
    {
        self.last_sent_timestamp
    }

    /// Turns the compression of request bodies on or off.
    pub fn set_compression(&mut self, compress: bool)
        ensures
            final(self)@ == (HttpClientView { compress, ..old(self)@ }),
    {
        self.compress = compress;
    }

    /// The agent state, which is created on the first call.
    pub fn get_status(&mut self) -> (status: Result<AgentToServer, ApiClientError>)
        requires
            old(self)@.session.wf(),
        ensures
            final(self)@.session.wf(),
            status matches Ok(m) && final(self)@.session.store == Some(m@),
            final(self)@ == (HttpClientView {
                session: SessionView { store: final(self)@.session.store, ..old(self)@.session },
                ..old(self)@
            }),
            old(self)@.session.store is Some ==> final(self)@.session.store == old(
                self,
            )@.session.store,
            old(self)@.session.store is None ==> fresh_store(
                final(self)@.session.store->0,
                old(self)@.session.settings,
                old(self)@.session.host,
            ),
    {
        self.session.get_status()
    }

    /// Overwrites the health in the agent state, which is created first where
    /// it does not exist yet.
    pub fn set_health(&mut self, healthy: bool)
        requires
            old(self)@.session.wf(),
        ensures
            final(self)@.session.wf(),
            final(self)@ == (HttpClientView {
                session: SessionView { store: final(self)@.session.store, ..old(self)@.session },
                ..old(self)@
            }),
            old(self)@.session.store matches Some(m) ==> final(self)@.session.store == Some(
                with_health(m, healthy),
            ),
            old(self)@.session.store is None ==> exists|m: AgentToServerView|
                #[trigger] fresh_store(m, old(self)@.session.settings, old(self)@.session.host)
                    && final(self)@.session.store == Some(with_health(m, healthy)),
    {
        self.session.set_health(healthy)
    }

    /// The health in the agent state, with its time refreshed to `nanos`.
    pub fn get_health_at(&self, nanos: u128) -> (health: Option<AgentHealth>)
        requires
            self@.session.wf(),
            self@.session.store is Some,
        ensures
            health matches Some(h) && h@ == refreshed(self@.session.store->0.health->0, nanos),
    {
        self.session.get_health_at(nanos)
    }

    /// Takes in what came of probing the server.
    ///
    /// A server that answers is there, unless its answer is that nothing is
    /// found at the address; the count of failed attempts starts again. A
    /// server that cannot be reached is tried again after a pause that doubles
    /// with every failure, until `retry_limit` failures are passed: then the
    /// client gives up with an error.
    pub fn connect(&mut self, probe: Probe, retry_limit: u32) -> (step: ConnectStep)
        ensures
            final(self)@ == old(self)@.probed(probe, retry_limit).0,
            outcome_of(step.response) == old(self)@.probed(probe, retry_limit).1,
            step.pause_secs == old(self)@.probed(probe, retry_limit).2,
            step.response matches Err(e) ==> e.code == CONNECT_EXHAUSTED,
    {
        match probe {
            Probe::Answered { status, text } => {
                if status != NOT_FOUND {
                    self.session.connected();
                    ConnectStep {
                        response: Ok(StateResponse::Reply(String::from_str("remote server present"))),
                        pause_secs: None,
                    }
                } else {
                    ConnectStep { response: Ok(StateResponse::Error(text)), pause_secs: None }
                }
            },
            Probe::Unreachable(detail) => {
                match self.session.connect_failed(retry_limit) {
                    Some(secs) => ConnectStep {
                        response: Ok(
                            StateResponse::Error(
                                String::from_str("endpoint not responding: retrying .."),
                            ),
                        ),
                        pause_secs: Some(secs),
                    },
                    None => {
                        let mut details = String::from_str("Failed to connect to endpoint: ");
                        details.append(detail.as_str());
                        ConnectStep {
                            response: Err(ApiClientError { code: CONNECT_EXHAUSTED, details }),
                            pause_secs: None,
                        }
                    },
                }
            },
        }
    }

    /// Queues the agent state as the first message to the server.
    pub fn handshake(&mut self) -> (response: Result<StateResponse, ApiClientError>)
        requires
            old(self)@.session.wf(),
        ensures
            final(self)@.session.wf(),
            outcome_of(response) == Outcome::Reply("Handshake enqueued"@),
            final(self)@.session.store matches Some(status) && final(self)@ == (HttpClientView {
                session: SessionView {
                    store: Some(status),
                    outbox: old(self)@.session.outbox.push(status),
                    ..old(self)@.session
                },
                ..old(self)@
            }),
            old(self)@.session.store is Some ==> final(self)@.session.store == old(
                self,
            )@.session.store,
            old(self)@.session.store is None ==> fresh_store(
                final(self)@.session.store->0,
                old(self)@.session.settings,
                old(self)@.session.host,
            ),
    {
        match self.session.get_status() {
            Ok(status) => {
                self.session.enqueue(status);
                assert(self@.session.outbox =~= old(self)@.session.outbox.push(
                    self@.session.store->0,
                ));
                Ok(StateResponse::Reply(String::from_str("Handshake enqueued")))
            },
            Err(e) => vstd::pervasive::unreached(),
        }
    }

    /// One poll, at the time `now`.
    pub fn poll_at(&mut self, now: u128) -> (response: Result<StateResponse, ApiClientError>)
        requires
            old(self)@.session.wf(),
            old(self)@.session.store is Some,
        ensures
            response is Ok,
            old(self)@.polled(final(self)@, outcome_of(response), now),
            final(self)@.session.wf(),
            final(self)@.session.healthy(),
    {
        self.session.report_recovery_at(now);
        if self.session.pending() > 0 {
            return Ok(StateResponse::Reply(String::from_str("flushing queue")));
        }
        if now > self.last_sent_timestamp && now - self.last_sent_timestamp > SERVER_POLL_DELAY {
            self.session.enqueue_heartbeat();
            return Ok(StateResponse::Reply(String::from_str("server poll")));
        }
        let ghost recovered = self@.session;
        if self.inbox.len() > 0 {
            let msg = self.inbox.remove(0);
            self.session.dispatch(&msg);
            assert(self@.inbox =~= old(self)@.inbox.drop_first());
        }
        let ghost dispatched = self@.session;
        assert(recovered.received(dispatched, oldest(old(self)@.inbox)));
        self.session.run_loop();
        Ok(self.session.pending_response())
    }

    /// Says what to post next, at the time `now`: the oldest queued message,
    /// made ready for the wire, or the response of the send where nothing is
    /// queued.
    pub fn next_post_at(&mut self, now: u128) -> (step: SendStep)
        requires
            old(self)@.session.seqno < u64::MAX,
        ensures
            old(self)@.session.outbox.len() == 0 ==> final(self)@ == old(self)@ && send_step_view(
                step,
            ) == Err::<AgentToServerView, Outcome>(Outcome::Reply("sent"@)),
            old(self)@.session.outbox.len() > 0 ==> final(self)@ == old(self)@.posting(now).0
                && send_step_view(step) == Ok::<AgentToServerView, Outcome>(
                old(self)@.posting(now).1,
            ),
    {
        match self.session.take_next() {
            Some(message) => {
                let fallback = (message.capabilities, message.flags);
                let out = self.session.stamp(message, fallback);
                self.last_sent_timestamp = now;
                SendStep::Post(out)
            },
            None => SendStep::Done(StateResponse::Reply(String::from_str("sent"))),
        }
    }

    /// Takes in what came of the last post. The response of the send is
    /// returned where the post ends it.
    pub fn post_done(&mut self, result: Result<Option<ServerToAgent>, ApiClientError>) -> (response:
        Option<StateResponse>)
        ensures
            final(self)@ == old(self)@.posted(result).0,
            opt_view(response) == old(self)@.posted(result).1,
    {
        match result {
            Ok(Some(message)) => {
                self.inbox.push(message);
                None
            },
            Ok(None) => None,
            Err(e) => {
                self.session.discard_pending();
                Some(StateResponse::Error(e.details))
            },
        }
    }

    /// The request that carries the encoded message `payload`.
    pub fn request(&self, payload: Vec<u8>) -> (request: Result<Request, ApiClientError>)
        ensures
            request_body_view(request) == body_of(payload@, self@.compress),
            request matches Ok(r) ==> header_views(r.headers@) == headers_of(
                self@.session.settings.api_key@,
                self@.compress,
            ) && r.timeout_secs == REQUEST_TIMEOUT_SECS,
    {
        match request_body(payload, self.compress) {
            Ok(body) => Ok(
                Request {
                    headers: request_headers(self.session.settings().api_key.as_str(), self.compress),
                    body,
                    timeout_secs: REQUEST_TIMEOUT_SECS,
                },
            ),
            Err(e) => Err(e),
        }
    }

    /// Waits for nothing: what the server has to say came with the responses.
    pub fn wait(&mut self) -> (response: Result<StateResponse, ApiClientError>)
        ensures
            final(self)@ == old(self)@,
            outcome_of(response) == Outcome::Reply(Seq::empty()),
    {
        Ok(StateResponse::Reply(String::new()))
    }

    /// The operation that the next tick invokes.
    pub fn operation(&self) -> (op: Operation)
        ensures
            op == operation_of(self@.session.state.phase),
    {
        self.session.state().operation()
    }

    /// Moves the state machine on by one tick, in which the operation of the
    /// current state has returned `result`.
    pub fn advance(&mut self, result: Result<StateResponse, ApiClientError>)
        ensures
            final(self)@ == (HttpClientView {
                session: SessionView {
                    state: transition(old(self)@.session.state, outcome_of(result)),
                    ..old(self)@.session
                },
                ..old(self)@
            }),
    {
        self.session.advance(result);
    }
}

} // verus!
