//! What every transport keeps of a client: the settings, the callbacks, the
//! mirror of the agent state, the queue of outbound messages, the sequence
//! number, the count of failed connection attempts and the state of the state
//! machine; and the rules on them that do not depend on the transport.
use crate::api::{ApiCallbacks, ApiClientError, ConnectionSettings, HostInfo};
use crate::backoff::{backoff_delay, delay_secs, next_backoff};
use crate::dispatch::{
    accept, asks_own_state, emitted, lemma_own_state_is_reported, plan, plan_of, reply_of,
    step_emitted, wants_own_state, Step,
};
use crate::opamp::defaults::{
    agent_description, agent_health_at, description_of, low_bits, package_statuses,
    remote_config_status, unknown_health,
};
use crate::opamp::spec::agent::{empty_message, opt_view};
use crate::opamp::spec::ServerToAgent;
use crate::opamp::spec::{
    AgentConfigMap, AgentConfigMapView, AgentDescription, AgentDescriptionView, AgentHealth,
    AgentHealthView, AgentToServer, AgentToServerView, EffectiveConfig, EffectiveConfigView,
    PackageStatusesView, RemoteConfigStatusView, RemoteConfigStatuses,
};
use crate::opamp::util::{get_time_nanos, ULID_LEN};
use crate::state::{
    at, outcome_of, transition, Outcome, Phase, State, StateResponse, StateView,
};
use vstd::prelude::*;
use vstd::string::*;

verus! {

/// What a connection attempt comes to: the response for the state machine,
/// and the seconds to let pass before the client goes on.
#[derive(Debug, PartialEq)]
pub struct ConnectStep {
    pub response: Result<StateResponse, ApiClientError>,
    pub pause_secs: Option<u64>,
}

/// The part of a client that does not depend on its transport.
pub struct Session<C: ApiCallbacks> {
    settings: ConnectionSettings,
    host: HostInfo,
    callback: C,
    agent_state: Option<AgentToServer>,
    outbox: Vec<AgentToServer>,
    seqno: u64,
    backoff: u32,
    state: State,
}

/// The mathematical value of a [`Session`].
pub struct SessionView {
    pub settings: ConnectionSettings,
    pub host: HostInfo,
    /// The mirror of the agent state; nothing before the first use.
    pub store: Option<AgentToServerView>,
    /// The messages that wait to be sent, oldest first.
    pub outbox: Seq<AgentToServerView>,
    /// The sequence number of the last message sent.
    pub seqno: u64,
    /// The failed connection attempts.
    pub backoff: u32,
    pub state: StateView,
}

/// The mathematical values of a list of messages.
pub open spec fn messages(s: Seq<AgentToServer>) -> Seq<AgentToServerView> {
    s.map_values(|m: AgentToServer| m@)
}

/// Whether a mirror of the agent state is complete: it is that of the
/// instance, not yet numbered, with every part of the state set and no
/// notice of a disconnect.
pub open spec fn populated(m: AgentToServerView, instance: Seq<char>) -> bool {
    &&& m.instance_uid == instance
    &&& m.sequence_num == 0
    &&& m.agent_description is Some
    &&& m.health is Some
    &&& m.effective_config is Some
    &&& m.remote_config_status is Some
    &&& m.package_statuses is Some
    &&& m.agent_disconnect is None
}

/// The configuration that an answer of the callbacks stands for: none where
/// they failed.
pub open spec fn configuration_of(
    answer: Result<Option<AgentConfigMap>, ApiClientError>,
) -> Option<AgentConfigMapView> {
    match answer {
        Ok(Some(map)) => Some(map@),
        _ => None,
    }
}

/// The agent state before anything has happened: the features and the
/// configuration of the callbacks, the given description and health, and the
/// defaults for the rest.
pub open spec fn initial_store(
    instance: Seq<char>,
    description: AgentDescriptionView,
    health: AgentHealthView,
    configuration: Option<AgentConfigMapView>,
    features: (u64, u64),
) -> AgentToServerView {
    AgentToServerView {
        instance_uid: instance,
        sequence_num: 0,
        agent_description: Some(description),
        capabilities: features.0,
        health: Some(health),
        effective_config: Some(EffectiveConfigView { config_map: configuration }),
        remote_config_status: Some(
            RemoteConfigStatusView {
                last_remote_config_hash: Seq::empty(),
                status: RemoteConfigStatuses::Unset.spec_value(),
                error_message: Seq::empty(),
            },
        ),
        package_statuses: Some(
            PackageStatusesView {
                packages: Seq::empty(),
                server_provided_all_packages_hash: Seq::empty(),
                error_message: Seq::empty(),
            },
        ),
        agent_disconnect: None,
        flags: features.1,
    }
}

/// Whether `m` is an agent state as it stands at its creation under
/// `settings` on `host`: with some answers of the callbacks, some fresh
/// identifier in its description and the health of an agent of which nothing
/// is known, read at some time.
pub open spec fn fresh_store(m: AgentToServerView, settings: ConnectionSettings, host: HostInfo) -> bool {
    exists|
        instance: Seq<char>,
        nanos: u128,
        configuration: Option<AgentConfigMapView>,
        features: (u64, u64),
    |
        instance.len() == ULID_LEN && m == #[trigger] initial_store(
            settings.instance_id@,
            description_of(settings.name@, settings.version@, instance, host),
            unknown_health(nanos),
            configuration,
            features,
        )
}

/// The state `m` with its health set to `healthy`; unchanged where it has no
/// health.
pub open spec fn with_health(m: AgentToServerView, healthy: bool) -> AgentToServerView {
    match m.health {
        Some(h) => AgentToServerView { health: Some(AgentHealthView { healthy, ..h }), ..m },
        None => m,
    }
}

/// The message that reports the health `health` of the instance `instance`
/// and nothing else.
pub open spec fn health_message(instance: Seq<char>, health: AgentHealthView) -> AgentToServerView {
    AgentToServerView { instance_uid: instance, health: Some(health), ..empty_message() }
}

/// The message that only names the instance: a heartbeat.
pub open spec fn heartbeat(instance: Seq<char>) -> AgentToServerView {
    AgentToServerView { instance_uid: instance, ..empty_message() }
}

/// The capabilities and flags that go on an outbound message: those of the
/// agent state, or `fallback` where there is none.
pub open spec fn features_of(store: Option<AgentToServerView>, fallback: (u64, u64)) -> (u64, u64) {
    match store {
        Some(m) => (m.capabilities, m.flags),
        None => fallback,
    }
}

/// The message `m` as it goes on the wire: numbered `seq`, with the
/// capabilities and flags `features`.
pub open spec fn stamped(m: AgentToServerView, seq: u64, features: (u64, u64)) -> AgentToServerView {
    AgentToServerView { sequence_num: seq, capabilities: features.0, flags: features.1, ..m }
}

/// The queue entries that a reply makes: itself, or none.
pub open spec fn optional(reply: Option<AgentToServerView>) -> Seq<AgentToServerView> {
    match reply {
        Some(m) => seq![m],
        None => Seq::empty(),
    }
}

/// What follows a failed connection attempt, the `count`-th in a row: a pause
/// of so many seconds before the next one, or nothing where `limit` is
/// passed and the client gives up.
pub open spec fn retry_pause(count: u32, limit: u32) -> Option<u64> {
    if count > limit {
        None
    } else {
        Some(backoff_delay(count))
    }
}

/// The health `h` as read at `nanos`: every reading refreshes its time.
pub open spec fn refreshed(h: AgentHealthView, nanos: u128) -> AgentHealthView {
    AgentHealthView { start_time_unix_nano: low_bits(nanos), ..h }
}

impl SessionView {
    /// The identifier of the agent instance.
    pub open spec fn instance(self) -> Seq<char> {
        self.settings.instance_id@
    }

    /// The mirror of the agent state is empty or complete.
    pub open spec fn wf(self) -> bool {
        self.store matches Some(m) ==> populated(m, self.instance())
    }

    /// The session after the step that opens every poll: where the health in
    /// the store says unhealthy, it is set to healthy, and a message that
    /// reports the health as healthy and as read at `nanos` joins the queue.
    pub open spec fn recovered(self, nanos: u128) -> SessionView {
        let m = self.store->0;
        let h = m.health->0;
        if h.healthy {
            self
        } else {
            SessionView {
                store: Some(with_health(m, true)),
                outbox: self.outbox.push(
                    health_message(
                        self.instance(),
                        AgentHealthView { healthy: true, ..refreshed(h, nanos) },
                    ),
                ),
                ..self
            }
        }
    }

    /// The session with `more` at the end of its queue.
    pub open spec fn queued(self, more: Seq<AgentToServerView>) -> SessionView {
        SessionView { outbox: self.outbox + more, ..self }
    }

    /// The session as it stands when `msg` is about to be answered: an agent
    /// that is asked for its own state is there to answer, so its health says
    /// healthy.
    pub open spec fn attending(self, msg: ServerToAgent) -> SessionView {
        if asks_own_state(msg, self.instance()) {
            SessionView { store: Some(with_health(self.store->0, true)), ..self }
        } else {
            self
        }
    }

    /// Whether `after` is this session once `msg` was dispatched: for some
    /// replies of the callbacks, one to each step that `msg` asks for, the
    /// queue has grown by what those steps put into it; the health says
    /// healthy where the agent was asked for its own state; and nothing else
    /// has changed.
    pub open spec fn dispatched(self, after: SessionView, msg: ServerToAgent) -> bool {
        self.attending(msg).stepped(after, plan_of(msg, self.instance()))
    }

    /// Whether `after` is this session once `steps` were taken: for some
    /// replies, one to each step, the queue has grown by what the steps put
    /// into it, and nothing else has changed.
    pub open spec fn stepped(self, after: SessionView, steps: Seq<Step>) -> bool {
        exists|replies: Seq<Option<AgentToServerView>>|
            replies.len() == steps.len() && after == self.queued(
                #[trigger] emitted(steps, replies, self.store->0),
            )
    }

    /// Whether `after` is this session once `inbound` was dispatched, where
    /// there is such a message, and this session itself where there is none.
    pub open spec fn received(self, after: SessionView, inbound: Option<ServerToAgent>) -> bool {
        match inbound {
            Some(msg) => self.dispatched(after, msg),
            None => after == self,
        }
    }

    /// Whether `after` is this session once the callback of the loop has
    /// answered: the queue has grown by its reply, if there was one.
    pub open spec fn looped(self, after: SessionView) -> bool {
        exists|reply: Option<AgentToServerView>| after == self.queued(#[trigger] optional(reply))
    }

    /// The response of a poll that has done its work: a reply where messages
    /// wait in the queue, silence where none do.
    pub open spec fn pending_outcome(self) -> Outcome {
        if self.outbox.len() > 0 {
            Outcome::Reply("messages pending"@)
        } else {
            Outcome::Quiet
        }
    }

    /// Whether the store holds a state, and the health in it says healthy.
    pub open spec fn healthy(self) -> bool {
        self.store matches Some(m) && m.health matches Some(h) && h.healthy
    }
}

/// The numbers of outbound messages increase: a message that is made ready
/// for the wire after `seqno` others carries a number above `seqno`, and the
/// one made ready after it a number above that.
pub proof fn lemma_numbers_increase(
    first: AgentToServerView,
    second: AgentToServerView,
    seqno: u64,
    first_features: (u64, u64),
    second_features: (u64, u64),
)
    requires
        seqno + 2 <= u64::MAX,
    ensures
        seqno < stamped(first, (seqno + 1) as u64, first_features).sequence_num < stamped(
            second,
            (seqno + 2) as u64,
            second_features,
        ).sequence_num,
{
}

/// The capabilities and flags of the agent state are those that the
/// callbacks gave when the state was created; setting the health leaves them
/// as they are; and every message that is made ready for the wire while the
/// state exists carries them.
pub proof fn lemma_features_are_carried(
    instance: Seq<char>,
    description: AgentDescriptionView,
    health: AgentHealthView,
    configuration: Option<AgentConfigMapView>,
    features: (u64, u64),
    healthy: bool,
    message: AgentToServerView,
    seq: u64,
    fallback: (u64, u64),
)
    ensures
        ({
            let created = initial_store(instance, description, health, configuration, features);
            let stored = with_health(created, healthy);
            let out = stamped(message, seq, features_of(Some(stored), fallback));
            &&& (created.capabilities, created.flags) == features
            &&& (stored.capabilities, stored.flags) == features
            &&& (out.capabilities, out.flags) == features
        }),
{
}

/// Once a message that asks the agent for its own full state was dispatched,
/// the health in the agent state says healthy, and the complete agent state
/// stands in the queue behind what was queued before: right behind it where
/// the message holds no command.
pub proof fn lemma_full_state_follows(before: SessionView, after: SessionView, msg: ServerToAgent)
    requires
        before.wf(),
        before.store is Some,
        asks_own_state(msg, before.instance()),
        before.dispatched(after, msg),
    ensures
        after.store == Some(with_health(before.store->0, true)),
        after.healthy(),
        populated(after.store->0, before.instance()),
        exists|i: int|
            before.outbox.len() <= i < after.outbox.len() && #[trigger] after.outbox[i]
                == after.store->0,
        msg.command is None ==> after.outbox.len() > before.outbox.len() && after.outbox[before.outbox.len() as int]
            == after.store->0,
{
    let base = before.attending(msg);
    let plan = plan_of(msg, before.instance());
    let replies = choose|replies: Seq<Option<AgentToServerView>>|
        replies.len() == plan.len() && after == base.queued(
            #[trigger] emitted(plan, replies, base.store->0),
        );
    let status = base.store->0;
    let added = emitted(plan, replies, status);
    lemma_own_state_is_reported(msg, before.instance(), replies, status);
    let k = choose|k: int| 0 <= k < added.len() && added[k] == status;
    assert(after.outbox[before.outbox.len() + k] == status);
}

/// The agent state as it stands before anything has happened.
pub fn initial_state(
    instance: String,
    description: AgentDescription,
    health: AgentHealth,
    configuration: Result<Option<AgentConfigMap>, ApiClientError>,
    features: (u64, u64),
) -> (m: AgentToServer)
    ensures
        m@ == initial_store(
            instance@,
            description@,
            health@,
            configuration_of(configuration),
            features,
        ),
{
    let config_map = match configuration {
        Ok(reply) => reply,
        Err(_) => None,
    };
    AgentToServer {
        instance_uid: instance,
        sequence_num: 0,
        agent_description: Some(description),
        capabilities: features.0,
        health: Some(health),
        effective_config: Some(EffectiveConfig { config_map }),
        remote_config_status: Some(remote_config_status()),
        package_statuses: Some(package_statuses()),
        agent_disconnect: None,
        flags: features.1,
    }
}

impl<C: ApiCallbacks> View for Session<C> {
    type V = SessionView;

    closed spec fn view(&self) -> SessionView {
        SessionView {
            settings: self.settings,
            host: self.host,
            store: opt_view(self.agent_state),
            outbox: messages(self.outbox@),
            seqno: self.seqno,
            backoff: self.backoff,
            state: self.state@,
        }
    }
}

impl<C: ApiCallbacks> Session<C> {
    /// A session that has not done anything yet: disconnected, with an empty
    /// store and an empty queue.
    pub fn new(settings: ConnectionSettings, callback: C, host: HostInfo) -> (session: Self)
        ensures
            session@ == (SessionView {
                settings,
                host,
                store: None,
                outbox: Seq::empty(),
                seqno: 0,
                backoff: 0,
                state: at(Phase::Disconnected, Seq::empty()),
            }),
            session@.wf(),
    {
        let session = Session {
            settings,
            host,
            callback,
            agent_state: None,
            outbox: Vec::new(),
            seqno: 0,
            backoff: 0,
            state: State::Disconnected(String::new()),
        };
        assert(session@.outbox =~= Seq::empty());
        session
    }

    /// The identifier of the agent instance.
    pub fn get_instance_id(&self) -> (id: &String)
        ensures
            id@ == self@.instance(),
    {
        &self.settings.instance_id
    }

    /// The settings that the session was made with.
    pub fn settings(&self) -> (settings: &ConnectionSettings)
        ensures
            *settings == self@.settings,
    {
        &self.settings
    }

    /// Whether the mirror of the agent state exists.
    pub fn initialized(&self) -> (b: bool)
        ensures
            b == self@.store is Some,
    {
        self.agent_state.is_some()
    }

    /// The sequence number of the last message sent; 0 before the first.
    pub fn sequence_num(&self) -> (n: u64)
        ensures
            n == self@.seqno,
    {
        self.seqno
    }

    /// The number of failed connection attempts.
    pub fn backoff(&self) -> (n: u32)
        ensures
            n == self@.backoff,
    {
        self.backoff
    }

    /// The number of messages that wait to be sent.
    pub fn pending(&self) -> (n: usize)
        ensures
            n == self@.outbox.len(),
    {
        self.outbox.len()
    }

    /// The messages that wait to be sent, oldest first.
    pub fn outbox(&self) -> (queue: &Vec<AgentToServer>)
        ensures
            messages(queue@) == self@.outbox,
    {
        &self.outbox
    }

    /// The mirror of the agent state, if it exists.
    pub fn status(&self) -> (status: Option<&AgentToServer>)
        ensures
            status is Some <==> self@.store is Some,
            status matches Some(m) ==> self@.store == Some(m@),
    {
        self.agent_state.as_ref()
    }

    /// The state of the state machine.
    pub fn state(&self) -> (state: &State)
        ensures
            state@ == self@.state,
    {
        &self.state
    }

    /// The agent state, which is created on the first call: from the
    /// configuration and the features of the callbacks, a description under a
    /// fresh identifier, the health of an agent of which nothing is known, and
    /// the defaults for the rest. Later calls return what the store holds.
    pub fn get_status(&mut self) -> (status: Result<AgentToServer, ApiClientError>)
        requires
            old(self)@.wf(),
        ensures
            final(self)@.wf(),
            status matches Ok(m) && final(self)@.store == Some(m@),
            final(self)@ == (SessionView { store: final(self)@.store, ..old(self)@ }),
            old(self)@.store is Some ==> final(self)@.store == old(self)@.store,
            old(self)@.store is None ==> fresh_store(
                final(self)@.store->0,
                old(self)@.settings,
                old(self)@.host,
            ),
    {
        if let Some(m) = &self.agent_state {
            return Ok(m.clone());
        }
        let configuration = self.callback.get_configuration();
        let features = self.callback.get_features();
        let description = agent_description(
            self.settings.name.as_str(),
            self.settings.version.as_str(),
            &self.host,
        );
        let health = agent_health_at(get_time_nanos());
        let fresh = initial_state(
            self.settings.instance_id.clone(),
            description,
            health,
            configuration,
            features,
        );
        let status = fresh.clone();
        self.agent_state = Some(fresh);
        Ok(status)
    }

    /// Overwrites the health in the agent state, which is created first where
    /// it does not exist yet.
    pub fn set_health(&mut self, healthy: bool)
        requires
            old(self)@.wf(),
        ensures
            final(self)@.wf(),
            final(self)@ == (SessionView { store: final(self)@.store, ..old(self)@ }),
            old(self)@.store matches Some(m) ==> final(self)@.store == Some(with_health(m, healthy)),
            old(self)@.store is None ==> exists|m: AgentToServerView|
                #[trigger] fresh_store(m, old(self)@.settings, old(self)@.host) && final(self)@.store
                    == Some(with_health(m, healthy)),
    {
        let status = self.get_status();
        let ghost before = self@.store->0;
        let mut state = match status {
            Ok(m) => m,
            Err(_) => vstd::pervasive::unreached(),
        };
        if let Some(health) = &mut state.health {
            health.healthy = healthy;
        }
        assert(state@ == with_health(before, healthy));
        self.agent_state = Some(state);
    }

    /// The health in the agent state, with its time refreshed to `nanos`.
    pub fn get_health_at(&self, nanos: u128) -> (health: Option<AgentHealth>)
        requires
            self@.wf(),
            self@.store is Some,
        ensures
            health matches Some(h) && h@ == refreshed(self@.store->0.health->0, nanos),
    {
        let stored = match &self.agent_state {
            Some(m) => match &m.health {
                Some(h) => h,
                None => vstd::pervasive::unreached(),
            },
            None => vstd::pervasive::unreached(),
        };
        let mut h = stored.clone();
        h.start_time_unix_nano = (nanos % 0x1_0000_0000_0000_0000) as u64;
        Some(h)
    }

    /// The health in the agent state, with its time refreshed to now.
    pub fn get_health(&self) -> (health: Option<AgentHealth>)
        requires
            self@.wf(),
            self@.store is Some,
        ensures
            health matches Some(h) && h.healthy == self@.store->0.health->0.healthy && h.last_error@
                == self@.store->0.health->0.last_error,
    {
        self.get_health_at(get_time_nanos())
    }

    /// Puts `message` at the end of the queue.
    pub fn enqueue(&mut self, message: AgentToServer)
        ensures
            final(self)@ == old(self)@.queued(seq![message@]),
    {
        self.outbox.push(message);
        assert(self@.outbox =~= old(self)@.outbox + seq![message@]);
    }

    /// Puts a heartbeat at the end of the queue.
    pub fn enqueue_heartbeat(&mut self)
        ensures
            final(self)@ == old(self)@.queued(seq![heartbeat(old(self)@.instance())]),
    {
        let mut message = AgentToServer::default();
        message.instance_uid = self.settings.instance_id.clone();
        self.enqueue(message);
    }

    /// Puts the reply of a callback at the end of the queue, if it is one.
    pub fn enqueue_reply(&mut self, answer: Result<Option<AgentToServer>, ApiClientError>)
        ensures
            final(self)@ == old(self)@.queued(optional(reply_of(answer))),
    {
        match accept(answer) {
            Some(message) => self.enqueue(message),
            None => {
                assert(self@.outbox =~= old(self)@.outbox + Seq::empty());
            },
        }
    }

    /// The step that opens every poll: an agent that polls again is healthy,
    /// and says so once.
    pub fn report_recovery_at(&mut self, nanos: u128)
        requires
            old(self)@.wf(),
            old(self)@.store is Some,
        ensures
            final(self)@ == old(self)@.recovered(nanos),
            final(self)@.wf(),
            final(self)@.healthy(),
    {
        if let Some(mut health) = self.get_health_at(nanos) {
            if !health.healthy {
                self.set_health(true);
                health.healthy = true;
                let mut message = AgentToServer::default();
                message.instance_uid = self.settings.instance_id.clone();
                message.health = Some(health);
                self.outbox.push(message);
                assert(self@.outbox =~= old(self)@.recovered(nanos).outbox);
            }
        }
    }

    /// Asks the callbacks what one step asks of them, and accepts the reply.
    /// An error of the server is only passed on, and a report of the agent's
    /// own state asks nothing of the callbacks: these two steps have no reply.
    fn ask(&mut self, step: Step, msg: &ServerToAgent) -> (reply: Option<AgentToServer>)
        ensures
            final(self)@ == old(self)@,
            step == Step::Error || step == Step::ReportSelf ==> reply is None,
    {
        match step {
            Step::Command => accept(self.callback.on_command(msg)),
            Step::Error => {
                self.callback.on_error(msg);
                None
            },
            Step::ReportSelf => None,
            Step::HealthCheck => accept(self.callback.on_health_check(msg)),
            Step::RemoteConfig => accept(self.callback.on_agent_remote_config(msg)),
            Step::OwnMetrics => accept(self.callback.on_connection_settings_offers(msg)),
            Step::OwnTraces => accept(self.callback.on_connection_settings_offers(msg)),
            Step::OwnLogs => accept(self.callback.on_connection_settings_offers(msg)),
            Step::Packages => accept(self.callback.on_packages_available(msg)),
        }
    }

    /// Puts into the queue what one step yields, given the reply to it.
    pub fn settle(&mut self, step: Step, reply: Option<AgentToServer>)
        requires
            old(self)@.store is Some,
        ensures
            final(self)@ == old(self)@.queued(
                step_emitted(step, opt_view(reply), old(self)@.store->0),
            ),
    {
        match step {
            Step::ReportSelf => {
                let status = match &self.agent_state {
                    Some(m) => m.clone(),
                    None => vstd::pervasive::unreached(),
                };
                self.enqueue(status);
            },
            Step::Error => {
                assert(self@.outbox =~= old(self)@.outbox + Seq::empty());
            },
            _ => match reply {
                Some(message) => self.enqueue(message),
                None => {
                    assert(self@.outbox =~= old(self)@.outbox + Seq::empty());
                },
            },
        }
    }

    /// Takes `steps` in their order and queues what they yield.
    fn take_steps(&mut self, steps: &Vec<Step>, msg: &ServerToAgent)
        requires
            old(self)@.store is Some,
        ensures
            old(self)@.stepped(final(self)@, steps@),
    {
        let ghost mut replies: Seq<Option<AgentToServerView>> = Seq::empty();
        let ghost status = self@.store->0;
        let mut i: usize = 0;
        assert(self@.outbox =~= old(self)@.outbox + emitted(steps@.take(0), replies, status));
        while i < steps.len()
            invariant
                i <= steps.len(),
                replies.len() == i,
                old(self)@.store == Some(status),
                self@ == old(self)@.queued(emitted(steps@.take(i as int), replies, status)),
            decreases steps.len() - i,
        {
            let step = steps[i];
            let reply = self.ask(step, msg);
            proof {
                let grown = replies.push(opt_view(reply));
                assert(steps@.take(i + 1).drop_last() =~= steps@.take(i as int));
                assert(grown.drop_last() =~= replies);
                assert(emitted(steps@.take(i + 1), grown, status) == emitted(
                    steps@.take(i as int),
                    replies,
                    status,
                ) + step_emitted(step, opt_view(reply), status));
                replies = grown;
            }
            self.settle(step, reply);
            i = i + 1;
            assert(self@.outbox =~= old(self)@.outbox + emitted(
                steps@.take(i as int),
                replies,
                status,
            ));
        }
        assert(steps@.take(i as int) =~= steps@);
    }

    /// Dispatches one inbound message: takes the steps that it asks for, in
    /// their order, and queues what they yield.
    pub fn dispatch(&mut self, msg: &ServerToAgent)
        requires
            old(self)@.wf(),
            old(self)@.store is Some,
        ensures
            old(self)@.dispatched(final(self)@, *msg),
            final(self)@.wf(),
    {
        let steps = plan(msg, &self.settings.instance_id);
        if wants_own_state(msg, &self.settings.instance_id) {
            self.set_health(true);
        }
        self.take_steps(&steps, msg);
    }

    /// Calls the callback of the loop and queues its reply, if there is one.
    pub fn run_loop(&mut self)
        ensures
            old(self)@.looped(final(self)@),
    {
        let answer = self.callback.on_loop();
        self.enqueue_reply(answer);
    }

    /// Takes the oldest message out of the queue.
    pub fn take_next(&mut self) -> (next: Option<AgentToServer>)
        ensures
            old(self)@.outbox.len() == 0 ==> next is None && final(self)@ == old(self)@,
            old(self)@.outbox.len() > 0 ==> (next matches Some(m) && m@ == old(self)@.outbox[0]
                && final(self)@ == (SessionView {
                outbox: old(self)@.outbox.drop_first(),
                ..old(self)@
            })),
    {
        if self.outbox.len() == 0 {
            None
        } else {
            let m = self.outbox.remove(0);
            assert(self@.outbox =~= old(self)@.outbox.drop_first());
            Some(m)
        }
    }

    /// Empties the queue.
    pub fn discard_pending(&mut self)
        ensures
            final(self)@ == (SessionView { outbox: Seq::empty(), ..old(self)@ }),
    {
        self.outbox.clear();
        assert(self@.outbox =~= Seq::empty());
    }

    /// Prepares `message` for the wire: it gets the next sequence number, and
    /// the capabilities and flags of the agent state, or `fallback` where
    /// there is no agent state.
    pub fn stamp(&mut self, message: AgentToServer, fallback: (u64, u64)) -> (out: AgentToServer)
        requires
            old(self)@.seqno < u64::MAX,
        ensures
            out@ == stamped(
                message@,
                (old(self)@.seqno + 1) as u64,
                features_of(old(self)@.store, fallback),
            ),
            final(self)@ == (SessionView { seqno: (old(self)@.seqno + 1) as u64, ..old(self)@ }),
    {
        let mut out = message;
        self.seqno = self.seqno + 1;
        out.sequence_num = self.seqno;
        match &self.agent_state {
            Some(state) => {
                out.capabilities = state.capabilities;
                out.flags = state.flags;
            },
            None => {
                out.capabilities = fallback.0;
                out.flags = fallback.1;
            },
        }
        out
    }

    /// Moves the state machine on by one tick, in which the operation of the
    /// current state has returned `result`.
    pub fn advance(&mut self, result: Result<StateResponse, ApiClientError>)
        ensures
            final(self)@ == (SessionView {
                state: transition(old(self)@.state, outcome_of(result)),
                ..old(self)@
            }),
    {
        let mut current = State::Disconnected(String::new());
        std::mem::swap(&mut self.state, &mut current);
        self.state = current.advance(result);
    }

    /// Notes that a connection attempt succeeded: the count of failed
    /// attempts starts again.
    pub fn connected(&mut self)
        ensures
            final(self)@ == (SessionView { backoff: 0, ..old(self)@ }),
    {
        self.backoff = 0;
    }

    /// Notes that a connection attempt failed, and says how many seconds to
    /// wait before the next one, or nothing where `retry_limit` is passed.
    pub fn connect_failed(&mut self, retry_limit: u32) -> (pause: Option<u64>)
        ensures
            final(self)@ == (SessionView {
                backoff: next_backoff(old(self)@.backoff),
                ..old(self)@
            }),
            pause == retry_pause(next_backoff(old(self)@.backoff), retry_limit),
    {
        if self.backoff < u32::MAX {
            self.backoff = self.backoff + 1;
        }
        if self.backoff > retry_limit {
            None
        } else {
            Some(delay_secs(self.backoff))
        }
    }

    /// The response of a poll that has done its work.
    pub fn pending_response(&self) -> (response: StateResponse)
        ensures
            response@ == self@.pending_outcome(),
    {
        if self.outbox.len() > 0 {
            StateResponse::Reply(String::from_str("messages pending"))
        } else {
            StateResponse::Nothing
        }
    }
}

} // verus!
