use otel_opamp_rs::api::{
    ApiCallbacks, ApiClientError, ConnectionSettings, HostInfo, LogLevel, CONNECT_EXHAUSTED,
};
use otel_opamp_rs::httpclient::{HttpClient, Probe, SendStep, SERVER_POLL_DELAY};
use otel_opamp_rs::opamp::spec::{
    AgentConfigFile, AgentConfigMap, AgentRemoteConfig, AgentToServer, RemoteConfigStatus,
    ServerToAgent, ServerToAgentCommand,
};
use otel_opamp_rs::state::{Operation, Phase, State, StateResponse};
use std::cell::RefCell;
use std::rc::Rc;

struct Agent {
    log: Rc<RefCell<Vec<String>>>,
    on_loop: Option<AgentToServer>,
    on_config: Result<Option<AgentToServer>, ApiClientError>,
    configuration: Result<Option<AgentConfigMap>, ApiClientError>,
}

impl Agent {
    fn quiet() -> (Agent, Rc<RefCell<Vec<String>>>) {
        let log = Rc::new(RefCell::new(Vec::new()));
        (
            Agent { log: log.clone(), on_loop: None, on_config: Ok(None), configuration: Ok(None) },
            log,
        )
    }

    fn note(&self, what: &str) {
        self.log.borrow_mut().push(what.to_string());
    }
}

impl ApiCallbacks for Agent {
    fn get_configuration(&mut self) -> Result<Option<AgentConfigMap>, ApiClientError> {
        self.note("get_configuration");
        self.configuration.clone()
    }

    fn get_features(&mut self) -> (u64, u64) {
        self.note("get_features");
        (0x1b, 0x4)
    }

    fn on_loop(&mut self) -> Result<Option<AgentToServer>, ApiClientError> {
        self.note("on_loop");
        Ok(self.on_loop.take())
    }

    fn on_error(&mut self, _inbound: &ServerToAgent) {
        self.note("on_error");
    }

    fn on_health_check(
        &mut self,
        _inbound: &ServerToAgent,
    ) -> Result<Option<AgentToServer>, ApiClientError> {
        self.note("on_health_check");
        Ok(None)
    }

    fn on_command(
        &mut self,
        _inbound: &ServerToAgent,
    ) -> Result<Option<AgentToServer>, ApiClientError> {
        self.note("on_command");
        Err(ApiClientError::new(9, "cannot"))
    }

    fn on_agent_remote_config(
        &mut self,
        _inbound: &ServerToAgent,
    ) -> Result<Option<AgentToServer>, ApiClientError> {
        self.note("on_agent_remote_config");
        self.on_config.clone()
    }

    fn on_connection_settings_offers(
        &mut self,
        _inbound: &ServerToAgent,
    ) -> Result<Option<AgentToServer>, ApiClientError> {
        self.note("on_connection_settings_offers");
        Ok(None)
    }

    fn on_packages_available(
        &mut self,
        _inbound: &ServerToAgent,
    ) -> Result<Option<AgentToServer>, ApiClientError> {
        self.note("on_packages_available");
        Ok(None)
    }
}

fn settings() -> ConnectionSettings {
    ConnectionSettings {
        server_endpoint: "http://h:4320".to_string(),
        api_key: "k".to_string(),
        listen_path: "/v1/opamp".to_string(),
        name: "agent".to_string(),
        version: "1.0".to_string(),
        instance_id: "01ARZ3NDEKTSV4RRFFQ69G5FAV".to_string(),
        debugmode: LogLevel::Info,
    }
}

fn host() -> HostInfo {
    HostInfo {
        os_type: "linux".to_string(),
        os_version: "6.1".to_string(),
        host_name: "box".to_string(),
    }
}

fn client(agent: Agent) -> HttpClient<Agent> {
    HttpClient::new(settings(), agent, host())
}

fn answered(status: u16) -> Probe {
    Probe::Answered { status, text: format!("{} status", status) }
}

/// Runs the operations that need the network as a server would answer them:
/// a probe finds the server, and every post is answered by `answer`.
fn tick(
    client: &mut HttpClient<Agent>,
    now: u128,
    posted: &mut Vec<AgentToServer>,
    answer: &ServerToAgent,
) {
    let result = match client.operation() {
        Operation::Idle => Ok(StateResponse::Nothing),
        Operation::Connect => client.connect(answered(200), 10).response,
        Operation::Handshake => client.handshake(),
        Operation::Poll => client.poll_at(now),
        Operation::Send => loop {
            match client.next_post_at(now) {
                SendStep::Done(response) => break Ok(response),
                SendStep::Post(message) => {
                    posted.push(message);
                    if let Some(response) = client.post_done(Ok(Some(answer.clone()))) {
                        break Ok(response);
                    }
                }
            }
        },
        Operation::Wait => client.wait(),
    };
    client.advance(result);
}

fn polling(agent: Agent, now: u128) -> (HttpClient<Agent>, Vec<AgentToServer>) {
    let mut c = client(agent);
    let mut posted = Vec::new();
    for _ in 0..5 {
        tick(&mut c, now, &mut posted, &ServerToAgent::default());
    }
    assert_eq!(c.session().state().phase(), Phase::Polling);
    (c, posted)
}

#[test]
fn new_client_is_disconnected_and_empty() {
    let (agent, log) = Agent::quiet();
    let c = client(agent);
    assert_eq!(c.session().state(), &State::Disconnected(String::new()));
    assert!(!c.session().initialized());
    assert_eq!(c.session().pending(), 0);
    assert_eq!(c.session().sequence_num(), 0);
    assert_eq!(c.session().backoff(), 0);
    assert_eq!(c.received(), 0);
    assert_eq!(c.last_sent_timestamp(), 0);
    assert_eq!(c.get_instance_id(), "01ARZ3NDEKTSV4RRFFQ69G5FAV");
    assert_eq!(c.address().as_str(), "http://h:4320/v1/opamp");
    assert!(log.borrow().is_empty());
}

#[test]
fn an_address_that_is_no_url_makes_no_client() {
    let (agent, _) = Agent::quiet();
    let mut bad = settings();
    bad.server_endpoint = "not a url".to_string();
    assert!(HttpClient::try_new(bad, agent, host()).is_none());
    let (agent, _) = Agent::quiet();
    let made = HttpClient::try_new(settings(), agent, host()).unwrap();
    assert_eq!(made.address().as_str(), "http://h:4320/v1/opamp");
}

#[test]
fn cold_start_with_a_server_present() {
    let (agent, _) = Agent::quiet();
    let mut c = client(agent);
    let mut posted = Vec::new();
    let mut visited = vec![c.session().state().phase()];
    for _ in 0..5 {
        tick(&mut c, 1_000, &mut posted, &ServerToAgent::default());
        visited.push(c.session().state().phase());
    }
    assert_eq!(
        visited,
        vec![
            Phase::Disconnected,
            Phase::Connecting,
            Phase::Connected,
            Phase::Sending,
            Phase::Waiting,
            Phase::Polling
        ]
    );
    assert_eq!(posted.len(), 1);
    assert_eq!(posted[0].sequence_num, 1);
    assert_eq!(posted[0].instance_uid, "01ARZ3NDEKTSV4RRFFQ69G5FAV");
    assert_eq!(posted[0].capabilities, 0x1b);
    assert_eq!(posted[0].flags, 0x4);
    assert!(posted[0].agent_description.is_some());
    assert_eq!(c.received(), 1);
    assert_eq!(c.last_sent_timestamp(), 1_000);
}

#[test]
fn the_tokens_of_a_cold_start() {
    let (agent, _) = Agent::quiet();
    let mut c = client(agent);
    let mut posted = Vec::new();
    let mut tokens = Vec::new();
    for _ in 0..5 {
        tick(&mut c, 1_000, &mut posted, &ServerToAgent::default());
        tokens.push(c.session().state().token().clone());
    }
    assert_eq!(tokens, vec!["", "remote server present", "Handshake enqueued", "sent", ""]);
}

#[test]
fn a_missing_server_is_a_soft_error() {
    let (agent, _) = Agent::quiet();
    let mut c = client(agent);
    let step = c.connect(answered(404), 10);
    assert_eq!(step.response, Ok(StateResponse::Error("404 status".to_string())));
    assert_eq!(step.pause_secs, None);
    assert_eq!(c.session().backoff(), 0);
    for status in [200u16, 401, 405, 500] {
        let step = c.connect(answered(status), 10);
        assert_eq!(
            step.response,
            Ok(StateResponse::Reply("remote server present".to_string()))
        );
    }
}

#[test]
fn backoff_doubles_until_the_limit() {
    let (agent, _) = Agent::quiet();
    let mut c = client(agent);
    let mut pauses = Vec::new();
    for _ in 0..3 {
        let step = c.connect(Probe::Unreachable("connection refused".to_string()), 10);
        assert_eq!(
            step.response,
            Ok(StateResponse::Error("endpoint not responding: retrying ..".to_string()))
        );
        pauses.push(step.pause_secs.unwrap());
    }
    assert_eq!(c.session().backoff(), 3);
    assert_eq!(pauses, vec![2, 4, 8]);
    assert!(pauses.iter().sum::<u64>() >= 2 + 4 + 8);
    for _ in 3..10 {
        assert!(c.connect(Probe::Unreachable("connection refused".to_string()), 10).response.is_ok());
    }
    assert_eq!(c.session().backoff(), 10);
    let last = c.connect(Probe::Unreachable("connection refused".to_string()), 10);
    assert_eq!(last.pause_secs, None);
    assert_eq!(
        last.response,
        Err(ApiClientError {
            code: CONNECT_EXHAUSTED,
            details: "Failed to connect to endpoint: connection refused".to_string()
        })
    );
    assert_eq!(c.session().backoff(), 11);
}

#[test]
fn eleven_failures_end_in_disconnected() {
    let (agent, _) = Agent::quiet();
    let mut c = client(agent);
    c.advance(Ok(StateResponse::Nothing));
    let mut failures = 0;
    while failures < 11 {
        if c.operation() == Operation::Idle {
            c.advance(Ok(StateResponse::Nothing));
        }
        assert_eq!(c.operation(), Operation::Connect);
        let step = c.connect(Probe::Unreachable("refused".to_string()), 10);
        c.advance(step.response);
        failures += 1;
    }
    assert_eq!(
        c.session().state(),
        &State::Disconnected("Failed to connect to endpoint: refused".to_string())
    );
}

#[test]
fn a_connection_resets_the_backoff() {
    let (agent, _) = Agent::quiet();
    let mut c = client(agent);
    c.connect(Probe::Unreachable("refused".to_string()), 10);
    c.connect(Probe::Unreachable("refused".to_string()), 10);
    assert_eq!(c.session().backoff(), 2);
    c.connect(answered(200), 10);
    assert_eq!(c.session().backoff(), 0);
}

#[test]
fn the_agent_state_is_created_once() {
    let (agent, log) = Agent::quiet();
    let mut c = client(agent);
    let first = c.get_status().unwrap();
    assert_eq!(*log.borrow(), vec!["get_configuration", "get_features"]);
    assert_eq!(first.instance_uid, "01ARZ3NDEKTSV4RRFFQ69G5FAV");
    assert_eq!(first.sequence_num, 0);
    assert_eq!(first.capabilities, 0x1b);
    assert_eq!(first.flags, 0x4);
    let health = first.health.clone().unwrap();
    assert!(!health.healthy);
    assert_eq!(health.last_error, "");
    assert!(first.agent_description.is_some());
    assert_eq!(first.effective_config.clone().unwrap().config_map, None);
    assert!(first.remote_config_status.is_some());
    assert!(first.package_statuses.is_some());
    assert!(first.agent_disconnect.is_none());
    let second = c.get_status().unwrap();
    assert_eq!(second, first);
    assert_eq!(log.borrow().len(), 2);
    assert_eq!(c.session().status(), Some(&first));
}

#[test]
fn the_configuration_of_the_callbacks_is_stored() {
    let (mut agent, _) = Agent::quiet();
    let map = AgentConfigMap {
        config_map: vec![(
            "a.yaml".to_string(),
            AgentConfigFile { body: b"x: 1".to_vec(), content_type: "text/yaml".to_string() },
        )],
    };
    agent.configuration = Ok(Some(map.clone()));
    let mut c = client(agent);
    assert_eq!(c.get_status().unwrap().effective_config.unwrap().config_map, Some(map));
    let (mut agent, _) = Agent::quiet();
    agent.configuration = Err(ApiClientError::new(1, "no"));
    let mut c = client(agent);
    assert_eq!(c.get_status().unwrap().effective_config.unwrap().config_map, None);
}

#[test]
fn health_is_set_and_read() {
    let (agent, _) = Agent::quiet();
    let mut c = client(agent);
    c.set_health(true);
    assert!(c.session().initialized());
    let read = c.get_health_at(99).unwrap();
    assert!(read.healthy);
    assert_eq!(read.start_time_unix_nano, 99);
    c.set_health(false);
    assert!(!c.get_health_at(100).unwrap().healthy);
    assert_eq!(c.get_health_at(100).unwrap().start_time_unix_nano, 100);
    assert!(!c.session().get_health().unwrap().healthy);
}

#[test]
fn the_first_poll_reports_the_agent_healthy() {
    let (agent, log) = Agent::quiet();
    let (mut c, _) = polling(agent, 1_000);
    log.borrow_mut().clear();
    let response = c.poll_at(2_000);
    assert_eq!(response, Ok(StateResponse::Reply("flushing queue".to_string())));
    let queue = c.session().outbox();
    assert_eq!(queue.len(), 1);
    assert_eq!(queue[0].instance_uid, "01ARZ3NDEKTSV4RRFFQ69G5FAV");
    let health = queue[0].health.clone().unwrap();
    assert!(health.healthy);
    assert_eq!(health.start_time_unix_nano, 2_000);
    assert!(queue[0].agent_description.is_none());
    assert!(c.session().status().unwrap().health.as_ref().unwrap().healthy);
    assert!(log.borrow().is_empty());
}

fn idle(agent: Agent) -> (HttpClient<Agent>, Vec<AgentToServer>) {
    let (mut c, mut posted) = polling(agent, 1_000);
    for _ in 0..4 {
        tick(&mut c, 1_000, &mut posted, &ServerToAgent::default());
    }
    assert_eq!(c.session().state().phase(), Phase::Polling);
    assert_eq!(c.session().pending(), 0);
    (c, posted)
}

#[test]
fn an_idle_poll_drains_the_inbox_and_asks_the_loop() {
    let (agent, log) = Agent::quiet();
    let (mut c, posted) = idle(agent);
    assert_eq!(posted.len(), 2);
    assert_eq!(posted[1].sequence_num, 2);
    assert_eq!(c.received(), 1);
    log.borrow_mut().clear();
    assert_eq!(c.poll_at(1_000), Ok(StateResponse::Nothing));
    assert_eq!(c.received(), 0);
    assert_eq!(*log.borrow(), vec!["on_loop"]);
    assert_eq!(c.poll_at(1_000), Ok(StateResponse::Nothing));
    assert_eq!(c.received(), 0);
    assert_eq!(*log.borrow(), vec!["on_loop", "on_loop"]);
}

#[test]
fn heartbeat_after_idle() {
    let (agent, _) = Agent::quiet();
    let (mut c, _) = idle(agent);
    assert_eq!(c.last_sent_timestamp(), 1_000);
    assert_eq!(c.poll_at(1_000 + SERVER_POLL_DELAY), Ok(StateResponse::Nothing));
    assert_eq!(c.session().pending(), 0);
    let later = 1_000 + 31_000_000_000;
    assert_eq!(c.poll_at(later), Ok(StateResponse::Reply("server poll".to_string())));
    let queue = c.session().outbox();
    assert_eq!(queue.len(), 1);
    let mut expected = AgentToServer::default();
    expected.instance_uid = "01ARZ3NDEKTSV4RRFFQ69G5FAV".to_string();
    assert_eq!(queue[0], expected);
}

#[test]
fn heartbeat_is_due_one_nanosecond_after_the_delay() {
    let (agent, _) = Agent::quiet();
    let (mut c, _) = idle(agent);
    assert_eq!(
        c.poll_at(1_001 + SERVER_POLL_DELAY),
        Ok(StateResponse::Reply("server poll".to_string()))
    );
    assert_eq!(SERVER_POLL_DELAY, 30_000_000_000);
}

#[test]
fn a_clock_that_went_back_makes_no_heartbeat() {
    let (agent, _) = Agent::quiet();
    let (mut c, _) = idle(agent);
    assert_eq!(c.poll_at(0), Ok(StateResponse::Nothing));
}

#[test]
fn remote_config_delivery() {
    let (mut agent, log) = Agent::quiet();
    let mut reply = AgentToServer::default();
    reply.instance_uid = "01ARZ3NDEKTSV4RRFFQ69G5FAV".to_string();
    reply.remote_config_status = Some(RemoteConfigStatus {
        last_remote_config_hash: vec![1, 2],
        status: 1,
        error_message: String::new(),
    });
    agent.on_config = Ok(Some(reply.clone()));
    let (mut c, mut posted) = idle(agent);
    while c.received() > 0 {
        c.poll_at(1_000).unwrap();
    }
    let mut inbound = ServerToAgent::default();
    inbound.remote_config = Some(AgentRemoteConfig { config: None, config_hash: vec![1, 2] });
    assert_eq!(c.post_done(Ok(Some(inbound))), None);
    log.borrow_mut().clear();
    let before = c.session().sequence_num();
    assert_eq!(c.poll_at(1_000), Ok(StateResponse::Reply("messages pending".to_string())));
    assert_eq!(*log.borrow(), vec!["on_agent_remote_config", "on_loop"]);
    c.advance(Ok(StateResponse::Reply("messages pending".to_string())));
    let sent_before = posted.len();
    tick(&mut c, 1_000, &mut posted, &ServerToAgent::default());
    assert_eq!(posted.len(), sent_before + 1);
    let out = posted.last().unwrap();
    assert_eq!(out.sequence_num, before + 1);
    assert_eq!(out.remote_config_status, reply.remote_config_status);
    assert_eq!(out.capabilities, 0x1b);
    assert_eq!(out.flags, 0x4);
}

#[test]
fn a_failing_callback_is_swallowed() {
    let (agent, log) = Agent::quiet();
    let (mut c, _) = idle(agent);
    while c.received() > 0 {
        c.poll_at(1_000).unwrap();
    }
    let mut inbound = ServerToAgent::default();
    inbound.command = Some(ServerToAgentCommand { kind: 0 });
    c.post_done(Ok(Some(inbound)));
    log.borrow_mut().clear();
    assert_eq!(c.poll_at(1_000), Ok(StateResponse::Nothing));
    assert_eq!(*log.borrow(), vec!["on_command", "on_loop"]);
    assert_eq!(c.session().pending(), 0);
}

#[test]
fn the_reply_of_the_loop_is_queued() {
    let (mut agent, _) = Agent::quiet();
    let mut reply = AgentToServer::default();
    reply.instance_uid = "from the loop".to_string();
    agent.on_loop = Some(reply.clone());
    let (mut c, _) = polling(agent, 1_000);
    c.poll_at(1_000).unwrap();
    let mut posted = Vec::new();
    c.advance(Ok(StateResponse::Reply(String::new())));
    tick(&mut c, 1_000, &mut posted, &ServerToAgent::default());
    tick(&mut c, 1_000, &mut posted, &ServerToAgent::default());
    assert_eq!(c.poll_at(1_000), Ok(StateResponse::Reply("messages pending".to_string())));
    assert_eq!(c.session().outbox(), &vec![reply]);
}

#[test]
fn the_inbox_is_drained_oldest_first() {
    let (agent, log) = Agent::quiet();
    let (mut c, _) = idle(agent);
    while c.received() > 0 {
        c.poll_at(1_000).unwrap();
    }
    let mut first = ServerToAgent::default();
    first.command = Some(ServerToAgentCommand { kind: 0 });
    let mut second = ServerToAgent::default();
    second.remote_config = Some(AgentRemoteConfig { config: None, config_hash: vec![] });
    c.post_done(Ok(Some(first)));
    c.post_done(Ok(Some(second.clone())));
    log.borrow_mut().clear();
    c.poll_at(1_000).unwrap();
    assert_eq!(*log.borrow(), vec!["on_command", "on_loop"]);
    assert_eq!(c.inbox(), &vec![second]);
}

#[test]
fn a_failed_post_ends_the_send_and_drops_the_rest() {
    let (agent, _) = Agent::quiet();
    let mut c = client(agent);
    c.handshake().unwrap();
    c.handshake().unwrap();
    c.handshake().unwrap();
    assert_eq!(c.session().pending(), 3);
    let first = match c.next_post_at(5) {
        SendStep::Post(m) => m,
        other => panic!("unexpected {:?}", other),
    };
    assert_eq!(first.sequence_num, 1);
    assert_eq!(c.post_done(Ok(Some(ServerToAgent::default()))), None);
    assert_eq!(c.post_done(Ok(None)), None);
    assert_eq!(c.received(), 1);
    let second = match c.next_post_at(6) {
        SendStep::Post(m) => m,
        other => panic!("unexpected {:?}", other),
    };
    assert_eq!(second.sequence_num, 2);
    let failure = ApiClientError::new(2, "timed out");
    assert_eq!(
        c.post_done(Err(failure)),
        Some(StateResponse::Error("Service Error <2> : timed out".to_string()))
    );
    assert_eq!(c.session().pending(), 0);
    assert_eq!(c.session().sequence_num(), 2);
    assert_eq!(c.received(), 1);
    assert_eq!(c.last_sent_timestamp(), 6);
    assert_eq!(c.next_post_at(7), SendStep::Done(StateResponse::Reply("sent".to_string())));
    assert_eq!(c.last_sent_timestamp(), 6);
}

#[test]
fn outbound_messages_carry_the_features_of_the_agent_state() {
    let (mut agent, _) = Agent::quiet();
    let mut reply = AgentToServer::default();
    reply.capabilities = 5;
    reply.flags = 6;
    reply.sequence_num = 77;
    agent.on_loop = Some(reply);
    let mut c = client(agent);
    c.set_health(true);
    assert_eq!(c.poll_at(0), Ok(StateResponse::Reply("messages pending".to_string())));
    match c.next_post_at(1) {
        SendStep::Post(m) => {
            assert_eq!(m.sequence_num, 1);
            assert_eq!((m.capabilities, m.flags), (0x1b, 0x4));
        }
        other => panic!("unexpected {:?}", other),
    }
}

#[test]
fn requests_carry_the_key_and_a_timeout() {
    let (agent, _) = Agent::quiet();
    let mut c = client(agent);
    let request = c.request(vec![1, 2, 3]).unwrap();
    assert_eq!(request.body, vec![1, 2, 3]);
    assert_eq!(request.timeout_secs, 10);
    assert_eq!(
        request.headers,
        vec![
            ("Content-Type".to_string(), "application/x-protobuf".to_string()),
            ("api-key".to_string(), "k".to_string()),
        ]
    );
    c.set_compression(true);
    let request = c.request(vec![1, 2, 3]).unwrap();
    assert_eq!(request.headers.len(), 4);
    assert_eq!(otel_opamp_rs::codec::inflate(&request.body), Ok(vec![1, 2, 3]));
}

#[test]
fn waiting_replies_at_once() {
    let (agent, _) = Agent::quiet();
    let mut c = client(agent);
    assert_eq!(c.wait(), Ok(StateResponse::Reply(String::new())));
}
