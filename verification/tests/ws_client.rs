use otel_opamp_rs::api::{
    ApiCallbacks, ApiClientError, ConnectionSettings, HostInfo, LogLevel, CONNECT_EXHAUSTED,
    SOCKET_RECEIVE, SOCKET_SEND,
};
use otel_opamp_rs::codec::frame;
use otel_opamp_rs::opamp::spec::{AgentConfigMap, AgentToServer, ServerToAgent};
use otel_opamp_rs::state::{Operation, Phase, State, StateResponse};
use otel_opamp_rs::wsclient::{
    inbound_payload, outbound_frame, receive_error, send_error, send_response, Frame, WsClient,
};

struct Supervisor {
    child: Option<AgentToServer>,
}

impl ApiCallbacks for Supervisor {
    fn get_configuration(&mut self) -> Result<Option<AgentConfigMap>, ApiClientError> {
        Ok(Some(AgentConfigMap { config_map: vec![] }))
    }

    fn get_features(&mut self) -> (u64, u64) {
        (3, 1)
    }

    fn on_loop(&mut self) -> Result<Option<AgentToServer>, ApiClientError> {
        Ok(None)
    }

    fn on_error(&mut self, _inbound: &ServerToAgent) {}

    fn on_health_check(
        &mut self,
        _inbound: &ServerToAgent,
    ) -> Result<Option<AgentToServer>, ApiClientError> {
        Ok(self.child.take())
    }

    fn on_command(
        &mut self,
        _inbound: &ServerToAgent,
    ) -> Result<Option<AgentToServer>, ApiClientError> {
        Ok(None)
    }

    fn on_agent_remote_config(
        &mut self,
        _inbound: &ServerToAgent,
    ) -> Result<Option<AgentToServer>, ApiClientError> {
        Ok(None)
    }

    fn on_connection_settings_offers(
        &mut self,
        _inbound: &ServerToAgent,
    ) -> Result<Option<AgentToServer>, ApiClientError> {
        Ok(None)
    }

    fn on_packages_available(
        &mut self,
        _inbound: &ServerToAgent,
    ) -> Result<Option<AgentToServer>, ApiClientError> {
        Ok(None)
    }
}

fn ws_settings() -> ConnectionSettings {
    ConnectionSettings {
        server_endpoint: "ws://127.0.0.1:4320".to_string(),
        api_key: String::new(),
        listen_path: "/v1/opamp".to_string(),
        name: "agent".to_string(),
        version: "1.0".to_string(),
        instance_id: "01ARZ3NDEKTSV4RRFFQ69G5FAV".to_string(),
        debugmode: LogLevel::Info,
    }
}

fn ws_host() -> HostInfo {
    HostInfo {
        os_type: "linux".to_string(),
        os_version: "6.1".to_string(),
        host_name: "box".to_string(),
    }
}

fn ws_client() -> WsClient<Supervisor> {
    WsClient::new(ws_settings(), Supervisor { child: None }, ws_host())
}

/// A client that has connected, shaken hands, flushed and polled once.
fn established() -> WsClient<Supervisor> {
    let mut c = ws_client();
    c.advance(Ok(StateResponse::Nothing));
    let step = c.connect(Ok(()), 10);
    c.advance(step.response);
    let r = c.handshake();
    c.advance(r);
    assert_eq!(c.operation(), Operation::Send);
    let frames = c.flush();
    assert_eq!(frames.len(), 1);
    c.advance(send_response(Ok(())));
    let r = c.wait();
    c.advance(r);
    assert_eq!(c.operation(), Operation::Poll);
    assert_eq!(
        c.poll_begin_at(10),
        Some(StateResponse::Reply("flushing queue".to_string()))
    );
    assert_eq!(c.flush().len(), 1);
    c
}

#[test]
fn a_new_socket_client_is_disconnected() {
    let c = ws_client();
    assert_eq!(c.session().state(), &State::Disconnected(String::new()));
    assert_eq!(c.address().as_str(), "ws://127.0.0.1:4320/v1/opamp");
    assert_eq!(c.get_instance_id(), "01ARZ3NDEKTSV4RRFFQ69G5FAV");
    assert!(!c.session().initialized());
    let mut bad = ws_settings();
    bad.server_endpoint = "::".to_string();
    assert!(WsClient::try_new(bad, Supervisor { child: None }, ws_host()).is_none());
    assert!(WsClient::try_new(ws_settings(), Supervisor { child: None }, ws_host()).is_some());
}

#[test]
fn connecting_clears_the_health() {
    let mut c = ws_client();
    c.set_health(true);
    let step = c.connect(Ok(()), 10);
    assert_eq!(step.response, Ok(StateResponse::Reply("connected".to_string())));
    assert_eq!(step.pause_secs, None);
    assert!(!c.get_health_at(0).unwrap().healthy);
}

#[test]
fn a_socket_that_does_not_open_is_tried_again() {
    let mut c = ws_client();
    let mut pauses = Vec::new();
    for _ in 0..3 {
        let step = c.connect(Err("refused".to_string()), 10);
        assert_eq!(step.response, Ok(StateResponse::Nothing));
        pauses.push(step.pause_secs.unwrap());
    }
    assert_eq!(pauses, vec![2, 4, 8]);
    assert_eq!(c.session().backoff(), 3);
    let step = c.connect(Err("refused".to_string()), 3);
    assert_eq!(
        step.response,
        Err(ApiClientError {
            code: CONNECT_EXHAUSTED,
            details: "Failed to connect to websocket: refused".to_string()
        })
    );
    assert_eq!(step.pause_secs, None);
    c.connect(Ok(()), 3);
    assert_eq!(c.session().backoff(), 0);
}

#[test]
fn the_handshake_queues_the_agent_state() {
    let mut c = ws_client();
    assert_eq!(c.handshake(), Ok(StateResponse::Reply("handshake enqueued".to_string())));
    let queue = c.session().outbox();
    assert_eq!(queue.len(), 1);
    assert_eq!(Some(&queue[0]), c.session().status());
    assert!(!queue[0].health.as_ref().unwrap().healthy);
    assert_eq!(queue[0].capabilities, 3);
    assert_eq!(queue[0].flags, 1);
    assert_eq!(
        queue[0].effective_config.as_ref().unwrap().config_map,
        Some(AgentConfigMap { config_map: vec![] })
    );
}

#[test]
fn flushing_numbers_the_messages_in_their_order() {
    let mut c = ws_client();
    c.handshake().unwrap();
    c.handshake().unwrap();
    c.handshake().unwrap();
    let frames = c.flush();
    assert_eq!(frames.iter().map(|m| m.sequence_num).collect::<Vec<u64>>(), vec![1, 2, 3]);
    assert!(frames.iter().all(|m| m.capabilities == 3 && m.flags == 1));
    assert_eq!(c.session().pending(), 0);
    assert_eq!(c.session().sequence_num(), 3);
    assert!(c.flush().is_empty());
    c.handshake().unwrap();
    assert_eq!(c.flush()[0].sequence_num, 4);
}

#[test]
fn report_full_state_on_self() {
    let mut c = established();
    let mut inbound = ServerToAgent::default();
    inbound.flags = 1;
    inbound.instance_uid = "01ARZ3NDEKTSV4RRFFQ69G5FAV".to_string();
    assert_eq!(c.poll_begin_at(20), None);
    assert_eq!(
        c.poll_end(Some(inbound)),
        Ok(StateResponse::Reply("messages pending".to_string()))
    );
    let before = c.session().sequence_num();
    let frames = c.flush();
    assert_eq!(frames.len(), 1);
    let out = &frames[0];
    assert_eq!(out.sequence_num, before + 1);
    assert_eq!(out.instance_uid, "01ARZ3NDEKTSV4RRFFQ69G5FAV");
    let description = out.agent_description.as_ref().unwrap();
    assert!(!description.identifying_attributes.is_empty());
    assert!(!description.non_identifying_attributes.is_empty());
    assert!(out.health.as_ref().unwrap().healthy);
    assert!(out.effective_config.is_some());
    assert!(out.remote_config_status.is_some());
    assert!(out.package_statuses.is_some());
}

#[test]
fn a_report_for_a_child_goes_to_the_health_check() {
    let mut child = AgentToServer::default();
    child.instance_uid = "child".to_string();
    let mut c = established();
    let mut c2 = WsClient::new(ws_settings(), Supervisor { child: Some(child.clone()) }, ws_host());
    c2.set_health(true);
    let mut inbound = ServerToAgent::default();
    inbound.flags = 1;
    inbound.instance_uid = "child".to_string();
    assert_eq!(
        c2.poll_end(Some(inbound.clone())),
        Ok(StateResponse::Reply("messages pending".to_string()))
    );
    assert_eq!(c2.session().outbox(), &vec![child]);
    assert_eq!(c.poll_end(Some(inbound)), Ok(StateResponse::Nothing));
    assert_eq!(c.session().pending(), 0);
}

#[test]
fn the_first_poll_over_a_socket_reports_the_agent_healthy() {
    let mut c = ws_client();
    c.handshake().unwrap();
    c.flush();
    assert_eq!(
        c.poll_begin_at(123),
        Some(StateResponse::Reply("flushing queue".to_string()))
    );
    let queue = c.session().outbox();
    assert_eq!(queue.len(), 1);
    let health = queue[0].health.as_ref().unwrap();
    assert!(health.healthy);
    assert_eq!(health.start_time_unix_nano, 123);
    assert!(c.session().status().unwrap().health.as_ref().unwrap().healthy);
    c.flush();
    assert_eq!(c.poll_begin_at(124), None);
    assert_eq!(c.poll_end(None), Ok(StateResponse::Nothing));
}

#[test]
fn only_binary_frames_hold_a_payload() {
    let binary = Frame::Binary(frame(&[1, 2, 3]));
    assert_eq!(inbound_payload(Ok(Some(binary))), Some(vec![1, 2, 3]));
    assert_eq!(inbound_payload(Ok(Some(Frame::Binary(vec![42, 9])))), Some(vec![9]));
    assert_eq!(inbound_payload(Ok(Some(Frame::Binary(vec![])))), None);
    assert_eq!(inbound_payload(Ok(Some(Frame::Text("hi".to_string())))), None);
    assert_eq!(inbound_payload(Ok(Some(Frame::Ping(vec![0, 1])))), None);
    assert_eq!(inbound_payload(Ok(Some(Frame::Pong(vec![0, 1])))), None);
    assert_eq!(inbound_payload(Ok(Some(Frame::Close))), None);
    assert_eq!(inbound_payload(Ok(Some(Frame::Raw))), None);
    assert_eq!(inbound_payload(Ok(None)), None);
    assert_eq!(inbound_payload(Err(receive_error("reset"))), None);
}

#[test]
fn socket_errors_say_what_failed() {
    let e = send_error("broken pipe");
    assert_eq!(e.code(), SOCKET_SEND);
    assert_eq!(e.details, "Service Error <4> : Websocket send error broken pipe");
    let e = receive_error("reset");
    assert_eq!(e.code(), SOCKET_RECEIVE);
    assert_eq!(e.details, "WebSocket receive error reset");
}

#[test]
fn the_response_of_a_send() {
    assert_eq!(send_response(Ok(())), Ok(StateResponse::Reply("messages sent".to_string())));
    assert_eq!(
        send_response(Err(send_error("broken pipe"))),
        Ok(StateResponse::Error(
            "Service Error <4> : Websocket send error broken pipe".to_string()
        ))
    );
}

#[test]
fn a_socket_client_walks_through_the_states() {
    let mut c = ws_client();
    let mut visited = vec![c.session().state().phase()];
    c.advance(Ok(StateResponse::Nothing));
    visited.push(c.session().state().phase());
    let step = c.connect(Ok(()), 10);
    c.advance(step.response);
    visited.push(c.session().state().phase());
    let r = c.handshake();
    c.advance(r);
    visited.push(c.session().state().phase());
    c.flush();
    c.advance(send_response(Ok(())));
    visited.push(c.session().state().phase());
    let r = c.wait();
    c.advance(r);
    visited.push(c.session().state().phase());
    assert_eq!(
        visited,
        vec![
            Phase::Disconnected,
            Phase::Connecting,
            Phase::Connected,
            Phase::Sending,
            Phase::Waiting,
            Phase::Polling
        ]
    );
    assert_eq!(c.session().state().token(), "");
}

#[test]
fn outbound_frames_are_binary_and_carry_the_header() {
    assert_eq!(outbound_frame(&[7, 8]), Frame::Binary(vec![0, 7, 8]));
    assert_eq!(outbound_frame(&[]), Frame::Binary(vec![0]));
    assert_eq!(inbound_payload(Ok(Some(outbound_frame(&[7, 8])))), Some(vec![7, 8]));
}
