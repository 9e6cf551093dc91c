use otel_opamp_rs::api::ApiClientError;
use otel_opamp_rs::opamp::Channel;
use otel_opamp_rs::state::{Operation, Phase, State, StateResponse};

fn reply(token: &str) -> Result<StateResponse, ApiClientError> {
    Ok(StateResponse::Reply(token.to_string()))
}

fn silence() -> Result<StateResponse, ApiClientError> {
    Ok(StateResponse::Nothing)
}

fn soft(token: &str) -> Result<StateResponse, ApiClientError> {
    Ok(StateResponse::Error(token.to_string()))
}

fn hard(token: &str) -> Result<StateResponse, ApiClientError> {
    Err(ApiClientError { code: 7, details: token.to_string() })
}

#[test]
fn disconnected_always_starts_to_connect() {
    let start = State::Disconnected("gone".to_string());
    assert_eq!(start.clone().advance(reply("x")), State::Connecting(String::new()));
    assert_eq!(start.clone().advance(silence()), State::Connecting(String::new()));
    assert_eq!(start.clone().advance(soft("x")), State::Connecting(String::new()));
    assert_eq!(start.advance(hard("x")), State::Connecting(String::new()));
}

#[test]
fn connecting_row_of_the_table() {
    let s = State::Connecting(String::new());
    assert_eq!(s.clone().advance(reply("up")), State::Connected("up".to_string()));
    assert_eq!(s.clone().advance(silence()), State::Connected(String::new()));
    assert_eq!(s.clone().advance(soft("down")), State::Disconnected("down".to_string()));
    assert_eq!(s.advance(hard("dead")), State::Disconnected("dead".to_string()));
}

#[test]
fn connected_row_of_the_table() {
    let s = State::Connected(String::new());
    assert_eq!(s.clone().advance(reply("queued")), State::Sending("queued".to_string()));
    assert_eq!(s.clone().advance(silence()), State::Polling(String::new()));
    assert_eq!(s.clone().advance(soft("down")), State::Disconnected("down".to_string()));
    assert_eq!(s.advance(hard("dead")), State::Disconnected("dead".to_string()));
}

#[test]
fn polling_row_of_the_table() {
    let s = State::Polling("idle".to_string());
    assert_eq!(s.clone().advance(reply("more")), State::Sending("more".to_string()));
    assert_eq!(s.clone().advance(silence()), State::Polling("idle".to_string()));
    assert_eq!(s.clone().advance(soft("down")), State::Disconnected("down".to_string()));
    assert_eq!(s.advance(hard("dead")), State::Connecting("dead".to_string()));
}

#[test]
fn sending_row_of_the_table() {
    let s = State::Sending(String::new());
    assert_eq!(s.clone().advance(reply("sent")), State::Waiting("sent".to_string()));
    assert_eq!(s.clone().advance(silence()), State::Polling(String::new()));
    assert_eq!(s.clone().advance(soft("late")), State::Polling("late".to_string()));
    assert_eq!(s.advance(hard("dead")), State::Connecting("dead".to_string()));
}

#[test]
fn waiting_row_of_the_table() {
    let s = State::Waiting("w".to_string());
    assert_eq!(s.clone().advance(reply("")), State::Polling(String::new()));
    assert_eq!(s.clone().advance(silence()), State::Waiting("w".to_string()));
    assert_eq!(s.clone().advance(soft("late")), State::Polling("late".to_string()));
    assert_eq!(s.advance(hard("dead")), State::Connecting("dead".to_string()));
}

#[test]
fn quiet_ticks_take_the_path_of_least_progress() {
    let waiting = State::Waiting("w".to_string());
    let twice = waiting.clone().advance(silence()).advance(silence());
    assert_eq!(twice, waiting);
    let next = State::Disconnected(String::new()).advance(silence());
    assert_eq!(next, State::Connecting(String::new()));
    assert_eq!(next.operation(), Operation::Connect);
}

#[test]
fn every_state_names_its_operation() {
    assert_eq!(State::Disconnected(String::new()).operation(), Operation::Idle);
    assert_eq!(State::Connecting(String::new()).operation(), Operation::Connect);
    assert_eq!(State::Connected(String::new()).operation(), Operation::Handshake);
    assert_eq!(State::Polling(String::new()).operation(), Operation::Poll);
    assert_eq!(State::Sending(String::new()).operation(), Operation::Send);
    assert_eq!(State::Waiting(String::new()).operation(), Operation::Wait);
}

#[test]
fn phase_token_and_with_agree() {
    let s = State::with(Phase::Sending, "t".to_string());
    assert_eq!(s, State::Sending("t".to_string()));
    assert_eq!(s.phase(), Phase::Sending);
    assert_eq!(s.token(), "t");
}

struct Scripted {
    id: String,
    calls: Vec<&'static str>,
    answer: Result<StateResponse, ApiClientError>,
}

impl Scripted {
    fn answering(answer: Result<StateResponse, ApiClientError>) -> Scripted {
        Scripted { id: "me".to_string(), calls: Vec::new(), answer }
    }
}

impl Channel for Scripted {
    fn get_instance_id(&self) -> &String {
        &self.id
    }

    fn trigger(&mut self) {}

    fn connect(&mut self) -> Result<StateResponse, ApiClientError> {
        self.calls.push("connect");
        self.answer.clone()
    }

    fn handshake(&mut self) -> Result<StateResponse, ApiClientError> {
        self.calls.push("handshake");
        self.answer.clone()
    }

    fn poll(&mut self) -> Result<StateResponse, ApiClientError> {
        self.calls.push("poll");
        self.answer.clone()
    }

    fn send(&mut self) -> Result<StateResponse, ApiClientError> {
        self.calls.push("send");
        self.answer.clone()
    }

    fn wait(&mut self) -> Result<StateResponse, ApiClientError> {
        self.calls.push("wait");
        self.answer.clone()
    }
}

#[test]
fn evaluate_invokes_the_operation_of_the_state() {
    let mut channel = Scripted::answering(reply("ok"));
    let mut state = State::Disconnected(String::new());
    let mut visited = vec![state.phase()];
    for _ in 0..5 {
        state = state.evaluate(&mut channel).unwrap();
        visited.push(state.phase());
    }
    assert_eq!(
        visited,
        vec![
            Phase::Disconnected,
            Phase::Connecting,
            Phase::Connected,
            Phase::Sending,
            Phase::Waiting,
            Phase::Polling
        ]
    );
    assert_eq!(channel.calls, vec!["connect", "handshake", "send", "wait"]);
    assert_eq!(channel.get_instance_id(), "me");
}

#[test]
fn evaluate_turns_a_hard_failure_into_a_reconnect() {
    let mut channel = Scripted::answering(hard("boom"));
    let next = State::Polling(String::new()).evaluate(&mut channel).unwrap();
    assert_eq!(next, State::Connecting("boom".to_string()));
    let next = State::Connecting(String::new()).evaluate(&mut channel).unwrap();
    assert_eq!(next, State::Disconnected("boom".to_string()));
}
