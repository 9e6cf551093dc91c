use otel_opamp_rs::api::ApiClientError;
use otel_opamp_rs::dispatch::{accept, plan, wants_own_state, Step};
use otel_opamp_rs::opamp::spec::{
    AgentRemoteConfig, AgentToServer, ConnectionSettingsOffers, PackagesAvailable,
    ServerErrorResponse, ServerToAgent, ServerToAgentCommand, TelemetryConnectionSettings,
};

fn telemetry() -> TelemetryConnectionSettings {
    TelemetryConnectionSettings {
        destination_endpoint: "http://t".to_string(),
        headers: None,
        certificate: None,
    }
}

fn offers(metrics: bool, traces: bool, logs: bool) -> ConnectionSettingsOffers {
    ConnectionSettingsOffers {
        hash: vec![],
        opamp: None,
        own_metrics: if metrics { Some(telemetry()) } else { None },
        own_traces: if traces { Some(telemetry()) } else { None },
        own_logs: if logs { Some(telemetry()) } else { None },
        other_connections: vec![],
    }
}

fn full() -> ServerToAgent {
    let mut m = ServerToAgent::default();
    m.instance_uid = "me".to_string();
    m.flags = 1;
    m.command = Some(ServerToAgentCommand { kind: 0 });
    m.error_response =
        Some(ServerErrorResponse { kind: 0, error_message: "e".to_string(), retry_info: None });
    m.remote_config = Some(AgentRemoteConfig { config: None, config_hash: vec![1] });
    m.connection_settings = Some(offers(true, true, true));
    m.packages_available = Some(PackagesAvailable { packages: vec![], all_packages_hash: vec![] });
    m
}

#[test]
fn an_empty_message_asks_for_nothing() {
    assert_eq!(plan(&ServerToAgent::default(), &"me".to_string()), vec![]);
}

#[test]
fn steps_come_in_the_order_of_the_table() {
    assert_eq!(
        plan(&full(), &"me".to_string()),
        vec![
            Step::Command,
            Step::Error,
            Step::ReportSelf,
            Step::RemoteConfig,
            Step::OwnMetrics,
            Step::OwnTraces,
            Step::OwnLogs,
            Step::Packages,
        ]
    );
}

#[test]
fn a_report_for_another_instance_is_a_health_check() {
    assert_eq!(
        plan(&full(), &"someone else".to_string()),
        vec![
            Step::Command,
            Step::Error,
            Step::HealthCheck,
            Step::RemoteConfig,
            Step::OwnMetrics,
            Step::OwnTraces,
            Step::OwnLogs,
            Step::Packages,
        ]
    );
    assert!(wants_own_state(&full(), &"me".to_string()));
    assert!(!wants_own_state(&full(), &"someone else".to_string()));
}

#[test]
fn the_flag_is_one_bit_among_others() {
    let mut m = ServerToAgent::default();
    m.instance_uid = "me".to_string();
    m.flags = 0xfffe;
    assert_eq!(plan(&m, &"me".to_string()), vec![]);
    assert!(!wants_own_state(&m, &"me".to_string()));
    m.flags = 0xffff;
    assert_eq!(plan(&m, &"me".to_string()), vec![Step::ReportSelf]);
}

#[test]
fn each_offer_is_a_step_of_its_own() {
    let mut m = ServerToAgent::default();
    m.connection_settings = Some(offers(false, true, false));
    assert_eq!(plan(&m, &"me".to_string()), vec![Step::OwnTraces]);
    m.connection_settings = Some(offers(true, false, true));
    assert_eq!(plan(&m, &"me".to_string()), vec![Step::OwnMetrics, Step::OwnLogs]);
    m.connection_settings = Some(offers(false, false, false));
    assert_eq!(plan(&m, &"me".to_string()), vec![]);
}

#[test]
fn errors_of_callbacks_are_dropped() {
    let mut reply = AgentToServer::default();
    reply.instance_uid = "r".to_string();
    assert_eq!(accept(Ok(Some(reply.clone()))), Some(reply));
    assert_eq!(accept(Ok(None)), None);
    assert_eq!(accept(Err(ApiClientError::new(1, "x"))), None);
}
