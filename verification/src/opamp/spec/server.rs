//! The message from server to agent and its parts.
use crate::opamp::spec::agent::AgentConfigMap;
use vstd::prelude::*;

verus! {

/// The flags of a message from the server.
#[derive(Clone, Copy, Debug, PartialEq, Eq, Structural)]
pub enum ServerToAgentFlags {
    Unspecified,
    /// The addressed instance is to send its complete state again.
    ReportFullState,
}

/// The bit of [`ServerToAgentFlags::ReportFullState`].
pub const REPORT_FULL_STATE: u64 = 1;

impl ServerToAgentFlags {
    /// The bits that stand for this flag on the wire.
    pub open spec fn spec_bits(self) -> u64 {
        match self {
            ServerToAgentFlags::Unspecified => 0,
            ServerToAgentFlags::ReportFullState => REPORT_FULL_STATE,
        }
    }

    /// The bits that stand for this flag on the wire.
    #[verifier::when_used_as_spec(spec_bits)]
    pub fn bits(self) -> (b: u64)
        ensures
            b == self.spec_bits(),
    {
        match self {
            ServerToAgentFlags::Unspecified => 0,
            ServerToAgentFlags::ReportFullState => REPORT_FULL_STATE,
        }
    }
}

/// When to try again after an error.
#[derive(Clone, Debug, PartialEq)]
pub struct RetryInfo {
    pub retry_after_nanoseconds: u64,
}

/// An error that the server reports.
#[derive(Clone, Debug, PartialEq)]
pub struct ServerErrorResponse {
    pub kind: i32,
    pub error_message: String,
    pub retry_info: Option<RetryInfo>,
}

/// A command of the server.
#[derive(Clone, Debug, PartialEq)]
pub struct ServerToAgentCommand {
    pub kind: i32,
}

/// A configuration that the server asks the agent to apply.
#[derive(Clone, Debug, PartialEq)]
pub struct AgentRemoteConfig {
    pub config: Option<AgentConfigMap>,
    pub config_hash: Vec<u8>,
}

/// One header of a request.
#[derive(Clone, Debug, PartialEq)]
pub struct Header {
    pub key: String,
    pub value: String,
}

/// The headers of a request.
#[derive(Clone, Debug, PartialEq)]
pub struct Headers {
    pub headers: Vec<Header>,
}

/// A certificate with its keys.
#[derive(Clone, Debug, PartialEq)]
pub struct TlsCertificate {
    pub public_key: Vec<u8>,
    pub private_key: Vec<u8>,
    pub ca_public_key: Vec<u8>,
}

/// Where and how to reach the management server.
#[derive(Clone, Debug, PartialEq)]
pub struct OpAmpConnectionSettings {
    pub destination_endpoint: String,
    pub headers: Option<Headers>,
    pub certificate: Option<TlsCertificate>,
}

/// Where and how to send telemetry of the agent itself.
#[derive(Clone, Debug, PartialEq)]
pub struct TelemetryConnectionSettings {
    pub destination_endpoint: String,
    pub headers: Option<Headers>,
    pub certificate: Option<TlsCertificate>,
}

/// Where and how to reach another destination.
#[derive(Clone, Debug, PartialEq)]
pub struct OtherConnectionSettings {
    pub destination_endpoint: String,
    pub headers: Option<Headers>,
    pub certificate: Option<TlsCertificate>,
    pub other_settings: Vec<(String, String)>,
}

/// The connection settings that the server offers.
#[derive(Clone, Debug, PartialEq)]
pub struct ConnectionSettingsOffers {
    pub hash: Vec<u8>,
    pub opamp: Option<OpAmpConnectionSettings>,
    pub own_metrics: Option<TelemetryConnectionSettings>,
    pub own_traces: Option<TelemetryConnectionSettings>,
    pub own_logs: Option<TelemetryConnectionSettings>,
    pub other_connections: Vec<(String, OtherConnectionSettings)>,
}

/// A file to download.
#[derive(Clone, Debug, PartialEq)]
pub struct DownloadableFile {
    pub download_url: String,
    pub content_hash: Vec<u8>,
    pub signature: Vec<u8>,
}

/// A package that the server offers.
#[derive(Clone, Debug, PartialEq)]
pub struct PackageAvailable {
    pub kind: i32,
    pub version: String,
    pub file: Option<DownloadableFile>,
    pub hash: Vec<u8>,
}

/// The packages that the server offers, by name.
#[derive(Clone, Debug, PartialEq)]
pub struct PackagesAvailable {
    pub packages: Vec<(String, PackageAvailable)>,
    pub all_packages_hash: Vec<u8>,
}

/// A new identity for the agent.
#[derive(Clone, Debug, PartialEq)]
pub struct AgentIdentification {
    pub new_instance_uid: String,
}

/// The message that the server sends to an agent.
#[derive(Clone, Debug, PartialEq)]
pub struct ServerToAgent {
    pub instance_uid: String,
    pub error_response: Option<ServerErrorResponse>,
    pub remote_config: Option<AgentRemoteConfig>,
    pub connection_settings: Option<ConnectionSettingsOffers>,
    pub packages_available: Option<PackagesAvailable>,
    pub flags: u64,
    pub capabilities: u64,
    pub agent_identification: Option<AgentIdentification>,
    pub command: Option<ServerToAgentCommand>,
}

impl Default for ServerToAgent {
    /// The message in which nothing is set.
    fn default() -> (m: ServerToAgent)
        ensures
            m.instance_uid@ == Seq::<char>::empty(),
            m.error_response is None,
            m.remote_config is None,
            m.connection_settings is None,
            m.packages_available is None,
            m.flags == 0,
            m.capabilities == 0,
            m.agent_identification is None,
            m.command is None,
    {
        ServerToAgent {
            instance_uid: String::new(),
            error_response: None,
            remote_config: None,
            connection_settings: None,
            packages_available: None,
            flags: 0,
            capabilities: 0,
            agent_identification: None,
            command: None,
        }
    }
}

} // verus!
