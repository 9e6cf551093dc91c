//! The messages of the protocol, as plain data.
//!
//! A field that the wire format keys by name is a list of pairs here, in the
//! order in which it is to be written. A floating-point attribute value is held
//! by its bits.
pub mod agent;
pub mod server;
pub mod values;

pub use agent::{
    AgentConfigFile, AgentConfigFileView, AgentConfigMap, AgentConfigMapView, AgentDescription,
    AgentDescriptionView, AgentDisconnect, AgentHealth, AgentHealthView, AgentToServer,
    AgentToServerView, EffectiveConfig, EffectiveConfigView, PackageStatus, PackageStatusView,
    PackageStatuses, PackageStatusesView, RemoteConfigStatus, RemoteConfigStatusView,
    RemoteConfigStatuses,
};
pub use server::{
    AgentIdentification, AgentRemoteConfig, ConnectionSettingsOffers, DownloadableFile, Header,
    Headers, OpAmpConnectionSettings, OtherConnectionSettings, PackageAvailable,
    PackagesAvailable, RetryInfo, ServerErrorResponse, ServerToAgent, ServerToAgentCommand,
    ServerToAgentFlags, TelemetryConnectionSettings, TlsCertificate,
};
pub use values::{
    AnyValue, AnyValueView, ArrayValue, KeyValue, KeyValueList, KeyValueView, Value, ValueView,
};
