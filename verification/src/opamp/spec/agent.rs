//! The message from agent to server and its parts.
use crate::opamp::spec::values::{copy_bytes, copy_key_values, key_values_view, KeyValue, KeyValueView};
use vstd::prelude::*;

verus! {

/// What the agent is: the attributes that identify it and those that only
/// describe it.
#[derive(Debug, PartialEq)]
pub struct AgentDescription {
    pub identifying_attributes: Vec<KeyValue>,
    pub non_identifying_attributes: Vec<KeyValue>,
}

/// The health of the agent.
#[derive(Debug, PartialEq)]
pub struct AgentHealth {
    pub healthy: bool,
    pub start_time_unix_nano: u64,
    pub last_error: String,
}

/// One configuration file.
#[derive(Debug, PartialEq)]
pub struct AgentConfigFile {
    pub body: Vec<u8>,
    pub content_type: String,
}

/// Configuration files by name.
#[derive(Debug, PartialEq)]
pub struct AgentConfigMap {
    pub config_map: Vec<(String, AgentConfigFile)>,
}

/// The configuration that the agent runs with.
#[derive(Debug, PartialEq)]
pub struct EffectiveConfig {
    pub config_map: Option<AgentConfigMap>,
}

/// How far the agent has come with the last configuration that the server
/// offered.
#[derive(Clone, Copy, Debug, PartialEq, Eq, Structural)]
pub enum RemoteConfigStatuses {
    Unset,
    Applied,
    Applying,
    Failed,
}

/// The status of the last remote configuration.
#[derive(Debug, PartialEq)]
pub struct RemoteConfigStatus {
    pub last_remote_config_hash: Vec<u8>,
    pub status: i32,
    pub error_message: String,
}

/// The status of one package.
#[derive(Debug, PartialEq)]
pub struct PackageStatus {
    pub name: String,
    pub agent_has_version: String,
    pub agent_has_hash: Vec<u8>,
    pub server_offered_version: String,
    pub server_offered_hash: Vec<u8>,
    pub status: i32,
    pub error_message: String,
}

/// The status of all packages, by name.
#[derive(Debug, PartialEq)]
pub struct PackageStatuses {
    pub packages: Vec<(String, PackageStatus)>,
    pub server_provided_all_packages_hash: Vec<u8>,
    pub error_message: String,
}

/// The notice that the agent is about to disconnect.
#[derive(Clone, Copy, Debug, PartialEq, Eq, Structural)]
pub struct AgentDisconnect {}

/// The message that an agent sends to the server.
#[derive(Debug, PartialEq)]
pub struct AgentToServer {
    pub instance_uid: String,
    pub sequence_num: u64,
    pub agent_description: Option<AgentDescription>,
    pub capabilities: u64,
    pub health: Option<AgentHealth>,
    pub effective_config: Option<EffectiveConfig>,
    pub remote_config_status: Option<RemoteConfigStatus>,
    pub package_statuses: Option<PackageStatuses>,
    pub agent_disconnect: Option<AgentDisconnect>,
    pub flags: u64,
}

pub struct AgentDescriptionView {
    pub identifying_attributes: Seq<KeyValueView>,
    pub non_identifying_attributes: Seq<KeyValueView>,
}

pub struct AgentHealthView {
    pub healthy: bool,
    pub start_time_unix_nano: u64,
    pub last_error: Seq<char>,
}

pub struct AgentConfigFileView {
    pub body: Seq<u8>,
    pub content_type: Seq<char>,
}

pub struct AgentConfigMapView {
    pub config_map: Seq<(Seq<char>, AgentConfigFileView)>,
}

pub struct EffectiveConfigView {
    pub config_map: Option<AgentConfigMapView>,
}

pub struct RemoteConfigStatusView {
    pub last_remote_config_hash: Seq<u8>,
    pub status: i32,
    pub error_message: Seq<char>,
}

pub struct PackageStatusView {
    pub name: Seq<char>,
    pub agent_has_version: Seq<char>,
    pub agent_has_hash: Seq<u8>,
    pub server_offered_version: Seq<char>,
    pub server_offered_hash: Seq<u8>,
    pub status: i32,
    pub error_message: Seq<char>,
}

pub struct PackageStatusesView {
    pub packages: Seq<(Seq<char>, PackageStatusView)>,
    pub server_provided_all_packages_hash: Seq<u8>,
    pub error_message: Seq<char>,
}

pub struct AgentToServerView {
    pub instance_uid: Seq<char>,
    pub sequence_num: u64,
    pub agent_description: Option<AgentDescriptionView>,
    pub capabilities: u64,
    pub health: Option<AgentHealthView>,
    pub effective_config: Option<EffectiveConfigView>,
    pub remote_config_status: Option<RemoteConfigStatusView>,
    pub package_statuses: Option<PackageStatusesView>,
    pub agent_disconnect: Option<AgentDisconnect>,
    pub flags: u64,
}

/// The mathematical value of an optional part.
pub open spec fn opt_view<T: View>(o: Option<T>) -> Option<T::V> {
    match o {
        Some(x) => Some(x@),
        None => None,
    }
}

/// The mathematical values of named parts, in their order.
pub open spec fn named_views<T: View>(s: Seq<(String, T)>) -> Seq<(Seq<char>, T::V)> {
    s.map_values(|e: (String, T)| (e.0@, e.1@))
}

impl View for AgentDescription {
    type V = AgentDescriptionView;

    open spec fn view(&self) -> AgentDescriptionView {
        AgentDescriptionView {
            identifying_attributes: key_values_view(self.identifying_attributes@),
            non_identifying_attributes: key_values_view(self.non_identifying_attributes@),
        }
    }
}

impl View for AgentHealth {
    type V = AgentHealthView;

    open spec fn view(&self) -> AgentHealthView {
        AgentHealthView {
            healthy: self.healthy,
            start_time_unix_nano: self.start_time_unix_nano,
            last_error: self.last_error@,
        }
    }
}

impl View for AgentConfigFile {
    type V = AgentConfigFileView;

    open spec fn view(&self) -> AgentConfigFileView {
        AgentConfigFileView { body: self.body@, content_type: self.content_type@ }
    }
}

impl View for AgentConfigMap {
    type V = AgentConfigMapView;

    open spec fn view(&self) -> AgentConfigMapView {
        AgentConfigMapView { config_map: named_views(self.config_map@) }
    }
}

impl View for EffectiveConfig {
    type V = EffectiveConfigView;

    open spec fn view(&self) -> EffectiveConfigView {
        EffectiveConfigView { config_map: opt_view(self.config_map) }
    }
}

impl View for RemoteConfigStatus {
    type V = RemoteConfigStatusView;

    open spec fn view(&self) -> RemoteConfigStatusView {
        RemoteConfigStatusView {
            last_remote_config_hash: self.last_remote_config_hash@,
            status: self.status,
            error_message: self.error_message@,
        }
    }
}

impl View for PackageStatus {
    type V = PackageStatusView;

    open spec fn view(&self) -> PackageStatusView {
        PackageStatusView {
            name: self.name@,
            agent_has_version: self.agent_has_version@,
            agent_has_hash: self.agent_has_hash@,
            server_offered_version: self.server_offered_version@,
            server_offered_hash: self.server_offered_hash@,
            status: self.status,
            error_message: self.error_message@,
        }
    }
}

impl View for PackageStatuses {
    type V = PackageStatusesView;

    open spec fn view(&self) -> PackageStatusesView {
        PackageStatusesView {
            packages: named_views(self.packages@),
            server_provided_all_packages_hash: self.server_provided_all_packages_hash@,
            error_message: self.error_message@,
        }
    }
}

impl View for AgentToServer {
    type V = AgentToServerView;

    open spec fn view(&self) -> AgentToServerView {
        AgentToServerView {
            instance_uid: self.instance_uid@,
            sequence_num: self.sequence_num,
            agent_description: opt_view(self.agent_description),
            capabilities: self.capabilities,
            health: opt_view(self.health),
            effective_config: opt_view(self.effective_config),
            remote_config_status: opt_view(self.remote_config_status),
            package_statuses: opt_view(self.package_statuses),
            agent_disconnect: self.agent_disconnect,
            flags: self.flags,
        }
    }
}

/// The message in which nothing is set.
pub open spec fn empty_message() -> AgentToServerView {
    AgentToServerView {
        instance_uid: Seq::empty(),
        sequence_num: 0,
        agent_description: None,
        capabilities: 0,
        health: None,
        effective_config: None,
        remote_config_status: None,
        package_statuses: None,
        agent_disconnect: None,
        flags: 0,
    }
}

impl RemoteConfigStatuses {
    /// The number that stands for this status on the wire.
    pub open spec fn spec_value(self) -> i32 {
        match self {
            RemoteConfigStatuses::Unset => 0,
            RemoteConfigStatuses::Applied => 1,
            RemoteConfigStatuses::Applying => 2,
            RemoteConfigStatuses::Failed => 3,
        }
    }

    /// The number that stands for this status on the wire.
    #[verifier::when_used_as_spec(spec_value)]
    pub fn value(self) -> (v: i32)
        ensures
            v == self.spec_value(),
    {
        match self {
            RemoteConfigStatuses::Unset => 0,
            RemoteConfigStatuses::Applied => 1,
            RemoteConfigStatuses::Applying => 2,
            RemoteConfigStatuses::Failed => 3,
        }
    }
}

impl Clone for AgentDescription {
    /// A copy with the same mathematical value.
    fn clone(&self) -> (r: AgentDescription)
        ensures
            r@ == self@,
    {
        AgentDescription {
            identifying_attributes: copy_key_values(&self.identifying_attributes),
            non_identifying_attributes: copy_key_values(&self.non_identifying_attributes),
        }
    }
}

impl Clone for AgentHealth {
    /// A copy with the same mathematical value.
    fn clone(&self) -> (r: AgentHealth)
        ensures
            r@ == self@,
    {
        AgentHealth {
            healthy: self.healthy,
            start_time_unix_nano: self.start_time_unix_nano,
            last_error: self.last_error.clone(),
        }
    }
}

impl Clone for AgentConfigFile {
    /// A copy with the same mathematical value.
    fn clone(&self) -> (r: AgentConfigFile)
        ensures
            r@ == self@,
    {
        AgentConfigFile { body: copy_bytes(&self.body), content_type: self.content_type.clone() }
    }
}

impl Clone for AgentConfigMap {
    /// A copy with the same mathematical value.
    fn clone(&self) -> (r: AgentConfigMap)
        ensures
            r@ == self@,
    {
        let mut files: Vec<(String, AgentConfigFile)> = Vec::new();
        let mut i: usize = 0;
        while i < self.config_map.len()
            invariant
                i <= self.config_map.len(),
                files@.len() == i,
                forall|j: int|
                    0 <= j < i ==> files@[j].0@ == self.config_map@[j].0@ && files@[j].1@
                        == self.config_map@[j].1@,
            decreases self.config_map.len() - i,
        {
            let entry = &self.config_map[i];
            files.push((entry.0.clone(), entry.1.clone()));
            i = i + 1;
        }
        assert(named_views(files@) =~= named_views(self.config_map@));
        AgentConfigMap { config_map: files }
    }
}

impl Clone for EffectiveConfig {
    /// A copy with the same mathematical value.
    fn clone(&self) -> (r: EffectiveConfig)
        ensures
            r@ == self@,
    {
        EffectiveConfig {
            config_map: match &self.config_map {
                Some(m) => Some(m.clone()),
                None => None,
            },
        }
    }
}

impl Clone for RemoteConfigStatus {
    /// A copy with the same mathematical value.
    fn clone(&self) -> (r: RemoteConfigStatus)
        ensures
            r@ == self@,
    {
        RemoteConfigStatus {
            last_remote_config_hash: copy_bytes(&self.last_remote_config_hash),
            status: self.status,
            error_message: self.error_message.clone(),
        }
    }
}

impl Clone for PackageStatus {
    /// A copy with the same mathematical value.
    fn clone(&self) -> (r: PackageStatus)
        ensures
            r@ == self@,
    {
        PackageStatus {
            name: self.name.clone(),
            agent_has_version: self.agent_has_version.clone(),
            agent_has_hash: copy_bytes(&self.agent_has_hash),
            server_offered_version: self.server_offered_version.clone(),
            server_offered_hash: copy_bytes(&self.server_offered_hash),
            status: self.status,
            error_message: self.error_message.clone(),
        }
    }
}

impl Clone for PackageStatuses {
    /// A copy with the same mathematical value.
    fn clone(&self) -> (r: PackageStatuses)
        ensures
            r@ == self@,
    {
        let mut packages: Vec<(String, PackageStatus)> = Vec::new();
        let mut i: usize = 0;
        while i < self.packages.len()
            invariant
                i <= self.packages.len(),
                packages@.len() == i,
                forall|j: int|
                    0 <= j < i ==> packages@[j].0@ == self.packages@[j].0@ && packages@[j].1@
                        == self.packages@[j].1@,
            decreases self.packages.len() - i,
        {
            let entry = &self.packages[i];
            packages.push((entry.0.clone(), entry.1.clone()));
            i = i + 1;
        }
        assert(named_views(packages@) =~= named_views(self.packages@));
        PackageStatuses {
            packages,
            server_provided_all_packages_hash: copy_bytes(
                &self.server_provided_all_packages_hash,
            ),
            error_message: self.error_message.clone(),
        }
    }
}

impl Default for AgentToServer {
    /// The message in which nothing is set.
    fn default() -> (m: AgentToServer)
        ensures
            m@ == empty_message(),
    {
        AgentToServer {
            instance_uid: String::new(),
            sequence_num: 0,
            agent_description: None,
            capabilities: 0,
            health: None,
            effective_config: None,
            remote_config_status: None,
            package_statuses: None,
            agent_disconnect: None,
            flags: 0,
        }
    }
}

impl Clone for AgentToServer {
    /// A copy with the same mathematical value.
    fn clone(&self) -> (r: AgentToServer)
        ensures
            r@ == self@,
    {
        AgentToServer {
            instance_uid: self.instance_uid.clone(),
            sequence_num: self.sequence_num,
            agent_description: match &self.agent_description {
                Some(d) => Some(d.clone()),
                None => None,
            },
            capabilities: self.capabilities,
            health: match &self.health {
                Some(h) => Some(h.clone()),
                None => None,
            },
            effective_config: match &self.effective_config {
                Some(c) => Some(c.clone()),
                None => None,
            },
            remote_config_status: match &self.remote_config_status {
                Some(s) => Some(s.clone()),
                None => None,
            },
            package_statuses: match &self.package_statuses {
                Some(p) => Some(p.clone()),
                None => None,
            },
            agent_disconnect: self.agent_disconnect,
            flags: self.flags,
        }
    }
}

} // verus!
