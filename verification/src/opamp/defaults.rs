//! The parts of the agent state as they stand before anything is known.
use crate::api::HostInfo;
use crate::opamp::spec::{
    AgentDescription, AgentDescriptionView, AgentHealth, AgentHealthView, AnyValue, AnyValueView,
    EffectiveConfig, EffectiveConfigView, KeyValue, KeyValueView, PackageStatuses,
    PackageStatusesView, RemoteConfigStatus, RemoteConfigStatusView, RemoteConfigStatuses,
    ValueView,
};
use crate::opamp::util::{generate_ulid, get_time_nanos, ulid_text, ULID_LEN};
use vstd::prelude::*;
use vstd::string::*;

verus! {

/// The low 64 bits of a time in nanoseconds: the form in which a health
/// report carries it.
pub open spec fn low_bits(nanos: u128) -> u64 {
    (nanos % 0x1_0000_0000_0000_0000) as u64
}

/// The health of an agent of which nothing is known yet, read at `nanos`.
pub open spec fn unknown_health(nanos: u128) -> AgentHealthView {
    AgentHealthView { healthy: false, start_time_unix_nano: low_bits(nanos), last_error: Seq::empty() }
}

/// The attribute `key` with the string `text` as its value.
pub open spec fn string_attribute(key: Seq<char>, text: Seq<char>) -> KeyValueView {
    KeyValueView { key, value: Some(AnyValueView { value: Some(ValueView::StringValue(text)) }) }
}

/// The description of an agent: its name, version and instance as the
/// identifying attributes, the kind and version of the operating system and
/// the name of the host as the others.
pub open spec fn description_of(
    name: Seq<char>,
    version: Seq<char>,
    instance: Seq<char>,
    host: HostInfo,
) -> AgentDescriptionView {
    AgentDescriptionView {
        identifying_attributes: seq![
            string_attribute("service.name"@, name),
            string_attribute("service.version"@, version),
            string_attribute("service.instance.id"@, instance),
        ],
        non_identifying_attributes: seq![
            string_attribute("os.type"@, host.os_type@),
            string_attribute("os.version"@, host.os_version@),
            string_attribute("host.name"@, host.host_name@),
        ],
    }
}

/// An effective configuration without a configuration map.
pub fn effective_config() -> (c: EffectiveConfig)
    ensures
        c@ == (EffectiveConfigView { config_map: None }),
{
    EffectiveConfig { config_map: None }
}

/// The status of a remote configuration that was never received: no hash,
/// status unset, no error.
pub fn remote_config_status() -> (s: RemoteConfigStatus)
    ensures
        s@ == (RemoteConfigStatusView {
            last_remote_config_hash: Seq::empty(),
            status: RemoteConfigStatuses::Unset.spec_value(),
            error_message: Seq::empty(),
        }),
{
    RemoteConfigStatus {
        last_remote_config_hash: Vec::new(),
        status: RemoteConfigStatuses::Unset.value(),
        error_message: String::new(),
    }
}

/// The package statuses of an agent without packages.
pub fn package_statuses() -> (p: PackageStatuses)
    ensures
        p@ == (PackageStatusesView {
            packages: Seq::empty(),
            server_provided_all_packages_hash: Seq::empty(),
            error_message: Seq::empty(),
        }),
{
    let p = PackageStatuses {
        packages: Vec::new(),
        server_provided_all_packages_hash: Vec::new(),
        error_message: String::new(),
    };
    assert(p@.packages =~= Seq::empty());
    p
}

/// The health of an agent of which nothing is known yet, read at `nanos`:
/// unhealthy, without an error.
pub fn agent_health_at(nanos: u128) -> (h: AgentHealth)
    ensures
        h@ == unknown_health(nanos),
{
    AgentHealth {
        healthy: false,
        start_time_unix_nano: (nanos % 0x1_0000_0000_0000_0000) as u64,
        last_error: String::new(),
    }
}

/// The health of an agent of which nothing is known yet, read now.
pub fn agent_health() -> (h: AgentHealth)
    ensures
        !h.healthy,
        h.last_error@ == Seq::<char>::empty(),
{
    agent_health_at(get_time_nanos())
}

/// The attribute `key` with the string `text` as its value.
pub fn attribute(key: &str, text: String) -> (kv: KeyValue)
    ensures
        kv@ == string_attribute(key@, text@),
{
    KeyValue { key: String::from_str(key), value: Some(AnyValue::string(text)) }
}

/// The description of the agent `name` at `version`, running as `instance` on
/// `host`.
pub fn describe(name: &str, version: &str, instance: String, host: &HostInfo) -> (d:
    AgentDescription)
    ensures
        d@ == description_of(name@, version@, instance@, *host),
{
    let mut identifying_attributes: Vec<KeyValue> = Vec::new();
    identifying_attributes.push(attribute("service.name", String::from_str(name)));
    identifying_attributes.push(attribute("service.version", String::from_str(version)));
    identifying_attributes.push(attribute("service.instance.id", instance));
    let mut non_identifying_attributes: Vec<KeyValue> = Vec::new();
    non_identifying_attributes.push(attribute("os.type", host.os_type.clone()));
    non_identifying_attributes.push(attribute("os.version", host.os_version.clone()));
    non_identifying_attributes.push(attribute("host.name", host.host_name.clone()));
    let d = AgentDescription { identifying_attributes, non_identifying_attributes };
    assert(d@.identifying_attributes =~= description_of(
        name@,
        version@,
        instance@,
        *host,
    ).identifying_attributes);
    assert(d@.non_identifying_attributes =~= description_of(
        name@,
        version@,
        instance@,
        *host,
    ).non_identifying_attributes);
    d
}

/// The description of the agent `name` at `version` on `host`, under a fresh
/// instance identifier.
pub fn agent_description(name: &str, version: &str, host: &HostInfo) -> (d: AgentDescription)
    ensures
        exists|instance: Seq<char>|
            instance.len() == ULID_LEN && d@ == #[trigger] description_of(
                name@,
                version@,
                instance,
                *host,
            ),
{
    let id = generate_ulid();
    let instance = ulid_text(&id);
    let ghost chosen = instance@;
    let d = describe(name, version, instance, host);
    assert(d@ == description_of(name@, version@, chosen, *host));
    d
}

} // verus!
