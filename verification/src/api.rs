//! The error of the client, the connection settings and the callbacks through
//! which a client talks to the program that embeds it.
use crate::address::{address_of, address_text, begins_with, is_url, starts_with};
use crate::httpclient::HttpClient;
use crate::opamp::spec::{AgentConfigMap, AgentToServer, ServerToAgent};
use crate::session::SessionView;
use crate::state::{at, Phase};
use crate::wsclient::WsClient;
use crate::opamp::util::{generate_ulid, ulid_text, ULID_LEN};
use vstd::prelude::*;
use vstd::string::*;

verus! {

/// What the program that embeds the client supplies: its configuration and
/// features, and its answers to what the server sends.
///
/// An answer of `Ok(Some(message))` is queued for the server; `Ok(None)` means
/// that there is nothing to send; an error is dropped, and the client goes on.
pub trait ApiCallbacks {
    /// The configuration that the agent runs with.
    fn get_configuration(&mut self) -> Result<Option<AgentConfigMap>, ApiClientError>;

    /// The capabilities and the flags of the agent, in this order.
    fn get_features(&mut self) -> (u64, u64);

    /// Called on every poll that reaches the end of its work.
    fn on_loop(&mut self) -> Result<Option<AgentToServer>, ApiClientError>;

    /// The server reported an error.
    fn on_error(&mut self, inbound: &ServerToAgent);

    /// The server asked for the full state of another instance, one that this
    /// agent supervises.
    fn on_health_check(&mut self, inbound: &ServerToAgent) -> Result<
        Option<AgentToServer>,
        ApiClientError,
    >;

    /// The server sent a command.
    fn on_command(&mut self, inbound: &ServerToAgent) -> Result<
        Option<AgentToServer>,
        ApiClientError,
    >;

    /// The server sent a configuration.
    fn on_agent_remote_config(&mut self, inbound: &ServerToAgent) -> Result<
        Option<AgentToServer>,
        ApiClientError,
    >;

    /// The server offered connection settings.
    fn on_connection_settings_offers(&mut self, inbound: &ServerToAgent) -> Result<
        Option<AgentToServer>,
        ApiClientError,
    >;

    /// The server offered packages.
    fn on_packages_available(&mut self, inbound: &ServerToAgent) -> Result<
        Option<AgentToServer>,
        ApiClientError,
    >;
}

/// How much the client logs.
#[derive(Clone, Copy, Debug, PartialEq, Eq, Structural)]
pub enum LogLevel {
    Off,
    Error,
    Warn,
    Info,
    Debug,
    Trace,
}

/// The settings of a connection. They do not change once a client is made.
#[derive(Clone, Debug, PartialEq)]
pub struct ConnectionSettings {
    /// The address of the server; its scheme selects the transport.
    pub server_endpoint: String,
    /// The key sent with every request.
    pub api_key: String,
    /// The path appended to the address of the server.
    pub listen_path: String,
    /// The name of the agent.
    pub name: String,
    /// The version of the agent.
    pub version: String,
    /// The identifier of this agent instance.
    pub instance_id: String,
    /// How much to log.
    pub debugmode: LogLevel,
}

/// The version of an agent that names none.
pub open spec fn default_version() -> Seq<char> {
    "0.0.1"@
}

/// Whether `settings` are the defaults for an agent at `version`, apart from
/// the identifier of the instance.
pub open spec fn default_settings(settings: ConnectionSettings, version: Seq<char>) -> bool {
    &&& settings.server_endpoint@ == "ws://127.0.0.1:4320"@
    &&& settings.api_key@ == Seq::<char>::empty()
    &&& settings.listen_path@ == "/v1/opamp"@
    &&& settings.name@ == "io.opentelemetry.collector"@
    &&& settings.version@ == version
    &&& settings.debugmode == LogLevel::Info
}

impl ConnectionSettings {
    /// The default settings for an agent at `version`, or at the default
    /// version where none is given, under a fresh instance identifier.
    pub fn with_version(version: Option<String>) -> (settings: ConnectionSettings)
        ensures
            default_settings(
                settings,
                match version {
                    Some(v) => v@,
                    None => default_version(),
                },
            ),
            settings.instance_id@.len() == ULID_LEN,
    {
        let id = generate_ulid();
        ConnectionSettings {
            server_endpoint: String::from_str("ws://127.0.0.1:4320"),
            api_key: String::new(),
            listen_path: String::from_str("/v1/opamp"),
            name: String::from_str("io.opentelemetry.collector"),
            version: match version {
                Some(v) => v,
                None => String::from_str("0.0.1"),
            },
            instance_id: ulid_text(&id),
            debugmode: LogLevel::Info,
        }
    }
}

impl Default for ConnectionSettings {
    /// The default settings at the default version, under a fresh instance
    /// identifier.
    fn default() -> (settings: ConnectionSettings)
        ensures
            default_settings(settings, default_version()),
            settings.instance_id@.len() == ULID_LEN,
    {
        ConnectionSettings::with_version(None)
    }
}

/// The transports of a client.
pub enum Transport<C: ApiCallbacks> {
    Http(HttpClient<C>),
    WebSocket(WsClient<C>),
}

/// A client: the transport that its settings select.
pub struct Api<C: ApiCallbacks> {
    pub client: Transport<C>,
}

/// Whether `settings` select the transport over HTTP: they do where the
/// endpoint of the server begins with `http`.
pub open spec fn selects_http(settings: ConnectionSettings) -> bool {
    begins_with(settings.server_endpoint@, "http"@)
}

/// The session of a client that has not done anything yet.
pub open spec fn untouched(settings: ConnectionSettings, host: HostInfo) -> SessionView {
    SessionView {
        settings,
        host,
        store: None,
        outbox: Seq::empty(),
        seqno: 0,
        backoff: 0,
        state: at(Phase::Disconnected, Seq::empty()),
    }
}

impl<C: ApiCallbacks> Api<C> {
    /// The session of the client, whatever its transport.
    pub open spec fn session(self) -> SessionView {
        match self.client {
            Transport::Http(c) => c@.session,
            Transport::WebSocket(c) => c@.session,
        }
    }

    /// A client over a WebSocket.
    pub fn websocket_client(settings: ConnectionSettings, cb: C, host: HostInfo) -> (api: Self)
        requires
            is_url(address_text(settings)),
        ensures
            api.client is WebSocket,
            api.session() == untouched(settings, host),
    {
        Api { client: Transport::WebSocket(WsClient::new(settings, cb, host)) }
    }

    /// A client over HTTP.
    pub fn http_client(settings: ConnectionSettings, cb: C, host: HostInfo) -> (api: Self)
        requires
            is_url(address_text(settings)),
        ensures
            api.client is Http,
            api.session() == untouched(settings, host),
    {
        Api { client: Transport::Http(HttpClient::new(settings, cb, host)) }
    }

    /// A client over the transport that `settings` select: HTTP where the
    /// endpoint of the server begins with `http`, a WebSocket otherwise.
    pub fn new(settings: ConnectionSettings, cb: C, host: HostInfo) -> (api: Self)
        requires
            is_url(address_text(settings)),
        ensures
            api.client is Http <==> selects_http(settings),
            api.client is WebSocket <==> !selects_http(settings),
            api.session() == untouched(settings, host),
    {
        if starts_with(settings.server_endpoint.as_str(), "http") {
            Self::http_client(settings, cb, host)
        } else {
            Self::websocket_client(settings, cb, host)
        }
    }

    /// A client over the transport that `settings` select, where the address
    /// that they name is a URL.
    pub fn try_new(settings: ConnectionSettings, cb: C, host: HostInfo) -> (api: Option<Self>)
        ensures
            api is Some <==> is_url(address_text(settings)),
            api matches Some(a) ==> ((a.client is Http <==> selects_http(settings)) && a.session()
                == untouched(settings, host)),
    {
        if address_of(&settings).is_some() {
            Some(Self::new(settings, cb, host))
        } else {
            None
        }
    }
}

/// What the platform says of the machine that the agent runs on.
#[derive(Clone, Debug, PartialEq)]
pub struct HostInfo {
    /// The kind of operating system, such as `linux`.
    pub os_type: String,
    /// The version of its kernel.
    pub os_version: String,
    /// The name of the host.
    pub host_name: String,
}

/// The one error kind of the client: a numeric tag for structured logs and a
/// message for people.
#[derive(Clone, Debug, PartialEq)]
pub struct ApiClientError {
    pub code: u32,
    pub details: String,
}

/// The tag of the error for a request that the server did not accept.
pub const REQUEST_REJECTED: u32 = 1;

/// The tag of the error for a request that could not be made.
pub const REQUEST_FAILED: u32 = 2;

/// The tag of the error for a connection that could not be made within the
/// limit of attempts.
pub const CONNECT_EXHAUSTED: u32 = 3;

/// The tag of the error for a frame that could not be written.
pub const SOCKET_SEND: u32 = 4;

/// The tag of the error for a frame that could not be read.
pub const SOCKET_RECEIVE: u32 = 5;

/// The character of a decimal digit.
pub open spec fn digit_char(d: nat) -> char {
    if d == 0 {
        '0'
    } else if d == 1 {
        '1'
    } else if d == 2 {
        '2'
    } else if d == 3 {
        '3'
    } else if d == 4 {
        '4'
    } else if d == 5 {
        '5'
    } else if d == 6 {
        '6'
    } else if d == 7 {
        '7'
    } else if d == 8 {
        '8'
    } else {
        '9'
    }
}

/// The decimal numeral of `n`, without leading zeros.
pub open spec fn decimal(n: nat) -> Seq<char>
    decreases n,
{
    if n < 10 {
        seq![digit_char(n)]
    } else {
        decimal(n / 10).push(digit_char(n % 10))
    }
}

/// The text of an error with the given tag and message.
pub open spec fn service_error_text(code: u32, msg: Seq<char>) -> Seq<char> {
    "Service Error <"@ + decimal(code as nat) + "> : "@ + msg
}

fn digit_text(d: u32) -> (s: &'static str)
    requires
        d < 10,
    ensures
        s@ == seq![digit_char(d as nat)],
{
    proof {
        reveal_strlit("0");
        reveal_strlit("1");
        reveal_strlit("2");
        reveal_strlit("3");
        reveal_strlit("4");
        reveal_strlit("5");
        reveal_strlit("6");
        reveal_strlit("7");
        reveal_strlit("8");
        reveal_strlit("9");
    }
    let s = if d == 0 {
        "0"
    } else if d == 1 {
        "1"
    } else if d == 2 {
        "2"
    } else if d == 3 {
        "3"
    } else if d == 4 {
        "4"
    } else if d == 5 {
        "5"
    } else if d == 6 {
        "6"
    } else if d == 7 {
        "7"
    } else if d == 8 {
        "8"
    } else {
        "9"
    };
    assert(s@ =~= seq![digit_char(d as nat)]);
    s
}

/// Writes `n` as a decimal numeral.
pub fn decimal_text(n: u32) -> (s: String)
    ensures
        s@ == decimal(n as nat),
    decreases n,
{
    if n < 10 {
        String::from_str(digit_text(n))
    } else {
        let mut s = decimal_text(n / 10);
        s.append(digit_text(n % 10));
        assert(s@ =~= decimal((n / 10) as nat).push(digit_char((n % 10) as nat)));
        s
    }
}

impl View for ApiClientError {
    type V = (u32, Seq<char>);

    open spec fn view(&self) -> (u32, Seq<char>) {
        (self.code, self.details@)
    }
}

/// The error with the tag `code` and a text that names the tag and then
/// gives `msg`.
pub open spec fn service_error(code: u32, msg: Seq<char>) -> (u32, Seq<char>) {
    (code, service_error_text(code, msg))
}

impl ApiClientError {
    /// An error with the tag `code`, whose text names the tag and then gives
    /// `msg`.
    pub fn new(code: u32, msg: &str) -> (e: ApiClientError)
        ensures
            e.code == code,
            e.details@ == service_error_text(code, msg@),
    {
        let mut details = String::from_str("Service Error <");
        let number = decimal_text(code);
        details.append(number.as_str());
        details.append("> : ");
        details.append(msg);
        ApiClientError { code, details }
    }

    /// The numeric tag.
    pub fn code(&self) -> (c: u32)
        ensures
            c == self.code,
    {
        self.code
    }

    /// The message.
    pub fn description(&self) -> (text: &str)
        ensures
            text@ == self.details@,
    {
        self.details.as_str()
    }

    /// The message, as an owned string.
    pub fn to_string(&self) -> (text: String)
        ensures
            text@ == self.details@,
    {
        self.details.clone()
    }
}

} // verus!
