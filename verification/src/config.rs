//! Bridge configuration: transports, connection timing and the tool servers,
//! and the check that a configuration is usable.

use vstd::prelude::*;
use crate::strmap::StrMap;
use crate::text::{concat, decimal, decimal_string};

verus! {

/// Default interval between heartbeats, in milliseconds.
pub fn default_heartbeat_interval() -> (r: u64)
    ensures
        r == 30000,
{
    30000
}

/// Default time without activity after which the connection counts as
/// lost, in milliseconds.
pub fn default_heartbeat_timeout() -> (r: u64)
    ensures
        r == 10000,
{
    10000
}

/// Default pause before a reconnection attempt, in milliseconds.
pub fn default_reconnect_interval() -> (r: u64)
    ensures
        r == 5000,
{
    5000
}

/// Default number of reconnection attempts before giving up.
pub fn default_max_reconnect_attempts() -> (r: u32)
    ensures
        r == 10,
{
    10
}

/// Connection timing. Intervals are in milliseconds.
#[derive(Clone, Copy, Debug, PartialEq, Eq, Structural)]
pub struct ConnectionConfig {
    pub heartbeat_interval: u64,
    pub heartbeat_timeout: u64,
    pub reconnect_interval: u64,
    pub max_reconnect_attempts: u32,
}

impl Default for ConnectionConfig {
    /// All fields zero.
    fn default() -> (c: Self)
        ensures
            c.heartbeat_interval == 0,
            c.heartbeat_timeout == 0,
            c.reconnect_interval == 0,
            c.max_reconnect_attempts == 0,
    {
        ConnectionConfig {
            heartbeat_interval: 0,
            heartbeat_timeout: 0,
            reconnect_interval: 0,
            max_reconnect_attempts: 0,
        }
    }
}

/// The first of two optional settings that is given.
pub open spec fn first_given<T>(a: Option<T>, b: Option<T>) -> Option<T> {
    match a {
        Some(v) => Some(v),
        None => b,
    }
}

/// The first of two optional settings that is given.
fn either<T>(a: Option<T>, b: Option<T>) -> (r: Option<T>)
    ensures
        r == first_given(a, b),
{
    match a {
        Some(v) => Some(v),
        None => b,
    }
}

impl ConnectionConfig {
    /// The configuration a configuration file gives where it may write each
    /// setting in the nested form (`heartbeat.interval`, `heartbeat.timeout`,
    /// `reconnect.interval`, `reconnect.max_attempts`) or as a flat key
    /// (`heartbeat_interval`, ...): the nested form wins, and a setting given
    /// in neither takes its default.
    pub fn from_sections(
        nested: (Option<u64>, Option<u64>, Option<u64>, Option<u32>),
        flat: (Option<u64>, Option<u64>, Option<u64>, Option<u32>),
    ) -> (c: Self)
        ensures
            c.heartbeat_interval == match first_given(nested.0, flat.0) {
                Some(v) => v,
                None => 30000,
            },
            c.heartbeat_timeout == match first_given(nested.1, flat.1) {
                Some(v) => v,
                None => 10000,
            },
            c.reconnect_interval == match first_given(nested.2, flat.2) {
                Some(v) => v,
                None => 5000,
            },
            c.max_reconnect_attempts == match first_given(nested.3, flat.3) {
                Some(v) => v,
                None => 10u32,
            },
    {
        Self::from_fields(
            either(nested.0, flat.0),
            either(nested.1, flat.1),
            either(nested.2, flat.2),
            either(nested.3, flat.3),
        )
    }

    /// The configuration a configuration file gives: each field that the
    /// file leaves out takes its default.
    pub fn from_fields(
        heartbeat_interval: Option<u64>,
        heartbeat_timeout: Option<u64>,
        reconnect_interval: Option<u64>,
        max_reconnect_attempts: Option<u32>,
    ) -> (c: Self)
        ensures
            c.heartbeat_interval == match heartbeat_interval {
                Some(v) => v,
                None => 30000,
            },
            c.heartbeat_timeout == match heartbeat_timeout {
                Some(v) => v,
                None => 10000,
            },
            c.reconnect_interval == match reconnect_interval {
                Some(v) => v,
                None => 5000,
            },
            c.max_reconnect_attempts == match max_reconnect_attempts {
                Some(v) => v,
                None => 10u32,
            },
    {
        ConnectionConfig {
            heartbeat_interval: match heartbeat_interval {
                Some(v) => v,
                None => default_heartbeat_interval(),
            },
            heartbeat_timeout: match heartbeat_timeout {
                Some(v) => v,
                None => default_heartbeat_timeout(),
            },
            reconnect_interval: match reconnect_interval {
                Some(v) => v,
                None => default_reconnect_interval(),
            },
            max_reconnect_attempts: match max_reconnect_attempts {
                Some(v) => v,
                None => default_max_reconnect_attempts(),
            },
        }
    }
}

/// A local tool server run as a child process.
pub struct ProcessConfig {
    pub command: String,
    pub args: Vec<String>,
    pub env: StrMap<String>,
}

/// A tool server: a local process spoken to over its standard streams, or
/// a remote server reached over server-sent events.
pub enum ServerConfig {
    Std { command: String, args: Vec<String>, env: StrMap<String> },
    Sse { url: String, headers: StrMap<String> },
}

/// The value of a [`ServerConfig`].
pub enum ServerConfigV {
    Std { command: Seq<char>, args: Seq<Seq<char>>, env: Map<Seq<char>, Seq<char>> },
    Sse { url: Seq<char>, headers: Map<Seq<char>, Seq<char>> },
}

impl View for ServerConfig {
    type V = ServerConfigV;

    open spec fn view(&self) -> ServerConfigV {
        match self {
            ServerConfig::Std { command, args, env } => ServerConfigV::Std {
                command: command@,
                args: args@.map_values(|a: String| a@),
                env: env@,
            },
            ServerConfig::Sse { url, headers } => ServerConfigV::Sse {
                url: url@,
                headers: headers@,
            },
        }
    }
}

/// WebSocket transport settings.
pub struct WebSocketConfig {
    pub enabled: bool,
    pub endpoint: String,
}

/// MQTT transport settings.
pub struct MqttConfig {
    pub enabled: bool,
    pub broker: String,
    pub port: u16,
    pub client_id: String,
    pub topic: String,
}

/// The MQTT client id used where the configuration names none:
/// `mcp-bridge-` followed by the process id.
pub open spec fn default_client_id(pid: nat) -> Seq<char> {
    "mcp-bridge-"@ + decimal(pid)
}

/// The MQTT client id for the process with id `pid`.
pub fn default_mqtt_client_id(pid: u32) -> (r: String)
    ensures
        r@ == default_client_id(pid as nat),
{
    let digits = decimal_string(pid as u128);
    concat("mcp-bridge-", digits.as_str())
}

/// The application settings (the YAML file).
pub struct AppConfig {
    pub websocket: WebSocketConfig,
    pub mqtt: MqttConfig,
    pub connection: ConnectionConfig,
}

/// The whole configuration: application settings and tool servers (the
/// JSON file), keyed by server name.
pub struct BridgeConfig {
    pub app_config: AppConfig,
    pub servers: StrMap<ServerConfig>,
}

/// Why a configuration could not be had.
#[derive(Debug, PartialEq)]
pub enum ConfigError {
    NotFound(String),
    InvalidFormat(String),
    IoError(String),
    JsonError(String),
    YamlError(String),
}

impl ConfigError {
    /// The text of the error.
    pub open spec fn message(&self) -> Seq<char> {
        match self {
            ConfigError::NotFound(s) => "Config file not found: "@ + s@,
            ConfigError::InvalidFormat(s) => "Invalid config format: "@ + s@,
            ConfigError::IoError(s) => "IO error: "@ + s@,
            ConfigError::JsonError(s) => "JSON parse error: "@ + s@,
            ConfigError::YamlError(s) => "YAML parse error: "@ + s@,
        }
    }

    /// The text of the error.
    pub fn to_string(&self) -> (r: String)
        ensures
            r@ == self.message(),
    {
        match self {
            ConfigError::NotFound(s) => concat("Config file not found: ", s.as_str()),
            ConfigError::InvalidFormat(s) => concat("Invalid config format: ", s.as_str()),
            ConfigError::IoError(s) => concat("IO error: ", s.as_str()),
            ConfigError::JsonError(s) => concat("JSON parse error: ", s.as_str()),
            ConfigError::YamlError(s) => concat("YAML parse error: ", s.as_str()),
        }
    }
}

/// What is wrong with the server `name`, if anything.
pub open spec fn server_problem(name: Seq<char>, s: ServerConfigV) -> Option<Seq<char>> {
    match s {
        ServerConfigV::Std { command, .. } => if command.len() == 0 {
            Some("process.command for server "@ + name + " cannot be empty"@)
        } else {
            None
        },
        ServerConfigV::Sse { url, .. } => if url.len() == 0 {
            Some("url for server "@ + name + " cannot be empty"@)
        } else {
            None
        },
    }
}

/// The problem of the first server, in order, that has one.
pub open spec fn first_server_problem(servers: Seq<(Seq<char>, ServerConfigV)>) -> Option<
    Seq<char>,
>
    decreases servers.len(),
{
    if servers.len() == 0 {
        None
    } else {
        match server_problem(servers[0].0, servers[0].1) {
            Some(m) => Some(m),
            None => first_server_problem(servers.drop_first()),
        }
    }
}

impl BridgeConfig {
    /// The reason the configuration is unusable, or `None` where it is
    /// usable: an enabled transport must name where it connects to, there
    /// must be servers, and each server must name its command or URL.
    pub open spec fn problem(&self) -> Option<Seq<char>> {
        let app = self.app_config;
        if app.websocket.enabled && app.websocket.endpoint@.len() == 0 {
            Some("websocket.endpoint cannot be empty when enabled"@)
        } else if app.mqtt.enabled && app.mqtt.broker@.len() == 0 {
            Some("mqtt.broker cannot be empty when enabled"@)
        } else if app.mqtt.enabled && app.mqtt.topic@.len() == 0 {
            Some("mqtt.topic cannot be empty when enabled"@)
        } else if self.servers@.dom().len() == 0 {
            Some("servers cannot be empty"@)
        } else {
            first_server_problem(self.servers.entries())
        }
    }

    /// Checks that the configuration is usable.
    #[verifier::loop_isolation(false)]
    pub fn validate(&self) -> (r: Result<(), ConfigError>)
        requires
            self.servers.wf(),
        ensures
            match r {
                Ok(()) => self.problem() is None,
                Err(e) => e is InvalidFormat && Some(e->InvalidFormat_0@) == self.problem(),
            },
    {
        let app = &self.app_config;
        if app.websocket.enabled && app.websocket.endpoint.as_str().is_empty() {
            return Err(
                ConfigError::InvalidFormat(
                    "websocket.endpoint cannot be empty when enabled".to_owned(),
                ),
            );
        }
        if app.mqtt.enabled {
            if app.mqtt.broker.as_str().is_empty() {
                return Err(
                    ConfigError::InvalidFormat("mqtt.broker cannot be empty when enabled".to_owned()),
                );
            }
            if app.mqtt.topic.as_str().is_empty() {
                return Err(
                    ConfigError::InvalidFormat("mqtt.topic cannot be empty when enabled".to_owned()),
                );
            }
        }
        if self.servers.is_empty() {
            return Err(ConfigError::InvalidFormat("servers cannot be empty".to_owned()));
        }
        let n = self.servers.len();
        assert(self.servers.entries().subrange(0, n as int) =~= self.servers.entries());
        for i in 0..n
            invariant
                n == self.servers.entries().len(),
                self.servers.wf(),
                first_server_problem(self.servers.entries()) == first_server_problem(
                    self.servers.entries().subrange(i as int, n as int),
                ),
        {
            let ghost rest = self.servers.entries().subrange(i as int, n as int);
            let name = self.servers.key_at(i);
            let server = self.servers.value_at(i);
            assert(rest[0] == self.servers.entries()[i as int]);
            match server {
                ServerConfig::Std { command, .. } => {
                    if command.as_str().is_empty() {
                        let m = concat("process.command for server ", name.as_str());
                        let m = concat(m.as_str(), " cannot be empty");
                        return Err(ConfigError::InvalidFormat(m));
                    }
                },
                ServerConfig::Sse { url, .. } => {
                    if url.as_str().is_empty() {
                        let m = concat("url for server ", name.as_str());
                        let m = concat(m.as_str(), " cannot be empty");
                        return Err(ConfigError::InvalidFormat(m));
                    }
                },
            }
            assert(rest.drop_first() =~= self.servers.entries().subrange(i + 1, n as int));
        }
        Ok(())
    }
}

} // verus!
