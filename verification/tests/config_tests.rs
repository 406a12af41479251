use mcp_bridge::config::{
    default_heartbeat_interval, default_heartbeat_timeout, default_max_reconnect_attempts,
    default_mqtt_client_id, default_reconnect_interval, AppConfig, BridgeConfig, ConfigError,
    ConnectionConfig, MqttConfig, ProcessConfig, ServerConfig, WebSocketConfig,
};
use mcp_bridge::strmap::StrMap;

fn mqtt_off() -> MqttConfig {
    MqttConfig {
        enabled: false,
        broker: "".to_string(),
        port: 1883,
        client_id: "test".to_string(),
        topic: "".to_string(),
    }
}

fn std_server(command: &str, args: Vec<&str>) -> ServerConfig {
    ServerConfig::Std {
        command: command.to_string(),
        args: args.into_iter().map(|a| a.to_string()).collect(),
        env: StrMap::new(),
    }
}

#[test]
fn test_default_connection_config() {
    let config = ConnectionConfig::from_fields(None, None, None, None);
    assert_eq!(config.heartbeat_interval, 30000);
    assert_eq!(config.heartbeat_timeout, 10000);
    assert_eq!(config.reconnect_interval, 5000);
    assert_eq!(config.max_reconnect_attempts, 10);
}

#[test]
fn connection_config_keeps_given_fields() {
    let config = ConnectionConfig::from_fields(Some(100), None, Some(10), Some(3));
    assert_eq!(config.heartbeat_interval, 100);
    assert_eq!(config.heartbeat_timeout, 10000);
    assert_eq!(config.reconnect_interval, 10);
    assert_eq!(config.max_reconnect_attempts, 3);
}

#[test]
fn default_functions_give_documented_values() {
    assert_eq!(default_heartbeat_interval(), 30000);
    assert_eq!(default_heartbeat_timeout(), 10000);
    assert_eq!(default_reconnect_interval(), 5000);
    assert_eq!(default_max_reconnect_attempts(), 10);
}

#[test]
fn connection_config_default_is_zero() {
    let config = ConnectionConfig::default();
    assert_eq!(config.heartbeat_interval, 0);
    assert_eq!(config.heartbeat_timeout, 0);
    assert_eq!(config.reconnect_interval, 0);
    assert_eq!(config.max_reconnect_attempts, 0);
}

#[test]
fn test_process_config_default_env() {
    let config = ProcessConfig {
        command: "test".to_string(),
        args: vec![],
        env: StrMap::new(),
    };
    assert!(config.env.is_empty());
}

#[test]
fn test_mqtt_config_default_client_id() {
    let config = MqttConfig {
        enabled: false,
        broker: "".to_string(),
        port: 1883,
        client_id: "".to_string(),
        topic: "".to_string(),
    };
    assert!(config.client_id.is_empty());
}

#[test]
fn mqtt_default_client_id_names_the_process() {
    assert_eq!(default_mqtt_client_id(4242), "mcp-bridge-4242");
    assert_eq!(default_mqtt_client_id(0), "mcp-bridge-0");
}

#[test]
fn test_config_loading() {
    let app_config = AppConfig {
        websocket: WebSocketConfig {
            enabled: true,
            endpoint: "wss://example.com".to_string(),
        },
        mqtt: mqtt_off(),
        connection: ConnectionConfig::default(),
    };
    let mut servers = StrMap::new();
    servers.insert("test_server".to_string(), std_server("echo", vec!["hello"]));
    let config = BridgeConfig { app_config, servers };
    assert_eq!(config.servers.len(), 1);
    if let Some(ServerConfig::Std { command, .. }) = config.servers.get("test_server") {
        assert_eq!(command, "echo");
    } else {
        panic!("test_server is not a process server");
    }
}

#[test]
fn test_config_validation() {
    let valid_app_config = AppConfig {
        websocket: WebSocketConfig {
            enabled: true,
            endpoint: "wss://valid.com".to_string(),
        },
        mqtt: mqtt_off(),
        connection: ConnectionConfig::default(),
    };
    let mut valid_servers = StrMap::new();
    valid_servers.insert("test_server".to_string(), std_server("echo", vec!["hello"]));
    let valid_config = BridgeConfig { app_config: valid_app_config, servers: valid_servers };
    assert!(valid_config.validate().is_ok());

    let invalid_app_config = AppConfig {
        websocket: WebSocketConfig {
            enabled: true,
            endpoint: "wss://valid.com".to_string(),
        },
        mqtt: mqtt_off(),
        connection: ConnectionConfig::default(),
    };
    let mut invalid_servers = StrMap::new();
    invalid_servers.insert("invalid_server".to_string(), std_server("", vec![]));
    let invalid_config = BridgeConfig { app_config: invalid_app_config, servers: invalid_servers };
    assert!(invalid_config.validate().is_err());

    let ws_invalid_config = AppConfig {
        websocket: WebSocketConfig {
            enabled: true,
            endpoint: "".to_string(),
        },
        mqtt: mqtt_off(),
        connection: ConnectionConfig::default(),
    };
    assert!(BridgeConfig { app_config: ws_invalid_config, servers: StrMap::new() }
        .validate()
        .is_err());
}

fn sse_only(url: &str) -> BridgeConfig {
    let app_config = AppConfig {
        websocket: WebSocketConfig {
            enabled: false,
            endpoint: "".to_string(),
        },
        mqtt: mqtt_off(),
        connection: ConnectionConfig::default(),
    };
    let mut servers = StrMap::new();
    servers.insert(
        "sse_server".to_string(),
        ServerConfig::Sse { url: url.to_string(), headers: StrMap::new() },
    );
    BridgeConfig { app_config, servers }
}

#[test]
fn test_config_validation_sse() {
    let config = sse_only("");
    assert!(config.validate().is_err());
}

#[test]
fn test_config_validation_sse_valid() {
    let config = sse_only("http://localhost:8080/sse");
    assert!(config.validate().is_ok());
}

#[test]
fn test_sse_config_invalid_url() {
    let config = sse_only("");
    let result = config.validate();
    assert!(result.is_err());
    assert!(result
        .unwrap_err()
        .to_string()
        .contains("url for server sse_server cannot be empty"));
}

#[test]
fn validation_reports_each_problem() {
    let mut config = sse_only("http://localhost:8080/sse");
    config.app_config.websocket.enabled = true;
    assert_eq!(
        config.validate(),
        Err(ConfigError::InvalidFormat(
            "websocket.endpoint cannot be empty when enabled".to_string()
        ))
    );
    config.app_config.websocket.endpoint = "wss://x".to_string();
    config.app_config.mqtt.enabled = true;
    assert_eq!(
        config.validate(),
        Err(ConfigError::InvalidFormat("mqtt.broker cannot be empty when enabled".to_string()))
    );
    config.app_config.mqtt.broker = "broker".to_string();
    assert_eq!(
        config.validate(),
        Err(ConfigError::InvalidFormat("mqtt.topic cannot be empty when enabled".to_string()))
    );
    config.app_config.mqtt.topic = "mcp/bridge".to_string();
    assert_eq!(config.validate(), Ok(()));
    config.servers.insert("local".to_string(), std_server("", vec![]));
    assert_eq!(
        config.validate(),
        Err(ConfigError::InvalidFormat(
            "process.command for server local cannot be empty".to_string()
        ))
    );
    config.servers.clear();
    assert_eq!(
        config.validate(),
        Err(ConfigError::InvalidFormat("servers cannot be empty".to_string()))
    );
}

#[test]
fn config_error_messages() {
    assert_eq!(
        ConfigError::NotFound("a.yaml".to_string()).to_string(),
        "Config file not found: a.yaml"
    );
    assert_eq!(
        ConfigError::InvalidFormat("x".to_string()).to_string(),
        "Invalid config format: x"
    );
    assert_eq!(ConfigError::IoError("e".to_string()).to_string(), "IO error: e");
    assert_eq!(ConfigError::JsonError("e".to_string()).to_string(), "JSON parse error: e");
    assert_eq!(ConfigError::YamlError("e".to_string()).to_string(), "YAML parse error: e");
}

#[test]
fn nested_connection_settings_win_over_flat_keys() {
    let c = ConnectionConfig::from_sections(
        (Some(20000), None, None, Some(4)),
        (Some(1), Some(2), None, Some(9)),
    );
    assert_eq!(c.heartbeat_interval, 20000);
    assert_eq!(c.heartbeat_timeout, 2);
    assert_eq!(c.reconnect_interval, 5000);
    assert_eq!(c.max_reconnect_attempts, 4);
}
