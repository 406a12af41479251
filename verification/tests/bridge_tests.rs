use mcp_bridge::bridge::{Action, Bridge, BridgeError, Event, Route};
use mcp_bridge::json_text::write_message;
use mcp_bridge::config::{
    AppConfig, BridgeConfig, ConnectionConfig, MqttConfig, ServerConfig, WebSocketConfig,
};
use mcp_bridge::json::Json;
use mcp_bridge::strmap::StrMap;
use mcp_bridge::tool_names::{generate_prefixed_tool_name, get_original_tool_name};

fn s(x: &str) -> Json {
    Json::string(x)
}

fn obj(members: Vec<(&str, Json)>) -> Json {
    Json::Object(members.into_iter().map(|(k, v)| (k.to_string(), v)).collect())
}

fn config_with(connection: ConnectionConfig) -> BridgeConfig {
    BridgeConfig {
        app_config: AppConfig {
            websocket: WebSocketConfig {
                enabled: true,
                endpoint: "wss://test.com".to_string(),
            },
            mqtt: MqttConfig {
                enabled: false,
                broker: "".to_string(),
                port: 1883,
                client_id: "test".to_string(),
                topic: "".to_string(),
            },
            connection,
        },
        servers: StrMap::new(),
    }
}

fn bridge_with(connection: ConnectionConfig, now: u64) -> Bridge {
    match Bridge::new(config_with(connection), now) {
        Ok(mut b) => {
            b.is_connected = true;
            b
        }
        Err(_) => panic!("a transport is enabled"),
    }
}

fn create_test_bridge() -> Bridge {
    bridge_with(ConnectionConfig::default(), 0)
}

fn timed_bridge(now: u64) -> Bridge {
    bridge_with(
        ConnectionConfig {
            heartbeat_interval: 100,
            heartbeat_timeout: 50,
            reconnect_interval: 10,
            max_reconnect_attempts: 3,
        },
        now,
    )
}

fn echo_server() -> ServerConfig {
    ServerConfig::Std { command: "echo".to_string(), args: vec![], env: StrMap::new() }
}

fn tools_reply(server: &str, names: Vec<&str>) -> String {
    let tools: Vec<String> = names.into_iter().map(|n| format!(r#"{{"name": "{}"}}"#, n)).collect();
    format!(
        r#"{{"jsonrpc": "2.0", "id": "tools-list-{}", "result": {{"tools": [{}]}}}}"#,
        server,
        tools.join(", ")
    )
}

fn request(id: &str, method: &str) -> Json {
    obj(vec![("jsonrpc", s("2.0")), ("id", s(id)), ("method", s(method))])
}

#[test]
fn bridge_test_generate_prefixed_tool_name() {
    let bridge = create_test_bridge();
    let name = bridge.generate_prefixed_tool_name("server-name", "tool");
    assert_eq!(name, "server_name_xzcli_tool");
}

#[test]
fn test_get_original_tool_name() {
    let mut bridge = create_test_bridge();
    bridge.tool_service_map.insert(
        "server1_xzcli_tool1".to_string(),
        ("server1".to_string(), "tool1".to_string()),
    );
    let result = get_original_tool_name(&bridge, "server1_xzcli_tool1");
    assert_eq!(result, Some(("server1".to_string(), "tool1".to_string())));
    let not_found = get_original_tool_name(&bridge, "unknown_tool");
    assert!(not_found.is_none());
}

#[test]
fn bridge_test_handle_ping_request() {
    let mut bridge = create_test_bridge();
    let ping_msg = obj(vec![
        ("jsonrpc", s("2.0")),
        ("id", Json::Number("123".to_string())),
        ("method", s("ping")),
    ]);
    let actions = bridge.handle_ping_request(&ping_msg, 5);
    assert_eq!(
        actions,
        vec![Action::Broadcast(obj(vec![
            ("jsonrpc", s("2.0")),
            ("id", Json::Number("123".to_string())),
            ("result", obj(vec![])),
        ]))]
    );
}

#[test]
fn utils_test_generate_prefixed_tool_name() {
    let bridge = create_test_bridge();
    let name = generate_prefixed_tool_name(&bridge, "my-server", "my-tool");
    assert_eq!(name, "my_server_xzcli_my-tool");
}

#[test]
fn test_get_original_tool_name_found() {
    let mut bridge = create_test_bridge();
    bridge.tool_service_map.insert(
        "prefixed_tool".to_string(),
        ("server1".to_string(), "original_tool".to_string()),
    );
    let result = get_original_tool_name(&bridge, "prefixed_tool");
    assert_eq!(result, Some(("server1".to_string(), "original_tool".to_string())));
}

#[test]
fn test_get_original_tool_name_not_found() {
    let bridge = create_test_bridge();
    let result = get_original_tool_name(&bridge, "unknown_tool");
    assert!(result.is_none());
}

#[test]
fn test_send_ping() {
    let now = 1000;
    let mut bridge = timed_bridge(0);
    bridge.last_activity = now - 40;
    bridge.last_ping_sent = now - 60;
    let actions = bridge.send_ping(now, 1725029869000);
    assert_eq!(bridge.last_ping_sent, now);
    assert_eq!(
        actions,
        vec![Action::Broadcast(obj(vec![
            ("jsonrpc", s("2.0")),
            ("id", s("ping-1725029869000")),
            ("method", s("ping")),
        ]))]
    );
}

#[test]
fn test_send_ping_not_needed() {
    let mut bridge = timed_bridge(1000);
    let actions = bridge.send_ping(1000, 1);
    assert!(actions.is_empty());
    assert_eq!(bridge.last_ping_sent, 1000);
}

#[test]
fn test_reconnect_success() {
    let mut bridge = timed_bridge(0);
    bridge.is_connected = false;
    let delay = bridge.begin_reconnect();
    assert_eq!(delay, Ok(10));
    let actions = bridge.finish_reconnect(500);
    assert!(bridge.is_connected);
    assert_eq!(bridge.reconnect_attempt, 0);
    assert_eq!(bridge.last_activity, 500);
    assert_eq!(bridge.last_ping_sent, 500);
    assert!(bridge.initialized);
    assert_eq!(actions.len(), 1);
}

#[test]
fn test_reconnect_max_attempts() {
    let mut bridge = timed_bridge(0);
    bridge.is_connected = false;
    bridge.reconnect_attempt = 3;
    let result = bridge.begin_reconnect();
    assert!(result.is_err());
    assert_eq!(result.err().unwrap().to_string(), "Max reconnection attempts reached");
}

#[test]
fn test_handle_transport_disconnect() {
    let mut bridge = timed_bridge(0);
    assert!(bridge.transport_backoff_fits());
    let delay = bridge.begin_transport_reconnect();
    assert_eq!(delay, Some(20));
    bridge.transport_reconnect_result(true);
    assert_eq!(bridge.reconnect_attempt, 0);
}

#[test]
fn transport_backoff_doubles_per_attempt() {
    let mut bridge = timed_bridge(0);
    assert_eq!(bridge.begin_transport_reconnect(), Some(20));
    bridge.transport_reconnect_result(false);
    assert_eq!(bridge.begin_transport_reconnect(), Some(40));
    bridge.transport_reconnect_result(false);
    assert_eq!(bridge.begin_transport_reconnect(), Some(80));
    bridge.transport_reconnect_result(false);
    assert_eq!(bridge.begin_transport_reconnect(), None);
    assert_eq!(bridge.reconnect_attempt, 3);
}

#[test]
fn transport_backoff_that_overflows_is_refused() {
    let mut bridge = bridge_with(
        ConnectionConfig {
            heartbeat_interval: 100,
            heartbeat_timeout: 50,
            reconnect_interval: u64::MAX,
            max_reconnect_attempts: 3,
        },
        0,
    );
    assert!(!bridge.transport_backoff_fits());
    bridge.reconnect_attempt = 3;
    assert!(bridge.transport_backoff_fits());
}

#[test]
fn message_handler_test_handle_ping_request() {
    let mut bridge = create_test_bridge();
    let ping_msg = request("ping-123", "ping");
    let actions = bridge.handle_message(ping_msg, 77);
    assert_eq!(bridge.last_activity, 77);
    assert_eq!(
        actions,
        vec![Action::Broadcast(obj(vec![
            ("jsonrpc", s("2.0")),
            ("id", s("ping-123")),
            ("result", obj(vec![])),
        ]))]
    );
}

#[test]
fn test_handle_initialize() {
    let mut bridge = create_test_bridge();
    let init_msg = request("init-123", "initialize");
    let actions = bridge.handle_message(init_msg, 1);
    assert!(bridge.initialized);
    assert!(bridge.tools.is_empty());
    assert!(bridge.tool_service_map.is_empty());
    assert!(bridge.collected_servers.is_empty());
    assert!(!bridge.tools_collected);
    assert!(!bridge.tools_list_response_sent);
    assert_eq!(actions.len(), 1);
}

#[test]
fn initialize_asks_each_local_server_for_its_tools() {
    let mut bridge = create_test_bridge();
    bridge.register_server("a".to_string(), true);
    bridge.register_server("remote".to_string(), false);
    bridge.register_server("b".to_string(), true);
    let actions = bridge.handle_message(request("init-1", "initialize"), 3);
    let expected_response = obj(vec![
        ("jsonrpc", s("2.0")),
        ("id", s("init-1")),
        (
            "result",
            obj(vec![
                ("protocolVersion", s("2024-11-05")),
                ("capabilities", obj(vec![("tools", obj(vec![("listChanged", Json::Bool(false))]))])),
                ("serverInfo", obj(vec![("name", s("MCP Bridge")), ("version", s("0.3.0"))])),
            ]),
        ),
    ]);
    assert_eq!(
        actions,
        vec![
            Action::Broadcast(expected_response),
            Action::SendToServer("a".to_string(), request("tools-list-a", "tools/list")),
            Action::SendToServer("b".to_string(), request("tools-list-b", "tools/list")),
        ]
    );
}

#[test]
fn test_handle_tools_list_request() {
    let mut bridge = create_test_bridge();
    let tools_list_msg = request("tools-list-123", "tools/list");
    bridge.handle_message(tools_list_msg, 1);
    assert!(bridge.pending_tools_list_request.is_some());
    bridge.tools.insert(
        "test_tool".to_string(),
        ("test_server".to_string(), obj(vec![("name", s("test_tool"))])),
    );
    let tools_list_msg = request("tools-list-123", "tools/list");
    bridge.handle_message(tools_list_msg, 2);
    assert!(bridge.pending_tools_list_request.is_none());
    assert!(bridge.tools_list_response_sent);
}

#[test]
fn test_reply_tools_list() {
    let mut bridge = create_test_bridge();
    bridge.tools.insert(
        "test_tool".to_string(),
        ("test_server".to_string(), obj(vec![("name", s("test_tool"))])),
    );
    bridge.pending_tools_list_request = Some(request("tools-list-123", "tools/list"));
    let actions = bridge.reply_tools_list(9);
    assert!(bridge.pending_tools_list_request.is_none());
    assert!(bridge.tools_list_response_sent);
    assert_eq!(
        actions,
        vec![Action::Broadcast(obj(vec![
            ("jsonrpc", s("2.0")),
            ("id", s("tools-list-123")),
            (
                "result",
                obj(vec![
                    ("tools", Json::Array(vec![obj(vec![("name", s("test_tool"))])])),
                    ("nextCursor", s("")),
                ]),
            ),
        ]))]
    );
}

#[test]
fn test_notify_tools_changed() {
    let mut bridge = create_test_bridge();
    let actions = bridge.notify_tools_changed(4);
    assert_eq!(
        actions,
        vec![Action::Broadcast(obj(vec![
            ("jsonrpc", s("2.0")),
            ("method", s("workspace/toolsChanged")),
            ("params", obj(vec![])),
        ]))]
    );
}

#[test]
fn test_handle_tool_call_found() {
    let mut bridge = create_test_bridge();
    bridge.tool_service_map.insert(
        "prefixed_tool".to_string(),
        ("test_server".to_string(), "original_tool".to_string()),
    );
    let tool_call_msg = obj(vec![
        ("jsonrpc", s("2.0")),
        ("id", s("call-123")),
        ("method", s("tools/call")),
        (
            "params",
            obj(vec![("name", s("prefixed_tool")), ("arguments", obj(vec![("param", s("value"))]))]),
        ),
    ]);
    let actions = bridge.handle_message(tool_call_msg, 1);
    assert_eq!(
        actions,
        vec![Action::SendToServer(
            "test_server".to_string(),
            obj(vec![
                ("jsonrpc", s("2.0")),
                ("id", s("call-123")),
                ("method", s("tools/call")),
                (
                    "params",
                    obj(vec![
                        ("name", s("original_tool")),
                        ("arguments", obj(vec![("param", s("value"))])),
                    ]),
                ),
            ]),
        )]
    );
}

#[test]
fn test_handle_tool_call_not_found() {
    let mut bridge = create_test_bridge();
    let tool_call_msg = obj(vec![
        ("jsonrpc", s("2.0")),
        ("id", s("call-123")),
        ("method", s("tools/call")),
        ("params", obj(vec![("name", s("unknown_tool")), ("arguments", obj(vec![]))])),
    ]);
    let actions = bridge.handle_message(tool_call_msg, 1);
    assert_eq!(
        actions,
        vec![Action::Broadcast(obj(vec![
            ("jsonrpc", s("2.0")),
            ("id", s("call-123")),
            (
                "error",
                obj(vec![
                    ("code", Json::Number("-32601".to_string())),
                    ("message", s("Tool not found: unknown_tool")),
                ]),
            ),
        ]))]
    );
}

#[test]
fn test_handle_unknown_message() {
    let mut bridge = create_test_bridge();
    let unknown_msg = obj(vec![("jsonrpc", s("2.0")), ("method", s("unknown.method"))]);
    let actions = bridge.handle_message(unknown_msg, 1);
    assert!(actions.is_empty());
    assert_eq!(bridge.last_activity, 0);
}

#[test]
fn test_handle_normal_output() {
    let mut bridge = create_test_bridge();
    let output = r#"{"jsonrpc": "2.0", "result": "test"}"#.to_string();
    let actions = bridge.handle_process_output("test_server", &output, 10);
    assert_eq!(
        actions,
        vec![Action::Broadcast(obj(vec![("jsonrpc", s("2.0")), ("result", s("test"))]))]
    );
    assert_eq!(bridge.last_activity, 10);
}

#[test]
fn test_handle_tools_list_output() {
    let mut bridge = create_test_bridge();
    let output = tools_reply("test_server", vec!["tool1", "tool2"]);
    let actions = bridge.handle_process_output("test_server", &output, 1);
    assert!(actions.is_empty());
    assert!(bridge.collected_servers.contains("test_server"));
    assert_eq!(bridge.tools.len(), 2);
    assert!(bridge.tools.contains_key("test_server_xzcli_tool1"));
    assert!(bridge.tools.contains_key("test_server_xzcli_tool2"));
    assert_eq!(
        bridge.tool_service_map.get("test_server_xzcli_tool1"),
        Some(&("test_server".to_string(), "tool1".to_string()))
    );
}

#[test]
fn test_handle_all_servers_collected() {
    let mut bridge = create_test_bridge();
    bridge.config.servers.insert("server1".to_string(), echo_server());
    bridge.config.servers.insert("server2".to_string(), echo_server());
    bridge.pending_tools_list_request = Some(request("tools-list-request", "tools/list"));
    bridge.handle_process_output("server1", &tools_reply("server1", vec!["tool1"]), 1);
    assert!(!bridge.tools_collected);
    let actions = bridge.handle_process_output("server2", &tools_reply("server2", vec!["tool2"]), 2);
    assert!(bridge.tools_collected);
    assert_eq!(bridge.tools.len(), 2);
    assert_eq!(actions.len(), 1);
    assert!(bridge.tools_list_response_sent);
}

#[test]
fn test_handle_invalid_tools_list_output() {
    let mut bridge = create_test_bridge();
    let output = r#"{"jsonrpc": "2.0", "id": "tools-list-test_server", "result": "invalid"}"#;
    let actions = bridge.handle_process_output("test_server", output, 1);
    assert!(actions.is_empty());
    assert!(bridge.tools.is_empty());
}

#[test]
fn collected_tool_call_reaches_its_server() {
    let mut bridge = create_test_bridge();
    bridge.handle_process_output("my-server", &tools_reply("my-server", vec!["echo"]), 1);
    let call = obj(vec![
        ("jsonrpc", s("2.0")),
        ("id", Json::Number("7".to_string())),
        ("method", s("tools/call")),
        ("params", obj(vec![("name", s("my_server_xzcli_echo")), ("arguments", Json::Null)])),
    ]);
    let actions = bridge.handle_message(call, 2);
    assert_eq!(
        actions,
        vec![Action::SendToServer(
            "my-server".to_string(),
            obj(vec![
                ("jsonrpc", s("2.0")),
                ("id", Json::Number("7".to_string())),
                ("method", s("tools/call")),
                ("params", obj(vec![("name", s("echo")), ("arguments", Json::Null)])),
            ]),
        )]
    );
}

#[test]
fn tools_list_reply_goes_out_once() {
    let mut bridge = create_test_bridge();
    bridge.handle_process_output("s", &tools_reply("s", vec!["t"]), 1);
    let first = bridge.handle_message(request("r1", "tools/list"), 2);
    assert_eq!(first.len(), 1);
    let again = bridge.reply_tools_list(3);
    assert!(again.is_empty());
    let later = bridge.handle_message(request("r2", "tools/list"), 4);
    assert!(later.is_empty());
    assert!(bridge.pending_tools_list_request.is_some());
}

#[test]
fn reply_names_each_tool_by_its_offered_name() {
    let mut bridge = create_test_bridge();
    bridge.handle_process_output("a-b", &tools_reply("a-b", vec!["x", "y"]), 1);
    bridge.pending_tools_list_request = Some(request("q", "tools/list"));
    let actions = bridge.reply_tools_list(2);
    let expected_tools = Json::Array(vec![
        obj(vec![("name", s("a_b_xzcli_x"))]),
        obj(vec![("name", s("a_b_xzcli_y"))]),
    ]);
    assert_eq!(
        actions,
        vec![Action::Broadcast(obj(vec![
            ("jsonrpc", s("2.0")),
            ("id", s("q")),
            ("result", obj(vec![("tools", expected_tools), ("nextCursor", s(""))])),
        ]))]
    );
}

#[test]
fn bridge_needs_a_transport() {
    let mut config = config_with(ConnectionConfig::default());
    config.app_config.websocket.enabled = false;
    match Bridge::new(config, 0) {
        Ok(_) => panic!("no transport is enabled"),
        Err(e) => {
            assert_eq!(e, BridgeError::NoTransports);
            assert_eq!(e.to_string(), "No transports enabled in configuration");
        }
    }
}

#[test]
fn no_active_servers_is_an_error() {
    let mut bridge = create_test_bridge();
    assert_eq!(bridge.check_active_servers(), Err(BridgeError::NoActiveServers));
    bridge.register_server("s".to_string(), true);
    assert_eq!(bridge.check_active_servers(), Ok(()));
}

#[test]
fn heartbeat_timeout_starts_reconnect() {
    let mut bridge = timed_bridge(0);
    let quiet = bridge.step(Event::HeartbeatCheck, 40);
    assert_eq!(quiet, Ok(vec![]));
    let lost = bridge.step(Event::HeartbeatCheck, 51);
    assert_eq!(lost, Ok(vec![Action::Reconnect(10)]));
    assert_eq!(bridge.reconnect_attempt, 1);
}

#[test]
fn partial_report_offers_collected_tools() {
    let mut bridge = create_test_bridge();
    bridge.config.servers.insert("slow".to_string(), echo_server());
    bridge.config.servers.insert("fast".to_string(), echo_server());
    bridge.register_server("slow".to_string(), true);
    bridge.register_server("fast".to_string(), true);
    bridge.handle_process_output("fast", &tools_reply("fast", vec!["t"]), 1);
    bridge.pending_tools_list_request = Some(request("q", "tools/list"));
    let actions = bridge.step(Event::PartialReportTimeout, 6000).unwrap();
    assert_eq!(actions.len(), 1);
    assert!(bridge.collected_servers.contains("slow"));
    assert!(bridge.tools_list_response_sent);
    let end = bridge.after_event(6000);
    assert!(bridge.tools_collected);
    assert_eq!(
        end,
        vec![Action::Broadcast(obj(vec![
            ("jsonrpc", s("2.0")),
            ("method", s("workspace/toolsChanged")),
            ("params", obj(vec![])),
        ]))]
    );
}

#[test]
fn broadcast_text_is_trimmed() {
    let mut bridge = create_test_bridge();
    assert_eq!(bridge.broadcast_message("   ", 5), None);
    assert_eq!(bridge.last_activity, 0);
    assert_eq!(
        bridge.broadcast_message(" {\"test\": \"message\"}\n", 6),
        Some(obj(vec![("test", s("message"))]))
    );
    assert_eq!(bridge.last_activity, 6);
}

#[test]
fn test_bridge_creation() {
    let bridge = Bridge::new(config_with(ConnectionConfig::default()), 0);
    assert!(bridge.is_ok());
}

#[test]
fn test_broadcast_message() {
    let mut bridge = create_test_bridge();
    let message = bridge.broadcast_message(r#"{"test": "message"}"#, 1);
    assert_eq!(message, Some(obj(vec![("test", s("message"))])));
    assert_eq!(bridge.last_activity, 1);
}

#[test]
fn test_broadcast_empty_message() {
    let mut bridge = create_test_bridge();
    let message = bridge.broadcast_message("   ", 1);
    assert_eq!(message, None);
    assert_eq!(bridge.last_activity, 0);
}

#[test]
fn test_broadcast_invalid_json() {
    let mut bridge = create_test_bridge();
    let message = bridge.broadcast_message("invalid json", 1);
    assert_eq!(message, Some(s("invalid json")));
}

#[test]
fn message_value_reads_json_text() {
    assert_eq!(
        Bridge::message_value(r#"{"id": 7, "ok": [true, null]}"#),
        obj(vec![
            ("id", Json::Number("7".to_string())),
            ("ok", Json::Array(vec![Json::Bool(true), Json::Null])),
        ])
    );
    assert_eq!(Bridge::message_value("not json at all"), s("not json at all"));
    assert_eq!(Bridge::message_value("\"quoted\""), s("quoted"));
}

#[test]
fn message_text_writes_json() {
    let msg = obj(vec![("a", Json::Number("1".to_string())), ("b", s("x"))]);
    assert_eq!(write_message(&msg), r#"{"a":1,"b":"x"}"#);
    assert_eq!(write_message(&Json::Array(vec![Json::Null, Json::Bool(false)])), "[null,false]");
    assert_eq!(Bridge::message_value(&write_message(&msg)), msg);
}

#[test]
fn messages_go_to_the_server_they_name() {
    let mut bridge = create_test_bridge();
    bridge.config.servers.insert("local".to_string(), echo_server());
    bridge.config.servers.insert(
        "remote".to_string(),
        ServerConfig::Sse { url: "http://localhost:8080/sse".to_string(), headers: StrMap::new() },
    );
    assert_eq!(bridge.route("local"), Route::Unknown);
    assert_eq!(bridge.route("remote"), Route::Unknown);
    bridge.register_server("local".to_string(), true);
    bridge.register_server("remote".to_string(), false);
    assert_eq!(bridge.route("local"), Route::Stdin);
    assert_eq!(bridge.route("remote"), Route::Remote);
    assert_eq!(bridge.route("other"), Route::Unknown);
}

#[test]
fn test_tool_name_generation() {
    let app_config = AppConfig {
        websocket: WebSocketConfig { enabled: true, endpoint: "wss://example.com".to_string() },
        mqtt: MqttConfig {
            enabled: false,
            broker: "".to_string(),
            port: 1883,
            client_id: "test".to_string(),
            topic: "".to_string(),
        },
        connection: ConnectionConfig::default(),
    };
    let config = BridgeConfig { app_config, servers: StrMap::new() };
    let bridge = Bridge::new(config, 0).unwrap();
    let name = bridge.generate_prefixed_tool_name("my-server", "my-tool");
    assert_eq!(name, "my_server_xzcli_my-tool");
}

#[test]
fn process_output_that_is_not_json_goes_out_as_text() {
    let mut bridge = create_test_bridge();
    let actions = bridge.handle_process_output("test_server", "starting up...", 3);
    assert_eq!(actions, vec![Action::Broadcast(s("starting up..."))]);
    assert_eq!(bridge.last_activity, 3);
}

#[test]
fn process_output_event_is_read_as_json() {
    let mut bridge = create_test_bridge();
    let actions = bridge
        .step(Event::ProcessOutput("x".to_string(), r#"{"result": 1}"#.to_string()), 4)
        .unwrap();
    assert_eq!(
        actions,
        vec![Action::Broadcast(obj(vec![("result", Json::Number("1".to_string()))]))]
    );
}

#[test]
fn sending_records_the_time_after_the_send() {
    let mut bridge = timed_bridge(0);
    let actions = bridge.step(Event::PingTick(1234), 60).unwrap();
    assert_eq!(actions.len(), 1);
    bridge.sent_to_client(75);
    bridge.ping_sent(76);
    assert_eq!(bridge.last_activity, 75);
    assert_eq!(bridge.last_ping_sent, 76);
}

#[test]
fn take_output_collects_a_parsed_tool_list() {
    let mut bridge = create_test_bridge();
    let reply = Bridge::message_value(&tools_reply("srv", vec!["a"]));
    let actions = bridge.take_output("srv", reply, 2);
    assert!(actions.is_empty());
    assert!(bridge.tool_service_map.contains_key("srv_xzcli_a"));
    let other = bridge.take_output("srv", obj(vec![("result", s("x"))]), 3);
    assert_eq!(other, vec![Action::Broadcast(obj(vec![("result", s("x"))]))]);
}
