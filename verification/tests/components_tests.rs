use mcp_bridge::config::ServerConfig;
use mcp_bridge::json::Json;
use mcp_bridge::process::{output_line, ManagedProcess, ProcessError};
use mcp_bridge::sse_server::SseServer;
use mcp_bridge::strmap::{StrMap, StrSet};
use mcp_bridge::text::{decimal_string, replace_dash_with_underscore, starts_with, trim_str};
use mcp_bridge::transports::{
    failed_transports, mqtt_receive_step, mqtt_transport_label, send_targets,
    websocket_receive_step, websocket_transport_label,
    Frame, MqttEvent, ReceiveStep,
};

fn s(x: &str) -> Json {
    Json::string(x)
}

fn obj(members: Vec<(&str, Json)>) -> Json {
    Json::Object(members.into_iter().map(|(k, v)| (k.to_string(), v)).collect())
}

#[test]
fn test_sse_server_creation() {
    let headers = StrMap::new();
    let server = SseServer::new(
        "http://localhost:8080/sse".to_string(),
        headers,
        "test_server".to_string(),
    );
    assert_eq!(server.url, "http://localhost:8080/sse");
    assert_eq!(server.server_name, "test_server");
    assert!(!server.is_running());
}

#[test]
fn sse_tools_are_framed_as_a_tools_list_reply() {
    let server = SseServer::new("http://h/sse".to_string(), StrMap::new(), "remote".to_string());
    let tools = Json::Array(vec![obj(vec![("name", s("t"))])]);
    assert_eq!(
        server.tools_message(tools),
        obj(vec![
            ("jsonrpc", s("2.0")),
            ("id", s("tools-list-remote")),
            ("result", obj(vec![("tools", Json::Array(vec![obj(vec![("name", s("t"))])]))])),
        ])
    );
}

#[test]
fn sse_reply_gets_the_request_id() {
    let with_result = obj(vec![("result", s("ok"))]);
    assert_eq!(
        SseServer::frame_reply(with_result, Json::Number("5".to_string())),
        obj(vec![("result", s("ok")), ("id", Json::Number("5".to_string()))])
    );
    let with_id = obj(vec![("id", s("x")), ("error", s("bad"))]);
    assert_eq!(
        SseServer::frame_reply(with_id, Json::Number("5".to_string())),
        obj(vec![("id", s("x")), ("error", s("bad"))])
    );
    let bare = obj(vec![("content", Json::Array(vec![]))]);
    assert_eq!(
        SseServer::frame_reply(bare, Json::Null),
        obj(vec![
            ("id", Json::Null),
            ("jsonrpc", s("2.0")),
            ("result", obj(vec![("content", Json::Array(vec![]))])),
        ])
    );
}

#[test]
fn sse_request_id_defaults_to_null() {
    assert_eq!(SseServer::request_id(&obj(vec![("id", s("a"))])), s("a"));
    assert_eq!(SseServer::request_id(&obj(vec![])), Json::Null);
}

#[test]
fn test_process_stop_before_start() {
    let config = ServerConfig::Std {
        command: "echo".to_string(),
        args: vec!["should not run".to_string()],
        env: StrMap::new(),
    };
    let mut process = match ManagedProcess::new(&config) {
        Ok(p) => p,
        Err(_) => panic!("a local server makes a process"),
    };
    process.stop();
    assert!(!process.running);
}

#[test]
fn process_keeps_its_configuration() {
    let mut env = StrMap::new();
    env.insert("TEST_VAR".to_string(), "test_value".to_string());
    let config = ServerConfig::Std {
        command: "sh".to_string(),
        args: vec!["-c".to_string(), "echo $TEST_VAR".to_string()],
        env,
    };
    let process = match ManagedProcess::new(&config) {
        Ok(p) => p,
        Err(_) => panic!("a local server makes a process"),
    };
    assert_eq!(process.config.command, "sh");
    assert_eq!(process.config.args, vec!["-c".to_string(), "echo $TEST_VAR".to_string()]);
    assert_eq!(process.config.env.get("TEST_VAR"), Some(&"test_value".to_string()));
    let remote = ServerConfig::Sse { url: "http://h".to_string(), headers: StrMap::new() };
    assert!(matches!(ManagedProcess::new(&remote), Err(ProcessError::NotAProcess)));
}

#[test]
fn output_lines_are_trimmed_and_blank_ones_dropped() {
    assert_eq!(output_line("  hello world \n"), Some("hello world".to_string()));
    assert_eq!(output_line(" \t\r\n"), None);
    assert_eq!(output_line(""), None);
}

#[test]
fn text_helpers() {
    assert_eq!(replace_dash_with_underscore("a-b--c"), "a_b__c");
    assert!(starts_with("tools-list-x", "tools-list-"));
    assert!(!starts_with("tools-lis", "tools-list-"));
    assert_eq!(trim_str("\u{3000} x y \u{2009}"), "x y");
    assert_eq!(decimal_string(0), "0");
    assert_eq!(decimal_string(1234567890123), "1234567890123");
    assert_eq!(decimal_string(u128::MAX), u128::MAX.to_string());
}

#[test]
fn transport_labels() {
    assert_eq!(mqtt_transport_label("broker.example.com", 1883), "MqttTransport(broker.example.com:1883)");
    assert_eq!(websocket_transport_label("wss://x"), "WebSocketTransport(wss://x)");
}

#[test]
fn string_map_reads_what_was_written() {
    let mut m: StrMap<String> = StrMap::new();
    m.insert("a".to_string(), "1".to_string());
    m.insert("b".to_string(), "2".to_string());
    m.insert("a".to_string(), "3".to_string());
    assert_eq!(m.len(), 2);
    assert_eq!(m.get("a"), Some(&"3".to_string()));
    assert_eq!(m.key_at(0), "a");
    assert_eq!(m.key_at(1), "b");
    assert_eq!(m.get("c"), None);
    let mut set = StrSet::new();
    set.insert("x".to_string());
    set.insert("x".to_string());
    assert_eq!(set.len(), 1);
    assert!(set.contains("x"));
    set.clear();
    assert!(set.is_empty());
}

#[test]
fn json_member_access() {
    let mut v = obj(vec![("a", s("1")), ("b", Json::Bool(true))]);
    assert_eq!(v.get("a"), Some(&s("1")));
    assert_eq!(v.index("missing"), Json::Null);
    assert_eq!(s("x").get("a"), None);
    v = v.with_member("a".to_string(), s("2"));
    v = v.with_member("c".to_string(), Json::Null);
    assert_eq!(v, obj(vec![("a", s("2")), ("b", Json::Bool(true)), ("c", Json::Null)]));
    assert_eq!(s("q").with_member("a".to_string(), Json::Null), s("q"));
    assert_eq!(v.deep_clone(), v);
}

#[test]
fn websocket_text_with_json_is_forwarded() {
    assert_eq!(
        websocket_receive_step(Frame::Text(r#"{"id": 1}"#.to_string())),
        ReceiveStep::Forward(Json::Object(vec![("id".to_string(), Json::Number("1".to_string()))]))
    );
    assert_eq!(websocket_receive_step(Frame::Text("not json".to_string())), ReceiveStep::Ignore);
    assert_eq!(websocket_receive_step(Frame::Ping), ReceiveStep::Ignore);
    assert_eq!(websocket_receive_step(Frame::Binary), ReceiveStep::Ignore);
    assert_eq!(websocket_receive_step(Frame::Close), ReceiveStep::Stop);
    assert_eq!(websocket_receive_step(Frame::Failed), ReceiveStep::Stop);
}

#[test]
fn mqtt_publish_with_json_is_forwarded() {
    assert_eq!(
        mqtt_receive_step(MqttEvent::Publish(b"null".to_vec())),
        ReceiveStep::Forward(Json::Null)
    );
    assert_eq!(
        mqtt_receive_step(MqttEvent::Publish(b"[1, \"a\"]".to_vec())),
        ReceiveStep::Forward(Json::Array(vec![Json::Number("1".to_string()), s("a")]))
    );
    assert_eq!(mqtt_receive_step(MqttEvent::Publish(b"{oops".to_vec())), ReceiveStep::Ignore);
    assert_eq!(mqtt_receive_step(MqttEvent::Other), ReceiveStep::Ignore);
    assert_eq!(mqtt_receive_step(MqttEvent::Failed), ReceiveStep::Stop);
}

#[test]
fn sse_request_id_and_reply_text() {
    assert_eq!(
        SseServer::request_id_in(r#"{"jsonrpc": "2.0", "id": 5, "method": "tools/call"}"#),
        Some(Json::Number("5".to_string()))
    );
    assert_eq!(SseServer::request_id_in(r#"{"method": "x"}"#), Some(Json::Null));
    assert_eq!(SseServer::request_id_in("nope"), None);
    let reply = SseServer::reply_text(obj(vec![("content", Json::Array(vec![]))]), Json::Number("5".to_string()));
    assert_eq!(reply, r#"{"id":5,"jsonrpc":"2.0","result":{"content":[]}}"#);
    let server = SseServer::new("http://h/sse".to_string(), StrMap::new(), "remote".to_string());
    let text = server.tools_message_text(Json::Array(vec![]));
    assert_eq!(text, r#"{"id":"tools-list-remote","jsonrpc":"2.0","result":{"tools":[]}}"#);
}

#[test]
fn messages_go_to_connected_transports_and_failures_reconnect() {
    let targets = send_targets(&vec![true, false, true, true]);
    assert_eq!(targets, vec![0, 2, 3]);
    assert_eq!(failed_transports(&targets, &vec![true, false, false]), vec![2, 3]);
    assert_eq!(send_targets(&vec![false, false]), Vec::<usize>::new());
    assert_eq!(failed_transports(&vec![], &vec![]), Vec::<usize>::new());
}
