//! The JSON-RPC messages the bridge writes.

use vstd::prelude::*;
use crate::json::{lemma_members_view, members_view, Json, JsonV};
use crate::text::{concat, decimal, decimal_string};

verus! {

/// The `"jsonrpc": "2.0"` member every message carries.
pub open spec fn version_member() -> (Seq<char>, JsonV) {
    ("jsonrpc"@, JsonV::Str("2.0"@))
}

/// The reply to a ping: an empty result under the ping's id.
pub open spec fn ping_response(id: JsonV) -> JsonV {
    JsonV::Object(seq![version_member(), ("id"@, id), ("result"@, JsonV::Object(seq![]))])
}

/// The reply to `initialize`: protocol version, capabilities and server
/// information.
pub open spec fn initialize_response(id: JsonV) -> JsonV {
    JsonV::Object(
        seq![
            version_member(),
            ("id"@, id),
            (
                "result"@,
                JsonV::Object(
                    seq![
                        ("protocolVersion"@, JsonV::Str("2024-11-05"@)),
                        (
                            "capabilities"@,
                            JsonV::Object(
                                seq![
                                    (
                                        "tools"@,
                                        JsonV::Object(seq![("listChanged"@, JsonV::Bool(false))]),
                                    ),
                                ],
                            ),
                        ),
                        (
                            "serverInfo"@,
                            JsonV::Object(
                                seq![
                                    ("name"@, JsonV::Str("MCP Bridge"@)),
                                    ("version"@, JsonV::Str("0.3.0"@)),
                                ],
                            ),
                        ),
                    ],
                ),
            ),
        ],
    )
}

/// The id of the `tools/list` request sent to a server.
pub open spec fn tools_list_id(server: Seq<char>) -> Seq<char> {
    "tools-list-"@ + server
}

/// The `tools/list` request sent to a tool server.
pub open spec fn tools_list_request(server: Seq<char>) -> JsonV {
    JsonV::Object(
        seq![
            version_member(),
            ("id"@, JsonV::Str(tools_list_id(server))),
            ("method"@, JsonV::Str("tools/list"@)),
        ],
    )
}

/// The reply to a client's `tools/list`.
pub open spec fn tools_list_response(id: JsonV, tools: Seq<JsonV>) -> JsonV {
    JsonV::Object(
        seq![
            version_member(),
            ("id"@, id),
            (
                "result"@,
                JsonV::Object(
                    seq![("tools"@, JsonV::Array(tools)), ("nextCursor"@, JsonV::Str(Seq::empty()))],
                ),
            ),
        ],
    )
}

/// A tool call forwarded to the server that owns the tool.
pub open spec fn tool_call_request(
    id: JsonV,
    method: Seq<char>,
    name: Seq<char>,
    arguments: JsonV,
) -> JsonV {
    JsonV::Object(
        seq![
            version_member(),
            ("id"@, id),
            ("method"@, JsonV::Str(method)),
            (
                "params"@,
                JsonV::Object(seq![("name"@, JsonV::Str(name)), ("arguments"@, arguments)]),
            ),
        ],
    )
}

/// The error answered to a call of an unknown tool.
pub open spec fn tool_not_found(id: JsonV, name: Seq<char>) -> JsonV {
    JsonV::Object(
        seq![
            version_member(),
            ("id"@, id),
            (
                "error"@,
                JsonV::Object(
                    seq![
                        ("code"@, JsonV::Number("-32601"@)),
                        ("message"@, JsonV::Str("Tool not found: "@ + name)),
                    ],
                ),
            ),
        ],
    )
}

/// The notification that the tool list changed.
pub open spec fn tools_changed_notification() -> JsonV {
    JsonV::Object(
        seq![
            version_member(),
            ("method"@, JsonV::Str("workspace/toolsChanged"@)),
            ("params"@, JsonV::Object(seq![])),
        ],
    )
}

/// A keep-alive ping, identified by a timestamp in milliseconds.
pub open spec fn ping_request(timestamp: nat) -> JsonV {
    JsonV::Object(
        seq![
            version_member(),
            ("id"@, JsonV::Str("ping-"@ + decimal(timestamp))),
            ("method"@, JsonV::Str("ping"@)),
        ],
    )
}

/// The `initialize` request the bridge handles itself after reconnecting.
pub open spec fn reinitialize_request() -> JsonV {
    JsonV::Object(
        seq![
            version_member(),
            ("id"@, JsonV::Str("reinit-after-reconnect"@)),
            ("method"@, JsonV::Str("initialize"@)),
        ],
    )
}

/// A remote server's tool list, framed as the reply a local server gives
/// to the bridge's `tools/list` request.
pub open spec fn tools_envelope(server: Seq<char>, tools: JsonV) -> JsonV {
    JsonV::Object(
        seq![
            version_member(),
            ("id"@, JsonV::Str(tools_list_id(server))),
            ("result"@, JsonV::Object(seq![("tools"@, tools)])),
        ],
    )
}

fn member(key: &str, value: Json) -> (m: (String, Json))
    ensures
        m.0@ == key@,
        m.1@ == value@,
{
    (key.to_owned(), value)
}

fn object0() -> (r: Json)
    ensures
        r@ == JsonV::Object(seq![]),
{
    let v: Vec<(String, Json)> = Vec::new();
    proof {
        lemma_members_view(v@);
    }
    assert(members_view(v@) =~= seq![]);
    Json::Object(v)
}

fn object1(a: (String, Json)) -> (r: Json)
    ensures
        r@ == JsonV::Object(seq![(a.0@, a.1@)]),
{
    let v = vec![a];
    proof {
        lemma_members_view(v@);
    }
    assert(members_view(v@) =~= seq![(a.0@, a.1@)]);
    Json::Object(v)
}

fn object2(a: (String, Json), b: (String, Json)) -> (r: Json)
    ensures
        r@ == JsonV::Object(seq![(a.0@, a.1@), (b.0@, b.1@)]),
{
    let v = vec![a, b];
    proof {
        lemma_members_view(v@);
    }
    assert(members_view(v@) =~= seq![(a.0@, a.1@), (b.0@, b.1@)]);
    Json::Object(v)
}

fn object3(a: (String, Json), b: (String, Json), c: (String, Json)) -> (r: Json)
    ensures
        r@ == JsonV::Object(seq![(a.0@, a.1@), (b.0@, b.1@), (c.0@, c.1@)]),
{
    let v = vec![a, b, c];
    proof {
        lemma_members_view(v@);
    }
    assert(members_view(v@) =~= seq![(a.0@, a.1@), (b.0@, b.1@), (c.0@, c.1@)]);
    Json::Object(v)
}

fn object4(a: (String, Json), b: (String, Json), c: (String, Json), d: (String, Json)) -> (r:
    Json)
    ensures
        r@ == JsonV::Object(seq![(a.0@, a.1@), (b.0@, b.1@), (c.0@, c.1@), (d.0@, d.1@)]),
{
    let v = vec![a, b, c, d];
    proof {
        lemma_members_view(v@);
    }
    assert(members_view(v@) =~= seq![(a.0@, a.1@), (b.0@, b.1@), (c.0@, c.1@), (d.0@, d.1@)]);
    Json::Object(v)
}

fn version() -> (m: (String, Json))
    ensures
        m.0@ == version_member().0,
        m.1@ == version_member().1,
{
    member("jsonrpc", Json::string("2.0"))
}

/// Builds [`ping_response`].
pub fn make_ping_response(id: Json) -> (r: Json)
    ensures
        r@ == ping_response(id@),
{
    object3(version(), member("id", id), member("result", object0()))
}

/// Builds [`initialize_response`].
pub fn make_initialize_response(id: Json) -> (r: Json)
    ensures
        r@ == initialize_response(id@),
{
    let tools = object1(member("listChanged", Json::Bool(false)));
    let capabilities = object1(member("tools", tools));
    let server_info = object2(
        member("name", Json::string("MCP Bridge")),
        member("version", Json::string("0.3.0")),
    );
    let result = object3(
        member("protocolVersion", Json::string("2024-11-05")),
        member("capabilities", capabilities),
        member("serverInfo", server_info),
    );
    object3(version(), member("id", id), member("result", result))
}

/// The id of the `tools/list` request sent to `server`.
pub fn make_tools_list_id(server: &str) -> (r: String)
    ensures
        r@ == tools_list_id(server@),
{
    concat("tools-list-", server)
}

/// Builds [`tools_list_request`].
pub fn make_tools_list_request(server: &str) -> (r: Json)
    ensures
        r@ == tools_list_request(server@),
{
    let id = make_tools_list_id(server);
    object3(version(), member("id", Json::Str(id)), member("method", Json::string("tools/list")))
}

/// Builds [`tools_list_response`].
pub fn make_tools_list_response(id: Json, tools: Vec<Json>) -> (r: Json)
    ensures
        r@ == tools_list_response(id@, crate::json::elems_view(tools@)),
{
    proof {
        reveal_strlit("");
    }
    assert(""@ =~= Seq::<char>::empty());
    let result = object2(member("tools", Json::Array(tools)), member("nextCursor", Json::string("")));
    object3(version(), member("id", id), member("result", result))
}

/// Builds [`tool_call_request`].
pub fn make_tool_call_request(id: Json, method: &str, name: &str, arguments: Json) -> (r: Json)
    ensures
        r@ == tool_call_request(id@, method@, name@, arguments@),
{
    let params = object2(member("name", Json::string(name)), member("arguments", arguments));
    object4(
        version(),
        member("id", id),
        member("method", Json::string(method)),
        member("params", params),
    )
}

/// Builds [`tool_not_found`].
pub fn make_tool_not_found(id: Json, name: &str) -> (r: Json)
    ensures
        r@ == tool_not_found(id@, name@),
{
    let message = concat("Tool not found: ", name);
    let error = object2(
        member("code", Json::Number("-32601".to_owned())),
        member("message", Json::Str(message)),
    );
    object3(version(), member("id", id), member("error", error))
}

/// Builds [`tools_changed_notification`].
pub fn make_tools_changed_notification() -> (r: Json)
    ensures
        r@ == tools_changed_notification(),
{
    object3(
        version(),
        member("method", Json::string("workspace/toolsChanged")),
        member("params", object0()),
    )
}

/// Builds [`ping_request`].
pub fn make_ping_request(timestamp: u128) -> (r: Json)
    ensures
        r@ == ping_request(timestamp as nat),
{
    let digits = decimal_string(timestamp);
    let id = concat("ping-", digits.as_str());
    object3(version(), member("id", Json::Str(id)), member("method", Json::string("ping")))
}

/// Builds [`reinitialize_request`].
pub fn make_reinitialize_request() -> (r: Json)
    ensures
        r@ == reinitialize_request(),
{
    object3(
        version(),
        member("id", Json::string("reinit-after-reconnect")),
        member("method", Json::string("initialize")),
    )
}

/// Builds [`tools_envelope`].
pub fn make_tools_envelope(server: &str, tools: Json) -> (r: Json)
    ensures
        r@ == tools_envelope(server@, tools@),
{
    let id = make_tools_list_id(server);
    let result = object1(member("tools", tools));
    object3(version(), member("id", Json::Str(id)), member("result", result))
}

} // verus!
