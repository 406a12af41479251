//! Properties of the bridge that span several of its operations.

use vstd::prelude::*;
use crate::assoc::{
    insert_member, lemma_insert_member_other, lemma_insert_member_same, lemma_lookup_at,
    lookup_member,
};
use crate::bridge::{
    reconnected, timed_out, tool_listing,
    after_event_effect, begin_reconnect_effect, finish_reconnect_effect, message_effect, partial_report_effect,
    send_ping_effect,
    collect_tool, collect_tools, collection_done_effect, is_tools_list_reply, notify_effect,
    process_output_effect, reply_effect, tool_call_effect, tool_name, tools_list_request_effect,
    ActionV, BridgeV, called_tool, call_arguments, str_or_empty,
};
use crate::json::JsonV;
use crate::protocol::{
    initialize_response, reinitialize_request, tool_call_request, tools_envelope, tools_list_id,
    tools_list_request,
};
use crate::tool_names::{lemma_prefixed_name_injective, prefixed_tool_name};

verus! {

/// Taking in more tools keeps a tool already taken in, under its name.
pub proof fn lemma_collect_keeps(
    tools: Seq<(Seq<char>, (Seq<char>, JsonV))>,
    tsm: Seq<(Seq<char>, (Seq<char>, Seq<char>))>,
    server: Seq<char>,
    list: Seq<JsonV>,
    t: Seq<char>,
)
    requires
        lookup_member(tsm, prefixed_tool_name(server, t)) == Some((server, t)),
    ensures
        lookup_member(collect_tools(tools, tsm, server, list).1, prefixed_tool_name(server, t))
            == Some((server, t)),
    decreases list.len(),
{
    if list.len() > 0 {
        let next = collect_tool(tools, tsm, server, list[0]);
        let key = prefixed_tool_name(server, t);
        match tool_name(list[0]) {
            Some(t2) => {
                let key2 = prefixed_tool_name(server, t2);
                if key2 == key {
                    lemma_prefixed_name_injective(server, t, t2);
                    lemma_insert_member_same(tsm, key2, (server, t2));
                } else {
                    lemma_insert_member_other(tsm, key2, (server, t2), key);
                }
            },
            None => {},
        }
        lemma_collect_keeps(next.0, next.1, server, list.drop_first(), t);
    }
}

/// Every named tool of a server's list can be found, under its offered
/// name, once the list is taken in.
pub proof fn lemma_collect_finds(
    tools: Seq<(Seq<char>, (Seq<char>, JsonV))>,
    tsm: Seq<(Seq<char>, (Seq<char>, Seq<char>))>,
    server: Seq<char>,
    list: Seq<JsonV>,
    t: Seq<char>,
)
    requires
        exists|i: int| 0 <= i < list.len() && tool_name(list[i]) == Some(t),
    ensures
        lookup_member(collect_tools(tools, tsm, server, list).1, prefixed_tool_name(server, t))
            == Some((server, t)),
    decreases list.len(),
{
    let next = collect_tool(tools, tsm, server, list[0]);
    if tool_name(list[0]) == Some(t) {
        lemma_insert_member_same(tsm, prefixed_tool_name(server, t), (server, t));
        lemma_collect_keeps(next.0, next.1, server, list.drop_first(), t);
    } else {
        let i = choose|i: int| 0 <= i < list.len() && tool_name(list[i]) == Some(t);
        assert(list.drop_first()[i - 1] == list[i]);
        lemma_collect_finds(next.0, next.1, server, list.drop_first(), t);
    }
}

/// When the tool list of a server arrives, each tool it names is found
/// again under the name the bridge offers it as: the server and the tool's
/// original name.
pub proof fn law_collected_tool_is_found(
    b: BridgeV,
    server: Seq<char>,
    out: JsonV,
    now: u64,
    list: Seq<JsonV>,
    t: Seq<char>,
)
    requires
        is_tools_list_reply(out),
        out.index("result"@).index("tools"@) == JsonV::Array(list),
        exists|i: int| 0 <= i < list.len() && tool_name(list[i]) == Some(t),
    ensures
        lookup_member(
            process_output_effect(b, server, out, now).0.tool_service_map,
            prefixed_tool_name(server, t),
        ) == Some((server, t)),
{
    lemma_collect_finds(b.tools, b.tool_service_map, server, list, t);
}

/// When the tool list of a server arrives, a later call of one of its tools
/// under the offered name goes to that server, under the tool's original
/// name, with the call's id, method and arguments.
pub proof fn law_collected_tool_call_is_forwarded(
    b: BridgeV,
    server: Seq<char>,
    out: JsonV,
    now: u64,
    list: Seq<JsonV>,
    t: Seq<char>,
    call: JsonV,
    later: u64,
)
    requires
        is_tools_list_reply(out),
        out.index("result"@).index("tools"@) == JsonV::Array(list),
        exists|i: int| 0 <= i < list.len() && tool_name(list[i]) == Some(t),
        called_tool(call) == prefixed_tool_name(server, t),
    ensures
        tool_call_effect(process_output_effect(b, server, out, now).0, call, later).1 == seq![
            ActionV::SendToServer(
                server,
                tool_call_request(
                    call.index("id"@),
                    str_or_empty(call.index("method"@)),
                    t,
                    call_arguments(call),
                ),
            ),
        ],
{
    law_collected_tool_is_found(b, server, out, now, list, t);
}

/// The two tool tables agree: they offer the same names, and each offered
/// name is the one made of the server and the original name it maps to.
pub open spec fn tables_consistent(b: BridgeV) -> bool {
    &&& forall|k: Seq<char>|
        #![trigger lookup_member(b.tools, k)]
        #![trigger lookup_member(b.tool_service_map, k)]
        (lookup_member(b.tools, k) is Some <==> lookup_member(b.tool_service_map, k) is Some)
    &&& forall|k: Seq<char>|
        #![trigger lookup_member(b.tool_service_map, k)]
        entry_consistent(b, k)
}

/// The offered name `k` is made of the server and original name it maps to,
/// and the tool it names belongs to the same server and carries that
/// original name.
pub open spec fn entry_consistent(b: BridgeV, k: Seq<char>) -> bool {
    match lookup_member(b.tool_service_map, k) {
        Some(p) => k == prefixed_tool_name(p.0, p.1) && match lookup_member(b.tools, k) {
            Some(q) => q.0 == p.0 && tool_name(q.1) == Some(p.1),
            None => false,
        },
        None => true,
    }
}

proof fn lemma_collect_consistent(
    tools: Seq<(Seq<char>, (Seq<char>, JsonV))>,
    tsm: Seq<(Seq<char>, (Seq<char>, Seq<char>))>,
    server: Seq<char>,
    list: Seq<JsonV>,
    b: BridgeV,
)
    requires
        b.tools == tools,
        b.tool_service_map == tsm,
        tables_consistent(b),
    ensures
        tables_consistent(
            BridgeV {
                tools: collect_tools(tools, tsm, server, list).0,
                tool_service_map: collect_tools(tools, tsm, server, list).1,
                ..b
            },
        ),
    decreases list.len(),
{
    if list.len() > 0 {
        let next = collect_tool(tools, tsm, server, list[0]);
        let b1 = BridgeV { tools: next.0, tool_service_map: next.1, ..b };
        match tool_name(list[0]) {
            Some(t) => {
                let key = prefixed_tool_name(server, t);
                assert forall|k: Seq<char>|
                    (lookup_member(b1.tools, k) is Some <==> lookup_member(
                        b1.tool_service_map,
                        k,
                    ) is Some) by {
                    if k == key {
                        lemma_insert_member_same(tools, key, (server, list[0]));
                        lemma_insert_member_same(tsm, key, (server, t));
                    } else {
                        lemma_insert_member_other(tools, key, (server, list[0]), k);
                        lemma_insert_member_other(tsm, key, (server, t), k);
                    }
                }
                assert forall|k: Seq<char>|
                    #![trigger lookup_member(b1.tool_service_map, k)]
                    entry_consistent(b1, k) by {
                    if k == key {
                        lemma_insert_member_same(tools, key, (server, list[0]));
                        lemma_insert_member_same(tsm, key, (server, t));
                    } else {
                        lemma_insert_member_other(tools, key, (server, list[0]), k);
                        lemma_insert_member_other(tsm, key, (server, t), k);
                    }
                }
            },
            None => {},
        }
        lemma_collect_consistent(next.0, next.1, server, list.drop_first(), b1);
        assert(collect_tools(tools, tsm, server, list) == collect_tools(
            next.0,
            next.1,
            server,
            list.drop_first(),
        ));
    }
}

/// Output of a server keeps the two tool tables in agreement.
pub proof fn law_process_output_keeps_tables_consistent(
    b: BridgeV,
    server: Seq<char>,
    out: JsonV,
    now: u64,
)
    requires
        tables_consistent(b),
    ensures
        tables_consistent(process_output_effect(b, server, out, now).0),
{
    if is_tools_list_reply(out) {
        match out.index("result"@).index("tools"@) {
            JsonV::Array(list) => {
                lemma_collect_consistent(b.tools, b.tool_service_map, server, list, b);
            },
            _ => {},
        }
    }
}

/// Client messages, reconnection, timers and the end of an event-loop round
/// keep the two tool tables in agreement.
pub proof fn law_other_events_keep_tables_consistent(
    b: BridgeV,
    msg: JsonV,
    servers: Set<Seq<char>>,
    now: u64,
    timestamp: nat,
)
    requires
        tables_consistent(b),
    ensures
        tables_consistent(message_effect(b, msg, now).0),
        tables_consistent(finish_reconnect_effect(b, now).0),
        tables_consistent(send_ping_effect(b, now, timestamp).0),
        tables_consistent(after_event_effect(b, now).0),
        tables_consistent(partial_report_effect(b, servers, now).0),
{
    let e: Seq<(Seq<char>, (Seq<char>, JsonV))> = seq![];
    let f: Seq<(Seq<char>, (Seq<char>, Seq<char>))> = seq![];
    assert forall|k: Seq<char>| lookup_member(e, k) is None && lookup_member(f, k) is None by {}
}

/// Reconnection attempts never exceed the configured maximum, and a
/// completed reconnection starts the count afresh.
pub proof fn law_reconnect_attempts_bounded(b: BridgeV, now: u64)
    requires
        b.reconnect_attempt <= b.connection.max_reconnect_attempts,
    ensures
        begin_reconnect_effect(b).0.reconnect_attempt <= b.connection.max_reconnect_attempts,
        begin_reconnect_effect(b).0.connection == b.connection,
        finish_reconnect_effect(b, now).0.reconnect_attempt == 0,
{
}

/// A pending `tools/list` request is answered once: after the reply there
/// is none pending, a reply went out, and replying again sends nothing.
pub proof fn law_tools_list_reply_once(b: BridgeV, now: u64, later: u64)
    requires
        b.pending is Some,
    ensures
        reply_effect(b, now).0.pending is None,
        reply_effect(b, now).0.tools_list_response_sent,
        reply_effect(b, now).1.len() == 1,
        reply_effect(reply_effect(b, now).0, later).1 == Seq::<ActionV>::empty(),
{
}

/// Once a tool list went out, a further `tools/list` request is kept
/// waiting and not answered at once.
pub proof fn law_tools_list_request_after_reply_waits(b: BridgeV, msg: JsonV, now: u64)
    requires
        b.tools_list_response_sent,
    ensures
        tools_list_request_effect(b, msg, now).1 == Seq::<ActionV>::empty(),
        tools_list_request_effect(b, msg, now).0.pending == Some(msg),
{
}

/// The tool list of a remote server, framed by the bridge, is taken in as a
/// local server's reply is: it counts as that server's answer and is not
/// passed on to the client.
pub proof fn law_remote_tool_list_is_collected(
    b: BridgeV,
    server: Seq<char>,
    list: Seq<JsonV>,
    now: u64,
)
    ensures
        is_tools_list_reply(tools_envelope(server, JsonV::Array(list))),
        process_output_effect(
            b,
            server,
            tools_envelope(server, JsonV::Array(list)),
            now,
        ).0.collected_servers.contains(server),
        forall|i: int|
            0 <= i < process_output_effect(
                b,
                server,
                tools_envelope(server, JsonV::Array(list)),
                now,
            ).1.len() ==> !(process_output_effect(
                b,
                server,
                tools_envelope(server, JsonV::Array(list)),
                now,
            ).1[i] is Broadcast && process_output_effect(
                b,
                server,
                tools_envelope(server, JsonV::Array(list)),
                now,
            ).1[i]->Broadcast_0 == tools_envelope(server, JsonV::Array(list))),
{
    let env = tools_envelope(server, JsonV::Array(list));
    let fs = seq![
        ("jsonrpc"@, JsonV::Str("2.0"@)),
        ("id"@, JsonV::Str(tools_list_id(server))),
        ("result"@, JsonV::Object(seq![("tools"@, JsonV::Array(list))])),
    ];
    assert(env == JsonV::Object(fs));
    reveal_strlit("jsonrpc");
    reveal_strlit("id");
    reveal_strlit("result");
    reveal_strlit("method");
    reveal_strlit("tools");
    reveal_strlit("tools-list-");
    let f1 = fs.drop_first();
    let f2 = f1.drop_first();
    let f3 = f2.drop_first();
    assert(f1 =~= seq![fs[1], fs[2]]);
    assert(f2 =~= seq![fs[2]]);
    assert(f3 =~= Seq::<(Seq<char>, JsonV)>::empty());
    assert("jsonrpc"@.len() == 7);
    assert("id"@.len() == 2);
    assert("result"@.len() == 6);
    assert("method"@.len() == 6);
    assert("result"@[0] != "method"@[0]);
    assert(fs[0].0 != "result"@ && fs[1].0 != "result"@ && fs[2].0 == "result"@);
    assert(fs[0].0 != "id"@ && fs[1].0 == "id"@);
    assert(fs[0].0 != "method"@ && fs[1].0 != "method"@ && fs[2].0 != "method"@);
    assert(lookup_member(f3, "method"@) is None);
    assert(lookup_member(f2, "method"@) is None);
    assert(lookup_member(f1, "method"@) is None);
    assert(lookup_member(f2, "result"@) is Some);
    assert(lookup_member(f1, "result"@) is Some);
    assert(lookup_member(fs, "result"@) is Some);
    assert(lookup_member(f1, "id"@) == Some(JsonV::Str(tools_list_id(server))));
    assert(lookup_member(fs, "id"@) == Some(JsonV::Str(tools_list_id(server))));
    assert(lookup_member(fs, "method"@) is None);
    assert("tools-list-"@.is_prefix_of(tools_list_id(server)));
    let inner = seq![("tools"@, JsonV::Array(list))];
    assert(lookup_member(inner, "tools"@) == Some(JsonV::Array(list)));
}

/// The heartbeat check measures the time since the last activity, not since
/// the last ping: the connection counts as lost exactly when more than the
/// heartbeat timeout passed since the last activity, whenever the last ping
/// went out.
pub proof fn law_heartbeat_measures_activity(b: BridgeV, now: u64, ping: u64)
    ensures
        timed_out(BridgeV { last_ping_sent: ping, ..b }, now) == timed_out(b, now),
        now >= b.last_activity ==> (timed_out(b, now) <==> now - b.last_activity
            > b.connection.heartbeat_timeout),
        now < b.last_activity ==> !timed_out(b, now),
{
}

/// Output of a server that is not a reply to the bridge's `tools/list`
/// request (its id is not a string that starts with `tools-list-`, or it
/// names a method, or it has no result) goes to the client unchanged, and
/// only counts as activity.
pub proof fn law_other_output_is_relayed(b: BridgeV, server: Seq<char>, out: JsonV, now: u64)
    requires
        match out.get("id"@) {
            Some(JsonV::Str(id)) => !"tools-list-"@.is_prefix_of(id),
            _ => true,
        } || out.get("method"@) is Some || out.get("result"@) is None,
    ensures
        process_output_effect(b, server, out, now).1 == seq![ActionV::Broadcast(out)],
        process_output_effect(b, server, out, now).0 == (BridgeV { last_activity: now, ..b }),
{
}

/// The tool list offered to the client keeps every collected tool at its
/// position; a tool described by an object keeps every member as its server
/// described it, except `name`, which becomes the offered name; any other
/// description is offered as it is.
pub proof fn law_tool_listing_keeps_descriptions(
    tools: Seq<(Seq<char>, (Seq<char>, JsonV))>,
    i: int,
    k: Seq<char>,
)
    requires
        0 <= i < tools.len(),
    ensures
        tool_listing(tools).len() == tools.len(),
        tools[i].1.1 is Object ==> tool_listing(tools)[i].get("name"@) == Some(
            JsonV::Str(tools[i].0),
        ),
        tools[i].1.1 is Object && k != "name"@ ==> tool_listing(tools)[i].get(k)
            == tools[i].1.1.get(k),
        !(tools[i].1.1 is Object) ==> tool_listing(tools)[i] == tools[i].1.1,
{
    match tools[i].1.1 {
        JsonV::Object(fs) => {
            lemma_insert_member_same(fs, "name"@, JsonV::Str(tools[i].0));
            if k != "name"@ {
                lemma_insert_member_other(fs, "name"@, JsonV::Str(tools[i].0), k);
            }
        },
        _ => {},
    }
}

/// The reply to a waiting `tools/list` request is one message to the
/// client, under the request's id, whose `result.tools` lists every
/// collected tool at its position: a tool described by an object with all
/// its members as its server described it but `name`, which is the offered
/// name.
pub proof fn law_tools_list_reply_lists_tools(b: BridgeV, now: u64, i: int, k: Seq<char>)
    requires
        b.pending is Some,
        0 <= i < b.tools.len(),
    ensures
        reply_effect(b, now).1.len() == 1,
        reply_effect(b, now).1[0] is Broadcast,
        ({
            let r = reply_effect(b, now).1[0]->Broadcast_0;
            let list = r.index("result"@).index("tools"@);
            &&& r.index("id"@) == b.pending->0.index("id"@)
            &&& list is Array
            &&& list->Array_0.len() == b.tools.len()
            &&& (b.tools[i].1.1 is Object ==> list->Array_0[i].get("name"@) == Some(
                JsonV::Str(b.tools[i].0),
            ))
            &&& (b.tools[i].1.1 is Object && k != "name"@ ==> list->Array_0[i].get(k)
                == b.tools[i].1.1.get(k))
            &&& (!(b.tools[i].1.1 is Object) ==> list->Array_0[i] == b.tools[i].1.1)
        }),
{
    law_tool_listing_keeps_descriptions(b.tools, i, k);
    let id = b.pending->0.index("id"@);
    let tl = tool_listing(b.tools);
    let inner = seq![("tools"@, JsonV::Array(tl)), ("nextCursor"@, JsonV::Str(Seq::empty()))];
    let fs = seq![
        ("jsonrpc"@, JsonV::Str("2.0"@)),
        ("id"@, id),
        ("result"@, JsonV::Object(inner)),
    ];
    reveal_strlit("jsonrpc");
    reveal_strlit("id");
    reveal_strlit("result");
    assert("jsonrpc"@.len() == 7 && "id"@.len() == 2 && "result"@.len() == 6);
    assert("jsonrpc"@ != "id"@);
    assert("jsonrpc"@ != "result"@);
    assert("id"@ != "result"@);
    lemma_lookup_at(fs, "id"@, 1);
    lemma_lookup_at(fs, "result"@, 2);
    lemma_lookup_at(inner, "tools"@, 0);
}

/// When the tool list of the last server to answer arrives (its reply makes
/// the servers that answered cover every configured server), the tools count
/// as collected, and the client is told: with a `workspace/toolsChanged`
/// notification where a tool list already went out, else with the tool list
/// where its request waits. Before then nothing goes to the client.
pub proof fn law_last_tool_list_tells_client(
    b: BridgeV,
    server: Seq<char>,
    out: JsonV,
    now: u64,
    id: Seq<char>,
    list: Seq<JsonV>,
)
    requires
        out.get("result"@) is Some,
        out.get("method"@) is None,
        out.get("id"@) == Some(JsonV::Str(id)),
        "tools-list-"@.is_prefix_of(id),
        out.index("result"@).index("tools"@) == JsonV::Array(list),
    ensures
        ({
            let (after, actions) = process_output_effect(b, server, out, now);
            let done = b.collected_servers.insert(server).len() == b.server_count;
            &&& after.collected_servers == b.collected_servers.insert(server)
            &&& (done ==> after.tools_collected)
            &&& (done && b.tools_list_response_sent ==> actions.len() == 1
                && actions[0] is Broadcast && actions[0]->Broadcast_0.get("method"@) == Some(
                JsonV::Str("workspace/toolsChanged"@),
            ))
            &&& (done && !b.tools_list_response_sent && b.pending is Some ==> actions.len() == 1
                && actions[0] is Broadcast && after.pending is None
                && after.tools_list_response_sent)
            &&& (!done ==> actions.len() == 0)
        }),
{
    let fs = seq![
        ("jsonrpc"@, JsonV::Str("2.0"@)),
        ("method"@, JsonV::Str("workspace/toolsChanged"@)),
        ("params"@, JsonV::Object(seq![])),
    ];
    reveal_strlit("jsonrpc");
    reveal_strlit("method");
    assert("jsonrpc"@.len() == 7 && "method"@.len() == 6);
    assert("jsonrpc"@ != "method"@);
    lemma_lookup_at(fs, "method"@, 1);
}

/// Completing a reconnection handles the bridge's own `initialize` on the
/// reset state as a client's `initialize` is handled: the answer to it goes
/// to the client first, then every started server spoken to over its
/// standard input is asked, in order, for its tools again with a
/// `tools/list` request under the id `tools-list-` and its name. The
/// collected tools are dropped.
pub proof fn law_reconnect_asks_servers_again(b: BridgeV, now: u64)
    ensures
        finish_reconnect_effect(b, now) == message_effect(
            reconnected(b, now),
            reinitialize_request(),
            now,
        ),
        ({
            let (after, a) = finish_reconnect_effect(b, now);
            &&& a.len() == 1 + b.stdin_servers.len()
            &&& a[0] is Broadcast
            &&& a[0]->Broadcast_0.get("id"@) == Some(JsonV::Str("reinit-after-reconnect"@))
            &&& forall|j: int|
                #![trigger a[j]]
                1 <= j < a.len() ==> match a[j] {
                    ActionV::SendToServer(s, m) => s == b.stdin_servers[j - 1] && m.get("method"@)
                        == Some(JsonV::Str("tools/list"@)) && m.get("id"@) == Some(
                        JsonV::Str("tools-list-"@ + b.stdin_servers[j - 1]),
                    ),
                    _ => false,
                }
            &&& after.tools.len() == 0
            &&& after.tool_service_map.len() == 0
            &&& after.collected_servers.is_empty()
            &&& !after.tools_collected
            &&& !after.tools_list_response_sent
        }),
{
    let req = reinitialize_request();
    reveal_strlit("jsonrpc");
    reveal_strlit("id");
    reveal_strlit("method");
    reveal_strlit("initialize");
    reveal_strlit("tools/list");
    assert("jsonrpc"@.len() == 7 && "id"@.len() == 2 && "method"@.len() == 6);
    assert("jsonrpc"@ != "id"@);
    assert("jsonrpc"@ != "method"@);
    assert("id"@ != "method"@);
    let rfs = seq![
        ("jsonrpc"@, JsonV::Str("2.0"@)),
        ("id"@, JsonV::Str("reinit-after-reconnect"@)),
        ("method"@, JsonV::Str("initialize"@)),
    ];
    lemma_lookup_at(rfs, "method"@, 2);
    lemma_lookup_at(rfs, "id"@, 1);
    reveal_strlit("ping");
    assert("initialize"@.len() == 10 && "ping"@.len() == 4);
    assert("initialize"@ != "ping"@);
    let ifs = initialize_response(req.index("id"@))->Object_0;
    lemma_lookup_at(ifs, "id"@, 1);
    let (after, a) = finish_reconnect_effect(b, now);
    assert forall|j: int|
        #![trigger a[j]]
        1 <= j < a.len() implies match a[j] {
            ActionV::SendToServer(s, m) => s == b.stdin_servers[j - 1] && m.get("method"@)
                == Some(JsonV::Str("tools/list"@)) && m.get("id"@) == Some(
                JsonV::Str("tools-list-"@ + b.stdin_servers[j - 1]),
            ),
            _ => false,
        } by {
        let sname = b.stdin_servers[j - 1];
        let tfs = tools_list_request(sname)->Object_0;
        lemma_lookup_at(tfs, "method"@, 2);
        lemma_lookup_at(tfs, "id"@, 1);
    }
}

/// At the end of a round of the event loop, once every started server has
/// answered and the tools are not yet counted as collected, they are, and
/// the client is told: with a `workspace/toolsChanged` notification where a
/// tool list already went out, else with the tool list where its request
/// waits. Otherwise nothing changes and nothing is sent.
pub proof fn law_round_end_tells_client(b: BridgeV, now: u64)
    ensures
        ({
            let (after, actions) = after_event_effect(b, now);
            let done = !b.tools_collected && b.collected_servers.len() == b.active_servers.len();
            &&& (done ==> after.tools_collected)
            &&& (done && b.tools_list_response_sent ==> actions.len() == 1
                && actions[0] is Broadcast && actions[0]->Broadcast_0.get("method"@) == Some(
                JsonV::Str("workspace/toolsChanged"@),
            ))
            &&& (done && !b.tools_list_response_sent && b.pending is Some ==> actions.len() == 1
                && actions[0] is Broadcast && after.pending is None
                && after.tools_list_response_sent)
            &&& (done && !b.tools_list_response_sent && b.pending is None ==> actions.len() == 0)
            &&& (!done ==> after == b && actions.len() == 0)
        }),
{
    let fs = seq![
        ("jsonrpc"@, JsonV::Str("2.0"@)),
        ("method"@, JsonV::Str("workspace/toolsChanged"@)),
        ("params"@, JsonV::Object(seq![])),
    ];
    reveal_strlit("jsonrpc");
    reveal_strlit("method");
    assert("jsonrpc"@.len() == 7 && "method"@.len() == 6);
    assert("jsonrpc"@ != "method"@);
    lemma_lookup_at(fs, "method"@, 1);
}

/// The partial tool list timer, while no tool list went out: every
/// configured server counts as answered, and a waiting client gets the tools
/// collected so far where there are any. Once a list went out, the timer
/// changes nothing.
pub proof fn law_partial_report(b: BridgeV, servers: Set<Seq<char>>, now: u64)
    ensures
        ({
            let (after, actions) = partial_report_effect(b, servers, now);
            &&& (b.tools_list_response_sent ==> after == b && actions.len() == 0)
            &&& (!b.tools_list_response_sent ==> after.collected_servers
                == b.collected_servers.union(servers))
            &&& (!b.tools_list_response_sent && b.pending is Some && b.tools.len() > 0
                ==> actions.len() == 1 && actions[0] is Broadcast && after.pending is None
                && after.tools_list_response_sent && after.tools == b.tools)
            &&& (!b.tools_list_response_sent && !(b.pending is Some && b.tools.len() > 0)
                ==> actions.len() == 0)
        }),
{
}

/// A client's `ping` with an id is answered with an empty result under that
/// id, and counts as activity.
pub proof fn law_ping_is_answered(b: BridgeV, msg: JsonV, id: JsonV, now: u64)
    requires
        msg.get("method"@) == Some(JsonV::Str("ping"@)),
        msg.get("id"@) == Some(id),
    ensures
        ({
            let (after, actions) = message_effect(b, msg, now);
            &&& after == (BridgeV { last_activity: now, ..b })
            &&& actions.len() == 1
            &&& actions[0] is Broadcast
            &&& actions[0]->Broadcast_0.get("id"@) == Some(id)
            &&& actions[0]->Broadcast_0.get("result"@) == Some(JsonV::Object(seq![]))
        }),
{
    reveal_strlit("jsonrpc");
    reveal_strlit("id");
    reveal_strlit("result");
    assert("jsonrpc"@.len() == 7 && "id"@.len() == 2 && "result"@.len() == 6);
    assert("jsonrpc"@ != "id"@);
    assert("jsonrpc"@ != "result"@);
    assert("id"@ != "result"@);
    let fs = seq![
        ("jsonrpc"@, JsonV::Str("2.0"@)),
        ("id"@, id),
        ("result"@, JsonV::Object(seq![])),
    ];
    lemma_lookup_at(fs, "id"@, 1);
    lemma_lookup_at(fs, "result"@, 2);
}

/// A client's `initialize` is answered under its id first; then every
/// started server spoken to over its standard input is asked, in order, for
/// its tools with a `tools/list` request under the id `tools-list-` and its
/// name. The collected tools are dropped.
pub proof fn law_initialize_asks_servers(b: BridgeV, msg: JsonV, now: u64)
    requires
        msg.get("method"@) == Some(JsonV::Str("initialize"@)),
    ensures
        ({
            let (after, a) = message_effect(b, msg, now);
            &&& a.len() == 1 + b.stdin_servers.len()
            &&& a[0] is Broadcast
            &&& a[0]->Broadcast_0.get("id"@) == Some(msg.index("id"@))
            &&& forall|j: int|
                #![trigger a[j]]
                1 <= j < a.len() ==> match a[j] {
                    ActionV::SendToServer(s, m) => s == b.stdin_servers[j - 1] && m.get("method"@)
                        == Some(JsonV::Str("tools/list"@)) && m.get("id"@) == Some(
                        JsonV::Str("tools-list-"@ + b.stdin_servers[j - 1]),
                    ),
                    _ => false,
                }
            &&& after.initialized
            &&& after.tools.len() == 0
            &&& after.tool_service_map.len() == 0
            &&& after.collected_servers.is_empty()
            &&& !after.tools_collected
            &&& !after.tools_list_response_sent
        }),
{
    reveal_strlit("jsonrpc");
    reveal_strlit("id");
    reveal_strlit("method");
    reveal_strlit("initialize");
    reveal_strlit("ping");
    assert("jsonrpc"@.len() == 7 && "id"@.len() == 2 && "method"@.len() == 6);
    assert("jsonrpc"@ != "id"@);
    assert("jsonrpc"@ != "method"@);
    assert("id"@ != "method"@);
    assert("initialize"@.len() == 10 && "ping"@.len() == 4);
    assert("initialize"@ != "ping"@);
    let ifs = initialize_response(msg.index("id"@))->Object_0;
    lemma_lookup_at(ifs, "id"@, 1);
    let (after, a) = message_effect(b, msg, now);
    assert forall|j: int|
        #![trigger a[j]]
        1 <= j < a.len() implies match a[j] {
            ActionV::SendToServer(s, m) => s == b.stdin_servers[j - 1] && m.get("method"@)
                == Some(JsonV::Str("tools/list"@)) && m.get("id"@) == Some(
                JsonV::Str("tools-list-"@ + b.stdin_servers[j - 1]),
            ),
            _ => false,
        } by {
        let sname = b.stdin_servers[j - 1];
        let tfs = tools_list_request(sname)->Object_0;
        lemma_lookup_at(tfs, "method"@, 2);
        lemma_lookup_at(tfs, "id"@, 1);
    }
}

/// A client's call of a tool that no server offers is answered under the
/// call's id with an error naming the tool.
pub proof fn law_unknown_tool_is_refused(b: BridgeV, msg: JsonV, name: Seq<char>, now: u64)
    requires
        msg.get("method"@) == Some(JsonV::Str("tools/call"@)),
        msg.index("params"@) is Object,
        msg.index("params"@).index("name"@) == JsonV::Str(name),
        lookup_member(b.tool_service_map, name) is None,
    ensures
        ({
            let (after, actions) = message_effect(b, msg, now);
            &&& after == (BridgeV { last_activity: now, ..b })
            &&& actions.len() == 1
            &&& actions[0] is Broadcast
            &&& actions[0]->Broadcast_0.get("id"@) == Some(msg.index("id"@))
            &&& actions[0]->Broadcast_0.index("error"@).index("message"@) == JsonV::Str(
                "Tool not found: "@ + name,
            )
        }),
{
    reveal_strlit("jsonrpc");
    reveal_strlit("id");
    reveal_strlit("error");
    reveal_strlit("code");
    reveal_strlit("message");
    reveal_strlit("tools/call");
    reveal_strlit("tools/list");
    reveal_strlit("initialize");
    reveal_strlit("ping");
    assert("jsonrpc"@.len() == 7 && "id"@.len() == 2 && "error"@.len() == 5);
    assert("code"@.len() == 4 && "message"@.len() == 7);
    assert("jsonrpc"@ != "id"@);
    assert("jsonrpc"@ != "error"@);
    assert("id"@ != "error"@);
    assert("code"@ != "message"@);
    assert("tools/call"@.len() == 10 && "tools/list"@.len() == 10);
    assert("tools/call"@[6] != "tools/list"@[6]);
    assert("tools/call"@ != "ping"@);
    assert("tools/call"@ != "initialize"@);
    assert("tools/call"@ != "tools/list"@);
    let id = msg.index("id"@);
    let efs = seq![
        ("code"@, JsonV::Number("-32601"@)),
        ("message"@, JsonV::Str("Tool not found: "@ + name)),
    ];
    let fs = seq![("jsonrpc"@, JsonV::Str("2.0"@)), ("id"@, id), ("error"@, JsonV::Object(efs))];
    lemma_lookup_at(fs, "id"@, 1);
    lemma_lookup_at(fs, "error"@, 2);
    lemma_lookup_at(efs, "message"@, 1);
}

} // verus!
