//! The bridge's decisions: how each message from the client, each output
//! of a tool server and each timer tick changes the bridge's state, and what
//! the bridge sends in answer. The surrounding program performs the sends and
//! the waiting; every function here returns the messages to send, in order.

use vstd::prelude::*;
use crate::assoc::{
    insert_member, lemma_insert_member_other, lemma_insert_member_same, lookup_member,
};
use crate::config::{BridgeConfig, ConnectionConfig, ServerConfig, ServerConfigV};
use vstd::arithmetic::power2::{lemma2_to64, lemma_pow2_strictly_increases, lemma_pow2_unfold, pow2};
use crate::json::{elems_view, lemma_elems_view, lemma_elems_view_push, Json, JsonV};
use crate::json_text::{parse_json, text_message};
use crate::protocol::{
    initialize_response, make_initialize_response, make_ping_request, make_ping_response,
    make_reinitialize_request, make_tool_call_request, make_tool_not_found,
    make_tools_changed_notification, make_tools_list_request, make_tools_list_response,
    ping_request, ping_response, reinitialize_request, tool_call_request, tool_not_found,
    tools_changed_notification, tools_list_request, tools_list_response,
};
use crate::strmap::{StrMap, StrSet};
use crate::text::{concat, starts_with, trim, trim_str};
use crate::tool_names::{prefixed_name, prefixed_tool_name};

verus! {

/// Something the bridge asks to be sent.
#[derive(Debug, PartialEq)]
pub enum Action {
    /// Send to every connected client transport.
    Broadcast(Json),
    /// Send to the named tool server.
    SendToServer(String, Json),
    /// Wait this many milliseconds, then drop and re-open every client
    /// transport, and report back with `finish_reconnect`.
    Reconnect(u64),
}

/// The value of an [`Action`].
pub enum ActionV {
    Broadcast(JsonV),
    SendToServer(Seq<char>, JsonV),
    Reconnect(u64),
}

impl View for Action {
    type V = ActionV;

    open spec fn view(&self) -> ActionV {
        match self {
            Action::Broadcast(j) => ActionV::Broadcast(j@),
            Action::SendToServer(s, j) => ActionV::SendToServer(s@, j@),
            Action::Reconnect(d) => ActionV::Reconnect(*d),
        }
    }
}

/// The values of a sequence of actions.
pub open spec fn actions_view(a: Seq<Action>) -> Seq<ActionV> {
    a.map_values(|x: Action| x@)
}

/// Why the bridge cannot go on.
#[derive(Debug, PartialEq)]
pub enum BridgeError {
    NoTransports,
    NoActiveServers,
    MaxReconnectAttempts,
    ServerNotFound(String),
}

impl BridgeError {
    /// The text of the error.
    pub open spec fn message(&self) -> Seq<char> {
        match self {
            BridgeError::NoTransports => "No transports enabled in configuration"@,
            BridgeError::NoActiveServers => "No active servers"@,
            BridgeError::MaxReconnectAttempts => "Max reconnection attempts reached"@,
            BridgeError::ServerNotFound(s) => "Server not found: "@ + s@,
        }
    }

    /// The text of the error.
    pub fn to_string(&self) -> (r: String)
        ensures
            r@ == self.message(),
    {
        match self {
            BridgeError::NoTransports => "No transports enabled in configuration".to_owned(),
            BridgeError::NoActiveServers => "No active servers".to_owned(),
            BridgeError::MaxReconnectAttempts => "Max reconnection attempts reached".to_owned(),
            BridgeError::ServerNotFound(s) => concat("Server not found: ", s.as_str()),
        }
    }
}

/// The state of the bridge. Times are milliseconds on a monotonic clock.
pub struct Bridge {
    pub config: BridgeConfig,
    pub connection_config: ConnectionConfig,
    pub is_connected: bool,
    pub reconnect_attempt: u32,
    pub initialized: bool,
    /// Offered name to the owning server and the tool's description.
    pub tools: StrMap<(String, Json)>,
    /// Offered name to the owning server and the tool's original name.
    pub tool_service_map: StrMap<(String, String)>,
    pub last_activity: u64,
    pub last_ping_sent: u64,
    /// A client's `tools/list` request that awaits its reply.
    pub pending_tools_list_request: Option<Json>,
    pub tools_collected: bool,
    /// Servers whose tool list has arrived (or was given up on).
    pub collected_servers: StrSet,
    pub tools_list_response_sent: bool,
    /// Servers that started.
    pub active_servers: StrSet,
    /// Started servers spoken to over their standard input.
    pub stdin_servers: StrSet,
}

/// The value of a [`Bridge`], apart from its configuration.
pub struct BridgeV {
    pub connection: ConnectionConfig,
    pub is_connected: bool,
    pub reconnect_attempt: u32,
    pub initialized: bool,
    pub tools: Seq<(Seq<char>, (Seq<char>, JsonV))>,
    pub tool_service_map: Seq<(Seq<char>, (Seq<char>, Seq<char>))>,
    pub last_activity: u64,
    pub last_ping_sent: u64,
    pub pending: Option<JsonV>,
    pub tools_collected: bool,
    pub collected_servers: Set<Seq<char>>,
    pub tools_list_response_sent: bool,
    pub active_servers: Set<Seq<char>>,
    pub stdin_servers: Seq<Seq<char>>,
    /// The number of configured servers.
    pub server_count: nat,
}

/// The value of an optional JSON value.
pub open spec fn opt_json_view(o: Option<Json>) -> Option<JsonV> {
    match o {
        Some(j) => Some(j@),
        None => None,
    }
}

impl View for Bridge {
    type V = BridgeV;

    open spec fn view(&self) -> BridgeV {
        BridgeV {
            connection: self.connection_config,
            is_connected: self.is_connected,
            reconnect_attempt: self.reconnect_attempt,
            initialized: self.initialized,
            tools: self.tools.entries(),
            tool_service_map: self.tool_service_map.entries(),
            last_activity: self.last_activity,
            last_ping_sent: self.last_ping_sent,
            pending: opt_json_view(self.pending_tools_list_request),
            tools_collected: self.tools_collected,
            collected_servers: self.collected_servers@,
            tools_list_response_sent: self.tools_list_response_sent,
            active_servers: self.active_servers@,
            stdin_servers: self.stdin_servers.items(),
            server_count: self.config.servers@.dom().len(),
        }
    }
}

/// A tool's description offered under `name`: an object gets its `name`
/// member set; anything else is offered as it is.
pub open spec fn named_tool(tool: JsonV, name: Seq<char>) -> JsonV {
    match tool {
        JsonV::Object(fs) => JsonV::Object(insert_member(fs, "name"@, JsonV::Str(name))),
        _ => tool,
    }
}

/// The tool list offered to the client, in the order the tools were
/// collected.
pub open spec fn tool_listing(tools: Seq<(Seq<char>, (Seq<char>, JsonV))>) -> Seq<JsonV> {
    tools.map_values(|e: (Seq<char>, (Seq<char>, JsonV))| named_tool(e.1.1, e.0))
}

/// Replying to the pending `tools/list` request, if there is one.
pub open spec fn reply_effect(b: BridgeV, now: u64) -> (BridgeV, Seq<ActionV>) {
    match b.pending {
        Some(req) => (
            BridgeV { pending: None, tools_list_response_sent: true, last_activity: now, ..b },
            seq![
                ActionV::Broadcast(tools_list_response(req.index("id"@), tool_listing(b.tools))),
            ],
        ),
        None => (b, seq![]),
    }
}

/// Answering a ping: an empty result under its id, where it has one.
pub open spec fn ping_effect(b: BridgeV, msg: JsonV, now: u64) -> (BridgeV, Seq<ActionV>) {
    (
        BridgeV { last_activity: now, ..b },
        match msg.get("id"@) {
            Some(id) => seq![ActionV::Broadcast(ping_response(id))],
            None => seq![],
        },
    )
}

/// Notifying the client that the tool list changed.
pub open spec fn notify_effect(b: BridgeV, now: u64) -> (BridgeV, Seq<ActionV>) {
    (BridgeV { last_activity: now, ..b }, seq![ActionV::Broadcast(tools_changed_notification())])
}

/// A client's `tools/list`: kept as pending, and answered at once where no
/// reply went out yet and there is something to offer: the tools are all
/// collected, or some are.
pub open spec fn tools_list_request_effect(b: BridgeV, msg: JsonV, now: u64) -> (
    BridgeV,
    Seq<ActionV>,
) {
    let b1 = BridgeV { pending: Some(msg), ..b };
    if !b.tools_list_response_sent && (b.tools_collected || b.tools.len() > 0) {
        reply_effect(b1, now)
    } else {
        (b1, seq![])
    }
}


/// The text of `j` where it is a JSON string, else the empty text.
pub open spec fn str_or_empty(j: JsonV) -> Seq<char> {
    match j {
        JsonV::Str(s) => s,
        _ => Seq::empty(),
    }
}

/// A tool call whose `params`, where it is an object, names both the tool
/// and its arguments.
pub open spec fn tool_call_well_formed(msg: JsonV) -> bool {
    match msg.index("params"@) {
        JsonV::Object(fs) => lookup_member(fs, "name"@) is Some && lookup_member(
            fs,
            "arguments"@,
        ) is Some,
        _ => true,
    }
}

/// The offered name a tool call asks for.
pub open spec fn called_tool(msg: JsonV) -> Seq<char> {
    match msg.index("params"@) {
        JsonV::Object(_) => str_or_empty(msg.index("params"@).index("name"@)),
        _ => Seq::empty(),
    }
}

/// The arguments of a tool call: its `params.arguments` object, or `null`.
pub open spec fn call_arguments(msg: JsonV) -> JsonV {
    match msg.index("params"@) {
        JsonV::Object(_) => match msg.index("params"@).index("arguments"@) {
            JsonV::Object(a) => JsonV::Object(a),
            _ => JsonV::Null,
        },
        _ => JsonV::Null,
    }
}

/// A client's tool call: forwarded, under the tool's original name, to the
/// server that offers the tool; answered with an error where no server
/// offers it.
pub open spec fn tool_call_effect(b: BridgeV, msg: JsonV, now: u64) -> (BridgeV, Seq<ActionV>) {
    let id = msg.index("id"@);
    let name = called_tool(msg);
    match lookup_member(b.tool_service_map, name) {
        Some(found) => (
            b,
            seq![
                ActionV::SendToServer(
                    found.0,
                    tool_call_request(
                        id,
                        str_or_empty(msg.index("method"@)),
                        found.1,
                        call_arguments(msg),
                    ),
                ),
            ],
        ),
        None => (
            BridgeV { last_activity: now, ..b },
            seq![ActionV::Broadcast(tool_not_found(id, name))],
        ),
    }
}

/// `initialize`: answered; the collected tools are dropped and every server
/// spoken to over its standard input is asked for its tools again.
pub open spec fn initialize_effect(b: BridgeV, msg: JsonV, now: u64) -> (BridgeV, Seq<ActionV>) {
    (
        BridgeV {
            initialized: true,
            tools: seq![],
            tool_service_map: seq![],
            collected_servers: Set::empty(),
            tools_collected: false,
            tools_list_response_sent: false,
            last_activity: now,
            ..b
        },
        seq![ActionV::Broadcast(initialize_response(msg.index("id"@)))] + b.stdin_servers.map_values(
            |s: Seq<char>| ActionV::SendToServer(s, tools_list_request(s)),
        ),
    )
}

/// The method a message names, where it names one as a string.
pub open spec fn method_of(msg: JsonV) -> Option<Seq<char>> {
    match msg.get("method"@) {
        Some(JsonV::Str(m)) => Some(m),
        _ => None,
    }
}

/// A client message, by its method; a message without a known method
/// changes nothing.
pub open spec fn message_effect(b: BridgeV, msg: JsonV, now: u64) -> (BridgeV, Seq<ActionV>) {
    match method_of(msg) {
        Some(m) => if m == "ping"@ {
            ping_effect(b, msg, now)
        } else if m == "initialize"@ {
            initialize_effect(b, msg, now)
        } else if m == "tools/list"@ {
            tools_list_request_effect(b, msg, now)
        } else if m == "tools/call"@ {
            tool_call_effect(b, msg, now)
        } else {
            (b, seq![])
        },
        None => (b, seq![]),
    }
}

/// A message whose handling needs nothing more than it holds: a tool call
/// is well formed.
pub open spec fn message_well_formed(msg: JsonV) -> bool {
    method_of(msg) == Some("tools/call"@) ==> tool_call_well_formed(msg)
}


/// Output of a server that answers the bridge's `tools/list` request: a
/// result under an id that starts with `tools-list-`, and no method.
pub open spec fn is_tools_list_reply(out: JsonV) -> bool {
    &&& out.get("result"@) is Some
    &&& out.get("method"@) is None
    &&& match out.get("id"@) {
        Some(JsonV::Str(id)) => "tools-list-"@.is_prefix_of(id),
        _ => false,
    }
}

/// The name a tool's description gives it, where it gives one as a string.
pub open spec fn tool_name(tool: JsonV) -> Option<Seq<char>> {
    match tool.get("name"@) {
        Some(JsonV::Str(t)) => Some(t),
        _ => None,
    }
}

/// Taking one tool of `server` into the tool tables.
pub open spec fn collect_tool(
    tools: Seq<(Seq<char>, (Seq<char>, JsonV))>,
    tsm: Seq<(Seq<char>, (Seq<char>, Seq<char>))>,
    server: Seq<char>,
    tool: JsonV,
) -> (Seq<(Seq<char>, (Seq<char>, JsonV))>, Seq<(Seq<char>, (Seq<char>, Seq<char>))>) {
    match tool_name(tool) {
        Some(t) => (
            insert_member(tools, prefixed_tool_name(server, t), (server, tool)),
            insert_member(tsm, prefixed_tool_name(server, t), (server, t)),
        ),
        None => (tools, tsm),
    }
}

/// Taking the tools of `server` into the tool tables, in order.
pub open spec fn collect_tools(
    tools: Seq<(Seq<char>, (Seq<char>, JsonV))>,
    tsm: Seq<(Seq<char>, (Seq<char>, Seq<char>))>,
    server: Seq<char>,
    list: Seq<JsonV>,
) -> (Seq<(Seq<char>, (Seq<char>, JsonV))>, Seq<(Seq<char>, (Seq<char>, Seq<char>))>)
    decreases list.len(),
{
    if list.len() == 0 {
        (tools, tsm)
    } else {
        let next = collect_tool(tools, tsm, server, list[0]);
        collect_tools(next.0, next.1, server, list.drop_first())
    }
}

/// Once every configured server has answered: the tools count as collected,
/// and the client is told of a change (where a list already went out) or
/// answered (where its request waits).
pub open spec fn collection_done_effect(b: BridgeV, now: u64) -> (BridgeV, Seq<ActionV>) {
    if b.collected_servers.len() == b.server_count {
        let b2 = BridgeV { tools_collected: true, ..b };
        if b2.tools_list_response_sent {
            notify_effect(b2, now)
        } else if b2.pending is Some {
            reply_effect(b2, now)
        } else {
            (b2, seq![])
        }
    } else {
        (b, seq![])
    }
}

/// Output of the tool server `server`: a reply to the bridge's `tools/list`
/// request is taken in and not passed on; anything else goes to the client.
pub open spec fn process_output_effect(b: BridgeV, server: Seq<char>, out: JsonV, now: u64) -> (
    BridgeV,
    Seq<ActionV>,
) {
    if is_tools_list_reply(out) {
        let b1 = match out.index("result"@).index("tools"@) {
            JsonV::Array(list) => {
                let collected = collect_tools(b.tools, b.tool_service_map, server, list);
                BridgeV {
                    collected_servers: b.collected_servers.insert(server),
                    tools: collected.0,
                    tool_service_map: collected.1,
                    ..b
                }
            },
            _ => b,
        };
        let done = collection_done_effect(b1, now);
        (BridgeV { last_activity: now, ..done.0 }, done.1)
    } else {
        (BridgeV { last_activity: now, ..b }, seq![ActionV::Broadcast(out)])
    }
}


/// Milliseconds from `since` to `now`; none where the clock reads earlier.
pub open spec fn elapsed(now: u64, since: u64) -> int {
    if now >= since {
        now - since
    } else {
        0
    }
}

/// A ping goes out only where there was no activity for a third of the
/// heartbeat interval and no ping for half of it.
pub open spec fn ping_due(b: BridgeV, now: u64) -> bool {
    !(elapsed(now, b.last_activity) < b.connection.heartbeat_interval / 3 || elapsed(
        now,
        b.last_ping_sent,
    ) < b.connection.heartbeat_interval / 2)
}

/// A heartbeat tick: a ping, where one is due.
pub open spec fn send_ping_effect(b: BridgeV, now: u64, timestamp: nat) -> (BridgeV, Seq<ActionV>) {
    if ping_due(b, now) {
        (
            BridgeV { last_ping_sent: now, last_activity: now, ..b },
            seq![ActionV::Broadcast(ping_request(timestamp))],
        )
    } else {
        (b, seq![])
    }
}

/// The client connection counts as lost: no activity for longer than the
/// heartbeat timeout.
pub open spec fn timed_out(b: BridgeV, now: u64) -> bool {
    elapsed(now, b.last_activity) > b.connection.heartbeat_timeout
}

/// The state after the client transports were re-opened: connected, the
/// attempt count and the clocks reset, and the tools dropped.
pub open spec fn reconnected(b: BridgeV, now: u64) -> BridgeV {
    BridgeV {
        is_connected: true,
        reconnect_attempt: 0,
        last_activity: now,
        last_ping_sent: now,
        initialized: false,
        tools_collected: false,
        tools_list_response_sent: false,
        collected_servers: Set::empty(),
        tools: seq![],
        tool_service_map: seq![],
        ..b
    }
}

/// Completing a reconnection: the state is reset and the bridge handles an
/// `initialize` of its own.
pub open spec fn finish_reconnect_effect(b: BridgeV, now: u64) -> (BridgeV, Seq<ActionV>) {
    initialize_effect(reconnected(b, now), reinitialize_request(), now)
}

/// Starting a reconnection of the client transports: the attempt is
/// counted, unless the attempts are used up (then nothing changes and the
/// answer is `false`).
pub open spec fn begin_reconnect_effect(b: BridgeV) -> (BridgeV, bool) {
    if b.reconnect_attempt >= b.connection.max_reconnect_attempts {
        (b, false)
    } else {
        (BridgeV { reconnect_attempt: (b.reconnect_attempt + 1) as u32, ..b }, true)
    }
}

/// The pause before re-opening a single failed transport: the reconnect
/// interval doubled once per attempt so far.
pub open spec fn backoff(interval: u64, attempt: nat) -> int {
    interval * pow2(attempt)
}

/// The pause can be computed: the doubling and the product fit in 64 bits.
pub open spec fn backoff_fits(interval: u64, attempt: nat) -> bool {
    attempt < 64 && backoff(interval, attempt) <= u64::MAX
}

/// The end of every round of the event loop: once every started server
/// has answered, the tools count as collected, and the client is told of a
/// change (where a list already went out) or answered (where it waits).
pub open spec fn after_event_effect(b: BridgeV, now: u64) -> (BridgeV, Seq<ActionV>) {
    if !b.tools_collected && b.collected_servers.len() == b.active_servers.len() {
        let b2 = BridgeV { tools_collected: true, ..b };
        if b2.tools_list_response_sent {
            notify_effect(b2, now)
        } else if b2.pending is Some {
            reply_effect(b2, now)
        } else {
            (b2, seq![])
        }
    } else {
        (b, seq![])
    }
}

/// The timer for a partial tool list: while no list went out, every
/// configured server counts as answered, and a waiting client gets the
/// tools collected so far, where there are any.
pub open spec fn partial_report_effect(b: BridgeV, servers: Set<Seq<char>>, now: u64) -> (
    BridgeV,
    Seq<ActionV>,
) {
    if b.tools_list_response_sent {
        (b, seq![])
    } else {
        let b1 = BridgeV { collected_servers: b.collected_servers.union(servers), ..b };
        if b1.pending is Some && b1.tools.len() > 0 {
            reply_effect(b1, now)
        } else {
            (b1, seq![])
        }
    }
}

/// What happens to the bridge.
pub enum Event {
    /// A message from the client.
    Message(Json),
    /// A line of output of the named tool server.
    ProcessOutput(String, String),
    /// The ping timer fired; the wall-clock time in milliseconds.
    PingTick(u128),
    /// The heartbeat timer fired.
    HeartbeatCheck,
    /// The partial tool list timer fired.
    PartialReportTimeout,
}

/// Where a message for a tool server goes.
#[derive(Debug, PartialEq, Eq, Structural)]
pub enum Route {
    /// To the standard input of a started process.
    Stdin,
    /// To a started remote (server-sent events) server.
    Remote,
    /// Nowhere: no such server started.
    Unknown,
}

/// Where a message for the server `name` goes: to the standard input of a
/// started process spoken to that way, else to a started remote server,
/// else nowhere.
pub open spec fn route_of(
    b: BridgeV,
    stdin: Set<Seq<char>>,
    servers: Map<Seq<char>, ServerConfigV>,
    name: Seq<char>,
) -> Route {
    if stdin.contains(name) {
        Route::Stdin
    } else if b.active_servers.contains(name) && servers.dom().contains(name)
        && servers[name] is Sse {
        Route::Remote
    } else {
        Route::Unknown
    }
}

impl Bridge {
    /// Well-formedness of the bridge's collections.
    pub open spec fn wf(&self) -> bool {
        &&& self.config.servers.wf()
        &&& self.tools.wf()
        &&& self.tool_service_map.wf()
        &&& self.collected_servers.wf()
        &&& self.active_servers.wf()
        &&& self.stdin_servers.wf()
    }

    /// A bridge for `config`, with no servers started yet. At least one
    /// client transport must be enabled.
    pub fn new(config: BridgeConfig, now: u64) -> (r: Result<Bridge, BridgeError>)
        requires
            config.servers.wf(),
        ensures
            match r {
                Ok(b) => {
                    &&& config.app_config.websocket.enabled || config.app_config.mqtt.enabled
                    &&& b.wf()
                    &&& b.config == config
                    &&& b@ == BridgeV {
                        connection: config.app_config.connection,
                        is_connected: false,
                        reconnect_attempt: 0,
                        initialized: false,
                        tools: seq![],
                        tool_service_map: seq![],
                        last_activity: now,
                        last_ping_sent: now,
                        pending: None,
                        tools_collected: false,
                        collected_servers: Set::empty(),
                        tools_list_response_sent: false,
                        active_servers: Set::empty(),
                        stdin_servers: seq![],
                        server_count: config.servers@.dom().len(),
                    }
                },
                Err(e) => {
                    &&& !config.app_config.websocket.enabled && !config.app_config.mqtt.enabled
                    &&& e is NoTransports
                },
            },
    {
        if !config.app_config.websocket.enabled && !config.app_config.mqtt.enabled {
            return Err(BridgeError::NoTransports);
        }
        let connection_config = config.app_config.connection;
        Ok(
            Bridge {
                config,
                connection_config,
                is_connected: false,
                reconnect_attempt: 0,
                initialized: false,
                tools: StrMap::new(),
                tool_service_map: StrMap::new(),
                last_activity: now,
                last_ping_sent: now,
                pending_tools_list_request: None,
                tools_collected: false,
                collected_servers: StrSet::new(),
                tools_list_response_sent: false,
                active_servers: StrSet::new(),
                stdin_servers: StrSet::new(),
            },
        )
    }

    /// The name under which this bridge offers the tool `tool_name` of the
    /// server `server_name`.
    pub fn generate_prefixed_tool_name(&self, server_name: &str, tool_name: &str) -> (r: String)
        ensures
            r@ == prefixed_tool_name(server_name@, tool_name@),
    {
        prefixed_name(server_name, tool_name)
    }

    /// Answers a ping request.
    pub fn handle_ping_request(&mut self, msg: &Json, now: u64) -> (actions: Vec<Action>)
        requires
            old(self).wf(),
        ensures
            final(self).wf(),
            final(self).config == old(self).config,
            (final(self)@, actions_view(actions@)) == ping_effect(old(self)@, msg@, now),
    {
        let mut actions: Vec<Action> = Vec::new();
        match msg.get("id") {
            Some(id) => {
                let response = make_ping_response(id.deep_clone());
                actions.push(Action::Broadcast(response));
            },
            None => {},
        }
        self.last_activity = now;
        assert(actions_view(actions@) =~= ping_effect(old(self)@, msg@, now).1);
        actions
    }

    /// Tells the client that the tool list changed.
    pub fn notify_tools_changed(&mut self, now: u64) -> (actions: Vec<Action>)
        requires
            old(self).wf(),
        ensures
            final(self).wf(),
            final(self).config == old(self).config,
            (final(self)@, actions_view(actions@)) == notify_effect(old(self)@, now),
    {
        let notification = make_tools_changed_notification();
        self.last_activity = now;
        let actions = vec![Action::Broadcast(notification)];
        assert(actions_view(actions@) =~= notify_effect(old(self)@, now).1);
        actions
    }

    /// The tool list offered to the client.
    pub fn tool_list(&self) -> (list: Vec<Json>)
        requires
            self.wf(),
        ensures
            elems_view(list@) == tool_listing(self.tools.entries()),
    {
        let mut list: Vec<Json> = Vec::new();
        let n = self.tools.len();
        proof {
            lemma_elems_view(list@);
        }
        for i in 0..n
            invariant
                n == self.tools.entries().len(),
                elems_view(list@) == tool_listing(self.tools.entries().subrange(0, i as int)),
        {
            let name = self.tools.key_at(i);
            let entry = self.tools.value_at(i);
            let tool = entry.1.deep_clone().with_member("name".to_owned(), Json::Str(name.clone()));
            proof {
                lemma_elems_view_push(list@, tool);
            }
            list.push(tool);
            assert(tool_listing(self.tools.entries().subrange(0, i + 1)) =~= tool_listing(
                self.tools.entries().subrange(0, i as int),
            ).push(named_tool(self.tools.entries()[i as int].1.1, self.tools.entries()[i as int].0)));
        }
        assert(self.tools.entries().subrange(0, n as int) =~= self.tools.entries());
        list
    }

    /// Replies to the pending `tools/list` request, if there is one.
    pub fn reply_tools_list(&mut self, now: u64) -> (actions: Vec<Action>)
        requires
            old(self).wf(),
        ensures
            final(self).wf(),
            final(self).config == old(self).config,
            (final(self)@, actions_view(actions@)) == reply_effect(old(self)@, now),
    {
        let mut actions: Vec<Action> = Vec::new();
        match self.pending_tools_list_request.take() {
            Some(request) => {
                let id = request.index("id");
                let list = self.tool_list();
                let response = make_tools_list_response(id, list);
                actions.push(Action::Broadcast(response));
                self.last_activity = now;
                self.tools_list_response_sent = true;
                assert(actions_view(actions@) =~= reply_effect(old(self)@, now).1);
            },
            None => {
                assert(actions_view(actions@) =~= reply_effect(old(self)@, now).1);
            },
        }
        actions
    }

    /// Handles a client's `tools/list` request.
    pub fn handle_tools_list_request(&mut self, msg: Json, now: u64) -> (actions: Vec<Action>)
        requires
            old(self).wf(),
        ensures
            final(self).wf(),
            final(self).config == old(self).config,
            (final(self)@, actions_view(actions@)) == tools_list_request_effect(
                old(self)@,
                msg@,
                now,
            ),
    {
        self.pending_tools_list_request = Some(msg);
        if !self.tools_list_response_sent && (self.tools_collected || !self.tools.is_empty()) {
            let actions = self.reply_tools_list(now);
            self.tools_list_response_sent = true;
            actions
        } else {
            let actions: Vec<Action> = Vec::new();
            assert(actions_view(actions@) =~= Seq::<ActionV>::empty());
            actions
        }
    }

    /// Handles a client's tool call.
    pub fn handle_tool_call(&mut self, msg: &Json, now: u64) -> (actions: Vec<Action>)
        requires
            old(self).wf(),
            tool_call_well_formed(msg@),
        ensures
            final(self).wf(),
            final(self).config == old(self).config,
            (final(self)@, actions_view(actions@)) == tool_call_effect(old(self)@, msg@, now),
    {
        let id = msg.index("id");
        let method: &str = match msg.get("method") {
            Some(m) => match m.as_str() {
                Some(s) => s.as_str(),
                None => "",
            },
            None => "",
        };
        proof {
            reveal_strlit("");
        }
        let mut name: &str = "";
        let mut arguments = Json::Null;
        match msg.get("params") {
            Some(params) => {
                if params.is_object() {
                    match params.get("name") {
                        Some(n) => match n.as_str() {
                            Some(s) => {
                                name = s.as_str();
                            },
                            None => {},
                        },
                        None => {},
                    }
                    match params.get("arguments") {
                        Some(a) => if a.is_object() {
                            arguments = a.deep_clone();
                        },
                        None => {},
                    }
                }
            },
            None => {},
        }
        assert(name@ == called_tool(msg@));
        assert(arguments@ == call_arguments(msg@));
        assert(method@ == str_or_empty(msg@.index("method"@)));
        proof {
            self.tool_service_map.lemma_lookup(name@);
        }
        let mut actions: Vec<Action> = Vec::new();
        match self.tool_service_map.get(name) {
            Some(found) => {
                let request = make_tool_call_request(id, method, found.1.as_str(), arguments);
                actions.push(Action::SendToServer(found.0.clone(), request));
            },
            None => {
                let response = make_tool_not_found(id, name);
                actions.push(Action::Broadcast(response));
                self.last_activity = now;
            },
        }
        assert(actions_view(actions@) =~= tool_call_effect(old(self)@, msg@, now).1);
        actions
    }

    /// Handles `initialize`.
    pub fn initialize(&mut self, msg: &Json, now: u64) -> (actions: Vec<Action>)
        requires
            old(self).wf(),
        ensures
            final(self).wf(),
            final(self).config == old(self).config,
            (final(self)@, actions_view(actions@)) == initialize_effect(old(self)@, msg@, now),
    {
        let id = msg.index("id");
        let response = make_initialize_response(id);
        let mut actions: Vec<Action> = vec![Action::Broadcast(response)];
        self.last_activity = now;
        self.initialized = true;
        self.tools.clear();
        self.tool_service_map.clear();
        self.collected_servers.clear();
        self.tools_collected = false;
        self.tools_list_response_sent = false;
        let n = self.stdin_servers.len();
        let ghost first = actions_view(actions@);
        for i in 0..n
            invariant
                n == self.stdin_servers.items().len(),
                actions_view(actions@) == first + self.stdin_servers.items().subrange(
                    0,
                    i as int,
                ).map_values(|s: Seq<char>| ActionV::SendToServer(s, tools_list_request(s))),
        {
            let server = self.stdin_servers.item_at(i);
            let request = make_tools_list_request(server.as_str());
            let ghost prev = actions@;
            let ghost sv = server@;
            let ghost rv = request@;
            actions.push(Action::SendToServer(server.clone(), request));
            assert(actions_view(actions@) =~= actions_view(prev).push(
                ActionV::SendToServer(sv, rv),
            ));
            assert(self.stdin_servers.items().subrange(0, i + 1).map_values(
                |s: Seq<char>| ActionV::SendToServer(s, tools_list_request(s)),
            ) =~= self.stdin_servers.items().subrange(0, i as int).map_values(
                |s: Seq<char>| ActionV::SendToServer(s, tools_list_request(s)),
            ).push(ActionV::SendToServer(sv, rv)));
            assert(actions_view(actions@) =~= first + self.stdin_servers.items().subrange(
                0,
                i + 1,
            ).map_values(|s: Seq<char>| ActionV::SendToServer(s, tools_list_request(s))));
        }
        assert(self.stdin_servers.items().subrange(0, n as int) =~= self.stdin_servers.items());
        assert(self@.tools =~= Seq::<(Seq<char>, (Seq<char>, JsonV))>::empty());
        assert(actions_view(actions@) =~= initialize_effect(old(self)@, msg@, now).1);
        actions
    }

    /// Handles a message from the client, by its method.
    pub fn handle_message(&mut self, msg: Json, now: u64) -> (actions: Vec<Action>)
        requires
            old(self).wf(),
            message_well_formed(msg@),
        ensures
            final(self).wf(),
            final(self).config == old(self).config,
            (final(self)@, actions_view(actions@)) == message_effect(old(self)@, msg@, now),
    {
        let method: Option<&String> = match msg.get("method") {
            Some(m) => m.as_str(),
            None => None,
        };
        match method {
            Some(m) => {
                if crate::text::str_eq(m.as_str(), "ping") {
                    return self.handle_ping_request(&msg, now);
                } else if crate::text::str_eq(m.as_str(), "initialize") {
                    return self.initialize(&msg, now);
                } else if crate::text::str_eq(m.as_str(), "tools/list") {
                    return self.handle_tools_list_request(msg, now);
                } else if crate::text::str_eq(m.as_str(), "tools/call") {
                    return self.handle_tool_call(&msg, now);
                }
            },
            None => {},
        }
        let actions: Vec<Action> = Vec::new();
        assert(actions_view(actions@) =~= Seq::<ActionV>::empty());
        actions
    }

    /// Takes the tools of `server_name` listed in `list` into the tool
    /// tables.
    pub fn collect_tools(&mut self, server_name: &str, list: &Vec<Json>)
        requires
            old(self).wf(),
        ensures
            final(self).wf(),
            final(self).config == old(self).config,
            final(self)@ == (BridgeV {
                tools: collect_tools(
                    old(self)@.tools,
                    old(self)@.tool_service_map,
                    server_name@,
                    elems_view(list@),
                ).0,
                tool_service_map: collect_tools(
                    old(self)@.tools,
                    old(self)@.tool_service_map,
                    server_name@,
                    elems_view(list@),
                ).1,
                ..old(self)@
            }),
    {
        let n = list.len();
        proof {
            lemma_elems_view(list@);
            assert(elems_view(list@).subrange(0, n as int) =~= elems_view(list@));
        }
        let ghost target = collect_tools(
            old(self)@.tools,
            old(self)@.tool_service_map,
            server_name@,
            elems_view(list@),
        );
        for i in 0..n
            invariant
                self.wf(),
                self.config == old(self).config,
                n == list@.len(),
                elems_view(list@).len() == n,
                forall|k: int| 0 <= k < n ==> #[trigger] elems_view(list@)[k] == list@[k]@,
                target == collect_tools(
                    old(self)@.tools,
                    old(self)@.tool_service_map,
                    server_name@,
                    elems_view(list@),
                ),
                target == collect_tools(
                    self@.tools,
                    self@.tool_service_map,
                    server_name@,
                    elems_view(list@).subrange(i as int, n as int),
                ),
                self@ == (BridgeV {
                    tools: self@.tools,
                    tool_service_map: self@.tool_service_map,
                    ..old(self)@
                }),
        {
            let tool = &list[i];
            let ghost rest = elems_view(list@).subrange(i as int, n as int);
            assert(rest[0] == tool@);
            assert(rest.drop_first() =~= elems_view(list@).subrange(i + 1, n as int));
            match tool.get("name") {
                Some(nm) => match nm.as_str() {
                    Some(t) => {
                        let prefixed = prefixed_name(server_name, t.as_str());
                        self.tools.insert(
                            prefixed.clone(),
                            (server_name.to_owned(), tool.deep_clone()),
                        );
                        self.tool_service_map.insert(prefixed, (server_name.to_owned(), t.clone()));
                    },
                    None => {},
                },
                None => {},
            }
        }
    }

    /// Handles a line of output of the tool server `server_name`: the
    /// message it carries, read as [`Bridge::message_value`] reads it.
    pub fn handle_process_output(&mut self, server_name: &str, output: &str, now: u64) -> (actions:
        Vec<Action>)
        requires
            old(self).wf(),
        ensures
            final(self).wf(),
            final(self).config == old(self).config,
            (final(self)@, actions_view(actions@)) == process_output_effect(
                old(self)@,
                server_name@,
                text_message(output@),
                now,
            ),
    {
        let msg = Self::message_value(output);
        self.take_output(server_name, msg, now)
    }

    /// Handles the message `output` of the tool server `server_name`, once
    /// read from its text: a reply to the bridge's `tools/list` request is
    /// taken in, anything else goes to the client.
    pub fn take_output(&mut self, server_name: &str, output: Json, now: u64) -> (actions:
        Vec<Action>)
        requires
            old(self).wf(),
        ensures
            final(self).wf(),
            final(self).config == old(self).config,
            (final(self)@, actions_view(actions@)) == process_output_effect(
                old(self)@,
                server_name@,
                output@,
                now,
            ),
    {
        let mut is_reply = false;
        match output.get("result") {
            Some(_) => match output.get("id") {
                Some(id) => if output.get("method").is_none() {
                    match id.as_str() {
                        Some(id_str) => {
                            if starts_with(id_str.as_str(), "tools-list-") {
                                is_reply = true;
                            }
                        },
                        None => {},
                    }
                },
                None => {},
            },
            None => {},
        }
        assert(is_reply == is_tools_list_reply(output@));
        if !is_reply {
            self.last_activity = now;
            let actions = vec![Action::Broadcast(output)];
            assert(actions_view(actions@) =~= process_output_effect(
                old(self)@,
                server_name@,
                output@,
                now,
            ).1);
            return actions;
        }
        match output.get("result") {
            Some(result) => match result.get("tools") {
                Some(tools) => match tools.as_array() {
                    Some(list) => {
                        self.collected_servers.insert(server_name.to_owned());
                        self.collect_tools(server_name, list);
                    },
                    None => {},
                },
                None => {},
            },
            None => {},
        }
        let mut actions: Vec<Action> = Vec::new();
        if self.collected_servers.len() == self.config.servers.len() {
            self.tools_collected = true;
            if self.tools_list_response_sent {
                actions = self.notify_tools_changed(now);
            } else if self.pending_tools_list_request.is_some() {
                actions = self.reply_tools_list(now);
            }
        }
        self.last_activity = now;
        assert(actions_view(actions@) =~= process_output_effect(
            old(self)@,
            server_name@,
            output@,
            now,
        ).1);
        actions
    }

    /// Sends a ping where one is due; `timestamp` is the wall-clock time in
    /// milliseconds that names it.
    pub fn send_ping(&mut self, now: u64, timestamp: u128) -> (actions: Vec<Action>)
        requires
            old(self).wf(),
        ensures
            final(self).wf(),
            final(self).config == old(self).config,
            (final(self)@, actions_view(actions@)) == send_ping_effect(
                old(self)@,
                now,
                timestamp as nat,
            ),
    {
        let since_activity: u64 = if now >= self.last_activity {
            now - self.last_activity
        } else {
            0
        };
        let since_ping: u64 = if now >= self.last_ping_sent {
            now - self.last_ping_sent
        } else {
            0
        };
        let interval = self.connection_config.heartbeat_interval;
        if since_activity < interval / 3 || since_ping < interval / 2 {
            let actions: Vec<Action> = Vec::new();
            assert(actions_view(actions@) =~= Seq::<ActionV>::empty());
            return actions;
        }
        let ping = make_ping_request(timestamp);
        let actions = vec![Action::Broadcast(ping)];
        self.last_activity = now;
        self.last_ping_sent = now;
        assert(actions_view(actions@) =~= send_ping_effect(old(self)@, now, timestamp as nat).1);
        actions
    }

    /// Whether the client connection counts as lost.
    pub fn heartbeat_timed_out(&self, now: u64) -> (b: bool)
        ensures
            b == timed_out(self@, now),
    {
        let since: u64 = if now >= self.last_activity {
            now - self.last_activity
        } else {
            0
        };
        since > self.connection_config.heartbeat_timeout
    }

    /// Starts a reconnection of the client transports: gives the pause to
    /// wait, or fails once the attempts are used up.
    pub fn begin_reconnect(&mut self) -> (r: Result<u64, BridgeError>)
        requires
            old(self).wf(),
        ensures
            final(self).wf(),
            final(self).config == old(self).config,
            final(self)@ == begin_reconnect_effect(old(self)@).0,
            !begin_reconnect_effect(old(self)@).1 ==> (r matches Err(e) && e is MaxReconnectAttempts),
            begin_reconnect_effect(old(self)@).1 ==> r == Ok::<u64, BridgeError>(
                old(self).connection_config.reconnect_interval,
            ),
    {
        if self.reconnect_attempt >= self.connection_config.max_reconnect_attempts {
            return Err(BridgeError::MaxReconnectAttempts);
        }
        self.reconnect_attempt = self.reconnect_attempt + 1;
        Ok(self.connection_config.reconnect_interval)
    }

    /// Completes a reconnection once the client transports are re-opened.
    pub fn finish_reconnect(&mut self, now: u64) -> (actions: Vec<Action>)
        requires
            old(self).wf(),
        ensures
            final(self).wf(),
            final(self).config == old(self).config,
            (final(self)@, actions_view(actions@)) == finish_reconnect_effect(old(self)@, now),
    {
        self.is_connected = true;
        self.reconnect_attempt = 0;
        self.last_activity = now;
        self.last_ping_sent = now;
        self.initialized = false;
        self.tools_collected = false;
        self.tools_list_response_sent = false;
        self.collected_servers.clear();
        self.tools.clear();
        self.tool_service_map.clear();
        assert(self@ == reconnected(old(self)@, now));
        let request = make_reinitialize_request();
        self.initialize(&request, now)
    }

    /// Whether the pause before re-opening a failed transport can be
    /// computed for the next attempt.
    pub fn transport_backoff_fits(&self) -> (b: bool)
        ensures
            b == (self.reconnect_attempt < self.connection_config.max_reconnect_attempts
                ==> backoff_fits(
                self.connection_config.reconnect_interval,
                (self.reconnect_attempt + 1) as nat,
            )),
    {
        if self.reconnect_attempt >= self.connection_config.max_reconnect_attempts {
            return true;
        }
        let attempt = self.reconnect_attempt + 1;
        if attempt >= 64 {
            return false;
        }
        let p = two_to(attempt);
        match self.connection_config.reconnect_interval.checked_mul(p) {
            Some(_) => true,
            None => false,
        }
    }

    /// Starts re-opening a single failed client transport: gives the pause
    /// to wait, or `None` once the attempts are used up.
    pub fn begin_transport_reconnect(&mut self) -> (r: Option<u64>)
        requires
            old(self).wf(),
            old(self).reconnect_attempt < old(self).connection_config.max_reconnect_attempts
                ==> backoff_fits(
                old(self).connection_config.reconnect_interval,
                (old(self).reconnect_attempt + 1) as nat,
            ),
        ensures
            final(self).wf(),
            final(self).config == old(self).config,
            final(self)@ == begin_reconnect_effect(old(self)@).0,
            !begin_reconnect_effect(old(self)@).1 ==> r is None,
            begin_reconnect_effect(old(self)@).1 ==> r == Some(
                backoff(
                    old(self).connection_config.reconnect_interval,
                    (old(self).reconnect_attempt + 1) as nat,
                ) as u64,
            ),
    {
        if self.reconnect_attempt >= self.connection_config.max_reconnect_attempts {
            return None;
        }
        self.reconnect_attempt = self.reconnect_attempt + 1;
        let p = two_to(self.reconnect_attempt);
        let interval = self.connection_config.reconnect_interval;
        assert(interval * p <= u64::MAX);
        Some(interval * p)
    }

    /// Reports whether the failed transport re-opened; success resets the
    /// attempt count.
    pub fn transport_reconnect_result(&mut self, ok: bool)
        requires
            old(self).wf(),
        ensures
            final(self).wf(),
            final(self).config == old(self).config,
            ok ==> final(self)@ == (BridgeV { reconnect_attempt: 0, ..old(self)@ }),
            !ok ==> final(self)@ == old(self)@,
    {
        if ok {
            self.reconnect_attempt = 0;
        }
    }

    /// Records that a server started; `has_stdin` where it is spoken to over
    /// its standard input.
    pub fn register_server(&mut self, name: String, has_stdin: bool)
        requires
            old(self).wf(),
        ensures
            final(self).wf(),
            final(self).config == old(self).config,
            final(self)@ == (BridgeV {
                active_servers: old(self)@.active_servers.insert(name@),
                stdin_servers: if has_stdin && !old(self).stdin_servers@.contains(name@) {
                    old(self)@.stdin_servers.push(name@)
                } else {
                    old(self)@.stdin_servers
                },
                ..old(self)@
            }),
    {
        if has_stdin {
            self.stdin_servers.insert(name.clone());
        }
        self.active_servers.insert(name);
    }

    /// Where a message for the server `server_name` goes.
    pub fn route(&self, server_name: &str) -> (r: Route)
        requires
            self.wf(),
        ensures
            r == route_of(self@, self.stdin_servers@, self.config.servers@, server_name@),
    {
        if self.stdin_servers.contains(server_name) {
            return Route::Stdin;
        }
        if self.active_servers.contains(server_name) {
            match self.config.servers.get(server_name) {
                Some(ServerConfig::Sse { .. }) => return Route::Remote,
                _ => {},
            }
        }
        Route::Unknown
    }

    /// Fails where no server started.
    pub fn check_active_servers(&self) -> (r: Result<(), BridgeError>)
        requires
            self.wf(),
        ensures
            match r {
                Ok(()) => self@.active_servers.len() > 0,
                Err(e) => e is NoActiveServers && self@.active_servers.len() == 0,
            },
    {
        if self.active_servers.is_empty() {
            Err(BridgeError::NoActiveServers)
        } else {
            Ok(())
        }
    }

    /// Records that the client transports are open.
    pub fn mark_connected(&mut self, now: u64)
        ensures
            final(self).config == old(self).config,
            final(self)@ == (BridgeV { is_connected: true, last_activity: now, ..old(self)@ }),
    {
        self.is_connected = true;
        self.last_activity = now;
    }

    /// Records that a message went out to the client, at the time `now` read
    /// after sending it: sending counts as activity.
    pub fn sent_to_client(&mut self, now: u64)
        ensures
            final(self).config == old(self).config,
            final(self).wf() == old(self).wf(),
            final(self)@ == (BridgeV { last_activity: now, ..old(self)@ }),
    {
        self.last_activity = now;
    }

    /// Records that a ping went out, at the time `now` read after sending
    /// it.
    pub fn ping_sent(&mut self, now: u64)
        ensures
            final(self).config == old(self).config,
            final(self).wf() == old(self).wf(),
            final(self)@ == (BridgeV { last_ping_sent: now, ..old(self)@ }),
    {
        self.last_ping_sent = now;
    }

    /// The period of the ping timer: half the heartbeat interval.
    pub fn ping_interval(&self) -> (r: u64)
        ensures
            r == self.connection_config.heartbeat_interval / 2,
    {
        self.connection_config.heartbeat_interval / 2
    }

    /// The end of a round of the event loop.
    pub fn after_event(&mut self, now: u64) -> (actions: Vec<Action>)
        requires
            old(self).wf(),
        ensures
            final(self).wf(),
            final(self).config == old(self).config,
            (final(self)@, actions_view(actions@)) == after_event_effect(old(self)@, now),
    {
        if !self.tools_collected && self.collected_servers.len() == self.active_servers.len() {
            self.tools_collected = true;
            if self.tools_list_response_sent {
                return self.notify_tools_changed(now);
            } else if self.pending_tools_list_request.is_some() {
                return self.reply_tools_list(now);
            }
        }
        let actions: Vec<Action> = Vec::new();
        assert(actions_view(actions@) =~= Seq::<ActionV>::empty());
        actions
    }

    /// The partial tool list timer fired.
    pub fn partial_report(&mut self, now: u64) -> (actions: Vec<Action>)
        requires
            old(self).wf(),
        ensures
            final(self).wf(),
            final(self).config == old(self).config,
            (final(self)@, actions_view(actions@)) == partial_report_effect(
                old(self)@,
                old(self).config.servers@.dom(),
                now,
            ),
    {
        if self.tools_list_response_sent {
            let actions: Vec<Action> = Vec::new();
            assert(actions_view(actions@) =~= Seq::<ActionV>::empty());
            return actions;
        }
        let n = self.config.servers.len();
        let ghost names = self.config.servers@.dom();
        for i in 0..n
            invariant
                self.wf(),
                self.config == old(self).config,
                n == self.config.servers.entries().len(),
                self@ == (BridgeV { collected_servers: self@.collected_servers, ..old(self)@ }),
                self@.collected_servers == old(self)@.collected_servers.union(
                    Set::new(
                        |k: Seq<char>|
                            exists|j: int|
                                0 <= j < i && #[trigger] self.config.servers.entries()[j].0 == k,
                    ),
                ),
        {
            let name = self.config.servers.key_at(i);
            if !self.collected_servers.contains(name.as_str()) {
                self.collected_servers.insert(name.clone());
            }
            assert(self@.collected_servers =~= old(self)@.collected_servers.union(
                Set::new(
                    |k: Seq<char>|
                        exists|j: int|
                            0 <= j < i + 1 && #[trigger] self.config.servers.entries()[j].0 == k,
                ),
            ));
        }
        proof {
            assert forall|k: Seq<char>| names.contains(k) implies exists|j: int|
                0 <= j < n && #[trigger] self.config.servers.entries()[j].0 == k by {
                self.config.servers.lemma_contains(k);
            }
            assert forall|j: int| 0 <= j < n implies names.contains(
                #[trigger] self.config.servers.entries()[j].0,
            ) by {
                self.config.servers.lemma_position(j);
            }
            assert(self@.collected_servers =~= old(self)@.collected_servers.union(names));
        }
        if self.pending_tools_list_request.is_some() && !self.tools.is_empty() {
            self.reply_tools_list(now)
        } else {
            let actions: Vec<Action> = Vec::new();
            assert(actions_view(actions@) =~= Seq::<ActionV>::empty());
            actions
        }
    }

    /// Handles one event of the event loop (before [`Bridge::after_event`]).
    /// A message from the client and a server's output count as activity.
    pub fn step(&mut self, event: Event, now: u64) -> (r: Result<Vec<Action>, BridgeError>)
        requires
            old(self).wf(),
            event matches Event::Message(m) ==> message_well_formed(m@),
        ensures
            final(self).wf(),
            final(self).config == old(self).config,
            match event {
                Event::Message(m) => r matches Ok(actions) && (
                    final(self)@,
                    actions_view(actions@),
                ) == message_effect(BridgeV { last_activity: now, ..old(self)@ }, m@, now),
                Event::ProcessOutput(server, out) => r matches Ok(actions) && (
                    final(self)@,
                    actions_view(actions@),
                ) == process_output_effect(
                    BridgeV { last_activity: now, ..old(self)@ },
                    server@,
                    text_message(out@),
                    now,
                ),
                Event::PingTick(timestamp) => r matches Ok(actions) && (
                    final(self)@,
                    actions_view(actions@),
                ) == send_ping_effect(old(self)@, now, timestamp as nat),
                Event::HeartbeatCheck => if !timed_out(old(self)@, now) {
                    r matches Ok(actions) && actions@.len() == 0 && final(self)@ == old(self)@
                } else if old(self).reconnect_attempt
                    >= old(self).connection_config.max_reconnect_attempts {
                    r matches Err(e) && e is MaxReconnectAttempts && final(self)@ == old(self)@
                } else {
                    &&& r matches Ok(actions) && actions_view(actions@) == seq![
                        ActionV::Reconnect(old(self).connection_config.reconnect_interval),
                    ]
                    &&& final(self)@ == (BridgeV {
                        reconnect_attempt: (old(self).reconnect_attempt + 1) as u32,
                        ..old(self)@
                    })
                },
                Event::PartialReportTimeout => r matches Ok(actions) && (
                    final(self)@,
                    actions_view(actions@),
                ) == partial_report_effect(old(self)@, old(self).config.servers@.dom(), now),
            },
    {
        match event {
            Event::Message(msg) => {
                self.last_activity = now;
                Ok(self.handle_message(msg, now))
            },
            Event::ProcessOutput(server, output) => {
                self.last_activity = now;
                Ok(self.handle_process_output(server.as_str(), output.as_str(), now))
            },
            Event::PingTick(timestamp) => Ok(self.send_ping(now, timestamp)),
            Event::HeartbeatCheck => {
                if self.heartbeat_timed_out(now) {
                    let delay = self.begin_reconnect()?;
                    let actions = vec![Action::Reconnect(delay)];
                    assert(actions_view(actions@) =~= seq![ActionV::Reconnect(delay)]);
                    Ok(actions)
                } else {
                    Ok(Vec::new())
                }
            },
            Event::PartialReportTimeout => Ok(self.partial_report(now)),
        }
    }

    /// The message to send for the outgoing text `msg`: nothing where only
    /// white space is left after trimming, else what the trimmed text carries
    /// (see [`Bridge::message_value`]). Sending counts as activity.
    pub fn broadcast_message(&mut self, msg: &str, now: u64) -> (r: Option<Json>)
        ensures
            final(self).config == old(self).config,
            trim(msg@).len() == 0 ==> r is None && final(self)@ == old(self)@,
            trim(msg@).len() > 0 ==> (r matches Some(j) && j@ == text_message(trim(msg@))),
            trim(msg@).len() > 0 ==> final(self)@ == (BridgeV { last_activity: now, ..old(self)@ }),
    {
        let t = trim_str(msg);
        if t.is_empty() {
            return None;
        }
        self.last_activity = now;
        Some(Self::message_value(t))
    }

    /// The message that the text `text` carries: the JSON value written in
    /// it, or the text itself as a JSON string where it is not JSON.
    pub fn message_value(text: &str) -> (r: Json)
        ensures
            r@ == text_message(text@),
    {
        match parse_json(text) {
            Some(j) => j,
            None => Json::Str(text.to_owned()),
        }
    }


    /// Whether the bridge can handle `msg` as it stands: a tool call whose
    /// `params` is an object must name the tool and give its arguments.
    pub fn is_well_formed_message(msg: &Json) -> (b: bool)
        ensures
            b == message_well_formed(msg@),
    {
        let is_call = match msg.get("method") {
            Some(m) => match m.as_str() {
                Some(name) => crate::text::str_eq(name.as_str(), "tools/call"),
                None => false,
            },
            None => false,
        };
        if !is_call {
            return true;
        }
        match msg.get("params") {
            Some(params) => if params.is_object() {
                params.get("name").is_some() && params.get("arguments").is_some()
            } else {
                true
            },
            None => true,
        }
    }
}

/// `2` to the power `n`.
fn two_to(n: u32) -> (p: u64)
    requires
        n < 64,
    ensures
        p == pow2(n as nat),
{
    let mut p: u64 = 1;
    let mut i: u32 = 0;
    proof {
        lemma2_to64();
    }
    while i < n
        invariant
            i <= n < 64,
            p == pow2(i as nat),
        decreases n - i,
    {
        proof {
            lemma_pow2_unfold((i + 1) as nat);
            lemma2_to64();
            lemma_pow2_strictly_increases((i + 1) as nat, 64);
        }
        p = p * 2;
        i = i + 1;
    }
    p
}

} // verus!
