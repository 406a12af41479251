//! How the client transports describe themselves, and what their receiving
//! side does with each thing that arrives.

use vstd::prelude::*;
use crate::json::Json;
use crate::json_text::{json_parse, json_parse_bytes, parse_json, parse_json_bytes};
use crate::text::{concat, decimal, decimal_string};

verus! {

/// What the WebSocket connection delivered.
#[derive(Debug, PartialEq)]
pub enum Frame {
    /// A text frame.
    Text(String),
    Binary,
    Ping,
    Pong,
    /// The peer closed the connection.
    Close,
    /// Reading from the connection failed.
    Failed,
    /// A raw frame.
    Other,
}

/// What an MQTT event loop delivered.
#[derive(Debug, PartialEq)]
pub enum MqttEvent {
    /// A published message, with its payload.
    Publish(Vec<u8>),
    /// Any other event of the connection.
    Other,
    /// Polling the connection failed.
    Failed,
}

/// What the receiving side of a transport does next.
#[derive(Debug, PartialEq)]
pub enum ReceiveStep {
    /// Pass the message on to the bridge and keep reading.
    Forward(Json),
    /// Keep reading.
    Ignore,
    /// Stop reading.
    Stop,
}

/// The receiving side of the WebSocket transport passes on the JSON value
/// of each text frame that holds JSON, stops when the connection is closed or
/// fails, and ignores everything else.
pub fn websocket_receive_step(frame: Frame) -> (r: ReceiveStep)
    ensures
        match frame {
            Frame::Text(t) => match json_parse(t@) {
                Some(v) => r matches ReceiveStep::Forward(j) && j@ == v,
                None => r is Ignore,
            },
            Frame::Close | Frame::Failed => r is Stop,
            _ => r is Ignore,
        },
{
    match frame {
        Frame::Text(t) => match parse_json(t.as_str()) {
            Some(j) => ReceiveStep::Forward(j),
            None => ReceiveStep::Ignore,
        },
        Frame::Close | Frame::Failed => ReceiveStep::Stop,
        _ => ReceiveStep::Ignore,
    }
}

/// The receiving side of the MQTT transport passes on the JSON value of
/// each published message whose payload is JSON, stops when polling fails,
/// and ignores everything else.
pub fn mqtt_receive_step(event: MqttEvent) -> (r: ReceiveStep)
    ensures
        match event {
            MqttEvent::Publish(p) => match json_parse_bytes(p@) {
                Some(v) => r matches ReceiveStep::Forward(j) && j@ == v,
                None => r is Ignore,
            },
            MqttEvent::Failed => r is Stop,
            _ => r is Ignore,
        },
{
    match event {
        MqttEvent::Publish(p) => match parse_json_bytes(p.as_slice()) {
            Some(j) => ReceiveStep::Forward(j),
            None => ReceiveStep::Ignore,
        },
        MqttEvent::Failed => ReceiveStep::Stop,
        _ => ReceiveStep::Ignore,
    }
}

/// The description of an MQTT transport: broker and port.
pub open spec fn mqtt_label(broker: Seq<char>, port: nat) -> Seq<char> {
    "MqttTransport("@ + broker + ":"@ + decimal(port) + ")"@
}

/// The description of a WebSocket transport: its endpoint.
pub open spec fn websocket_label(endpoint: Seq<char>) -> Seq<char> {
    "WebSocketTransport("@ + endpoint + ")"@
}

/// Describes an MQTT transport.
pub fn mqtt_transport_label(broker: &str, port: u16) -> (r: String)
    ensures
        r@ == mqtt_label(broker@, port as nat),
{
    let a = concat("MqttTransport(", broker);
    let b = concat(a.as_str(), ":");
    let digits = decimal_string(port as u128);
    let c = concat(b.as_str(), digits.as_str());
    concat(c.as_str(), ")")
}

/// Describes a WebSocket transport.
pub fn websocket_transport_label(endpoint: &str) -> (r: String)
    ensures
        r@ == websocket_label(endpoint@),
{
    let a = concat("WebSocketTransport(", endpoint);
    concat(a.as_str(), ")")
}

/// The indices in `idx` whose flag in `flags` is `want`, in order.
pub open spec fn picked(idx: Seq<usize>, flags: Seq<bool>, want: bool) -> Seq<usize>
    decreases idx.len(),
{
    if idx.len() == 0 {
        Seq::empty()
    } else {
        let n = idx.len() - 1;
        let rest = picked(idx.take(n), flags.take(n), want);
        if flags[n] == want {
            rest.push(idx[n])
        } else {
            rest
        }
    }
}

/// The indices in `idx` whose flag in `flags` is `want`, in order.
fn pick(idx: &Vec<usize>, flags: &Vec<bool>, want: bool) -> (r: Vec<usize>)
    requires
        idx.len() == flags.len(),
    ensures
        r@ == picked(idx@, flags@, want),
{
    let mut r: Vec<usize> = Vec::new();
    let mut i: usize = 0;
    while i < idx.len()
        invariant
            idx.len() == flags.len(),
            i <= idx.len(),
            r@ == picked(idx@.take(i as int), flags@.take(i as int), want),
        decreases idx.len() - i,
    {
        assert(idx@.take(i + 1).take(i as int) =~= idx@.take(i as int));
        assert(flags@.take(i + 1).take(i as int) =~= flags@.take(i as int));
        if flags[i] == want {
            r.push(idx[i]);
        }
        i = i + 1;
    }
    assert(idx@.take(idx.len() as int) =~= idx@);
    assert(flags@.take(flags.len() as int) =~= flags@);
    r
}

/// The positions `0, 1, ..., n - 1`.
pub open spec fn positions(n: nat) -> Seq<usize> {
    Seq::new(n, |i: int| i as usize)
}

/// The client transports a message goes to: those that are connected, by
/// position, in order.
pub fn send_targets(connected: &Vec<bool>) -> (r: Vec<usize>)
    ensures
        r@ == picked(positions(connected.len() as nat), connected@, true),
{
    let mut idx: Vec<usize> = Vec::new();
    let mut i: usize = 0;
    while i < connected.len()
        invariant
            i <= connected.len(),
            idx@ == positions(i as nat),
        decreases connected.len() - i,
    {
        idx.push(i);
        i = i + 1;
        assert(idx@ =~= positions(i as nat));
    }
    pick(&idx, connected, true)
}

/// The transports to re-open after a send: those among `targets` whose send
/// did not go through (`delivered` holds, for each target, whether it did),
/// in order.
pub fn failed_transports(targets: &Vec<usize>, delivered: &Vec<bool>) -> (r: Vec<usize>)
    requires
        targets.len() == delivered.len(),
    ensures
        r@ == picked(targets@, delivered@, false),
{
    pick(targets, delivered, false)
}

} // verus!
