//! A remote tool server reached over server-sent events: its settings and
//! state, and how its answers are framed for the bridge.

use vstd::prelude::*;
use crate::assoc::{insert_member, lookup_member};
use crate::json::{Json, JsonV};
use crate::json_text::{json_parse, json_text, parse_json, write_message};
use crate::protocol::{make_tools_envelope, tools_envelope, version_member};
use crate::strmap::StrMap;

verus! {

/// A remote tool server: where it is, the headers every request carries,
/// the name the bridge knows it by, and whether it runs.
pub struct SseServer {
    pub url: String,
    pub headers: StrMap<String>,
    pub server_name: String,
    pub running: bool,
}

/// A remote server's answer as the bridge passes it on: an answer with a
/// result or an error keeps its form and gets the request's id where it has
/// none; anything else becomes the result of a reply under that id.
pub open spec fn sse_reply(resp: JsonV, original_id: JsonV) -> JsonV {
    if resp.get("result"@) is Some || resp.get("error"@) is Some {
        match resp {
            JsonV::Object(fs) => if lookup_member(fs, "id"@) is None {
                JsonV::Object(insert_member(fs, "id"@, original_id))
            } else {
                resp
            },
            _ => resp,
        }
    } else {
        JsonV::Object(seq![("id"@, original_id), version_member(), ("result"@, resp)])
    }
}

impl SseServer {
    /// A server that does not run yet.
    pub fn new(url: String, headers: StrMap<String>, server_name: String) -> (s: Self)
        ensures
            s.url@ == url@,
            s.headers@ == headers@,
            s.server_name@ == server_name@,
            !s.running,
    {
        SseServer { url, headers, server_name, running: false }
    }

    /// Whether the server runs.
    pub fn is_running(&self) -> (b: bool)
        ensures
            b == self.running,
    {
        self.running
    }

    /// Marks the server stopped.
    pub fn stop(&mut self)
        ensures
            !final(self).running,
            final(self).url == old(self).url,
            final(self).headers == old(self).headers,
            final(self).server_name == old(self).server_name,
    {
        if self.running {
            self.running = false;
        }
    }

    /// The server's tool list, framed as a local server's answer to the
    /// bridge's `tools/list` request.
    pub fn tools_message(&self, tools: Json) -> (r: Json)
        ensures
            r@ == tools_envelope(self.server_name@, tools@),
    {
        make_tools_envelope(self.server_name.as_str(), tools)
    }

    /// The server's tool list as the text of a local server's answer to the
    /// bridge's `tools/list` request.
    pub fn tools_message_text(&self, tools: Json) -> (r: String)
        ensures
            r@ == json_text(tools_envelope(self.server_name@, tools@)),
    {
        let msg = self.tools_message(tools);
        write_message(&msg)
    }

    /// The id of the request written in `message`: its `id` member, or
    /// `null`; nothing where the message is not JSON.
    pub fn request_id_in(message: &str) -> (r: Option<Json>)
        ensures
            match json_parse(message@) {
                Some(v) => r matches Some(id) && id@ == v.index("id"@),
                None => r is None,
            },
    {
        match parse_json(message) {
            Some(request) => Some(Self::request_id(&request)),
            None => None,
        }
    }

    /// The text of the server's answer `resp` to the request with id
    /// `original_id`, framed as [`SseServer::frame_reply`] frames it.
    pub fn reply_text(resp: Json, original_id: Json) -> (r: String)
        ensures
            r@ == json_text(sse_reply(resp@, original_id@)),
    {
        let framed = Self::frame_reply(resp, original_id);
        write_message(&framed)
    }

    /// The id of a request: its `id` member, or `null`.
    pub fn request_id(request: &Json) -> (r: Json)
        ensures
            r@ == request@.index("id"@),
    {
        request.index("id")
    }

    /// Frames the server's answer `resp` to the request with id
    /// `original_id`.
    pub fn frame_reply(resp: Json, original_id: Json) -> (r: Json)
        ensures
            r@ == sse_reply(resp@, original_id@),
    {
        if resp.get("result").is_some() || resp.get("error").is_some() {
            if resp.get("id").is_none() {
                proof {
                    reveal_strlit("id");
                }
                resp.with_member("id".to_owned(), original_id)
            } else {
                resp
            }
        } else {
            let v = vec![
                ("id".to_owned(), original_id),
                ("jsonrpc".to_owned(), Json::string("2.0")),
                ("result".to_owned(), resp),
            ];
            proof {
                crate::json::lemma_members_view(v@);
            }
            assert(crate::json::members_view(v@) =~= seq![
                (v@[0].0@, v@[0].1@),
                version_member(),
                (v@[2].0@, v@[2].1@),
            ]);
            Json::Object(v)
        }
    }
}

} // verus!
