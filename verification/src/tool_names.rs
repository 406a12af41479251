//! Names under which the bridge offers the tools of its servers.

use vstd::prelude::*;
use crate::bridge::Bridge;
use crate::text::{concat, dash_to_underscore, replace_dash_with_underscore};

verus! {

/// The name a server's tool is offered under: the server's name with each
/// `'-'` made `'_'`, then `_xzcli_`, then the tool's own name.
pub open spec fn prefixed_tool_name(server: Seq<char>, tool: Seq<char>) -> Seq<char> {
    dash_to_underscore(server) + "_xzcli_"@ + tool
}

/// Computes [`prefixed_tool_name`].
pub fn prefixed_name(server_name: &str, tool_name: &str) -> (r: String)
    ensures
        r@ == prefixed_tool_name(server_name@, tool_name@),
{
    let normalized = replace_dash_with_underscore(server_name);
    let head = concat(normalized.as_str(), "_xzcli_");
    concat(head.as_str(), tool_name)
}

/// The name under which `bridge` offers the tool `tool_name` of the server
/// `server_name`.
pub fn generate_prefixed_tool_name(_bridge: &Bridge, server_name: &str, tool_name: &str) -> (r:
    String)
    ensures
        r@ == prefixed_tool_name(server_name@, tool_name@),
{
    prefixed_name(server_name, tool_name)
}

/// The server and original name of the tool offered as `prefixed_tool_name`,
/// where the bridge has collected it.
pub fn get_original_tool_name(bridge: &Bridge, prefixed_tool_name: &str) -> (r: Option<
    (String, String),
>)
    requires
        bridge.tool_service_map.wf(),
    ensures
        match r {
            Some(p) => bridge.tool_service_map@.dom().contains(prefixed_tool_name@)
                && bridge.tool_service_map@[prefixed_tool_name@] == (p.0@, p.1@),
            None => !bridge.tool_service_map@.dom().contains(prefixed_tool_name@),
        },
{
    match bridge.tool_service_map.get(prefixed_tool_name) {
        Some(p) => Some((p.0.clone(), p.1.clone())),
        None => None,
    }
}

/// For one server, different tools are offered under different names.
pub proof fn lemma_prefixed_name_injective(server: Seq<char>, t1: Seq<char>, t2: Seq<char>)
    requires
        prefixed_tool_name(server, t1) == prefixed_tool_name(server, t2),
    ensures
        t1 == t2,
{
    let head = dash_to_underscore(server) + "_xzcli_"@;
    assert(prefixed_tool_name(server, t1) == head + t1);
    assert(prefixed_tool_name(server, t2) == head + t2);
    assert(t1 =~= (head + t1).subrange(head.len() as int, (head + t1).len() as int));
    assert(t2 =~= (head + t2).subrange(head.len() as int, (head + t2).len() as int));
}

/// The server part of an offered name holds no `'-'`.
pub proof fn lemma_server_part_has_no_dash(server: Seq<char>)
    ensures
        forall|i: int| 0 <= i < server.len() ==> dash_to_underscore(server)[i] != '-',
        dash_to_underscore(server).len() == server.len(),
{
}

} // verus!
