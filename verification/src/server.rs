//! The protocol dispatcher: decodes one JSON-RPC request, routes it by
//! method name to the registries, and renders the response envelope.
//!
//! The dispatcher is a pure function of the request and the two read-only
//! registries: `spec_handle_message` gives its exact result for every
//! byte sequence, and the executable functions are proved to return it.
//! The TCP plumbing around them lives outside the library.

use vstd::prelude::*;
use vstd::string::StringExecFns;

use crate::json_text::str_eq;
use crate::json_value::get_str_field;
use crate::json_value::json_as_u64;
use crate::json_value::json_get;
use crate::json_value::json_is_null;
use crate::json_value::json_parse;
use crate::json_value::jv_get;
use crate::json_value::jv_get_str;
use crate::json_value::jv_null;
use crate::json_value::jv_parse;
use crate::json_value::jv_u64;
use crate::models::CallToolRequest;
use crate::models::ListResourcesResult;
use crate::models::ListToolsResult;
use crate::models::McpMessage;
use crate::models::McpMessageV;
use crate::models::ReadResourceRequest;
use crate::models::Resource;
use crate::models::ResourceV;
use crate::models::Tool;
use crate::models::ToolV;
use crate::resources::resource_handler::hosts_contents;
use crate::resources::ResourceRegistry;
use crate::tools::tool_handler::find_tool;
use crate::tools::tool_handler::spec_execute;
use crate::tools::tool_handler::ToolImpl;
use crate::tools::ToolRegistry;
use crate::wire::call_result_json;
use crate::wire::err_envelope;
use crate::wire::list_resources_result_json;
use crate::wire::list_tools_result_json;
use crate::wire::ok_envelope;
use crate::wire::read_result_json;
use crate::wire::render_call_result;
use crate::wire::render_err;
use crate::wire::render_list_resources_result;
use crate::wire::render_list_tools_result;
use crate::wire::render_ok;
use crate::wire::render_read_result;
use crate::wire::valid_response;

verus! {

/// The JSON-RPC code for an unknown method or tool.
pub open spec fn code_not_found() -> Seq<char> {
    "-32601"@
}

/// The JSON-RPC code for invalid parameters or an unknown resource.
pub open spec fn code_invalid_params() -> Seq<char> {
    "-32602"@
}

/// The message of an unknown-method error.
pub open spec fn method_not_found_msg() -> Seq<char> {
    "Method not found"@
}

/// The message of an unknown-tool error.
pub open spec fn tool_not_found_msg() -> Seq<char> {
    "Tool not found"@
}

/// The message of an unknown-resource error.
pub open spec fn resource_not_found_msg() -> Seq<char> {
    "Resource not found"@
}

/// The prefix of the message reporting a failed tool invocation.
pub open spec fn exec_failed_prefix() -> Seq<char> {
    "Tool execution failed: "@
}

/// The metadata of each tool, in registry order.
pub open spec fn tool_metas(ts: Seq<ToolImpl>) -> Seq<ToolV> {
    ts.map_values(|t: ToolImpl| t.spec_meta())
}

/// The view of each resource, in registry order.
pub open spec fn resource_views(rs: Seq<Resource>) -> Seq<ResourceV> {
    rs.map_values(|r: Resource| r@)
}

/// The decoded `id` field of an envelope: absent or `null` means a
/// notification (`Some(None)`), an unsigned integer is kept, anything
/// else makes the envelope malformed (`None`).
pub open spec fn spec_decode_id(v: serde_json::Value) -> Option<Option<u64>> {
    match jv_get(v, "id"@) {
        None => Some(None),
        Some(f) => if jv_null(f) {
            Some(None)
        } else {
            match jv_u64(f) {
                Some(n) => Some(Some(n)),
                None => None,
            }
        },
    }
}

/// The decoded request envelope for the given bytes: `jsonrpc` and
/// `method` must hold strings and `id` must decode; the parameters stay
/// raw. `None` where the line is no such envelope.
pub open spec fn spec_decode_message(line: Seq<u8>) -> Option<McpMessageV> {
    match jv_parse(line) {
        None => None,
        Some(v) => match jv_get_str(v, "jsonrpc"@) {
            None => None,
            Some(jsonrpc) => match jv_get_str(v, "method"@) {
                None => None,
                Some(method) => match spec_decode_id(v) {
                    None => None,
                    Some(id) => Some(
                        McpMessageV { jsonrpc, method, params: jv_get(v, "params"@), id },
                    ),
                },
            },
        },
    }
}

/// The decoded `tools/call` parameters: the tool name (a string under
/// `"name"`) and the raw value under `"arguments"`, which must be present.
pub open spec fn spec_decode_call(params: serde_json::Value) -> Option<
    (Seq<char>, serde_json::Value),
> {
    match jv_get_str(params, "name"@) {
        None => None,
        Some(name) => match jv_get(params, "arguments"@) {
            None => None,
            Some(args) => Some((name, args)),
        },
    }
}

/// The decoded `resources/read` parameters: the string under `"uri"`.
pub open spec fn spec_decode_read(params: serde_json::Value) -> Option<Seq<char>> {
    jv_get_str(params, "uri"@)
}

/// The exact `tools/call` response for the given parameters value: `None`
/// where the parameters do not decode; else the unknown-tool error when
/// the name is unregistered, and otherwise the envelope built from that
/// tool's result for the arguments.
pub open spec fn spec_call_response(
    tool_registry: &ToolRegistry,
    params: serde_json::Value,
    id: Option<u64>,
) -> Option<Seq<char>> {
    match spec_decode_call(params) {
        None => None,
        Some((name, args)) => Some(
            match find_tool(tool_registry.spec_tools(), name) {
                None => err_envelope(code_not_found(), tool_not_found_msg(), id),
                Some(i) => match spec_execute(tool_registry.spec_tools()[i], args) {
                    Ok(res) => ok_envelope(call_result_json(res), id),
                    Err(m) => err_envelope(code_invalid_params(), exec_failed_prefix() + m, id),
                },
            },
        ),
    }
}

/// The exact `resources/read` response for the given parameters value:
/// `None` where the parameters do not decode; else the fixed content when
/// the URI is registered and the unknown-resource error when it is not.
pub open spec fn spec_read_response(
    resource_registry: &ResourceRegistry,
    params: serde_json::Value,
    id: Option<u64>,
) -> Option<Seq<char>> {
    match spec_decode_read(params) {
        None => None,
        Some(uri) => Some(
            if resource_registry.spec_has_uri(uri) {
                ok_envelope(read_result_json(hosts_contents()), id)
            } else {
                err_envelope(code_invalid_params(), resource_not_found_msg(), id)
            },
        ),
    }
}

/// The exact dispatch result for one line of request bytes: `None` where
/// the envelope or the parameters of a known method do not decode (the
/// line is dropped); else the one response envelope, its id echoed from
/// the request.
pub open spec fn spec_handle_message(
    tool_registry: &ToolRegistry,
    resource_registry: &ResourceRegistry,
    message: Seq<u8>,
) -> Option<Seq<char>> {
    match spec_decode_message(message) {
        None => None,
        Some(m) => if m.method == "tools/list"@ {
            Some(
                ok_envelope(list_tools_result_json(tool_metas(tool_registry.spec_tools())), m.id),
            )
        } else if m.method == "tools/call"@ {
            match m.params {
                None => None,
                Some(p) => spec_call_response(tool_registry, p, m.id),
            }
        } else if m.method == "resources/list"@ {
            Some(
                ok_envelope(
                    list_resources_result_json(
                        resource_views(resource_registry.spec_resources()),
                    ),
                    m.id,
                ),
            )
        } else if m.method == "resources/read"@ {
            match m.params {
                None => None,
                Some(p) => spec_read_response(resource_registry, p, m.id),
            }
        } else {
            Some(err_envelope(code_not_found(), method_not_found_msg(), m.id))
        },
    }
}

/// Decodes a request envelope: exactly [`spec_decode_message`] of the
/// line.
pub fn decode_message(line: &[u8]) -> (r: Option<McpMessage>)
    ensures
        match r {
            Some(m) => spec_decode_message(line@) == Some(m@),
            None => spec_decode_message(line@) is None,
        },
{
    let v = match json_parse(line) {
        Some(v) => v,
        None => {
            return None;
        },
    };
    let jsonrpc = match get_str_field(&v, "jsonrpc") {
        Some(s) => s,
        None => {
            return None;
        },
    };
    let method = match get_str_field(&v, "method") {
        Some(s) => s,
        None => {
            return None;
        },
    };
    let id: Option<u64> = match json_get(&v, "id") {
        None => None,
        Some(f) => {
            if json_is_null(&f) {
                None
            } else {
                match json_as_u64(&f) {
                    Some(n) => Some(n),
                    None => {
                        return None;
                    },
                }
            }
        },
    };
    let params = json_get(&v, "params");
    Some(McpMessage { jsonrpc, method, params, id })
}

/// Decodes `tools/call` parameters: exactly [`spec_decode_call`] of the
/// value.
pub fn decode_call_params(params: &serde_json::Value) -> (r: Option<CallToolRequest>)
    ensures
        match r {
            Some(req) => spec_decode_call(*params) == Some((req.name@, req.arguments)),
            None => spec_decode_call(*params) is None,
        },
{
    let name = match get_str_field(params, "name") {
        Some(s) => s,
        None => {
            return None;
        },
    };
    let arguments = match json_get(params, "arguments") {
        Some(v) => v,
        None => {
            return None;
        },
    };
    Some(CallToolRequest { name, arguments })
}

/// Decodes `resources/read` parameters: exactly [`spec_decode_read`] of
/// the value.
pub fn decode_read_params(params: &serde_json::Value) -> (r: Option<ReadResourceRequest>)
    ensures
        match r {
            Some(req) => spec_decode_read(*params) == Some(req.uri@),
            None => spec_decode_read(*params) is None,
        },
{
    match get_str_field(params, "uri") {
        Some(s) => Some(ReadResourceRequest { uri: s }),
        None => None,
    }
}

/// The MCP server: the two read-only registries and the dispatch over them.
pub struct McpServer {
    /// Registry of all available tools.
    pub tool_registry: ToolRegistry,
    /// Registry of all available resources.
    pub resource_registry: ResourceRegistry,
}

impl McpServer {
    /// Creates a server holding the built-in registries.
    pub fn new() -> (s: Self)
        ensures
            s.tool_registry.spec_tools() == seq![
                ToolImpl::SearchFiles(crate::tools::builtin_tools::SearchFilesTool),
                ToolImpl::Weather(crate::tools::builtin_tools::WeatherTool),
            ],
            s.tool_registry.wf(),
            s.resource_registry.spec_resources().len() == 1,
            s.resource_registry.spec_resources()[0]@
                == crate::resources::resource_handler::hosts_resource(),
            s.resource_registry.wf(),
    {
        let tool_registry = ToolRegistry::new();
        let resource_registry = ResourceRegistry::new();
        McpServer { tool_registry, resource_registry }
    }

    /// A fresh tool registry with the same fixed contents, for a spawned
    /// connection worker.
    pub fn clone_tool_registry(&self) -> (r: ToolRegistry)
        ensures
            r.spec_tools() == seq![
                ToolImpl::SearchFiles(crate::tools::builtin_tools::SearchFilesTool),
                ToolImpl::Weather(crate::tools::builtin_tools::WeatherTool),
            ],
            r.wf(),
    {
        ToolRegistry::new()
    }

    /// A fresh resource registry with the same fixed contents, for a
    /// spawned connection worker.
    pub fn clone_resource_registry(&self) -> (r: ResourceRegistry)
        ensures
            r.spec_resources().len() == 1,
            r.spec_resources()[0]@ == crate::resources::resource_handler::hosts_resource(),
            r.wf(),
    {
        ResourceRegistry::new()
    }

    /// Answers `tools/list`: the metadata of every registered tool.
    pub fn handle_list_tools(tool_registry: &ToolRegistry, id: Option<u64>) -> (r: String)
        ensures
            r@ == ok_envelope(list_tools_result_json(tool_metas(tool_registry.spec_tools())), id),
    {
        let result = ListToolsResult { tools: tool_registry.list_tools() };
        let body = render_list_tools_result(&result.tools);
        proof {
            assert(result.tools@.map_values(|t: Tool| t@) =~= tool_metas(
                tool_registry.spec_tools(),
            ));
        }
        render_ok(body.as_str(), id)
    }

    /// Answers `resources/list`: the metadata of every registered resource.
    pub fn handle_list_resources(resource_registry: &ResourceRegistry, id: Option<u64>) -> (r:
        String)
        ensures
            r@ == ok_envelope(
                list_resources_result_json(resource_views(resource_registry.spec_resources())),
                id,
            ),
    {
        let result = ListResourcesResult { resources: resource_registry.list_resources() };
        let body = render_list_resources_result(&result.resources);
        proof {
            assert(result.resources@.map_values(|x: Resource| x@) =~= resource_views(
                resource_registry.spec_resources(),
            ));
        }
        render_ok(body.as_str(), id)
    }

    /// Answers `tools/call`: exactly [`spec_call_response`] of the
    /// parameters — a response is owed whenever they decode.
    pub fn handle_call_tool(
        tool_registry: &ToolRegistry,
        params: Option<&serde_json::Value>,
        id: Option<u64>,
    ) -> (r: Option<String>)
        ensures
            params is None ==> r is None,
            params matches Some(p) ==> match r {
                Some(resp) => spec_call_response(tool_registry, *p, id) == Some(resp@),
                None => spec_call_response(tool_registry, *p, id) is None,
            },
    {
        let p = match params {
            Some(p) => p,
            None => {
                return None;
            },
        };
        let request = match decode_call_params(p) {
            Some(r) => r,
            None => {
                return None;
            },
        };
        match tool_registry.get(request.name.as_str()) {
            Some(tool) => {
                match tool.execute(&request.arguments) {
                    Ok(result) => {
                        let body = render_call_result(&result.content);
                        Some(render_ok(body.as_str(), id))
                    },
                    Err(e) => {
                        let mut msg = String::new();
                        msg.append("Tool execution failed: ");
                        msg.append(e.message.as_str());
                        proof {
                            assert(msg@ =~= exec_failed_prefix() + e.message@);
                        }
                        Some(render_err("-32602", msg.as_str(), id))
                    },
                }
            },
            None => Some(render_err("-32601", "Tool not found", id)),
        }
    }

    /// Answers `resources/read`: exactly [`spec_read_response`] of the
    /// parameters — a response is owed whenever they decode, and success
    /// comes if and only if the URI is registered.
    pub fn handle_read_resource(
        resource_registry: &ResourceRegistry,
        params: Option<&serde_json::Value>,
        id: Option<u64>,
    ) -> (r: Option<String>)
        ensures
            params is None ==> r is None,
            params matches Some(p) ==> match r {
                Some(resp) => spec_read_response(resource_registry, *p, id) == Some(resp@),
                None => spec_read_response(resource_registry, *p, id) is None,
            },
    {
        let p = match params {
            Some(p) => p,
            None => {
                return None;
            },
        };
        let request = match decode_read_params(p) {
            Some(r) => r,
            None => {
                return None;
            },
        };
        match resource_registry.read_resource(request.uri.as_str()) {
            Ok(contents) => {
                let body = render_read_result(&contents);
                Some(render_ok(body.as_str(), id))
            },
            Err(_) => Some(render_err("-32602", "Resource not found", id)),
        }
    }

    /// Processes one JSON-RPC message: exactly [`spec_handle_message`] of
    /// the bytes. `None` means the envelope or the parameters of a known
    /// method did not decode, and no response is owed; every returned
    /// response is a well-formed envelope echoing the request's id.
    pub fn handle_message(
        message: &[u8],
        tool_registry: &ToolRegistry,
        resource_registry: &ResourceRegistry,
    ) -> (r: Option<String>)
        ensures
            match r {
                Some(resp) => spec_handle_message(tool_registry, resource_registry, message@)
                    == Some(resp@),
                None => spec_handle_message(tool_registry, resource_registry, message@) is None,
            },
            r matches Some(resp) ==> valid_response(resp@),
    {
        let msg = match decode_message(message) {
            Some(m) => m,
            None => {
                return None;
            },
        };
        let id = msg.id;
        if str_eq(msg.method.as_str(), "tools/list") {
            let resp = Self::handle_list_tools(tool_registry, id);
            proof {
                assert(valid_response(resp@));
            }
            return Some(resp);
        }
        if str_eq(msg.method.as_str(), "tools/call") {
            let params_ref: Option<&serde_json::Value> = match &msg.params {
                Some(p) => Some(p),
                None => None,
            };
            let r = Self::handle_call_tool(tool_registry, params_ref, id);
            proof {
                match &r {
                    Some(resp) => {
                        assert(valid_response(resp@));
                    },
                    None => {},
                }
            }
            return r;
        }
        if str_eq(msg.method.as_str(), "resources/list") {
            let resp = Self::handle_list_resources(resource_registry, id);
            proof {
                assert(valid_response(resp@));
            }
            return Some(resp);
        }
        if str_eq(msg.method.as_str(), "resources/read") {
            let params_ref: Option<&serde_json::Value> = match &msg.params {
                Some(p) => Some(p),
                None => None,
            };
            let r = Self::handle_read_resource(resource_registry, params_ref, id);
            proof {
                match &r {
                    Some(resp) => {
                        assert(valid_response(resp@));
                    },
                    None => {},
                }
            }
            return r;
        }
        let resp = render_err("-32601", "Method not found", id);
        proof {
            assert(valid_response(resp@));
        }
        Some(resp)
    }
}

/// The dispatcher is deterministic: its result is the one value of
/// [`spec_handle_message`] for the request bytes and the registry
/// contents. The registries are never mutated and the tools are pure, so
/// issuing the same request twice on a connection yields byte-identical
/// results.
pub proof fn lemma_dispatch_deterministic(
    tool_registry: &ToolRegistry,
    resource_registry: &ResourceRegistry,
    message: Seq<u8>,
    r1: Option<Seq<char>>,
    r2: Option<Seq<char>>,
)
    requires
        r1 == spec_handle_message(tool_registry, resource_registry, message),
        r2 == spec_handle_message(tool_registry, resource_registry, message),
    ensures
        r1 == r2,
{
}

} // verus!
