//! Wire shapes: the exact JSON text of every result body and of the JSON-RPC
//! response envelopes.
//!
//! Each `spec` function here gives the full character sequence of one
//! fragment, and each writer is proved to append exactly that sequence.

use vstd::prelude::*;
use vstd::string::StringExecFns;

use crate::json_text::dec_str;
use crate::json_text::json_quoted;
use crate::json_text::write_json_string;
use crate::json_text::write_u64;
use crate::models::CallToolResultV;
use crate::models::Content;
use crate::models::ContentV;
use crate::models::Property;
use crate::models::PropertyV;
use crate::models::Resource;
use crate::models::ResourceV;
use crate::models::SchemaV;
use crate::models::Tool;
use crate::models::ToolInputSchema;
use crate::models::ToolV;

verus! {

/// One `"name":{"type":...,"description":...}` entry of a properties object.
pub open spec fn property_entry_json(name: Seq<char>, p: PropertyV) -> Seq<char> {
    json_quoted(name) + ":{\"type\":"@ + json_quoted(p.type_) + ",\"description\":"@
        + json_quoted(p.description) + "}"@
}

/// The comma-joined entries of a properties object.
pub open spec fn properties_json(ps: Seq<(Seq<char>, PropertyV)>) -> Seq<char>
    decreases ps.len(),
{
    if ps.len() == 0 {
        Seq::empty()
    } else if ps.len() == 1 {
        property_entry_json(ps[0].0, ps[0].1)
    } else {
        properties_json(ps.drop_last()) + ","@ + property_entry_json(ps.last().0, ps.last().1)
    }
}

/// The comma-joined elements of an array of JSON strings.
pub open spec fn strings_json(ss: Seq<Seq<char>>) -> Seq<char>
    decreases ss.len(),
{
    if ss.len() == 0 {
        Seq::empty()
    } else if ss.len() == 1 {
        json_quoted(ss[0])
    } else {
        strings_json(ss.drop_last()) + ","@ + json_quoted(ss.last())
    }
}

/// A tool input schema as a JSON object.
pub open spec fn schema_json(s: SchemaV) -> Seq<char> {
    "{\"type\":"@ + json_quoted(s.type_) + ",\"properties\":{"@ + properties_json(s.properties)
        + "},\"required\":["@ + strings_json(s.required) + "]}"@
}

/// A tool's metadata as a JSON object.
pub open spec fn tool_json(t: ToolV) -> Seq<char> {
    "{\"name\":"@ + json_quoted(t.name) + ",\"description\":"@ + json_quoted(t.description)
        + ",\"inputSchema\":"@ + schema_json(t.input_schema) + "}"@
}

/// The comma-joined elements of a tools array.
pub open spec fn tools_json(ts: Seq<ToolV>) -> Seq<char>
    decreases ts.len(),
{
    if ts.len() == 0 {
        Seq::empty()
    } else if ts.len() == 1 {
        tool_json(ts[0])
    } else {
        tools_json(ts.drop_last()) + ","@ + tool_json(ts.last())
    }
}

/// The `tools/list` result body.
pub open spec fn list_tools_result_json(ts: Seq<ToolV>) -> Seq<char> {
    "{\"tools\":["@ + tools_json(ts) + "]}"@
}

/// A content item as a JSON object.
pub open spec fn content_json(c: ContentV) -> Seq<char> {
    "{\"type\":"@ + json_quoted(c.type_) + ",\"text\":"@ + json_quoted(c.text) + "}"@
}

/// The comma-joined elements of a content array.
pub open spec fn contents_json(cs: Seq<ContentV>) -> Seq<char>
    decreases cs.len(),
{
    if cs.len() == 0 {
        Seq::empty()
    } else if cs.len() == 1 {
        content_json(cs[0])
    } else {
        contents_json(cs.drop_last()) + ","@ + content_json(cs.last())
    }
}

/// The `tools/call` result body.
pub open spec fn call_result_json(r: CallToolResultV) -> Seq<char> {
    "{\"content\":["@ + contents_json(r.content) + "]}"@
}

/// The `resources/read` result body.
pub open spec fn read_result_json(cs: Seq<ContentV>) -> Seq<char> {
    "{\"contents\":["@ + contents_json(cs) + "]}"@
}

/// A resource's metadata as a JSON object.
pub open spec fn resource_json(r: ResourceV) -> Seq<char> {
    "{\"uri\":"@ + json_quoted(r.uri) + ",\"mimeType\":"@ + json_quoted(r.mime_type) + "}"@
}

/// The comma-joined elements of a resources array.
pub open spec fn resources_json(rs: Seq<ResourceV>) -> Seq<char>
    decreases rs.len(),
{
    if rs.len() == 0 {
        Seq::empty()
    } else if rs.len() == 1 {
        resource_json(rs[0])
    } else {
        resources_json(rs.drop_last()) + ","@ + resource_json(rs.last())
    }
}

/// The `resources/list` result body.
pub open spec fn list_resources_result_json(rs: Seq<ResourceV>) -> Seq<char> {
    "{\"resources\":["@ + resources_json(rs) + "]}"@
}

/// The `id` field of a response: the echoed number, or `null`.
pub open spec fn id_json(id: Option<u64>) -> Seq<char> {
    match id {
        Some(n) => dec_str(n as nat),
        None => "null"@,
    }
}

/// A whole success envelope around a result body.
pub open spec fn ok_envelope(result: Seq<char>, id: Option<u64>) -> Seq<char> {
    "{\"jsonrpc\":\"2.0\",\"result\":"@ + result + ",\"id\":"@ + id_json(id) + "}"@
}

/// A whole error envelope around a code and a message.
pub open spec fn err_envelope(code: Seq<char>, message: Seq<char>, id: Option<u64>) -> Seq<char> {
    "{\"jsonrpc\":\"2.0\",\"error\":{\"code\":"@ + code + ",\"message\":"@ + json_quoted(message)
        + "},\"id\":"@ + id_json(id) + "}"@
}

/// The response text is one of the two envelope shapes.
pub open spec fn valid_response(s: Seq<char>) -> bool {
    (exists|result: Seq<char>, id: Option<u64>| s == ok_envelope(result, id)) || (exists|
        code: Seq<char>,
        message: Seq<char>,
        id: Option<u64>,
    |
        s == err_envelope(code, message, id))
}

fn write_property_entry(out: &mut String, name: &str, p: &Property)
    ensures
        final(out)@ == old(out)@ + property_entry_json(name@, p@),
{
    write_json_string(out, name);
    out.append(":{\"type\":");
    write_json_string(out, p.type_.as_str());
    out.append(",\"description\":");
    write_json_string(out, p.description.as_str());
    out.append("}");
    proof {
        assert(final(out)@ =~= old(out)@ + property_entry_json(name@, p@));
    }
}

fn write_properties(out: &mut String, ps: &Vec<(String, Property)>)
    ensures
        final(out)@ == old(out)@ + properties_json(
            ps@.map_values(|p: (String, Property)| (p.0@, p.1@)),
        ),
{
    let ghost start: Seq<char> = out@;
    let ghost vs: Seq<(Seq<char>, PropertyV)> = ps@.map_values(
        |p: (String, Property)| (p.0@, p.1@),
    );
    let n = ps.len();
    let mut i: usize = 0;
    while i < n
        invariant
            n == ps.len(),
            i <= n,
            vs == ps@.map_values(|p: (String, Property)| (p.0@, p.1@)),
            out@ == start + properties_json(vs.take(i as int)),
        decreases n - i,
    {
        if i > 0 {
            out.append(",");
        }
        write_property_entry(out, ps[i].0.as_str(), &ps[i].1);
        proof {
            assert(vs.take(i + 1).drop_last() =~= vs.take(i as int));
            assert(vs.take(i + 1).last() == vs[i as int]);
            assert(out@ =~= start + properties_json(vs.take(i + 1)));
        }
        i += 1;
    }
    proof {
        assert(vs.take(n as int) =~= vs);
    }
}

fn write_strings(out: &mut String, ss: &Vec<String>)
    ensures
        final(out)@ == old(out)@ + strings_json(ss@.map_values(|s: String| s@)),
{
    let ghost start: Seq<char> = out@;
    let ghost vs: Seq<Seq<char>> = ss@.map_values(|s: String| s@);
    let n = ss.len();
    let mut i: usize = 0;
    while i < n
        invariant
            n == ss.len(),
            i <= n,
            vs == ss@.map_values(|s: String| s@),
            out@ == start + strings_json(vs.take(i as int)),
        decreases n - i,
    {
        if i > 0 {
            out.append(",");
        }
        write_json_string(out, ss[i].as_str());
        proof {
            assert(vs.take(i + 1).drop_last() =~= vs.take(i as int));
            assert(vs.take(i + 1).last() == vs[i as int]);
            assert(out@ =~= start + strings_json(vs.take(i + 1)));
        }
        i += 1;
    }
    proof {
        assert(vs.take(n as int) =~= vs);
    }
}

/// Appends a tool input schema as a JSON object.
pub fn write_schema(out: &mut String, s: &ToolInputSchema)
    ensures
        final(out)@ == old(out)@ + schema_json(s@),
{
    out.append("{\"type\":");
    write_json_string(out, s.type_.as_str());
    out.append(",\"properties\":{");
    write_properties(out, &s.properties);
    out.append("},\"required\":[");
    write_strings(out, &s.required);
    out.append("]}");
    proof {
        assert(final(out)@ =~= old(out)@ + schema_json(s@));
    }
}

/// Appends a tool's metadata as a JSON object.
pub fn write_tool(out: &mut String, t: &Tool)
    ensures
        final(out)@ == old(out)@ + tool_json(t@),
{
    out.append("{\"name\":");
    write_json_string(out, t.name.as_str());
    out.append(",\"description\":");
    write_json_string(out, t.description.as_str());
    out.append(",\"inputSchema\":");
    write_schema(out, &t.input_schema);
    out.append("}");
    proof {
        assert(final(out)@ =~= old(out)@ + tool_json(t@));
    }
}

/// Renders the `tools/list` result body for the given tools.
pub fn render_list_tools_result(tools: &Vec<Tool>) -> (r: String)
    ensures
        r@ == list_tools_result_json(tools@.map_values(|t: Tool| t@)),
{
    let ghost vs: Seq<ToolV> = tools@.map_values(|t: Tool| t@);
    let mut out = String::new();
    out.append("{\"tools\":[");
    let ghost start: Seq<char> = out@;
    let n = tools.len();
    let mut i: usize = 0;
    while i < n
        invariant
            n == tools.len(),
            i <= n,
            vs == tools@.map_values(|t: Tool| t@),
            out@ == start + tools_json(vs.take(i as int)),
        decreases n - i,
    {
        if i > 0 {
            out.append(",");
        }
        write_tool(&mut out, &tools[i]);
        proof {
            assert(vs.take(i + 1).drop_last() =~= vs.take(i as int));
            assert(vs.take(i + 1).last() == vs[i as int]);
            assert(out@ =~= start + tools_json(vs.take(i + 1)));
        }
        i += 1;
    }
    out.append("]}");
    proof {
        assert(vs.take(n as int) =~= vs);
        assert(out@ =~= list_tools_result_json(vs));
    }
    out
}

/// Appends a content item as a JSON object.
pub fn write_content(out: &mut String, c: &Content)
    ensures
        final(out)@ == old(out)@ + content_json(c@),
{
    out.append("{\"type\":");
    write_json_string(out, c.type_.as_str());
    out.append(",\"text\":");
    write_json_string(out, c.text.as_str());
    out.append("}");
    proof {
        assert(final(out)@ =~= old(out)@ + content_json(c@));
    }
}

fn write_contents(out: &mut String, cs: &Vec<Content>)
    ensures
        final(out)@ == old(out)@ + contents_json(cs@.map_values(|c: Content| c@)),
{
    let ghost start: Seq<char> = out@;
    let ghost vs: Seq<ContentV> = cs@.map_values(|c: Content| c@);
    let n = cs.len();
    let mut i: usize = 0;
    while i < n
        invariant
            n == cs.len(),
            i <= n,
            vs == cs@.map_values(|c: Content| c@),
            out@ == start + contents_json(vs.take(i as int)),
        decreases n - i,
    {
        if i > 0 {
            out.append(",");
        }
        write_content(out, &cs[i]);
        proof {
            assert(vs.take(i + 1).drop_last() =~= vs.take(i as int));
            assert(vs.take(i + 1).last() == vs[i as int]);
            assert(out@ =~= start + contents_json(vs.take(i + 1)));
        }
        i += 1;
    }
    proof {
        assert(vs.take(n as int) =~= vs);
    }
}

/// Renders the `tools/call` result body for the given contents.
pub fn render_call_result(cs: &Vec<Content>) -> (r: String)
    ensures
        r@ == call_result_json(CallToolResultV { content: cs@.map_values(|c: Content| c@) }),
{
    let mut out = String::new();
    out.append("{\"content\":[");
    write_contents(&mut out, cs);
    out.append("]}");
    proof {
        assert(out@ =~= call_result_json(
            CallToolResultV { content: cs@.map_values(|c: Content| c@) },
        ));
    }
    out
}

/// Renders the `resources/read` result body for the given contents.
pub fn render_read_result(cs: &Vec<Content>) -> (r: String)
    ensures
        r@ == read_result_json(cs@.map_values(|c: Content| c@)),
{
    let mut out = String::new();
    out.append("{\"contents\":[");
    write_contents(&mut out, cs);
    out.append("]}");
    proof {
        assert(out@ =~= read_result_json(cs@.map_values(|c: Content| c@)));
    }
    out
}

/// Appends a resource's metadata as a JSON object.
pub fn write_resource(out: &mut String, r: &Resource)
    ensures
        final(out)@ == old(out)@ + resource_json(r@),
{
    out.append("{\"uri\":");
    write_json_string(out, r.uri.as_str());
    out.append(",\"mimeType\":");
    write_json_string(out, r.mime_type.as_str());
    out.append("}");
    proof {
        assert(final(out)@ =~= old(out)@ + resource_json(r@));
    }
}

/// Renders the `resources/list` result body for the given resources.
pub fn render_list_resources_result(resources: &Vec<Resource>) -> (r: String)
    ensures
        r@ == list_resources_result_json(resources@.map_values(|x: Resource| x@)),
{
    let ghost vs: Seq<ResourceV> = resources@.map_values(|x: Resource| x@);
    let mut out = String::new();
    out.append("{\"resources\":[");
    let ghost start: Seq<char> = out@;
    let n = resources.len();
    let mut i: usize = 0;
    while i < n
        invariant
            n == resources.len(),
            i <= n,
            vs == resources@.map_values(|x: Resource| x@),
            out@ == start + resources_json(vs.take(i as int)),
        decreases n - i,
    {
        if i > 0 {
            out.append(",");
        }
        write_resource(&mut out, &resources[i]);
        proof {
            assert(vs.take(i + 1).drop_last() =~= vs.take(i as int));
            assert(vs.take(i + 1).last() == vs[i as int]);
            assert(out@ =~= start + resources_json(vs.take(i + 1)));
        }
        i += 1;
    }
    out.append("]}");
    proof {
        assert(vs.take(n as int) =~= vs);
        assert(out@ =~= list_resources_result_json(vs));
    }
    out
}

fn write_id(out: &mut String, id: Option<u64>)
    ensures
        final(out)@ == old(out)@ + id_json(id),
{
    match id {
        Some(n) => write_u64(out, n),
        None => out.append("null"),
    }
}

/// Renders a success envelope around an already rendered result body.
pub fn render_ok(result: &str, id: Option<u64>) -> (r: String)
    ensures
        r@ == ok_envelope(result@, id),
{
    let mut out = String::new();
    out.append("{\"jsonrpc\":\"2.0\",\"result\":");
    out.append(result);
    out.append(",\"id\":");
    write_id(&mut out, id);
    out.append("}");
    proof {
        assert(out@ =~= ok_envelope(result@, id));
    }
    out
}

/// Renders an error envelope; the message is escaped here, the code is
/// already JSON (a numeric literal).
pub fn render_err(code: &str, message: &str, id: Option<u64>) -> (r: String)
    ensures
        r@ == err_envelope(code@, message@, id),
{
    let mut out = String::new();
    out.append("{\"jsonrpc\":\"2.0\",\"error\":{\"code\":");
    out.append(code);
    out.append(",\"message\":");
    write_json_string(&mut out, message);
    out.append("},\"id\":");
    write_id(&mut out, id);
    out.append("}");
    proof {
        assert(out@ =~= err_envelope(code@, message@, id));
    }
    out
}

} // verus!
