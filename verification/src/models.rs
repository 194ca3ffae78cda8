//! Data models: tools, resources, contents, and the JSON-RPC request
//! envelope, together with their mathematical views.

use vstd::prelude::*;

verus! {

/// Describes a single tool parameter.
#[derive(Debug, Clone)]
pub struct Property {
    /// Data type of the property (e.g. "string").
    pub type_: String,
    /// What this property represents.
    pub description: String,
}

/// Mathematical view of a [`Property`].
pub ghost struct PropertyV {
    pub type_: Seq<char>,
    pub description: Seq<char>,
}

impl View for Property {
    type V = PropertyV;

    open spec fn view(&self) -> PropertyV {
        PropertyV { type_: self.type_@, description: self.description@ }
    }
}

/// The input schema of a tool: a type tag, named parameters, and the set of
/// required parameter names.
#[derive(Debug, Clone)]
pub struct ToolInputSchema {
    /// Schema type, always "object" for the built-in tools.
    pub type_: String,
    /// Parameter names with their property definitions; names are unique and
    /// keep their registration order.
    pub properties: Vec<(String, Property)>,
    /// Names of the parameters a caller must supply.
    pub required: Vec<String>,
}

/// Mathematical view of a [`ToolInputSchema`].
pub ghost struct SchemaV {
    pub type_: Seq<char>,
    pub properties: Seq<(Seq<char>, PropertyV)>,
    pub required: Seq<Seq<char>>,
}

impl View for ToolInputSchema {
    type V = SchemaV;

    open spec fn view(&self) -> SchemaV {
        SchemaV {
            type_: self.type_@,
            properties: self.properties@.map_values(|p: (String, Property)| (p.0@, p.1@)),
            required: self.required@.map_values(|s: String| s@),
        }
    }
}

/// The schema declares a property under the given name.
pub open spec fn has_prop_key(s: SchemaV, name: Seq<char>) -> bool {
    exists|j: int| 0 <= j < s.properties.len() && (#[trigger] s.properties[j]).0 == name
}

/// Every required parameter name of the schema is among its property keys.
pub open spec fn schema_required_subset(s: SchemaV) -> bool {
    forall|i: int| 0 <= i < s.required.len() ==> has_prop_key(s, #[trigger] s.required[i])
}

/// The schema's property keys are unique.
pub open spec fn schema_keys_unique(s: SchemaV) -> bool {
    forall|i: int, j: int|
        0 <= i < j < s.properties.len() ==> (#[trigger] s.properties[i]).0 != (
        #[trigger] s.properties[j]).0
}

impl ToolInputSchema {
    /// Whether the schema declares a property under the given name.
    pub fn has_property(&self, name: &str) -> (r: bool)
        ensures
            r == has_prop_key(self@, name@),
    {
        let n = self.properties.len();
        let mut i: usize = 0;
        while i < n
            invariant
                n == self.properties.len(),
                i <= n,
                forall|j: int| 0 <= j < i ==> (#[trigger] self@.properties[j]).0 != name@,
            decreases n - i,
        {
            if crate::json_text::str_eq(self.properties[i].0.as_str(), name) {
                proof {
                    assert(0 <= i < self@.properties.len() && (self@.properties[i as int]).0
                        == name@);
                }
                return true;
            }
            i += 1;
        }
        false
    }

    /// Whether the schema lists the given name as required.
    pub fn requires_param(&self, name: &str) -> (r: bool)
        ensures
            r == exists|j: int|
                0 <= j < self@.required.len() && #[trigger] self@.required[j] == name@,
    {
        let n = self.required.len();
        let mut i: usize = 0;
        while i < n
            invariant
                n == self.required.len(),
                i <= n,
                forall|j: int| 0 <= j < i ==> #[trigger] self@.required[j] != name@,
            decreases n - i,
        {
            if crate::json_text::str_eq(self.required[i].as_str(), name) {
                proof {
                    assert(0 <= i < self@.required.len() && self@.required[i as int] == name@);
                }
                return true;
            }
            i += 1;
        }
        false
    }
}

/// A callable tool as reported to clients: name, description and schema.
#[derive(Debug, Clone)]
pub struct Tool {
    /// Tool name, unique within a registry.
    pub name: String,
    /// Human-readable description of the tool.
    pub description: String,
    /// Input parameter schema.
    pub input_schema: ToolInputSchema,
}

/// Mathematical view of a [`Tool`].
pub ghost struct ToolV {
    pub name: Seq<char>,
    pub description: Seq<char>,
    pub input_schema: SchemaV,
}

impl View for Tool {
    type V = ToolV;

    open spec fn view(&self) -> ToolV {
        ToolV {
            name: self.name@,
            description: self.description@,
            input_schema: self.input_schema@,
        }
    }
}

/// A typed unit of returned data; the only current kind is plain text.
#[derive(Debug, Clone)]
pub struct Content {
    /// Content kind tag, "text" for the built-in producers.
    pub type_: String,
    /// The content itself.
    pub text: String,
}

/// Mathematical view of a [`Content`].
pub ghost struct ContentV {
    pub type_: Seq<char>,
    pub text: Seq<char>,
}

impl View for Content {
    type V = ContentV;

    open spec fn view(&self) -> ContentV {
        ContentV { type_: self.type_@, text: self.text@ }
    }
}

/// A readable content source: its URI and MIME type.
#[derive(Debug, Clone)]
pub struct Resource {
    /// Unique resource identifier (e.g. "file:///path").
    pub uri: String,
    /// MIME type of the resource content.
    pub mime_type: String,
}

/// Mathematical view of a [`Resource`].
pub ghost struct ResourceV {
    pub uri: Seq<char>,
    pub mime_type: Seq<char>,
}

impl View for Resource {
    type V = ResourceV;

    open spec fn view(&self) -> ResourceV {
        ResourceV { uri: self.uri@, mime_type: self.mime_type@ }
    }
}

/// A decoded JSON-RPC 2.0 request envelope.
pub struct McpMessage {
    /// Protocol version tag as the peer sent it.
    pub jsonrpc: String,
    /// The method name to route on.
    pub method: String,
    /// The raw parameters value, absent when the request carried none.
    pub params: Option<serde_json::Value>,
    /// Correlation id; a request without one is a notification.
    pub id: Option<u64>,
}

/// Mathematical view of a [`McpMessage`]; the parameters stay the raw
/// value.
pub ghost struct McpMessageV {
    pub jsonrpc: Seq<char>,
    pub method: Seq<char>,
    pub params: Option<serde_json::Value>,
    pub id: Option<u64>,
}

impl View for McpMessage {
    type V = McpMessageV;

    open spec fn view(&self) -> McpMessageV {
        McpMessageV {
            jsonrpc: self.jsonrpc@,
            method: self.method@,
            params: self.params,
            id: self.id,
        }
    }
}

/// Decoded parameters of a `tools/call` request.
pub struct CallToolRequest {
    /// Name of the tool to invoke.
    pub name: String,
    /// Raw arguments value handed to the tool.
    pub arguments: serde_json::Value,
}

/// Decoded parameters of a `resources/read` request.
pub struct ReadResourceRequest {
    /// URI of the resource to read.
    pub uri: String,
}

/// What a successful tool call returns.
#[derive(Debug, Clone)]
pub struct CallToolResult {
    /// Content items produced by the tool.
    pub content: Vec<Content>,
}

/// Mathematical view of a [`CallToolResult`].
pub ghost struct CallToolResultV {
    pub content: Seq<ContentV>,
}

impl View for CallToolResult {
    type V = CallToolResultV;

    open spec fn view(&self) -> CallToolResultV {
        CallToolResultV { content: self.content@.map_values(|c: Content| c@) }
    }
}

/// Result of `tools/list`: all registered tools.
#[derive(Debug, Clone)]
pub struct ListToolsResult {
    /// The registered tools in registry order.
    pub tools: Vec<Tool>,
}

/// Result of `resources/list`: all registered resources.
#[derive(Debug, Clone)]
pub struct ListResourcesResult {
    /// The registered resources in registry order.
    pub resources: Vec<Resource>,
}

/// A domain failure of a tool invocation, surfaced as error -32602.
#[derive(Debug, Clone)]
pub struct ToolError {
    /// Human-readable reason, embedded in the response message.
    pub message: String,
}

/// Failure of a resource read.
#[derive(Debug, Clone, PartialEq, Eq, Structural)]
pub enum ResourceError {
    /// The URI names no registered resource.
    NotFound,
}

} // verus!
