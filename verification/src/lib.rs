//! A minimal Model Context Protocol (MCP) endpoint.
//!
//! The library is the protocol core: it frames a byte stream into request
//! lines, routes JSON-RPC 2.0 requests to a tool registry and a resource
//! registry, and renders the response envelopes back to text. The TCP
//! listener and the command-line front end live outside the library and
//! only feed it bytes and write back the strings it returns.

pub mod connection;
pub mod json_text;
pub mod json_value;
pub mod models;
pub mod resources;
pub mod server;
pub mod tools;
pub mod wire;

pub use models::CallToolRequest;
pub use models::CallToolResult;
pub use models::Content;
pub use models::ListResourcesResult;
pub use models::ListToolsResult;
pub use models::McpMessage;
pub use models::Property;
pub use models::ReadResourceRequest;
pub use models::Resource;
pub use models::Tool;
pub use models::ToolError;
pub use models::ToolInputSchema;
pub use resources::ResourceRegistry;
pub use server::McpServer;
pub use tools::ToolRegistry;
