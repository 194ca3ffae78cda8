//! Tool management: the closed set of built-in tools and their registry.

pub mod builtin_tools;
pub mod tool_handler;

pub use tool_handler::ToolRegistry;
