//! Resource management: the registry of readable, URI-addressed content.

pub mod resource_handler;

pub use resource_handler::ResourceRegistry;
