//! A host for the Model Context Protocol.
//!
//! Clients send requests, each naming a method; the host answers from two
//! registries, of tools and of resources, which a management shell fills.
//! This library holds the registries, the dispatcher, the connection set and
//! the decisions of a session's reader and of the accept loop, each with its
//! contract. Sockets, tasks and the wire format are the caller's part.

pub mod connections;
pub mod control;
pub mod dispatch;
pub mod host;
pub mod json;
pub mod protocol;
pub mod registry;
pub mod server;
pub mod session;
pub mod text;

pub use crate::host::McpHost;
pub use crate::protocol::{McpError, McpNotification, McpRequest, McpResponse};
