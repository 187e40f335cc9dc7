//! The operations that the host's shell offers: the server's status, and the
//! registration of tools and resources.

use crate::host::McpHost;
use crate::json::document;
use serde_json::Value;
use vstd::prelude::*;
use vstd::string::*;

verus! {

/// The address on which the shell starts the server.
pub const SERVER_ADDRESS: &'static str = "127.0.0.1:8888";

/// The words that acknowledge the registration of the tool `name`.
pub open spec fn tool_acknowledgement(name: Seq<char>) -> Seq<char> {
    "Tool '"@ + name + "' registered successfully"@
}

/// The words that acknowledge the registration of the resource `name`.
pub open spec fn resource_acknowledgement(name: Seq<char>) -> Seq<char> {
    "Resource '"@ + name + "' registered successfully"@
}

/// The status of the server, in words.
pub fn get_server_status() -> (status: Result<String, String>)
    ensures
        status is Ok,
        status->Ok_0@ == "MCP Server running on 127.0.0.1:8888"@,
{
    Ok(String::from_str("MCP Server running on 127.0.0.1:8888"))
}

/// Registers the tool `tool_definition` under `tool_name` and acknowledges
/// it.
pub fn register_tool(
    host: &mut McpHost,
    tool_name: String,
    tool_definition: Value,
) -> (ack: Result<String, String>)
    ensures
        final(host)@.tools == old(host)@.tools.insert(tool_name@, document(tool_definition)),
        final(host)@.resources == old(host)@.resources,
        final(host)@.clients == old(host)@.clients,
        ack is Ok,
        ack->Ok_0@ == tool_acknowledgement(tool_name@),
{
    host.register_tool(tool_name.clone(), tool_definition);
    let text = String::from_str("Tool '").concat(tool_name.as_str()).concat(
        "' registered successfully",
    );
    Ok(text)
}

/// Registers the resource `resource_definition` under `resource_name` and
/// acknowledges it.
pub fn register_resource(
    host: &mut McpHost,
    resource_name: String,
    resource_definition: Value,
) -> (ack: Result<String, String>)
    ensures
        final(host)@.resources == old(host)@.resources.insert(
            resource_name@,
            document(resource_definition),
        ),
        final(host)@.tools == old(host)@.tools,
        final(host)@.clients == old(host)@.clients,
        ack is Ok,
        ack->Ok_0@ == resource_acknowledgement(resource_name@),
{
    host.register_resource(resource_name.clone(), resource_definition);
    let text = String::from_str("Resource '").concat(resource_name.as_str()).concat(
        "' registered successfully",
    );
    Ok(text)
}

} // verus!
