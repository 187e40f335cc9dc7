use mcp_host::dispatch::{
    error_for, initialize_descriptor, listing, resource_read_placeholder, result_for,
    tool_call_placeholder, unknown_method,
};
use mcp_host::host::McpHost;
use mcp_host::protocol::{McpError, McpNotification, McpRequest, McpResponse, METHOD_NOT_FOUND};
use mcp_host::registry::Registry;
use serde_json::Value;

fn json(text: &str) -> Value {
    serde_json::from_str(text).unwrap()
}

fn request(id: Option<Value>, method: &str) -> McpRequest {
    McpRequest { id, method: method.to_string(), params: None }
}

fn sorted_by_text(values: &[Value]) -> Vec<String> {
    let mut texts: Vec<String> = values.iter().map(|value| value.to_string()).collect();
    texts.sort();
    texts
}

#[test]
fn initialize_names_the_server() {
    let host = McpHost::new();
    let response = host.respond(&request(Some(json("1")), "initialize"));
    let result = response.result.unwrap();
    assert_eq!(result["serverInfo"]["name"], Value::String("katulong-mcp-host".to_string()));
    assert!(response.error.is_none());
    assert_eq!(response.id, Some(json("1")));
}

#[test]
fn initialize_answers_the_whole_descriptor() {
    let host = McpHost::new();
    let response = host.respond(&request(None, "initialize"));
    let expected = json(
        r#"{
            "protocolVersion": "2024-11-05",
            "serverInfo": { "name": "katulong-mcp-host", "version": "0.1.0" },
            "capabilities": {
                "tools": { "listChanged": true },
                "resources": { "listChanged": true }
            }
        }"#,
    );
    assert_eq!(response.result, Some(expected));
    assert!(response.error.is_none());
    assert_eq!(response.id, None);
}

#[test]
fn initialize_is_the_same_for_every_identifier() {
    let host = McpHost::new();
    let ids = vec![
        None,
        Some(Value::Null),
        Some(json("0")),
        Some(json("-7")),
        Some(json("2.5")),
        Some(json(r#""abc""#)),
        Some(json(r#"[1, "two", null]"#)),
        Some(json(r#"{"nested": {"id": 1}}"#)),
    ];
    for id in ids {
        let response = host.respond(&request(id.clone(), "initialize"));
        assert_eq!(response.id, id);
        assert!(response.error.is_none());
        assert_eq!(response.result, Some(initialize_descriptor()));
        assert_eq!(
            response.result.unwrap()["serverInfo"]["name"],
            Value::String("katulong-mcp-host".to_string())
        );
    }
}

#[test]
fn initialize_ignores_parameters_and_registries() {
    let mut host = McpHost::new();
    host.register_tool("t".to_string(), json(r#"{"name":"t"}"#));
    host.register_resource("r".to_string(), json(r#"{"uri":"r"}"#));
    let with_params = McpRequest {
        id: Some(json("3")),
        method: "initialize".to_string(),
        params: Some(json(r#"{"clientInfo": {"name": "c"}}"#)),
    };
    let response = host.respond(&with_params);
    assert_eq!(response.result, Some(initialize_descriptor()));
    assert!(response.error.is_none());
}

#[test]
fn unknown_method_is_answered_with_an_error() {
    let host = McpHost::new();
    let response = host.respond(&request(Some(json(r#""x""#)), "unknown/method"));
    assert_eq!(response.id, Some(Value::String("x".to_string())));
    assert!(response.result.is_none());
    let error = response.error.unwrap();
    assert_eq!(error.code, -32601);
    assert!(error.message.contains("unknown/method"));
    assert_eq!(error.message, "Method not found: unknown/method");
    assert!(error.data.is_none());
}

#[test]
fn method_names_are_matched_exactly() {
    let host = McpHost::new();
    for method in [
        "",
        "Initialize",
        "initialize ",
        " initialize",
        "initializ",
        "initialize2",
        "tools",
        "tools/",
        "tools/lis",
        "tools/list/",
        "tools/calls",
        "resources/lists",
        "resources/reads",
        "resources",
        "ping",
        "tööls/list",
    ] {
        let response = host.respond(&request(Some(json("9")), method));
        assert!(response.result.is_none(), "{}", method);
        let error = response.error.unwrap();
        assert_eq!(error.code, METHOD_NOT_FOUND);
        assert_eq!(error.message, format!("Method not found: {}", method));
        assert_eq!(response.id, Some(json("9")));
    }
}

#[test]
fn every_known_method_has_a_result_and_no_error() {
    let host = McpHost::new();
    for method in ["initialize", "tools/list", "tools/call", "resources/list", "resources/read"] {
        let response = host.respond(&request(Some(json("5")), method));
        assert!(response.result.is_some(), "{}", method);
        assert!(response.error.is_none(), "{}", method);
        assert_eq!(response.id, Some(json("5")));
    }
}

#[test]
fn tools_list_of_a_new_host_is_empty() {
    let host = McpHost::new();
    let response = host.respond(&request(Some(json("1")), "tools/list"));
    assert_eq!(response.result, Some(json(r#"{"tools": []}"#)));
    assert!(response.error.is_none());
}

#[test]
fn resources_list_of_a_new_host_is_empty() {
    let host = McpHost::new();
    let response = host.respond(&request(Some(json("1")), "resources/list"));
    assert_eq!(response.result, Some(json(r#"{"resources": []}"#)));
    assert!(response.error.is_none());
}

#[test]
fn registered_tool_is_listed() {
    let mut host = McpHost::new();
    host.register_tool("toolsA".to_string(), json(r#"{"name":"toolsA"}"#));
    let response = host.respond(&request(Some(json("2")), "tools/list"));
    let result = response.result.unwrap();
    let tools = result["tools"].as_array().unwrap();
    assert!(tools.contains(&json(r#"{"name":"toolsA"}"#)));
    assert_eq!(tools.len(), 1);
    assert_eq!(result, json(r#"{"tools": [{"name":"toolsA"}]}"#));
}

#[test]
fn tools_list_holds_every_tool_once() {
    let mut host = McpHost::new();
    host.register_tool("a".to_string(), json(r#"{"name":"a","n":1}"#));
    host.register_tool("b".to_string(), json(r#"[1,2,3]"#));
    host.register_tool("c".to_string(), json(r#""just text""#));
    host.register_tool("d".to_string(), json("null"));
    host.register_resource("r".to_string(), json(r#"{"uri":"r"}"#));
    let response = host.respond(&request(None, "tools/list"));
    let result = response.result.unwrap();
    let object = result.as_object().unwrap();
    assert_eq!(object.len(), 1);
    let tools = result["tools"].as_array().unwrap();
    let expected = vec![
        json(r#"{"name":"a","n":1}"#),
        json(r#"[1,2,3]"#),
        json(r#""just text""#),
        json("null"),
    ];
    assert_eq!(sorted_by_text(tools), sorted_by_text(&expected));
}

#[test]
fn resources_list_holds_the_resources_and_not_the_tools() {
    let mut host = McpHost::new();
    host.register_tool("a".to_string(), json(r#"{"name":"a"}"#));
    host.register_resource("r1".to_string(), json(r#"{"uri":"file:///one"}"#));
    host.register_resource("r2".to_string(), json(r#"{"uri":"file:///two"}"#));
    let response = host.respond(&request(None, "resources/list"));
    let result = response.result.unwrap();
    let resources = result["resources"].as_array().unwrap();
    let expected = vec![json(r#"{"uri":"file:///one"}"#), json(r#"{"uri":"file:///two"}"#)];
    assert_eq!(sorted_by_text(resources), sorted_by_text(&expected));
    assert!(result.get("tools").is_none());
}

#[test]
fn registering_again_replaces_the_tool() {
    let mut host = McpHost::new();
    host.register_tool("n".to_string(), json(r#"{"version":1}"#));
    host.register_tool("n".to_string(), json(r#"{"version":2}"#));
    let response = host.respond(&request(None, "tools/list"));
    assert_eq!(response.result, Some(json(r#"{"tools": [{"version":2}]}"#)));
}

#[test]
fn tools_call_answers_the_placeholder() {
    let host = McpHost::new();
    let expected = json(
        r#"{"content": [{"type": "text", "text": "Tool execution not implemented yet"}]}"#,
    );
    let without = host.respond(&request(Some(json("1")), "tools/call"));
    assert_eq!(without.result, Some(expected.clone()));
    assert!(without.error.is_none());
    let with = host.respond(&McpRequest {
        id: Some(json("2")),
        method: "tools/call".to_string(),
        params: Some(json(r#"{"name": "anything", "arguments": {"x": 1}}"#)),
    });
    assert_eq!(with.result, Some(expected));
    assert_eq!(with.id, Some(json("2")));
}

#[test]
fn resources_read_answers_the_placeholder() {
    let host = McpHost::new();
    let expected = json(
        r#"{"contents": [{
            "uri": "example://resource",
            "mimeType": "text/plain",
            "text": "Resource content not implemented yet"
        }]}"#,
    );
    let response = host.respond(&McpRequest {
        id: Some(json("4")),
        method: "resources/read".to_string(),
        params: Some(json(r#"{"uri": "file:///elsewhere"}"#)),
    });
    assert_eq!(response.result, Some(expected));
    assert!(response.error.is_none());
}

#[test]
fn handle_mcp_request_reads_the_registries_given() {
    let mut tools = Registry::new();
    let mut resources = Registry::new();
    tools.put("t".to_string(), json(r#"{"name":"t"}"#));
    resources.put("r".to_string(), json(r#"{"uri":"r"}"#));
    let listed = McpHost::handle_mcp_request(&request(None, "tools/list"), &tools, &resources);
    assert_eq!(listed.result, Some(json(r#"{"tools": [{"name":"t"}]}"#)));
    let listed = McpHost::handle_mcp_request(&request(None, "resources/list"), &tools, &resources);
    assert_eq!(listed.result, Some(json(r#"{"resources": [{"uri":"r"}]}"#)));
    let swapped = McpHost::handle_mcp_request(&request(None, "tools/list"), &resources, &tools);
    assert_eq!(swapped.result, Some(json(r#"{"tools": [{"uri":"r"}]}"#)));
}

#[test]
fn dispatch_leaves_the_registries_as_they_are() {
    let mut host = McpHost::new();
    host.register_tool("t".to_string(), json(r#"{"name":"t"}"#));
    for method in ["initialize", "tools/call", "resources/read", "nothing", "tools/list"] {
        host.respond(&request(None, method));
    }
    let response = host.respond(&request(None, "tools/list"));
    assert_eq!(response.result, Some(json(r#"{"tools": [{"name":"t"}]}"#)));
}

#[test]
fn listing_keeps_the_order_of_its_items() {
    let value = listing("tools", vec![json("3"), json("1"), json("2")]);
    assert_eq!(value, json(r#"{"tools": [3, 1, 2]}"#));
    let value = listing("resources", Vec::new());
    assert_eq!(value, json(r#"{"resources": []}"#));
    let value = listing("anything", vec![json(r#"{"a": [true]}"#)]);
    assert_eq!(value, json(r#"{"anything": [{"a": [true]}]}"#));
}

#[test]
fn placeholders_are_fixed_values() {
    assert_eq!(tool_call_placeholder(), tool_call_placeholder());
    assert_eq!(
        tool_call_placeholder()["content"][0]["text"],
        Value::String("Tool execution not implemented yet".to_string())
    );
    assert_eq!(tool_call_placeholder()["content"][0]["type"], Value::String("text".to_string()));
    assert_eq!(
        resource_read_placeholder()["contents"][0]["uri"],
        Value::String("example://resource".to_string())
    );
    assert_eq!(
        resource_read_placeholder()["contents"][0]["mimeType"],
        Value::String("text/plain".to_string())
    );
    assert_eq!(initialize_descriptor()["protocolVersion"], Value::String("2024-11-05".to_string()));
    assert_eq!(initialize_descriptor()["serverInfo"]["version"], Value::String("0.1.0".to_string()));
    assert_eq!(initialize_descriptor()["capabilities"]["tools"]["listChanged"], Value::Bool(true));
    assert_eq!(
        initialize_descriptor()["capabilities"]["resources"]["listChanged"],
        Value::Bool(true)
    );
}

#[test]
fn unknown_method_names_the_method() {
    let error = unknown_method("a/b");
    assert_eq!(error.code, -32601);
    assert_eq!(error.message, "Method not found: a/b");
    assert!(error.data.is_none());
    let error = unknown_method("");
    assert_eq!(error.message, "Method not found: ");
}

#[test]
fn responses_carry_a_result_or_an_error() {
    let asked = request(Some(json(r#"{"k": [1, 2]}"#)), "m");
    let response: McpResponse = result_for(&asked, json("[1]"));
    assert_eq!(response.id, Some(json(r#"{"k": [1, 2]}"#)));
    assert_eq!(response.result, Some(json("[1]")));
    assert!(response.error.is_none());
    let error = McpError { code: 7, message: "seven".to_string(), data: Some(json("7")) };
    let response = error_for(&asked, error);
    assert_eq!(response.id, Some(json(r#"{"k": [1, 2]}"#)));
    assert!(response.result.is_none());
    let error = response.error.unwrap();
    assert_eq!(error.code, 7);
    assert_eq!(error.message, "seven");
    assert_eq!(error.data, Some(json("7")));
}

#[test]
fn notification_holds_a_method_and_parameters() {
    let notification = McpNotification {
        method: "notifications/tools/list_changed".to_string(),
        params: Some(json(r#"{"a": 1}"#)),
    };
    let copy = notification.clone();
    assert_eq!(copy.method, "notifications/tools/list_changed");
    assert_eq!(copy.params, Some(json(r#"{"a": 1}"#)));
}
