//! What the host answers: the payload of each method, and the relation
//! between a request, the registries and the response.

use crate::json::{
    array_of_one, array_value, bool_value, clone_optional, document, documents, object_of_one,
    object_of_three, object_of_two, string_value, Document,
};
use crate::protocol::{
    ErrorView, McpError, McpRequest, McpResponse, RequestView, ResponseView, METHOD_NOT_FOUND,
};
use crate::registry::{is_listing, lemma_listing_holds_the_entries};
use serde_json::Value;
use vstd::prelude::*;
use vstd::string::*;

verus! {

/// The descriptor that answers `initialize`: the protocol version, the
/// server's name and version, and the two capabilities, each of which
/// announces changes of its list.
pub open spec fn initialize_result() -> Document {
    Document::Object(
        map![
            "protocolVersion"@ => Document::Text("2024-11-05"@),
            "serverInfo"@ => Document::Object(
                map![
                    "name"@ => Document::Text("katulong-mcp-host"@),
                    "version"@ => Document::Text("0.1.0"@)
                ],
            ),
            "capabilities"@ => Document::Object(
                map![
                    "tools"@ => Document::Object(map!["listChanged"@ => Document::Bool(true)]),
                    "resources"@ => Document::Object(map!["listChanged"@ => Document::Bool(true)])
                ],
            )
        ],
    )
}

/// The result of a list method: `items` under `key`.
pub open spec fn listing_result(key: Seq<char>, items: Seq<Document>) -> Document {
    Document::Object(map![key => Document::List(items)])
}

/// The acknowledgement that answers `tools/call`, whatever the parameters.
pub open spec fn tool_call_result() -> Document {
    Document::Object(
        map![
            "content"@ => Document::List(
                seq![
                    Document::Object(
                        map![
                            "type"@ => Document::Text("text"@),
                            "text"@ => Document::Text("Tool execution not implemented yet"@)
                        ],
                    )
                ],
            )
        ],
    )
}

/// The content that answers `resources/read`, whatever the parameters.
pub open spec fn resource_read_result() -> Document {
    Document::Object(
        map![
            "contents"@ => Document::List(
                seq![
                    Document::Object(
                        map![
                            "uri"@ => Document::Text("example://resource"@),
                            "mimeType"@ => Document::Text("text/plain"@),
                            "text"@ => Document::Text("Resource content not implemented yet"@)
                        ],
                    )
                ],
            )
        ],
    )
}

/// The error that answers a method that the host does not know: its message
/// names the method.
pub open spec fn method_not_found(method: Seq<char>) -> ErrorView {
    ErrorView {
        code: METHOD_NOT_FOUND as int,
        message: "Method not found: "@ + method,
        data: None,
    }
}

/// `response` answers `request`, given what the two registries hold.
///
/// The response hands the request's identifier back. `initialize`,
/// `tools/call` and `resources/read` have fixed results; `tools/list` and
/// `resources/list` carry a listing of their registry, in an order that is
/// not fixed; any other method is answered by an error and no result.
pub open spec fn answers(
    request: RequestView,
    tools: Map<Seq<char>, Document>,
    resources: Map<Seq<char>, Document>,
    response: ResponseView,
) -> bool {
    if request.method == "initialize"@ {
        response == ResponseView::success(request.id, initialize_result())
    } else if request.method == "tools/list"@ {
        exists|items: Seq<Document>|
            #[trigger] is_listing(items, tools) && response == ResponseView::success(
                request.id,
                listing_result("tools"@, items),
            )
    } else if request.method == "tools/call"@ {
        response == ResponseView::success(request.id, tool_call_result())
    } else if request.method == "resources/list"@ {
        exists|items: Seq<Document>|
            #[trigger] is_listing(items, resources) && response == ResponseView::success(
                request.id,
                listing_result("resources"@, items),
            )
    } else if request.method == "resources/read"@ {
        response == ResponseView::success(request.id, resource_read_result())
    } else {
        response == ResponseView::failure(request.id, method_not_found(request.method))
    }
}

/// The methods that the host knows.
pub open spec fn is_known_method(method: Seq<char>) -> bool {
    ||| method == "initialize"@
    ||| method == "tools/list"@
    ||| method == "tools/call"@
    ||| method == "resources/list"@
    ||| method == "resources/read"@
}

/// Every answer is a well-formed response that carries the identifier of its
/// request.
pub proof fn lemma_every_answer_is_well_formed(
    request: RequestView,
    tools: Map<Seq<char>, Document>,
    resources: Map<Seq<char>, Document>,
    response: ResponseView,
)
    requires
        answers(request, tools, resources, response),
    ensures
        response.well_formed(),
        response.id == request.id,
        response.error is Some <==> !is_known_method(request.method),
{
}

/// `initialize` is answered with no error and with the host's descriptor,
/// which gives "katulong-mcp-host" as the server's name, whatever the
/// identifier, the parameters and the registries are.
pub proof fn lemma_initialize_names_the_server(
    request: RequestView,
    tools: Map<Seq<char>, Document>,
    resources: Map<Seq<char>, Document>,
    response: ResponseView,
)
    requires
        request.method == "initialize"@,
        answers(request, tools, resources, response),
    ensures
        response.id == request.id,
        response.error is None,
        response.result == Some(initialize_result()),
        initialize_result() is Object,
        initialize_result()->Object_0.contains_key("serverInfo"@),
        initialize_result()->Object_0["serverInfo"@] is Object,
        initialize_result()->Object_0["serverInfo"@]->Object_0.contains_key("name"@),
        initialize_result()->Object_0["serverInfo"@]->Object_0["name"@] == Document::Text(
            "katulong-mcp-host"@,
        ),
{
    reveal_strlit("protocolVersion");
    reveal_strlit("serverInfo");
    reveal_strlit("capabilities");
    reveal_strlit("name");
    reveal_strlit("version");
    assert("serverInfo"@ != "capabilities"@) by {
        assert("serverInfo"@.len() != "capabilities"@.len());
    }
    assert("name"@ != "version"@) by {
        assert("name"@.len() != "version"@.len());
    }
}

/// A method that the host does not know is answered with no result and with
/// the error of code -32601, whose message ends in the method's name.
pub proof fn lemma_unknown_method_is_refused(
    request: RequestView,
    tools: Map<Seq<char>, Document>,
    resources: Map<Seq<char>, Document>,
    response: ResponseView,
)
    requires
        !is_known_method(request.method),
        answers(request, tools, resources, response),
    ensures
        response.id == request.id,
        response.result is None,
        response.error is Some,
        response.error->Some_0.code == -32601,
        response.error->Some_0.data is None,
        response.error->Some_0.message == "Method not found: "@ + request.method,
        response.error->Some_0.message.len() >= request.method.len(),
        response.error->Some_0.message.skip(
            response.error->Some_0.message.len() - request.method.len(),
        ) == request.method,
{
    let prefix = "Method not found: "@;
    let message = prefix + request.method;
    assert(message.skip(prefix.len() as int) =~= request.method);
}

/// The key under which a list method answers: `tools` for `tools/list`,
/// `resources` for `resources/list`.
pub open spec fn listing_key(method: Seq<char>) -> Seq<char> {
    if method == "tools/list"@ {
        "tools"@
    } else {
        "resources"@
    }
}

/// A tool or a resource that has been registered is among what the list
/// method of its registry answers with. Where `tools/list` is asked and the
/// tools are any registry `before` after the registration of `entry` under
/// `name`, or `resources/list` is asked and the resources are, the answer
/// has no error and its items, under the key of the method, hold `entry`.
pub proof fn lemma_registered_entry_is_listed(
    request: RequestView,
    tools: Map<Seq<char>, Document>,
    resources: Map<Seq<char>, Document>,
    before: Map<Seq<char>, Document>,
    name: Seq<char>,
    entry: Document,
    response: ResponseView,
)
    requires
        answers(request, tools, resources, response),
        (request.method == "tools/list"@ && tools == before.insert(name, entry)) || (request.method
            == "resources/list"@ && resources == before.insert(name, entry)),
    ensures
        response.error is None,
        exists|items: Seq<Document>|
            #[trigger] items.contains(entry) && response.result == Some(
                listing_result(listing_key(request.method), items),
            ),
        request.method == "tools/list"@ ==> listing_key(request.method) == "tools"@,
        request.method == "resources/list"@ ==> listing_key(request.method) == "resources"@,
{
    lemma_methods_differ();
    let key = listing_key(request.method);
    let registry = before.insert(name, entry);
    let items = choose|items: Seq<Document>|
        #[trigger] is_listing(items, registry) && response == ResponseView::success(
            request.id,
            listing_result(key, items),
        );
    lemma_listing_holds_the_entries(items, registry);
    assert(registry.dom().contains(name) && registry[name] == entry);
    assert(registry.contains_value(entry));
    assert(items.contains(entry));
}

/// The five method names are five different texts.
pub proof fn lemma_methods_differ()
    ensures
        "initialize"@ != "tools/list"@,
        "initialize"@ != "tools/call"@,
        "initialize"@ != "resources/list"@,
        "initialize"@ != "resources/read"@,
        "tools/list"@ != "tools/call"@,
        "tools/list"@ != "resources/list"@,
        "tools/list"@ != "resources/read"@,
        "tools/call"@ != "resources/list"@,
        "tools/call"@ != "resources/read"@,
        "resources/list"@ != "resources/read"@,
{
    reveal_strlit("initialize");
    reveal_strlit("tools/list");
    reveal_strlit("tools/call");
    reveal_strlit("resources/list");
    reveal_strlit("resources/read");
    assert("initialize"@[0] == 'i');
    assert("tools/list"@[0] == 't' && "tools/list"@[6] == 'l');
    assert("tools/call"@[0] == 't' && "tools/call"@[6] == 'c');
    assert("resources/list"@[0] == 'r' && "resources/list"@[10] == 'l');
    assert("resources/read"@[0] == 'r' && "resources/read"@[10] == 'r');
}

/// The value that answers `initialize`.
pub fn initialize_descriptor() -> (value: Value)
    ensures
        document(value) == initialize_result(),
{
    let server_info = object_of_two(
        "name",
        string_value("katulong-mcp-host"),
        "version",
        string_value("0.1.0"),
    );
    let capabilities = object_of_two(
        "tools",
        object_of_one("listChanged", bool_value(true)),
        "resources",
        object_of_one("listChanged", bool_value(true)),
    );
    object_of_three(
        "protocolVersion",
        string_value("2024-11-05"),
        "serverInfo",
        server_info,
        "capabilities",
        capabilities,
    )
}

/// The value that answers a list method: `items`, in their order, under
/// `key`.
pub fn listing(key: &str, items: Vec<Value>) -> (value: Value)
    ensures
        document(value) == listing_result(key@, documents(items@)),
{
    object_of_one(key, array_value(items))
}

/// The value that answers `tools/call`.
pub fn tool_call_placeholder() -> (value: Value)
    ensures
        document(value) == tool_call_result(),
{
    let content = object_of_two(
        "type",
        string_value("text"),
        "text",
        string_value("Tool execution not implemented yet"),
    );
    object_of_one("content", array_of_one(content))
}

/// The value that answers `resources/read`.
pub fn resource_read_placeholder() -> (value: Value)
    ensures
        document(value) == resource_read_result(),
{
    let content = object_of_three(
        "uri",
        string_value("example://resource"),
        "mimeType",
        string_value("text/plain"),
        "text",
        string_value("Resource content not implemented yet"),
    );
    object_of_one("contents", array_of_one(content))
}

/// The error that answers a request for `method`, which the host does not
/// know.
pub fn unknown_method(method: &str) -> (error: McpError)
    ensures
        error@ == method_not_found(method@),
{
    let message = String::from_str("Method not found: ").concat(method);
    McpError { code: METHOD_NOT_FOUND, message, data: None }
}

/// The response that hands `request`'s identifier back with `result`.
pub fn result_for(request: &McpRequest, result: Value) -> (response: McpResponse)
    ensures
        response@ == ResponseView::success(request@.id, document(result)),
{
    McpResponse { id: clone_optional(&request.id), result: Some(result), error: None }
}

/// The response that hands `request`'s identifier back with `error`.
pub fn error_for(request: &McpRequest, error: McpError) -> (response: McpResponse)
    ensures
        response@ == ResponseView::failure(request@.id, error@),
{
    McpResponse { id: clone_optional(&request.id), result: None, error: Some(error) }
}

} // verus!
