//! The messages of the protocol: request, response, error and notification.

use crate::json::{optional_document, Document};
use serde_json::Value;
use vstd::prelude::*;

verus! {

/// The code of the error that answers a request for a method that the host
/// does not know.
pub const METHOD_NOT_FOUND: i32 = -32601;

/// A request: a method name, with an identifier that the host hands back
/// untouched and never looks into, and parameters that may be absent.
#[derive(Debug, Clone)]
pub struct McpRequest {
    pub id: Option<Value>,
    pub method: String,
    pub params: Option<Value>,
}

/// A response: the identifier of the request it answers, and either a result
/// or an error.
#[derive(Debug, Clone)]
pub struct McpResponse {
    pub id: Option<Value>,
    pub result: Option<Value>,
    pub error: Option<McpError>,
}

/// A protocol error, as reported to the peer.
#[derive(Debug, Clone)]
pub struct McpError {
    pub code: i32,
    pub message: String,
    pub data: Option<Value>,
}

/// A notification: a method name and parameters, with no identifier and no
/// answer.
#[derive(Debug, Clone)]
pub struct McpNotification {
    pub method: String,
    pub params: Option<Value>,
}

/// What a request says.
pub struct RequestView {
    pub id: Option<Document>,
    pub method: Seq<char>,
    pub params: Option<Document>,
}

/// What an error says.
pub struct ErrorView {
    pub code: int,
    pub message: Seq<char>,
    pub data: Option<Document>,
}

/// What a response says.
pub struct ResponseView {
    pub id: Option<Document>,
    pub result: Option<Document>,
    pub error: Option<ErrorView>,
}

/// What a notification says.
pub struct NotificationView {
    pub method: Seq<char>,
    pub params: Option<Document>,
}

impl View for McpRequest {
    type V = RequestView;

    open spec fn view(&self) -> RequestView {
        RequestView {
            id: optional_document(self.id),
            method: self.method@,
            params: optional_document(self.params),
        }
    }
}

impl View for McpError {
    type V = ErrorView;

    open spec fn view(&self) -> ErrorView {
        ErrorView {
            code: self.code as int,
            message: self.message@,
            data: optional_document(self.data),
        }
    }
}

impl View for McpResponse {
    type V = ResponseView;

    open spec fn view(&self) -> ResponseView {
        ResponseView {
            id: optional_document(self.id),
            result: optional_document(self.result),
            error: match self.error {
                Some(error) => Some(error@),
                None => None,
            },
        }
    }
}

impl View for McpNotification {
    type V = NotificationView;

    open spec fn view(&self) -> NotificationView {
        NotificationView { method: self.method@, params: optional_document(self.params) }
    }
}

impl ResponseView {
    /// A response carries a result or an error: never both, never neither.
    pub open spec fn well_formed(self) -> bool {
        self.result is Some <==> self.error is None
    }

    /// The response that answers `id` with `result`.
    pub open spec fn success(id: Option<Document>, result: Document) -> ResponseView {
        ResponseView { id, result: Some(result), error: None }
    }

    /// The response that answers `id` with `error`.
    pub open spec fn failure(id: Option<Document>, error: ErrorView) -> ResponseView {
        ResponseView { id, result: None, error: Some(error) }
    }
}

} // verus!
