//! The protocol types of `lsp_server` and `serde_json` that the library
//! handles, and the calls into those crates that it makes.

use vstd::prelude::*;
use crate::document::Position;
use lsp_server::{Message, Notification, Request, RequestId, Response, ResponseError};
use lsp_types::Url;
use serde_json::Value;

verus! {

/// A request id: an integer or a string, echoed in the matching response.
#[verifier::external_type_specification]
#[verifier::external_body]
pub struct ExRequestId(RequestId);

/// A JSON value.
#[verifier::external_type_specification]
#[verifier::external_body]
pub struct ExValue(Value);

/// A document URI.
#[verifier::external_type_specification]
#[verifier::external_body]
pub struct ExUrl(Url);

/// The error object of a response.
#[verifier::external_type_specification]
pub struct ExResponseError(ResponseError);

/// A response to a request: its id, and a result or an error.
#[verifier::external_type_specification]
pub struct ExResponse(Response);

/// A request: its id, its method and its params.
#[verifier::external_type_specification]
pub struct ExRequest(Request);

/// A notification: its method and its params.
#[verifier::external_type_specification]
pub struct ExNotification(Notification);

/// A message of the transport: a request, a response or a notification.
#[verifier::external_type_specification]
pub struct ExMessage(Message);

/// The JSON form of an optional hover whose contents are markdown `text`.
pub uninterp spec fn markdown_hover_json(text: Seq<char>) -> Value;

/// The JSON string whose contents are `s`.
pub uninterp spec fn json_string_of(s: Seq<char>) -> Value;

/// What deserialising `params` into `lsp_types::HoverParams` gives: the
/// document and position it names, or `None` when the params do not parse.
pub uninterp spec fn hover_params_of(params: Value) -> Option<(Url, Position)>;

/// What deserialising `params` into `lsp_types::CompletionParams` gives: the
/// document and position it names, or `None` when the params do not parse.
pub uninterp spec fn completion_params_of(params: Value) -> Option<(Url, Position)>;

/// Relies on `serde_json::to_value` applied to `Some(lsp_types::Hover)` with
/// markdown contents `text` and no range: the result depends on `text` alone,
/// and serialising that type cannot fail (it holds no map).
#[verifier::external_body]
pub(crate) fn markdown_hover(text: String) -> (r: Value)
    ensures
        r == markdown_hover_json(text@),
{
    let hover = Some(lsp_types::Hover {
        contents: lsp_types::HoverContents::Markup(lsp_types::MarkupContent {
            kind: lsp_types::MarkupKind::Markdown,
            value: text,
        }),
        range: None,
    });
    serde_json::to_value(&hover).unwrap()
}

/// Relies on `serde_json::Value::from(String)`: the JSON string holding `s`.
#[verifier::external_body]
pub(crate) fn json_string(s: String) -> (r: Value)
    ensures
        r == json_string_of(s@),
{
    Value::from(s)
}

/// Relies on `lsp_server::Request::extract` into `lsp_types::HoverParams`:
/// a request of another method than `method` is refused; one of that method
/// is accepted exactly when its params deserialise, and gives back its own id
/// with the document and position that the params name.
#[verifier::external_body]
pub(crate) fn extract_hover(req: Request, method: &str) -> (r: Option<(RequestId, Url, Position)>)
    ensures
        req.method@ != method@ ==> r is None,
        req.method@ == method@ ==> r == match hover_params_of(req.params) {
            Some(t) => Some((req.id, t.0, t.1)),
            None => None,
        },
{
    match req.extract::<lsp_types::HoverParams>(method) {
        Ok((id, p)) => {
            let at = p.text_document_position_params;
            let pos = Position { line: at.position.line, character: at.position.character };
            Some((id, at.text_document.uri, pos))
        },
        Err(_) => None,
    }
}

/// Relies on `lsp_server::Request::extract` into `lsp_types::CompletionParams`:
/// a request of another method than `method` is refused; one of that method
/// is accepted exactly when its params deserialise, and gives back its own id
/// with the document and position that the params name.
#[verifier::external_body]
pub(crate) fn extract_completion(req: Request, method: &str) -> (r: Option<(RequestId, Url, Position)>)
    ensures
        req.method@ != method@ ==> r is None,
        req.method@ == method@ ==> r == match completion_params_of(req.params) {
            Some(t) => Some((req.id, t.0, t.1)),
            None => None,
        },
{
    match req.extract::<lsp_types::CompletionParams>(method) {
        Ok((id, p)) => {
            let at = p.text_document_position;
            let pos = Position { line: at.position.line, character: at.position.character };
            Some((id, at.text_document.uri, pos))
        },
        Err(_) => None,
    }
}

} // verus!
