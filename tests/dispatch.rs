use hover_lsp::dispatch::{route, step, Route, Step};
use lsp_server::{Message, Notification, Request, RequestId, Response};
use lsp_types::{
    HoverParams, Position, TextDocumentIdentifier, TextDocumentPositionParams, Url,
    WorkDoneProgressParams,
};
use serde_json::Value;

fn hover_params() -> HoverParams {
    HoverParams {
        text_document_position_params: TextDocumentPositionParams {
            text_document: TextDocumentIdentifier {
                uri: Url::parse("file:///tmp/sample.s").unwrap(),
            },
            position: Position { line: 3, character: 9 },
        },
        work_done_progress_params: WorkDoneProgressParams { work_done_token: None },
    }
}

#[test]
fn routes_by_method() {
    assert_eq!(route(&"shutdown".to_string()), Route::Shutdown);
    assert_eq!(route(&"textDocument/hover".to_string()), Route::Hover);
    assert_eq!(route(&"textDocument/completion".to_string()), Route::Completion);
    assert_eq!(route(&"textDocument/definition".to_string()), Route::Unregistered);
}

#[test]
fn unregistered_method_is_dropped() {
    let req = Request::new(RequestId::from(1), "textDocument/definition".to_string(), hover_params());
    assert!(matches!(step(Message::Request(req)), Step::Ignore));
}

#[test]
fn hover_request_goes_to_hover() {
    let req = Request::new(RequestId::from(4), "textDocument/hover".to_string(), hover_params());
    match step(Message::Request(req)) {
        Step::Hover { id, uri, position } => {
            assert_eq!(id, RequestId::from(4));
            assert_eq!(uri.as_str(), "file:///tmp/sample.s");
            assert_eq!(position.line, 3);
            assert_eq!(position.character, 9);
        }
        _ => panic!("expected a hover step"),
    }
}

#[test]
fn completion_request_goes_to_completion() {
    let req =
        Request::new(RequestId::from(6), "textDocument/completion".to_string(), hover_params());
    match step(Message::Request(req)) {
        Step::Completion { id, position, .. } => {
            assert_eq!(id, RequestId::from(6));
            assert_eq!(position.line, 3);
        }
        _ => panic!("expected a completion step"),
    }
}

#[test]
fn hover_with_bad_params_is_dropped() {
    let req = Request::new(RequestId::from(8), "textDocument/hover".to_string(), Value::Null);
    assert!(matches!(step(Message::Request(req)), Step::Ignore));
}

#[test]
fn shutdown_is_acknowledged() {
    let req = Request::new(RequestId::from(9), "shutdown".to_string(), Value::Null);
    match step(Message::Request(req)) {
        Step::Shutdown(r) => assert_eq!(r.id, RequestId::from(9)),
        _ => panic!("expected a shutdown step"),
    }
}

#[test]
fn responses_and_notifications_are_dropped() {
    let note = Notification::new("textDocument/didChange".to_string(), Value::Null);
    assert!(matches!(step(Message::Notification(note)), Step::Ignore));
    let resp = Response::new_ok(RequestId::from(1), Value::Null);
    assert!(matches!(step(Message::Response(resp)), Step::Ignore));
}
