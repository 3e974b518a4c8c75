//! Routing incoming protocol messages: which handler, if any, a message goes to.

use vstd::prelude::*;
use vstd::string::*;
use crate::document::Position;
use crate::protocol::{completion_params_of, extract_completion, extract_hover, hover_params_of};
use lsp_server::{Message, Request, RequestId};
use lsp_types::Url;

verus! {

/// The handler that a request method is registered to.
#[derive(Clone, Copy, Debug, PartialEq, Eq, Structural)]
pub enum Route {
    Shutdown,
    Hover,
    Completion,
    Unregistered,
}

/// The handler registered for `method`.
pub open spec fn route_of(method: Seq<char>) -> Route {
    if method == "shutdown"@ {
        Route::Shutdown
    } else if method == "textDocument/hover"@ {
        Route::Hover
    } else if method == "textDocument/completion"@ {
        Route::Completion
    } else {
        Route::Unregistered
    }
}

/// Looks up the handler registered for `method`.
pub fn route(method: &String) -> (r: Route)
    ensures
        r == route_of(method@),
{
    if method.eq(&String::from_str("shutdown")) {
        Route::Shutdown
    } else if method.eq(&String::from_str("textDocument/hover")) {
        Route::Hover
    } else if method.eq(&String::from_str("textDocument/completion")) {
        Route::Completion
    } else {
        Route::Unregistered
    }
}

/// What the server does with one incoming message.
pub enum Step {
    /// Nothing: the message is dropped without an answer.
    Ignore,
    /// Acknowledge the shutdown request and wait for the exit notification.
    Shutdown(Request),
    /// Answer hover request `id` at `position` of the document `uri`.
    Hover { id: RequestId, uri: Url, position: Position },
    /// Answer completion request `id` at `position` of the document `uri`.
    Completion { id: RequestId, uri: Url, position: Position },
}

/// `r` is what the server does with `msg`: a shutdown request is
/// acknowledged; a hover or completion request whose params parse goes to
/// its handler with its own id and the document and position of its params,
/// and one whose params do not parse is dropped; requests of other
/// methods, responses and notifications are dropped.
pub open spec fn is_step(msg: Message, r: Step) -> bool {
    match msg {
        Message::Request(req) => match route_of(req.method@) {
            Route::Shutdown => r == Step::Shutdown(req),
            Route::Hover => match hover_params_of(req.params) {
                Some(t) => r matches Step::Hover { id, uri, position } && id == req.id && uri
                    == t.0 && position == t.1,
                None => r is Ignore,
            },
            Route::Completion => match completion_params_of(req.params) {
                Some(t) => r matches Step::Completion { id, uri, position } && id == req.id
                    && uri == t.0 && position == t.1,
                None => r is Ignore,
            },
            Route::Unregistered => r is Ignore,
        },
        _ => r is Ignore,
    }
}

/// Decides what the server does with the incoming message `msg`.
pub fn step(msg: Message) -> (r: Step)
    ensures
        is_step(msg, r),
{
    match msg {
        Message::Request(req) => match route(&req.method) {
            Route::Shutdown => Step::Shutdown(req),
            Route::Hover => match extract_hover(req, "textDocument/hover") {
                Some((id, uri, position)) => Step::Hover { id, uri, position },
                None => Step::Ignore,
            },
            Route::Completion => match extract_completion(req, "textDocument/completion") {
                Some((id, uri, position)) => Step::Completion { id, uri, position },
                None => Step::Ignore,
            },
            Route::Unregistered => Step::Ignore,
        },
        Message::Response(_) => Step::Ignore,
        Message::Notification(_) => Step::Ignore,
    }
}

} // verus!
