//! Building the response to a hover or completion request from the outcome
//! of reading the identifier under the cursor.

use vstd::prelude::*;
use crate::document::{is_lookup, lines_of, LookupError, Position};
use crate::protocol::{json_string, json_string_of, markdown_hover, markdown_hover_json};
use lsp_server::{RequestId, Response};

verus! {

/// The markdown text of a hover answer.
pub open spec fn hover_text() -> Seq<char> {
    "this works"@
}

/// `r` answers request `id` successfully with `result`, and carries no error.
pub open spec fn answers(r: Response, id: RequestId, result: serde_json::Value) -> bool {
    r.id == id && r.result == Some(result) && r.error is None
}

/// A successful response to request `id` whose result is the empty string:
/// "no answer".
pub fn empty_response(id: RequestId) -> (r: Response)
    ensures
        answers(r, id, json_string_of(Seq::empty())),
{
    Response { id, result: Some(json_string(String::new())), error: None }
}

/// The result of the answer to a hover request whose lookup gave `word`.
pub open spec fn hover_result(word: Result<String, LookupError>) -> serde_json::Value {
    match word {
        Ok(_) => markdown_hover_json(hover_text()),
        Err(_) => json_string_of(Seq::empty()),
    }
}

/// Answers hover request `id`: a markdown hover when the identifier under the
/// cursor was read, the empty response when the lookup failed.
pub fn handle_hover(id: RequestId, word: &Result<String, LookupError>) -> (r: Response)
    ensures
        answers(r, id, hover_result(*word)),
{
    match word {
        Ok(_) => {
            let text = String::from_str("this works");
            Response { id, result: Some(markdown_hover(text)), error: None }
        },
        Err(_) => empty_response(id),
    }
}

/// Answers completion request `id`: completion items are not offered, so the
/// answer is the empty response whatever the lookup gave.
pub fn handle_completion(id: RequestId, word: &Result<String, LookupError>) -> (r: Response)
    ensures
        answers(r, id, json_string_of(Seq::empty())),
{
    empty_response(id)
}

/// A hover request at a line past the last line of the document is answered
/// with the empty string as its result, with the request's id and no error.
pub proof fn lemma_hover_past_last_line(
    text: Seq<char>,
    position: Position,
    id: RequestId,
    word: Result<String, LookupError>,
    r: Response,
)
    requires
        position.line >= lines_of(text).len(),
        is_lookup(text, position, word),
        answers(r, id, hover_result(word)),
    ensures
        r.id == id,
        r.result == Some(json_string_of(Seq::empty())),
        r.error is None,
{
}

} // verus!
