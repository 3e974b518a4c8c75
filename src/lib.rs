//! A small language server core: resolving the identifier under a cursor,
//! picking a line out of a document, answering hover and completion
//! requests, and routing incoming protocol messages.

pub mod token;
pub mod document;
pub mod protocol;
pub mod handlers;
pub mod dispatch;
