//! What a handler answers with: a status and a body, as plain values.

use crate::json::{JsonValue, JsonView};
use vstd::prelude::*;

verus! {

/// Status of a request that was carried out and answers with a body or with none.
pub const STATUS_OK: u16 = 200;

/// Status of a request that made a new row.
pub const STATUS_CREATED: u16 = 201;

/// Status of a request that was carried out and has nothing to say.
pub const STATUS_NO_CONTENT: u16 = 204;

/// Status of a request on which the store failed.
pub const STATUS_INTERNAL_SERVER_ERROR: u16 = 500;

/// The body of a response.
#[derive(Debug, PartialEq, Eq)]
pub enum Body {
    /// No body at all.
    Empty,
    /// A JSON document.
    Json(JsonValue),
}

/// A response: the HTTP status and the body.
#[derive(Debug, PartialEq, Eq)]
pub struct Response {
    pub status: u16,
    pub body: Body,
}

impl Response {
    /// True where the response has the status `status` and a body that reads
    /// as `document`.
    pub open spec fn is_json_with(self, status: u16, document: JsonView) -> bool {
        self.status == status && self.body is Json && self.body->Json_0@ == document
    }
}

} // verus!
