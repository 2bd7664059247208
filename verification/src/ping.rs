//! The health check.

use crate::json::{members_view, JsonValue, JsonView};
use crate::response::{Body, Response, STATUS_OK};
use vstd::prelude::*;

verus! {

/// The document a healthy service answers with.
pub open spec fn pong() -> JsonView {
    JsonView::Object(seq![("msg"@, JsonView::Text("PONG"@))])
}

/// Answers the health check: status 200 and the one-member document
/// `msg: PONG`.
pub fn ping() -> (res: Response)
    ensures
        res.is_json_with(200, pong()),
{
    let mut members: Vec<(String, JsonValue)> = Vec::new();
    members.push(("msg".to_owned(), JsonValue::Text("PONG".to_owned())));
    assert(members_view(members@) =~= pong()->Object_0);
    Response { status: STATUS_OK, body: Body::Json(JsonValue::object(members)) }
}

} // verus!
