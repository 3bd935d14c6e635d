//! Interpretation of the processing server's reply: status handling and
//! extraction of the `value` field from the response body.

use vstd::prelude::*;
use crate::errors::ChefError;

verus! {

/// What the JSON parser extracts from a response body: the textual form of
/// the `value` field when the body parses as JSON carrying one, and nothing
/// otherwise. The outcome depends on the body bytes alone.
pub uninterp spec fn response_value(body: Seq<u8>) -> Option<Seq<u8>>;

/// Relies on json::parse, JsonValue::has_key and JsonValue's textual form:
/// a body that is not UTF-8 or not JSON, or whose document has no `value`
/// key, yields nothing; otherwise the field's text (a string's raw
/// content, any other value in its serialized form).
#[verifier::external_body]
fn extract_value(body: &Vec<u8>) -> (r: Option<Vec<u8>>)
    ensures
        (r is Some) == (response_value(body@) is Some),
        r matches Some(v) ==> (response_value(body@) matches Some(w) && v@ == w),
{
    let text = match core::str::from_utf8(body.as_slice()) {
        Ok(t) => t,
        Err(_) => return None,
    };
    let doc = match json::parse(text) {
        Ok(d) => d,
        Err(_) => return None,
    };
    if doc.has_key("value") {
        Some(format!("{}", doc["value"]).into_bytes())
    } else {
        None
    }
}

/// The status codes the transport reports as success.
pub open spec fn is_success_status(status: u16) -> bool {
    200 <= status < 300
}

/// Turns a transport outcome into the invocation's result: a non-success
/// status fails with RequestFailed carrying the code; a success body
/// yields its `value` field, or MalformedResponse when it has none.
pub fn interpret_response(status: u16, body: &Vec<u8>) -> (r: Result<Vec<u8>, ChefError>)
    ensures
        !is_success_status(status) ==> (r matches Err(e) && e == ChefError::RequestFailed(
            status,
        )),
        is_success_status(status) && response_value(body@) is None ==> (r matches Err(e) && e
            == ChefError::MalformedResponse),
        is_success_status(status) ==> (response_value(body@) matches Some(v) ==> (r matches Ok(
            out,
        ) && out@ == v)),
{
    if !(200 <= status && status < 300) {
        return Err(ChefError::RequestFailed(status));
    }
    match extract_value(body) {
        Some(v) => Ok(v),
        None => Err(ChefError::MalformedResponse),
    }
}

} // verus!
