//! Extraction of the commit message from the remote completion response: the
//! first choice's message content, trimmed of surrounding white space. The
//! JSON reading is delegated to an outside parser behind one trusted item;
//! everything around it is verified.

use crate::text::{trim_bytes, trimmed};
use vstd::prelude::*;

verus! {

broadcast use crate::text::bytes_deep_view_is_view;

/// The first completion choice's message content inside a response body, if
/// the body is a JSON document and that field is a string. Parsing is a
/// function of the bytes alone; this names its result.
pub uninterp spec fn response_content(body: Seq<u8>) -> Option<Seq<u8>>;

/// Relies on serde_json::from_slice and serde_json::Value::{get, as_str}:
/// parsing a byte slice into a JSON value and reading the first choice's
/// message content field is deterministic, so the outcome is a function of
/// the body bytes alone, named by `response_content`.
#[verifier::external_body]
fn extract_content(body: &Vec<u8>) -> (r: Option<Vec<u8>>)
    ensures
        r.deep_view() == response_content(body@),
{
    let parsed: serde_json::Value = match serde_json::from_slice(body.as_slice()) {
        Ok(v) => v,
        Err(_) => return None,
    };
    let text = parsed.get("choices")?.get(0)?.get("message")?.get("content")?.as_str()?;
    Some(text.as_bytes().to_vec())
}

/// The commit message carried by a response body, if any: the content field
/// with surrounding white space removed.
pub open spec fn message_of_response(body: Seq<u8>) -> Option<Seq<u8>> {
    match response_content(body) {
        Option::Some(c) => Option::Some(trimmed(c)),
        Option::None => Option::None,
    }
}

/// Extracts the commit message from a completion response body. `None` means
/// the expected field was absent or not a string — the distinguished
/// extraction failure.
pub fn extract_commit_message(body: &Vec<u8>) -> (r: Option<Vec<u8>>)
    ensures
        r.deep_view() == message_of_response(body@),
{
    match extract_content(body) {
        Option::Some(c) => Option::Some(trim_bytes(&c)),
        Option::None => Option::None,
    }
}

} // verus!
