//! The process-wide fixed configuration: the identifiers under which the
//! secret store keeps the API key, the remote completion endpoint and model,
//! the output-token cap, and the authorization header built from the key.

use crate::text::{append_vec, str_to_bytes};
use vstd::prelude::*;
use vstd::string::StringSliceAdditionalSpecFns;

verus! {

/// The cap on the number of tokens the remote service may produce.
pub const MAX_OUTPUT_TOKENS: u64 = 100;

/// The service identifier under which the secret store keeps the API key.
pub fn service_name() -> (r: &'static str)
    ensures
        r@ == "quickcommit"@,
{
    "quickcommit"
}

/// The account identifier under which the secret store keeps the API key.
pub fn account_name() -> (r: &'static str)
    ensures
        r@ == "api-key"@,
{
    "api-key"
}

/// The remote text-completion endpoint.
pub fn api_endpoint() -> (r: &'static str)
    ensures
        r@ == "https://api.openai.com/v1/chat/completions"@,
{
    "https://api.openai.com/v1/chat/completions"
}

/// The model named in every completion request.
pub fn model_name() -> (r: &'static str)
    ensures
        r@ == "gpt-4o"@,
{
    "gpt-4o"
}

/// The authorization header value: the word `Bearer`, one space, the key.
pub open spec fn bearer_text(key: Seq<u8>) -> Seq<u8> {
    "Bearer ".spec_bytes() + key
}

/// Builds the authorization header value that carries the API key.
pub fn bearer_header_value(key: &Vec<u8>) -> (r: Vec<u8>)
    ensures
        r@ == bearer_text(key@),
{
    let mut r = str_to_bytes("Bearer ");
    append_vec(&mut r, key);
    r
}

} // verus!
