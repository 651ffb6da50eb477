//! The compute around the platform secret store: what is persisted when the
//! key is set, and what a lookup's answer means to the caller. The store
//! itself is a platform service; here it is modeled as holding at most one
//! string under the fixed identifiers.

use crate::errors::{FlowError, FlowErrorModel};
use crate::text::{is_ascii_ws, trim_bytes, trim_drops_trailing_ws, trim_of_clean_text, trimmed};
use vstd::prelude::*;

verus! {

/// What the store holds after the key is set from the raw input line: the
/// line with surrounding white space (in particular the trailing newline)
/// removed.
pub open spec fn store_after_set(input: Seq<u8>) -> Option<Seq<u8>> {
    Option::Some(trimmed(input))
}

/// What a lookup answer means: a found value is returned unchanged, and an
/// absent one is the distinguished "key not found" failure.
pub open spec fn lookup_meaning(found: Option<Seq<u8>>) -> Result<Seq<u8>, FlowErrorModel> {
    match found {
        Option::Some(k) => Result::Ok(k),
        Option::None => Result::Err(FlowErrorModel::KeyMissing),
    }
}

/// Prepares the raw input line for storage.
pub fn prepare_api_key(input: &Vec<u8>) -> (r: Vec<u8>)
    ensures
        Option::Some(r@) == store_after_set(input@),
        r@ == trimmed(input@),
{
    trim_bytes(input)
}

/// Interprets the store's answer to a lookup.
pub fn interpret_key_lookup(found: Option<Vec<u8>>) -> (r: Result<Vec<u8>, FlowError>)
    ensures
        match r {
            Result::Ok(k) => lookup_meaning(opt_view(found)) == Result::<Seq<u8>,
                FlowErrorModel,
            >::Ok(k@),
            Result::Err(e) => lookup_meaning(opt_view(found)) == Result::<Seq<u8>,
                FlowErrorModel,
            >::Err(e@),
        },
{
    match found {
        Option::Some(k) => Result::Ok(k),
        Option::None => Result::Err(FlowError::KeyMissing),
    }
}

/// The view of an optional key vector.
pub open spec fn opt_view(found: Option<Vec<u8>>) -> Option<Seq<u8>> {
    match found {
        Option::Some(k) => Option::Some(k@),
        Option::None => Option::None,
    }
}

/// Round trip through the store: setting the key from a raw input line and
/// then looking it up returns exactly that line with surrounding white space
/// stripped — a trailing newline never reaches the stored key.
pub proof fn stored_key_round_trip(input: Seq<u8>)
    ensures
        lookup_meaning(store_after_set(input)) == Result::<Seq<u8>, FlowErrorModel>::Ok(
            trimmed(input),
        ),
{
}

/// A key free of surrounding white space, entered with the trailing newline
/// the input line carries, is stored and looked up exactly as provided.
pub proof fn clean_key_with_newline_round_trips(key: Seq<u8>)
    requires
        key.len() > 0 ==> !is_ascii_ws(key[0]) && !is_ascii_ws(key.last()),
    ensures
        lookup_meaning(store_after_set(key.push(10))) == Result::<Seq<u8>, FlowErrorModel>::Ok(
            key,
        ),
{
    trim_drops_trailing_ws(key, 10);
    trim_of_clean_text(key);
}

} // verus!
