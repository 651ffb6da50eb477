//! The staged-diff context text: a fixed header followed by the diff, cut to
//! a fixed byte length and marked when it is too long. Truncation works on
//! raw byte length, not on line or hunk boundaries; that lossy simplification
//! is deliberate and is stated exactly here.

use crate::text::{append_vec, str_to_bytes, subvec};
use vstd::prelude::*;
use vstd::string::StringSliceAdditionalSpecFns;

verus! {

/// Staged diffs longer than this many bytes enter the prompt cut to this
/// length.
pub const DIFF_LIMIT: usize = 4000;

/// The marker appended in place of the bytes that truncation removed.
pub open spec fn truncation_marker() -> Seq<u8> {
    "... (truncated)".spec_bytes()
}

/// The header line that introduces the diff context.
pub open spec fn diff_header() -> Seq<u8> {
    "Git diff for staged changes:\n".spec_bytes()
}

/// The diff as it enters the context text: its first `DIFF_LIMIT` bytes plus
/// the marker when it is longer than the limit, the whole diff otherwise.
pub open spec fn truncated_diff(d: Seq<u8>) -> Seq<u8> {
    if d.len() > DIFF_LIMIT {
        d.take(DIFF_LIMIT as int) + truncation_marker()
    } else {
        d
    }
}

/// The context text handed to the message generator.
pub open spec fn diff_context(d: Seq<u8>) -> Seq<u8> {
    diff_header() + truncated_diff(d)
}

/// Builds the context text for a raw staged diff.
pub fn build_diff_context(diff: &Vec<u8>) -> (r: Vec<u8>)
    ensures
        r@ == diff_context(diff@),
{
    let mut r = str_to_bytes("Git diff for staged changes:\n");
    if diff.len() > DIFF_LIMIT {
        let head = subvec(diff, 0, DIFF_LIMIT);
        append_vec(&mut r, &head);
        let marker = str_to_bytes("... (truncated)");
        append_vec(&mut r, &marker);
        proof {
            assert(diff@.subrange(0, DIFF_LIMIT as int) =~= diff@.take(DIFF_LIMIT as int));
            assert(r@ =~= diff_context(diff@));
        }
    } else {
        append_vec(&mut r, diff);
    }
    r
}

/// A diff shorter than the limit enters the context text unchanged: the
/// result is exactly the fixed header followed by the diff.
pub proof fn short_diff_is_kept_whole(d: Seq<u8>)
    requires
        d.len() < DIFF_LIMIT,
    ensures
        diff_context(d) == diff_header() + d,
{
}

/// A diff longer than the limit contributes exactly its first `DIFF_LIMIT`
/// bytes, followed by the literal truncation marker. (A diff of exactly the
/// limit is kept whole and unmarked.)
pub proof fn long_diff_is_cut_and_marked(d: Seq<u8>)
    requires
        d.len() > DIFF_LIMIT,
    ensures
        diff_context(d) == diff_header() + d.take(DIFF_LIMIT as int) + truncation_marker(),
        diff_context(d).len() == diff_header().len() + DIFF_LIMIT + truncation_marker().len(),
{
    assert(diff_header() + (d.take(DIFF_LIMIT as int) + truncation_marker()) =~= diff_header()
        + d.take(DIFF_LIMIT as int) + truncation_marker());
}

} // verus!
