//! The completion request body: one JSON object naming the model, a single
//! user-role message holding the prompt, and the output-token cap. The
//! object is framed here byte for byte, with its keys in sorted order, so
//! only the prompt text needs escaping.

use crate::text::{append_vec, str_to_bytes};
use vstd::prelude::*;
use vstd::string::StringSliceAdditionalSpecFns;

verus! {

/// The lowercase hexadecimal digit for a value below sixteen.
pub open spec fn hex_digit(n: u8) -> u8 {
    if n < 10 {
        (48 + n) as u8
    } else {
        (87 + n) as u8
    }
}

/// How one byte of text appears inside a JSON string literal: quote and
/// backslash under a backslash, the named control characters by their short
/// escapes, any other control byte spelled out in hexadecimal, and every
/// remaining byte as itself.
pub open spec fn escape_byte(b: u8) -> Seq<u8> {
    if b == 34 {
        seq![92u8, 34u8]
    } else if b == 92 {
        seq![92u8, 92u8]
    } else if b == 8 {
        seq![92u8, 98u8]
    } else if b == 9 {
        seq![92u8, 116u8]
    } else if b == 10 {
        seq![92u8, 110u8]
    } else if b == 12 {
        seq![92u8, 102u8]
    } else if b == 13 {
        seq![92u8, 114u8]
    } else if b < 32 {
        seq![92u8, 117u8, 48u8, 48u8, hex_digit(b / 16), hex_digit(b % 16)]
    } else {
        seq![b]
    }
}

/// The JSON escaping of a whole text, byte by byte.
pub open spec fn escaped(s: Seq<u8>) -> Seq<u8>
    decreases s.len(),
{
    if s.len() == 0 {
        Seq::empty()
    } else {
        escaped(s.drop_last()) + escape_byte(s.last())
    }
}

fn push_escaped_byte(out: &mut Vec<u8>, b: u8)
    ensures
        final(out)@ == old(out)@ + escape_byte(b),
{
    if b == 34 {
        out.push(92);
        out.push(34);
    } else if b == 92 {
        out.push(92);
        out.push(92);
    } else if b == 8 {
        out.push(92);
        out.push(98);
    } else if b == 9 {
        out.push(92);
        out.push(116);
    } else if b == 10 {
        out.push(92);
        out.push(110);
    } else if b == 12 {
        out.push(92);
        out.push(102);
    } else if b == 13 {
        out.push(92);
        out.push(114);
    } else if b < 32 {
        out.push(92);
        out.push(117);
        out.push(48);
        out.push(48);
        let hi = b / 16;
        let lo = b % 16;
        out.push(
            if hi < 10 {
                48 + hi
            } else {
                87 + hi
            },
        );
        out.push(
            if lo < 10 {
                48 + lo
            } else {
                87 + lo
            },
        );
    } else {
        out.push(b);
    }
    proof {
        assert(out@ =~= old(out)@ + escape_byte(b));
    }
}

/// Appends `s`, escaped for the inside of a JSON string literal, to `out`.
pub fn append_escaped(out: &mut Vec<u8>, s: &Vec<u8>)
    ensures
        final(out)@ == old(out)@ + escaped(s@),
{
    proof {
        assert(old(out)@ + escaped(s@.take(0)) =~= old(out)@);
    }
    let mut i: usize = 0;
    while i < s.len()
        invariant
            i <= s@.len(),
            out@ == old(out)@ + escaped(s@.take(i as int)),
        decreases s@.len() - i,
    {
        push_escaped_byte(out, s[i]);
        proof {
            assert(s@.take(i + 1).drop_last() =~= s@.take(i as int));
            assert(s@.take(i + 1).last() == s@[i as int]);
            assert(out@ =~= old(out)@ + escaped(s@.take(i + 1)));
        }
        i += 1;
    }
    proof {
        assert(s@.take(s@.len() as int) =~= s@);
    }
}

/// The request body sent to the completion endpoint: the output-token cap,
/// the single user-role message holding the escaped prompt, and the model
/// name, as one JSON object with sorted keys.
pub open spec fn request_body_text(prompt: Seq<u8>) -> Seq<u8> {
    "{\"max_tokens\":100,\"messages\":[{\"content\":\"".spec_bytes() + escaped(prompt)
        + "\",\"role\":\"user\"}],\"model\":\"gpt-4o\"}".spec_bytes()
}

/// Frames the completion request body around a prompt.
pub fn build_request_body(prompt: &Vec<u8>) -> (r: Vec<u8>)
    ensures
        r@ == request_body_text(prompt@),
{
    let mut r = str_to_bytes("{\"max_tokens\":100,\"messages\":[{\"content\":\"");
    append_escaped(&mut r, prompt);
    let tail = str_to_bytes("\",\"role\":\"user\"}],\"model\":\"gpt-4o\"}");
    append_vec(&mut r, &tail);
    proof {
        assert(r@ =~= request_body_text(prompt@));
    }
    r
}

} // verus!
