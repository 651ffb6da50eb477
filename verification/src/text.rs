//! Byte-level text handling shared by the rest of the library: ASCII
//! white-space trimming, line splitting in the manner of `str::lines`,
//! joining with a separator, and small building blocks for assembling and
//! comparing byte strings.

use vstd::prelude::*;
use vstd::slice::slice_index_get;
use vstd::string::StringSliceAdditionalSpecFns;

verus! {

/// A byte vector's deep view is its view: element by element, a byte is its
/// own model.
pub broadcast proof fn bytes_deep_view_is_view(v: Vec<u8>)
    ensures
        #[trigger] v.deep_view() == v@,
{
    assert(v.deep_view() =~= v@);
}

/// The ASCII white-space bytes: horizontal tab through carriage return, and
/// space. These are exactly the ASCII characters that `char::is_whitespace`
/// accepts, so trimming them from UTF-8 text never splits a multi-byte
/// character.
pub open spec fn is_ascii_ws(b: u8) -> bool {
    9 <= b <= 13 || b == 32
}

/// `s` with its leading ASCII white space removed.
pub open spec fn trim_left(s: Seq<u8>) -> Seq<u8>
    decreases s.len(),
{
    if s.len() > 0 && is_ascii_ws(s[0]) {
        trim_left(s.drop_first())
    } else {
        s
    }
}

/// `s` with its trailing ASCII white space removed.
pub open spec fn trim_right(s: Seq<u8>) -> Seq<u8>
    decreases s.len(),
{
    if s.len() > 0 && is_ascii_ws(s.last()) {
        trim_right(s.drop_last())
    } else {
        s
    }
}

/// `s` with both leading and trailing ASCII white space removed.
pub open spec fn trimmed(s: Seq<u8>) -> Seq<u8> {
    trim_left(trim_right(s))
}

fn byte_is_ws(b: u8) -> (r: bool)
    ensures
        r == is_ascii_ws(b),
{
    9 <= b && b <= 13 || b == 32
}

/// Copies `s[from..to]` into a fresh vector.
pub fn subvec(s: &Vec<u8>, from: usize, to: usize) -> (r: Vec<u8>)
    requires
        from <= to <= s@.len(),
    ensures
        r@ == s@.subrange(from as int, to as int),
{
    let mut r: Vec<u8> = Vec::new();
    let mut i: usize = from;
    while i < to
        invariant
            from <= i <= to <= s@.len(),
            r@ == s@.subrange(from as int, i as int),
        decreases to - i,
    {
        r.push(s[i]);
        proof {
            assert(s@.subrange(from as int, i + 1) =~= s@.subrange(from as int, i as int).push(
                s@[i as int],
            ));
        }
        i += 1;
    }
    r
}

/// Appends every byte of `src` to `dst`.
pub fn append_slice(dst: &mut Vec<u8>, src: &[u8])
    ensures
        final(dst)@ == old(dst)@ + src@,
{
    let mut i: usize = 0;
    while i < src.len()
        invariant
            i <= src@.len(),
            dst@ == old(dst)@ + src@.take(i as int),
        decreases src@.len() - i,
    {
        dst.push(*slice_index_get(src, i));
        proof {
            assert(old(dst)@ + src@.take(i + 1) =~= (old(dst)@ + src@.take(i as int)).push(
                src@[i as int],
            ));
        }
        i += 1;
    }
    proof {
        assert(src@.take(src@.len() as int) =~= src@);
    }
}

/// Appends every byte of `src` to `dst`.
pub fn append_vec(dst: &mut Vec<u8>, src: &Vec<u8>)
    ensures
        final(dst)@ == old(dst)@ + src@,
{
    append_slice(dst, src.as_slice());
}

/// Copies the UTF-8 bytes of a string slice into a fresh vector.
pub fn str_to_bytes(s: &str) -> (r: Vec<u8>)
    ensures
        r@ == s.spec_bytes(),
{
    let mut r: Vec<u8> = Vec::new();
    append_slice(&mut r, s.as_bytes());
    proof {
        assert(Seq::<u8>::empty() + s.spec_bytes() =~= s.spec_bytes());
    }
    r
}

/// Byte-for-byte equality of two vectors.
pub fn bytes_eq(a: &Vec<u8>, b: &Vec<u8>) -> (r: bool)
    ensures
        r == (a@ == b@),
{
    if a.len() != b.len() {
        return false;
    }
    let mut i: usize = 0;
    while i < a.len()
        invariant
            i <= a@.len(),
            a@.len() == b@.len(),
            forall|k: int| 0 <= k < i ==> a@[k] == b@[k],
        decreases a@.len() - i,
    {
        if a[i] != b[i] {
            return false;
        }
        i += 1;
    }
    proof {
        assert(a@ =~= b@);
    }
    true
}

/// Removes leading and trailing ASCII white space.
pub fn trim_bytes(s: &Vec<u8>) -> (r: Vec<u8>)
    ensures
        r@ == trimmed(s@),
{
    let mut end: usize = s.len();
    proof {
        assert(s@.take(s@.len() as int) =~= s@);
    }
    while end > 0 && byte_is_ws(s[end - 1])
        invariant
            end <= s@.len(),
            trim_right(s@) == trim_right(s@.take(end as int)),
        decreases end,
    {
        proof {
            assert(s@.take(end as int).drop_last() =~= s@.take(end - 1));
        }
        end = end - 1;
    }
    proof {
        assert(trim_right(s@) == s@.take(end as int));
    }
    let mut start: usize = 0;
    while start < end && byte_is_ws(s[start])
        invariant
            start <= end <= s@.len(),
            trim_left(s@.take(end as int)) == trim_left(s@.subrange(start as int, end as int)),
        decreases end - start,
    {
        proof {
            assert(s@.subrange(start as int, end as int).drop_first() =~= s@.subrange(
                start + 1,
                end as int,
            ));
        }
        start = start + 1;
    }
    proof {
        assert(s@.take(end as int) =~= s@.subrange(0, end as int));
        assert(trimmed(s@) == s@.subrange(start as int, end as int));
    }
    subvec(s, start, end)
}

/// A trailing white-space byte never survives trimming: appending one leaves
/// the trimmed text unchanged. In particular a trailing newline is stripped.
pub proof fn trim_drops_trailing_ws(s: Seq<u8>, b: u8)
    requires
        is_ascii_ws(b),
    ensures
        trimmed(s.push(b)) == trimmed(s),
{
    assert(s.push(b).last() == b);
    assert(s.push(b).drop_last() =~= s);
}

/// Text free of surrounding white space is a fixed point of trimming.
pub proof fn trim_of_clean_text(s: Seq<u8>)
    requires
        s.len() > 0 ==> !is_ascii_ws(s[0]) && !is_ascii_ws(s.last()),
    ensures
        trimmed(s) == s,
{
}

/// The position of the first newline byte in `s`, or `s.len()` if there is
/// none.
pub open spec fn find_nl(s: Seq<u8>) -> int
    decreases s.len(),
{
    if s.len() == 0 {
        0
    } else if s[0] == 10 {
        0
    } else {
        1 + find_nl(s.drop_first())
    }
}

pub proof fn lemma_find_nl_props(s: Seq<u8>)
    ensures
        0 <= find_nl(s) <= s.len(),
        find_nl(s) < s.len() ==> s[find_nl(s)] == 10,
        forall|k: int| 0 <= k < find_nl(s) ==> s[k] != 10,
    decreases s.len(),
{
    if s.len() == 0 {
    } else if s[0] == 10 {
    } else {
        lemma_find_nl_props(s.drop_first());
        assert forall|k: int| 0 <= k < find_nl(s) implies s[k] != 10 by {
            if k > 0 {
                assert(s[k] == s.drop_first()[k - 1]);
            }
        }
    }
}

pub proof fn lemma_find_nl_eq(s: Seq<u8>, m: int)
    requires
        0 <= m <= s.len(),
        forall|k: int| 0 <= k < m ==> s[k] != 10,
        m < s.len() ==> s[m] == 10,
    ensures
        find_nl(s) == m,
    decreases s.len(),
{
    if s.len() == 0 {
    } else if s[0] == 10 {
    } else {
        assert forall|k: int| 0 <= k < m - 1 implies s.drop_first()[k] != 10 by {
            assert(s.drop_first()[k] == s[k + 1]);
        }
        lemma_find_nl_eq(s.drop_first(), m - 1);
    }
}

/// A line with a trailing carriage return loses it, as under `str::lines`.
pub open spec fn strip_cr(s: Seq<u8>) -> Seq<u8> {
    if s.len() > 0 && s.last() == 13 {
        s.drop_last()
    } else {
        s
    }
}

/// The lines of `s`, in the manner of `str::lines` on bytes: split at each
/// newline, drop one trailing carriage return per line, and do not report an
/// empty line after a final newline.
pub open spec fn lines_of(s: Seq<u8>) -> Seq<Seq<u8>>
    decreases s.len(),
    via lines_of_decreases
{
    if s.len() == 0 {
        Seq::empty()
    } else {
        let i = find_nl(s);
        if i >= s.len() {
            seq![strip_cr(s)]
        } else {
            seq![strip_cr(s.take(i))] + lines_of(s.skip(i + 1))
        }
    }
}

#[via_fn]
proof fn lines_of_decreases(s: Seq<u8>) {
    lemma_find_nl_props(s);
}

/// Finds the first newline at or after `from`, returning `s.len()` if there
/// is none.
pub fn find_newline(s: &Vec<u8>, from: usize) -> (j: usize)
    requires
        from <= s@.len(),
    ensures
        from <= j <= s@.len(),
        j - from == find_nl(s@.skip(from as int)),
        j < s@.len() ==> s@[j as int] == 10,
{
    let mut j: usize = from;
    loop
        invariant
            from <= j <= s@.len(),
            forall|k: int| from <= k < j ==> s@[k] != 10,
        ensures
            from <= j <= s@.len(),
            forall|k: int| from <= k < j ==> s@[k] != 10,
            j == s@.len() || s@[j as int] == 10,
        decreases s@.len() - j,
    {
        if j == s.len() {
            break ;
        }
        if s[j] == 10 {
            break ;
        }
        j += 1;
    }
    proof {
        let suffix = s@.skip(from as int);
        assert forall|k: int| 0 <= k < j - from implies suffix[k] != 10 by {
            assert(suffix[k] == s@[from + k]);
        }
        if (j as int) - (from as int) < suffix.len() {
            assert(suffix[j - from] == s@[j as int]);
        }
        lemma_find_nl_eq(suffix, j - from);
    }
    j
}

pub proof fn lemma_deep_view_push(v: Vec<Vec<u8>>, prev: Vec<Vec<u8>>, x: Vec<u8>)
    requires
        v@ == prev@.push(x),
    ensures
        v.deep_view() =~= prev.deep_view().push(x@),
{
    assert forall|i: int| 0 <= i < v@.len() implies v.deep_view()[i] == prev.deep_view().push(
        x@,
    )[i] by {
        if i < prev@.len() {
            assert(v@[i] == prev@[i]);
        } else {
            assert(v@[i] == x);
        }
    }
}

/// Splits `s` into its lines, as `str::lines` would.
pub fn split_lines(s: &Vec<u8>) -> (r: Vec<Vec<u8>>)
    ensures
        r.deep_view() == lines_of(s@),
{
    let mut r: Vec<Vec<u8>> = Vec::new();
    let mut p: usize = 0;
    proof {
        assert(s@.skip(0) =~= s@);
        assert(r.deep_view() =~= Seq::<Seq<u8>>::empty());
        assert(lines_of(s@) =~= r.deep_view() + lines_of(s@.skip(0)));
    }
    while p < s.len()
        invariant
            p <= s@.len(),
            lines_of(s@) == r.deep_view() + lines_of(s@.skip(p as int)),
        decreases s@.len() - p,
    {
        let ghost prev = r;
        let ghost suffix = s@.skip(p as int);
        let j = find_newline(s, p);
        let mut line = subvec(s, p, j);
        if line.len() > 0 && line[line.len() - 1] == 13 {
            line.pop();
        }
        proof {
            if j == s@.len() {
                assert(s@.subrange(p as int, j as int) =~= suffix);
                assert(line@ == strip_cr(suffix));
            } else {
                assert(suffix.take(j - p) =~= s@.subrange(p as int, j as int));
                assert(line@ == strip_cr(suffix.take(j - p)));
            }
        }
        r.push(line);
        proof {
            lemma_deep_view_push(r, prev, line);
            if j == s@.len() {
                assert(lines_of(suffix) =~= seq![strip_cr(suffix)]);
                assert(s@.skip(s@.len() as int) =~= Seq::<u8>::empty());
                assert(lines_of(s@) =~= r.deep_view() + lines_of(s@.skip(s@.len() as int)));
            } else {
                assert(suffix.skip(j - p + 1) =~= s@.skip(j + 1));
                assert(lines_of(suffix) =~= seq![strip_cr(suffix.take(j - p))] + lines_of(
                    s@.skip(j + 1),
                ));
                assert(lines_of(s@) =~= r.deep_view() + lines_of(s@.skip(j + 1)));
            }
        }
        p = if j == s.len() {
            j
        } else {
            j + 1
        };
    }
    proof {
        assert(s@.skip(p as int) =~= Seq::<u8>::empty());
        assert(lines_of(s@) =~= r.deep_view());
    }
    r
}

/// The concatenation of `parts` with `sep` between consecutive elements.
pub open spec fn joined(parts: Seq<Seq<u8>>, sep: Seq<u8>) -> Seq<u8>
    decreases parts.len(),
{
    if parts.len() == 0 {
        Seq::empty()
    } else if parts.len() == 1 {
        parts[0]
    } else {
        joined(parts.drop_last(), sep) + sep + parts.last()
    }
}

/// Joins `parts` with `sep` between consecutive elements.
pub fn join_with(parts: &Vec<Vec<u8>>, sep: &Vec<u8>) -> (r: Vec<u8>)
    ensures
        r@ == joined(parts.deep_view(), sep@),
{
    let mut r: Vec<u8> = Vec::new();
    let mut i: usize = 0;
    while i < parts.len()
        invariant
            i <= parts@.len(),
            r@ == joined(parts.deep_view().take(i as int), sep@),
        decreases parts@.len() - i,
    {
        if i > 0 {
            append_vec(&mut r, sep);
        }
        append_vec(&mut r, &parts[i]);
        proof {
            let pv = parts.deep_view();
            assert(pv[i as int] == parts@[i as int]@);
            if i == 0 {
                assert(pv.take(1)[0] == pv[0]);
                assert(r@ =~= joined(pv.take(1), sep@));
            } else {
                assert(pv.take(i + 1).drop_last() =~= pv.take(i as int));
                assert(pv.take(i + 1).last() == pv[i as int]);
                assert(r@ =~= joined(pv.take(i + 1), sep@));
            }
        }
        i += 1;
    }
    proof {
        assert(parts.deep_view().take(parts@.len() as int) =~= parts.deep_view());
    }
    r
}

} // verus!
