//! ASCII case folding and the string comparisons built on it.
//!
//! Host names compare without regard to ASCII case. Everything here is stated
//! over `Seq<char>`, the view of `str`, so that callers can reason about a
//! comparison without knowing how it walks the string.

use vstd::prelude::*;
use vstd::string::StrSliceExecFns;
use vstd::string::StringSliceAdditionalSpecFns;
use vstd::utf8::encode_utf8;
use vstd::utf8::encode_utf8_decode_utf8;

verus! {

/// The lower-case form of an ASCII letter; any other character is left as it is.
pub open spec fn ascii_lower(c: char) -> char {
    if 'A' <= c && c <= 'Z' {
        ((c as u8) + 32) as char
    } else {
        c
    }
}

/// Two sequences of the same length whose characters agree after ASCII case folding.
pub open spec fn eq_ignore_ascii_case(a: Seq<char>, b: Seq<char>) -> bool {
    &&& a.len() == b.len()
    &&& forall|i: int| 0 <= i < a.len() ==> ascii_lower(#[trigger] a[i]) == ascii_lower(b[i])
}

/// The last `suffix.len()` characters of `s`, when `s` is long enough to have them.
pub open spec fn tail_of(s: Seq<char>, suffix: Seq<char>) -> Seq<char>
    recommends
        suffix.len() <= s.len(),
{
    s.subrange(s.len() - suffix.len(), s.len() as int)
}

/// `s` ends with `suffix`, up to ASCII case.
pub open spec fn ends_with_ignore_ascii_case(s: Seq<char>, suffix: Seq<char>) -> bool {
    suffix.len() <= s.len() && eq_ignore_ascii_case(tail_of(s, suffix), suffix)
}

/// Folds one character to lower case.
pub fn to_ascii_lower(c: char) -> (r: char)
    ensures
        r == ascii_lower(c),
{
    if 'A' <= c && c <= 'Z' {
        ((c as u8) + 32) as char
    } else {
        c
    }
}

/// Decides whether `s` ends with `suffix`, ignoring ASCII case.
pub fn str_ends_with_ignore_ascii_case(s: &str, suffix: &str) -> (r: bool)
    ensures
        r == ends_with_ignore_ascii_case(s@, suffix@),
{
    let n: usize = s.unicode_len();
    let m: usize = suffix.unicode_len();
    if m > n {
        return false;
    }
    let start: usize = n - m;
    let mut i: usize = 0;
    while i < m
        invariant
            n == s@.len(),
            m == suffix@.len(),
            m <= n,
            start == n - m,
            i <= m,
            forall|j: int|
                0 <= j < i ==> ascii_lower(#[trigger] tail_of(s@, suffix@)[j]) == ascii_lower(
                    suffix@[j],
                ),
        decreases m - i,
    {
        let a: char = s.get_char(start + i);
        let b: char = suffix.get_char(i);
        assert(tail_of(s@, suffix@)[i as int] == a);
        if to_ascii_lower(a) != to_ascii_lower(b) {
            return false;
        }
        i = i + 1;
    }
    true
}

/// Decides whether two strings hold the same characters.
pub fn str_eq(a: &str, b: &str) -> (r: bool)
    ensures
        r == (a@ == b@),
{
    let x: &[u8] = a.as_bytes();
    let y: &[u8] = b.as_bytes();
    proof {
        // Equal encodings decode to equal strings.
        encode_utf8_decode_utf8(a@);
        encode_utf8_decode_utf8(b@);
    }
    if x.len() != y.len() {
        return false;
    }
    let mut i: usize = 0;
    while i < x.len()
        invariant
            x@ == encode_utf8(a@),
            y@ == encode_utf8(b@),
            x@.len() == y@.len(),
            i <= x@.len(),
            forall|j: int| 0 <= j < i ==> x@[j] == y@[j],
        decreases x@.len() - i,
    {
        if x[i] != y[i] {
            return false;
        }
        i = i + 1;
    }
    assert(x@ =~= y@);
    true
}

/// Comparison up to ASCII case is reflexive, symmetric and transitive.
pub proof fn lemma_eq_ignore_ascii_case_is_equivalence(a: Seq<char>, b: Seq<char>, c: Seq<char>)
    ensures
        eq_ignore_ascii_case(a, a),
        eq_ignore_ascii_case(a, b) ==> eq_ignore_ascii_case(b, a),
        eq_ignore_ascii_case(a, b) && eq_ignore_ascii_case(b, c) ==> eq_ignore_ascii_case(a, c),
{
}

/// Strings that agree up to ASCII case have tails that agree up to ASCII case.
pub proof fn lemma_tails_eq_ignore_ascii_case(a: Seq<char>, b: Seq<char>, suffix: Seq<char>)
    requires
        eq_ignore_ascii_case(a, b),
        suffix.len() <= a.len(),
    ensures
        eq_ignore_ascii_case(tail_of(a, suffix), tail_of(b, suffix)),
{
    let ta = tail_of(a, suffix);
    let tb = tail_of(b, suffix);
    let start = a.len() - suffix.len();
    assert forall|i: int| 0 <= i < ta.len() implies ascii_lower(#[trigger] ta[i]) == ascii_lower(
        tb[i],
    ) by {
        assert(ta[i] == a[start + i]);
        assert(tb[i] == b[start + i]);
    }
}

} // verus!
