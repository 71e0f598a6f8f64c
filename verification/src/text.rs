//! Character-level helpers over `str` and `String`.

use vstd::prelude::*;
use vstd::utf8::*;

verus! {

/// The characters of `s`, in order.
pub fn chars_of(s: &str) -> (v: Vec<char>)
    ensures
        v@ == s@,
{
    broadcast use vstd::string::group_string_axioms;

    let mut v: Vec<char> = Vec::new();
    for c in it: s.chars()
        invariant
            it.seq() == s@,
            v@ == s@.subrange(0, it.index() as int),
    {
        v.push(c);
    }
    v
}

/// The length of `s` in bytes, that is of its UTF-8 encoding.
pub fn byte_len(s: &str) -> (n: usize)
    ensures
        n == encode_utf8(s@).len(),
{
    broadcast use vstd::slice::group_slice_axioms;

    s.as_bytes().len()
}

/// Appends one character to a `String` (`String::push`).
#[verifier::external_body]
pub(crate) fn push_char(s: &mut String, c: char)
    ensures
        final(s)@ == old(s)@.push(c),
{
    s.push(c);
}

/// The `String` whose characters are `v`.
pub fn string_from_chars(v: &Vec<char>) -> (s: String)
    ensures
        s@ == v@,
{
    let mut s = String::new();
    let mut i: usize = 0;
    while i < v.len()
        invariant
            i <= v.len(),
            s@ == v@.subrange(0, i as int),
        decreases v.len() - i,
    {
        push_char(&mut s, v[i]);
        i = i + 1;
    }
    s
}

/// Whether `a` and `b` hold the same characters.
pub fn same_text(a: &str, b: &str) -> (r: bool)
    ensures
        r == (a@ == b@),
{
    let x = chars_of(a);
    let y = chars_of(b);
    if x.len() != y.len() {
        return false;
    }
    let mut i: usize = 0;
    while i < x.len()
        invariant
            x@ == a@,
            y@ == b@,
            x.len() == y.len(),
            i <= x.len(),
            forall|j: int| 0 <= j < i ==> x@[j] == y@[j],
        decreases x.len() - i,
    {
        if x[i] != y[i] {
            return false;
        }
        i = i + 1;
    }
    assert(a@ =~= b@);
    true
}

/// Whether `c` has the Unicode `White_Space` property (the property that
/// `char::is_whitespace` and `str::trim` go by): U+0009 to U+000D, space,
/// U+0085, U+00A0, U+1680, U+2000 to U+200A, U+2028, U+2029, U+202F, U+205F
/// and U+3000.
pub open spec fn white_space(c: char) -> bool {
    ('\u{9}' <= c <= '\u{d}') || c == ' ' || c == '\u{85}' || c == '\u{a0}' || c == '\u{1680}'
        || ('\u{2000}' <= c <= '\u{200a}') || c == '\u{2028}' || c == '\u{2029}' || c
        == '\u{202f}' || c == '\u{205f}' || c == '\u{3000}'
}

/// Whether `c` is white space (see [`white_space`]).
pub fn is_white_space(c: char) -> (r: bool)
    ensures
        r == white_space(c),
{
    ('\u{9}' <= c && c <= '\u{d}') || c == ' ' || c == '\u{85}' || c == '\u{a0}' || c
        == '\u{1680}' || ('\u{2000}' <= c && c <= '\u{200a}') || c == '\u{2028}' || c
        == '\u{2029}' || c == '\u{202f}' || c == '\u{205f}' || c == '\u{3000}'
}

/// `i..j` delimits `s` once the white space at both ends is removed: all
/// characters before `i` and from `j` on are white space, and the first and
/// last characters kept are not.
pub open spec fn trim_bounds(s: Seq<char>, i: int, j: int) -> bool {
    &&& 0 <= i <= j <= s.len()
    &&& forall|k: int| 0 <= k < i ==> white_space(#[trigger] s[k])
    &&& forall|k: int| j <= k < s.len() ==> white_space(#[trigger] s[k])
    &&& i < j ==> !white_space(s[i]) && !white_space(s[j - 1])
}

/// `t` is `s` with its leading and trailing white space removed.
pub open spec fn is_trim_of(s: Seq<char>, t: Seq<char>) -> bool {
    exists|i: int, j: int| trim_bounds(s, i, j) && t == s.subrange(i, j)
}

/// `s` without its leading and trailing white space.
pub open spec fn trimmed(s: Seq<char>) -> Seq<char> {
    choose|t: Seq<char>| is_trim_of(s, t)
}

/// Removing the white space at both ends has one outcome only.
pub proof fn lemma_trim_unique(s: Seq<char>, t1: Seq<char>, t2: Seq<char>)
    requires
        is_trim_of(s, t1),
        is_trim_of(s, t2),
    ensures
        t1 == t2,
{
    let (i1, j1) = choose|i: int, j: int| trim_bounds(s, i, j) && t1 == s.subrange(i, j);
    let (i2, j2) = choose|i: int, j: int| trim_bounds(s, i, j) && t2 == s.subrange(i, j);
    if i1 < j1 && i2 < j2 {
        if i1 < i2 {
            assert(white_space(s[i1]));
        }
        if i2 < i1 {
            assert(white_space(s[i2]));
        }
        if j1 < j2 {
            assert(white_space(s[j2 - 1]));
        }
        if j2 < j1 {
            assert(white_space(s[j1 - 1]));
        }
        assert(t1 =~= t2);
    } else if i1 < j1 {
        assert(white_space(s[i1]));
    } else if i2 < j2 {
        assert(white_space(s[i2]));
    } else {
        assert(t1 =~= t2);
    }
}

/// `s` without its leading and trailing white space (`str::trim`).
pub fn trim(s: &str) -> (r: String)
    ensures
        is_trim_of(s@, r@),
        r@ == trimmed(s@),
{
    let v = chars_of(s);
    let n = v.len();
    let mut i: usize = 0;
    while i < n && is_white_space(v[i])
        invariant
            v@ == s@,
            n == v.len(),
            i <= n,
            forall|k: int| 0 <= k < i ==> white_space(#[trigger] v@[k]),
        decreases n - i,
    {
        i = i + 1;
    }
    let mut j: usize = n;
    while j > i && is_white_space(v[j - 1])
        invariant
            v@ == s@,
            n == v.len(),
            i <= j <= n,
            i < n ==> !white_space(v@[i as int]),
            forall|k: int| 0 <= k < i ==> white_space(#[trigger] v@[k]),
            forall|k: int| j <= k < n ==> white_space(#[trigger] v@[k]),
        decreases j - i,
    {
        j = j - 1;
    }
    let mut out = String::new();
    let mut k: usize = i;
    while k < j
        invariant
            v@ == s@,
            n == v.len(),
            i <= k <= j <= n,
            out@ == v@.subrange(i as int, k as int),
        decreases j - k,
    {
        push_char(&mut out, v[k]);
        k = k + 1;
    }
    assert(trim_bounds(s@, i as int, j as int));
    assert(is_trim_of(s@, out@));
    proof {
        lemma_trim_unique(s@, out@, trimmed(s@));
    }
    out
}

/// The lower-case mapping of a character sequence under the Unicode
/// `Lowercase` rules that `str::to_lowercase` applies.
pub uninterp spec fn lowercase_of(s: Seq<char>) -> Seq<char>;

/// The ASCII lower-case letter of `c`, or `c` itself.
pub open spec fn ascii_lower(c: char) -> char {
    if 'A' <= c <= 'Z' {
        ((c as u32) + 32) as char
    } else {
        c
    }
}

/// `str::to_lowercase`. Its result is named; the contract also states what
/// the mapping does on ASCII text: upper-case letters become lower-case and
/// every other character stays.
#[verifier::external_body]
pub(crate) fn to_lowercase(s: &str) -> (r: String)
    ensures
        r@ == lowercase_of(s@),
        is_ascii_chars(s@) ==> r@ == s@.map_values(|c: char| ascii_lower(c)),
{
    s.to_lowercase()
}

/// Whether `c` has the Unicode `Uppercase` property (`char::is_uppercase`).
pub uninterp spec fn uppercase_property(c: char) -> bool;

/// Whether `c` has the Unicode `Lowercase` property (`char::is_lowercase`).
pub uninterp spec fn lowercase_property(c: char) -> bool;

/// `char::is_uppercase`; on ASCII it holds of `A` to `Z` only.
#[verifier::external_body]
pub(crate) fn is_uppercase(c: char) -> (r: bool)
    ensures
        r == uppercase_property(c),
        c <= '\u{7f}' ==> (r <==> 'A' <= c <= 'Z'),
{
    c.is_uppercase()
}

/// `char::is_lowercase`; on ASCII it holds of `a` to `z` only.
#[verifier::external_body]
pub(crate) fn is_lowercase(c: char) -> (r: bool)
    ensures
        r == lowercase_property(c),
        c <= '\u{7f}' ==> (r <==> 'a' <= c <= 'z'),
{
    c.is_lowercase()
}

} // verus!
