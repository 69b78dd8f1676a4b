//! Character-level helpers for `&str` and `String`.
//!
//! Everything here is stated over the `Seq<char>` view of a string, so the
//! contracts of the rest of the crate never depend on byte offsets.

use vstd::prelude::*;
use vstd::string::*;

verus! {

/// The first index at or after `from` that holds `a` or `b`, or the length
/// of `s` when there is none.
pub open spec fn index_of_either(s: Seq<char>, from: int, a: char, b: char) -> int
    decreases s.len() - from,
{
    if from < 0 || from >= s.len() {
        s.len() as int
    } else if s[from] == a || s[from] == b {
        from
    } else {
        index_of_either(s, from + 1, a, b)
    }
}

/// The first index at or after `from` that holds `c`, or the length of `s`.
pub open spec fn index_of(s: Seq<char>, from: int, c: char) -> int {
    index_of_either(s, from, c, c)
}

/// `s` holds `c` somewhere.
pub open spec fn has_char(s: Seq<char>, c: char) -> bool {
    exists|i: int| 0 <= i < s.len() && s[i] == c
}

/// `s` begins with `p`.
pub open spec fn has_prefix(s: Seq<char>, p: Seq<char>) -> bool {
    p.len() <= s.len() && s.subrange(0, p.len() as int) == p
}

/// `s` ends with `p`.
pub open spec fn has_suffix(s: Seq<char>, p: Seq<char>) -> bool {
    p.len() <= s.len() && s.subrange(s.len() - p.len(), s.len() as int) == p
}

/// `s` without a leading `p`; `s` itself when it does not begin with `p`.
pub open spec fn strip_prefix(s: Seq<char>, p: Seq<char>) -> Seq<char> {
    if has_prefix(s, p) {
        s.subrange(p.len() as int, s.len() as int)
    } else {
        s
    }
}

/// The view of an optional string.
pub open spec fn opt_view(o: Option<String>) -> Option<Seq<char>> {
    match o {
        Some(s) => Some(s@),
        None => None,
    }
}

/// The views of a list of strings.
pub open spec fn strings_view(v: Seq<String>) -> Seq<Seq<char>> {
    v.map_values(|s: String| s@)
}

/// What `index_of_either` returns is in range, nothing before it is a
/// delimiter, and it points at a delimiter unless it is the length.
pub proof fn lemma_index_of_either(s: Seq<char>, from: int, a: char, b: char)
    requires
        0 <= from <= s.len(),
    ensures
        from <= index_of_either(s, from, a, b) <= s.len(),
        forall|k: int|
            from <= k < index_of_either(s, from, a, b) ==> s[k] != a && s[k] != b,
        index_of_either(s, from, a, b) < s.len() ==> {
            let r = index_of_either(s, from, a, b);
            s[r] == a || s[r] == b
        },
    decreases s.len() - from,
{
    if from < s.len() && !(s[from] == a || s[from] == b) {
        lemma_index_of_either(s, from + 1, a, b);
    }
}

/// An index with the three properties of `lemma_index_of_either` is the one
/// that `index_of_either` returns.
pub proof fn lemma_index_of_either_is(s: Seq<char>, from: int, a: char, b: char, r: int)
    requires
        0 <= from <= r <= s.len(),
        forall|k: int| from <= k < r ==> s[k] != a && s[k] != b,
        r < s.len() ==> s[r] == a || s[r] == b,
    ensures
        index_of_either(s, from, a, b) == r,
    decreases r - from,
{
    if from < r {
        lemma_index_of_either_is(s, from + 1, a, b, r);
    }
}

/// Copies the characters of `s` into a vector.
pub fn chars_of(s: &str) -> (r: Vec<char>)
    ensures
        r@ == s@,
{
    broadcast use vstd::string::group_string_axioms;

    let mut out: Vec<char> = Vec::new();
    for c in it: s.chars()
        invariant
            it.seq() == s@,
            out@ == s@.subrange(0, it.index() as int),
    {
        out.push(c);
        assert(out@ =~= s@.subrange(0, it.index() + 1));
    }
    assert(s@.subrange(0, s@.len() as int) =~= s@);
    out
}

/// Finds the first `a` or `b` at or after `from`.
pub fn find_either(v: &Vec<char>, from: usize, a: char, b: char) -> (r: usize)
    requires
        from <= v.len(),
    ensures
        r == index_of_either(v@, from as int, a, b),
        from <= r <= v.len(),
{
    let mut i: usize = from;
    while i < v.len() && v[i] != a && v[i] != b
        invariant
            from <= i <= v.len(),
            forall|k: int| from <= k < i ==> v@[k] != a && v@[k] != b,
        decreases v.len() - i,
    {
        i = i + 1;
    }
    proof {
        lemma_index_of_either_is(v@, from as int, a, b, i as int);
    }
    i
}

/// Tells whether `c` occurs at or after `from`.
pub fn occurs_from(v: &Vec<char>, from: usize, c: char) -> (r: bool)
    requires
        from <= v.len(),
    ensures
        r == has_char(v@.subrange(from as int, v.len() as int), c),
{
    let i: usize = find_either(v, from, c, c);
    proof {
        lemma_index_of_either(v@, from as int, c, c);
        let tail = v@.subrange(from as int, v.len() as int);
        if i < v.len() {
            assert(tail[i - from] == c);
        } else {
            assert forall|k: int| 0 <= k < tail.len() implies tail[k] != c by {
                assert(tail[k] == v@[from + k]);
            }
        }
    }
    i < v.len()
}

/// Tells whether `v` begins with `p`.
pub fn starts_with(v: &Vec<char>, p: &Vec<char>) -> (r: bool)
    ensures
        r == has_prefix(v@, p@),
{
    if p.len() > v.len() {
        return false;
    }
    let mut i: usize = 0;
    while i < p.len()
        invariant
            i <= p.len() <= v.len(),
            forall|k: int| 0 <= k < i ==> v@[k] == p@[k],
        decreases p.len() - i,
    {
        if v[i] != p[i] {
            proof {
                assert(v@.subrange(0, p.len() as int)[i as int] == v@[i as int]);
            }
            return false;
        }
        i = i + 1;
    }
    assert(v@.subrange(0, p.len() as int) =~= p@);
    true
}

/// Tells whether `v` ends with `p`.
pub fn ends_with(v: &Vec<char>, p: &Vec<char>) -> (r: bool)
    ensures
        r == has_suffix(v@, p@),
{
    if p.len() > v.len() {
        return false;
    }
    let off: usize = v.len() - p.len();
    let mut i: usize = 0;
    while i < p.len()
        invariant
            i <= p.len() <= v.len(),
            off == v.len() - p.len(),
            forall|k: int| 0 <= k < i ==> v@[off + k] == p@[k],
        decreases p.len() - i,
    {
        if v[off + i] != p[i] {
            proof {
                assert(v@.subrange(off as int, v.len() as int)[i as int] == v@[off + i]);
            }
            return false;
        }
        i = i + 1;
    }
    assert(v@.subrange(off as int, v.len() as int) =~= p@);
    true
}

/// Tells whether two strings hold the same characters.
pub fn same_text(a: &str, b: &str) -> (r: bool)
    ensures
        r == (a@ == b@),
{
    let x: Vec<char> = chars_of(a);
    let y: Vec<char> = chars_of(b);
    if x.len() != y.len() {
        return false;
    }
    let r: bool = starts_with(&x, &y);
    assert(x@.subrange(0, y@.len() as int) =~= x@);
    r
}

/// Tells whether `s` begins with `p`.
pub fn str_starts_with(s: &str, p: &str) -> (r: bool)
    ensures
        r == has_prefix(s@, p@),
{
    let x: Vec<char> = chars_of(s);
    let y: Vec<char> = chars_of(p);
    starts_with(&x, &y)
}

/// Tells whether `s` ends with `p`.
pub fn str_ends_with(s: &str, p: &str) -> (r: bool)
    ensures
        r == has_suffix(s@, p@),
{
    let x: Vec<char> = chars_of(s);
    let y: Vec<char> = chars_of(p);
    ends_with(&x, &y)
}

/// The characters of `s` from index `from` up to, not including, `to`.
pub fn slice_text(s: &str, from: usize, to: usize) -> (r: String)
    requires
        from <= to <= s@.len(),
    ensures
        r@ == s@.subrange(from as int, to as int),
{
    s.substring_char(from, to).to_owned()
}

/// `a` followed by `b`.
pub fn join2(a: &str, b: &str) -> (r: String)
    ensures
        r@ == a@ + b@,
{
    let mut out: String = a.to_owned();
    out.append(b);
    out
}

/// `a`, `b` and `c` in a row.
pub fn join3(a: &str, b: &str, c: &str) -> (r: String)
    ensures
        r@ == a@ + b@ + c@,
{
    let mut out: String = a.to_owned();
    out.append(b);
    out.append(c);
    out
}

} // verus!
