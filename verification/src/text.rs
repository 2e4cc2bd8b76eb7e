//! Verified building blocks for the string work the pipeline does:
//! concatenation, prefix/suffix tests, substring search, and clones that
//! provably preserve the value.

use vstd::prelude::*;
use vstd::string::*;

verus! {

/// `p` is a prefix of `s`.
pub open spec fn spec_starts_with(s: Seq<char>, p: Seq<char>) -> bool {
    p.len() <= s.len() && s.subrange(0, p.len() as int) == p
}

/// `p` is a suffix of `s`.
pub open spec fn spec_ends_with(s: Seq<char>, p: Seq<char>) -> bool {
    p.len() <= s.len() && s.subrange(s.len() - p.len(), s.len() as int) == p
}

/// `n` occurs in `s` starting at position `i`.
pub open spec fn spec_contains_at(s: Seq<char>, n: Seq<char>, i: int) -> bool {
    0 <= i && i + n.len() <= s.len() && s.subrange(i, i + n.len()) == n
}

/// `n` occurs somewhere in `s`.
pub open spec fn spec_contains(s: Seq<char>, n: Seq<char>) -> bool {
    exists|i: int| spec_contains_at(s, n, i)
}

/// The two string slices hold the same characters.
pub fn str_eq(a: &str, b: &str) -> (r: bool)
    ensures
        r == (a@ == b@),
{
    let sa: String = a.to_owned();
    let sb: String = b.to_owned();
    sa == sb
}

/// Concatenation of two string slices.
pub fn concat_str(a: &str, b: &str) -> (r: String)
    ensures
        r@ == a@ + b@,
{
    let mut r: String = a.to_owned();
    r.append(b);
    r
}

/// Whether `s` starts with `p`.
pub fn starts_with(s: &str, p: &str) -> (r: bool)
    ensures
        r == spec_starts_with(s@, p@),
{
    let slen = s.unicode_len();
    let plen = p.unicode_len();
    if plen > slen {
        return false;
    }
    let head = s.substring_char(0, plen);
    str_eq(head, p)
}

/// Whether `s` ends with `p`.
pub fn ends_with(s: &str, p: &str) -> (r: bool)
    ensures
        r == spec_ends_with(s@, p@),
{
    let slen = s.unicode_len();
    let plen = p.unicode_len();
    if plen > slen {
        return false;
    }
    let tail = s.substring_char(slen - plen, slen);
    str_eq(tail, p)
}

/// Whether `n` occurs as a contiguous substring of `s`.
pub fn contains_sub(s: &str, n: &str) -> (r: bool)
    ensures
        r == spec_contains(s@, n@),
{
    let slen = s.unicode_len();
    let nlen = n.unicode_len();
    if nlen > slen {
        assert(forall|i: int| !spec_contains_at(s@, n@, i));
        return false;
    }
    if nlen == 0 {
        assert(s@.subrange(0, 0) =~= n@);
        assert(spec_contains_at(s@, n@, 0));
        return true;
    }
    let mut i: usize = 0;
    while i <= slen - nlen
        invariant
            slen == s@.len(),
            nlen == n@.len(),
            1 <= nlen <= slen,
            i <= slen - nlen + 1,
            forall|j: int| 0 <= j < i ==> !spec_contains_at(s@, n@, j),
        decreases slen - nlen - i + 1,
    {
        let w = s.substring_char(i, i + nlen);
        if str_eq(w, n) {
            assert(spec_contains_at(s@, n@, i as int));
            return true;
        }
        i = i + 1;
    }
    assert(forall|j: int| !spec_contains_at(s@, n@, j));
    false
}

/// A copy of an optional string that is provably the same value.
pub fn clone_opt_string(o: &Option<String>) -> (r: Option<String>)
    ensures
        r == *o,
{
    match o {
        Option::Some(s) => Option::Some(s.clone()),
        Option::None => Option::None,
    }
}

/// A copy of a string vector whose view is provably unchanged.
pub fn clone_vec_string(v: &Vec<String>) -> (r: Vec<String>)
    ensures
        r@ == v@,
{
    let mut r: Vec<String> = Vec::new();
    let mut i: usize = 0;
    while i < v.len()
        invariant
            i <= v.len(),
            r@ =~= v@.subrange(0, i as int),
        decreases v.len() - i,
    {
        r.push(v[i].clone());
        i = i + 1;
    }
    proof {
        assert(r@ =~= v@);
    }
    r
}

/// The value of an optional string, or the given default.
pub fn opt_str_or<'a>(o: &'a Option<String>, d: &'a str) -> (r: &'a str)
    ensures
        r@ == (match *o {
            Option::Some(s) => s@,
            Option::None => d@,
        }),
{
    match o {
        Option::Some(s) => s.as_str(),
        Option::None => d,
    }
}

} // verus!
