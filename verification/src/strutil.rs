//! Verified character-level string utilities.
//!
//! The path logic of this library works on `String` values viewed as
//! `Seq<char>`.  These helpers provide equality, prefix, suffix and substring
//! tests whose results are pinned exactly to the corresponding statements
//! about the views.

use vstd::prelude::*;

verus! {

/// `needle` occurs in `hay` starting at position `i`.
pub open spec fn occurs_at(hay: Seq<char>, needle: Seq<char>, i: int) -> bool {
    0 <= i && i + needle.len() <= hay.len() && hay.subrange(i, i + needle.len()) == needle
}

/// `needle` occurs somewhere in `hay`.
pub open spec fn contains_seq(hay: Seq<char>, needle: Seq<char>) -> bool {
    exists|i: int| occurs_at(hay, needle, i)
}

/// `hay` ends with `needle`.
pub open spec fn ends_with_seq(hay: Seq<char>, needle: Seq<char>) -> bool {
    needle.is_suffix_of(hay)
}

/// Exact character-wise equality of two string slices.
pub fn str_eq(a: &str, b: &str) -> (r: bool)
    ensures
        r == (a@ == b@),
{
    let alen = a.unicode_len();
    let blen = b.unicode_len();
    if alen != blen {
        assert(a@ != b@) by {
            assert(a@.len() != b@.len());
        }
        return false;
    }
    let mut i: usize = 0;
    while i < alen
        invariant
            alen == a@.len(),
            alen == b@.len(),
            0 <= i <= alen,
            forall|j: int| 0 <= j < i ==> a@[j] == b@[j],
        decreases alen - i,
    {
        if a.get_char(i) != b.get_char(i) {
            return false;
        }
        i += 1;
    }
    proof {
        assert(a@ =~= b@);
    }
    true
}

/// Does `s` start with `p` (character-wise)?
pub fn starts_with_str(s: &str, p: &str) -> (r: bool)
    ensures
        r == p@.is_prefix_of(s@),
{
    let slen = s.unicode_len();
    let plen = p.unicode_len();
    if plen > slen {
        return false;
    }
    let mut i: usize = 0;
    while i < plen
        invariant
            slen == s@.len(),
            plen == p@.len(),
            plen <= slen,
            0 <= i <= plen,
            forall|j: int| 0 <= j < i ==> s@[j] == p@[j],
        decreases plen - i,
    {
        if s.get_char(i) != p.get_char(i) {
            assert(!p@.is_prefix_of(s@)) by {
                assert(s@.subrange(0, p@.len() as int)[i as int] == s@[i as int]);
            }
            return false;
        }
        i += 1;
    }
    proof {
        assert(s@.subrange(0, p@.len() as int) =~= p@);
    }
    true
}

/// Does `s` end with `p` (character-wise)?
pub fn ends_with_str(s: &str, p: &str) -> (r: bool)
    ensures
        r == ends_with_seq(s@, p@),
{
    let slen = s.unicode_len();
    let plen = p.unicode_len();
    if plen > slen {
        return false;
    }
    let base = slen - plen;
    let mut i: usize = 0;
    while i < plen
        invariant
            slen == s@.len(),
            plen == p@.len(),
            base == slen - plen,
            0 <= i <= plen,
            forall|j: int| 0 <= j < i ==> s@[base + j] == p@[j],
        decreases plen - i,
    {
        if s.get_char(base + i) != p.get_char(i) {
            assert(!ends_with_seq(s@, p@)) by {
                assert(s@.subrange(base as int, s@.len() as int)[i as int] == s@[base + i]);
            }
            return false;
        }
        i += 1;
    }
    proof {
        assert(s@.subrange(base as int, s@.len() as int) =~= p@);
    }
    true
}

/// Does `needle` occur in `hay` starting at position `at`?
fn occurs_at_exec(hay: &str, needle: &str, at: usize) -> (r: bool)
    requires
        at + needle@.len() <= hay@.len(),
    ensures
        r == occurs_at(hay@, needle@, at as int),
{
    let hlen = hay.unicode_len();
    let nlen = needle.unicode_len();
    let mut i: usize = 0;
    while i < nlen
        invariant
            hlen == hay@.len(),
            nlen == needle@.len(),
            at + nlen <= hlen,
            0 <= i <= nlen,
            forall|j: int| 0 <= j < i ==> hay@[at + j] == needle@[j],
        decreases nlen - i,
    {
        if hay.get_char(at + i) != needle.get_char(i) {
            assert(!occurs_at(hay@, needle@, at as int)) by {
                assert(hay@.subrange(at as int, at + needle@.len())[i as int] == hay@[at + i]);
            }
            return false;
        }
        i += 1;
    }
    proof {
        assert(hay@.subrange(at as int, at + needle@.len()) =~= needle@);
    }
    true
}

/// Does `needle` occur anywhere in `hay`?
pub fn contains_str(hay: &str, needle: &str) -> (r: bool)
    ensures
        r == contains_seq(hay@, needle@),
{
    let hlen = hay.unicode_len();
    let nlen = needle.unicode_len();
    if nlen > hlen {
        assert(!contains_seq(hay@, needle@));
        return false;
    }
    let last = hlen - nlen;
    let mut at: usize = 0;
    loop
        invariant
            hlen == hay@.len(),
            nlen == needle@.len(),
            nlen <= hlen,
            last == hlen - nlen,
            0 <= at <= last,
            forall|i: int| 0 <= i < at ==> !occurs_at(hay@, needle@, i),
        decreases last - at,
    {
        if occurs_at_exec(hay, needle, at) {
            return true;
        }
        if at == last {
            proof {
                assert forall|i: int| !occurs_at(hay@, needle@, i) by {
                    if occurs_at(hay@, needle@, i) {
                        assert(0 <= i <= last);
                    }
                }
            }
            return false;
        }
        at += 1;
    }
}

/// The characters of `s` from `from` (inclusive) to `to` (exclusive), as an
/// owned string.
pub fn substring(s: &str, from: usize, to: usize) -> (r: String)
    requires
        from <= to <= s@.len(),
    ensures
        r@ == s@.subrange(from as int, to as int),
{
    let sub = s.substring_char(from, to);
    sub.to_owned()
}

/// Concatenation of two string slices.
pub fn concat_str(a: &str, b: &str) -> (r: String)
    ensures
        r@ == a@ + b@,
{
    let mut r = a.to_owned();
    r.append(b);
    r
}

} // verus!
