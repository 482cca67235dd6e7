//! Substring search over character sequences.

use vstd::prelude::*;

verus! {

/// `needle` occurs in `hay` starting at position `at`.
pub open spec fn occurs_at(hay: Seq<char>, needle: Seq<char>, at: int) -> bool {
    &&& 0 <= at
    &&& at + needle.len() <= hay.len()
    &&& hay.subrange(at, at + needle.len()) == needle
}

/// `needle` occurs somewhere in `hay` as a contiguous run of characters.
pub open spec fn has_substring(hay: Seq<char>, needle: Seq<char>) -> bool {
    exists|at: int| occurs_at(hay, needle, at)
}

/// The first `upto` characters of `needle` agree with `hay` from `at` on.
pub open spec fn agrees_upto(hay: Seq<char>, needle: Seq<char>, at: int, upto: int) -> bool {
    forall|k: int| 0 <= k < upto ==> #[trigger] hay[at + k] == needle[k]
}

/// Agreement on every character of `needle` is an occurrence.
pub proof fn lemma_occurs_iff_agrees(hay: Seq<char>, needle: Seq<char>, at: int)
    requires
        0 <= at,
        at + needle.len() <= hay.len(),
    ensures
        occurs_at(hay, needle, at) <==> agrees_upto(hay, needle, at, needle.len() as int),
{
    let window = hay.subrange(at, at + needle.len());
    if agrees_upto(hay, needle, at, needle.len() as int) {
        assert forall|k: int| 0 <= k < needle.len() implies window[k] == needle[k] by {
            assert(hay[at + k] == needle[k]);
        }
        assert(window =~= needle);
    }
    if occurs_at(hay, needle, at) {
        assert forall|k: int| 0 <= k < needle.len() implies #[trigger] hay[at + k]
            == needle[k] by {
            assert(window[k] == hay[at + k]);
        }
    }
}

/// The characters of a string slice, in order.
pub fn chars_of(s: &str) -> (out: Vec<char>)
    ensures
        out@ == s@,
{
    broadcast use vstd::string::group_string_axioms;

    let mut out: Vec<char> = Vec::new();
    for c in it: s.chars()
        invariant
            it.seq() == s@,
            out@ == it.seq().take(it.index()),
    {
        out.push(c);
        assert(out@ =~= it.seq().take(it.index() + 1));
    }
    assert(out@ =~= s@);
    out
}

/// Whether `needle` matches `hay` at position `at`.
pub fn matches_at(hay: &[char], needle: &[char], at: usize) -> (found: bool)
    requires
        at + needle@.len() <= hay@.len(),
    ensures
        found == occurs_at(hay@, needle@, at as int),
{
    let m: usize = needle.len();
    let n: usize = hay.len();
    let mut k: usize = 0;
    while k < m
        invariant
            m == needle@.len(),
            n == hay@.len(),
            k <= m,
            at + m <= hay@.len(),
            agrees_upto(hay@, needle@, at as int, k as int),
        decreases m - k,
    {
        if hay[at + k] != needle[k] {
            proof {
                lemma_occurs_iff_agrees(hay@, needle@, at as int);
                assert(hay@[at as int + k as int] != needle@[k as int]);
            }
            return false;
        }
        k += 1;
    }
    proof {
        lemma_occurs_iff_agrees(hay@, needle@, at as int);
    }
    true
}

/// Whether `needle` occurs anywhere in `hay`.
pub fn find_in(hay: &[char], needle: &[char]) -> (found: bool)
    ensures
        found == has_substring(hay@, needle@),
{
    let n: usize = hay.len();
    let m: usize = needle.len();
    if m > n {
        return false;
    }
    let last: usize = n - m;
    let mut at: usize = 0;
    while at < last
        invariant
            n == hay@.len(),
            m == needle@.len(),
            last == n - m,
            at <= last,
            forall|j: int| 0 <= j < at ==> !occurs_at(hay@, needle@, j),
        decreases last - at,
    {
        if matches_at(hay, needle, at) {
            return true;
        }
        at += 1;
    }
    matches_at(hay, needle, last)
}

/// Whether the text `needle` occurs anywhere in the text `hay`.
pub fn contains(hay: &str, needle: &str) -> (found: bool)
    ensures
        found == has_substring(hay@, needle@),
{
    let h = chars_of(hay);
    let p = chars_of(needle);
    find_in(h.as_slice(), p.as_slice())
}

} // verus!
