//! Byte-level text helpers: ASCII literals as byte sequences, prefix,
//! suffix and substring tests, and ASCII lowercasing.

use vstd::prelude::*;
use vstd::string::StrSliceExecFns;

verus! {

/// The bytes of an ASCII character sequence, one byte per character.
pub open spec fn ascii(s: Seq<char>) -> Seq<u8> {
    Seq::new(s.len(), |i: int| s[i] as u8)
}

/// The bytes of an ASCII string literal, as a vector.
pub fn lit(s: &str) -> (v: Vec<u8>)
    requires
        s.is_ascii(),
    ensures
        v@ == ascii(s@),
{
    let v = s.as_bytes_vec();
    proof {
        broadcast use vstd::string::is_ascii_spec_bytes;

        assert(v@ =~= ascii(s@));
    }
    v
}

/// `pat` occurs in `s` starting exactly at position `i`.
pub open spec fn matches_at(s: Seq<u8>, pat: Seq<u8>, i: int) -> bool {
    &&& 0 <= i
    &&& i + pat.len() <= s.len()
    &&& forall|j: int| 0 <= j < pat.len() ==> s[i + j] == pat[j]
}

/// `pat` occurs somewhere in `s` as a contiguous substring.
pub open spec fn contains_bytes(s: Seq<u8>, pat: Seq<u8>) -> bool {
    exists|i: int| matches_at(s, pat, i)
}

/// `s` begins with `pre`.
pub open spec fn starts_with_bytes(s: Seq<u8>, pre: Seq<u8>) -> bool {
    matches_at(s, pre, 0)
}

/// `s` ends with `suf`.
pub open spec fn ends_with_bytes(s: Seq<u8>, suf: Seq<u8>) -> bool {
    suf.len() <= s.len() && matches_at(s, suf, s.len() - suf.len())
}

/// Compares `pat` against the bytes of `v` at position `i`.
pub fn match_at(v: &Vec<u8>, pat: &Vec<u8>, i: usize) -> (b: bool)
    requires
        i + pat@.len() <= v@.len(),
    ensures
        b == matches_at(v@, pat@, i as int),
{
    let n: usize = v.len();
    let mut j: usize = 0;
    while j < pat.len()
        invariant
            i + pat@.len() <= v@.len(),
            n == v@.len(),
            0 <= j <= pat@.len(),
            forall|k: int| 0 <= k < j ==> v@[i + k] == pat@[k],
        decreases pat@.len() - j,
    {
        if v[i + j] != pat[j] {
            assert(!matches_at(v@, pat@, i as int));
            return false;
        }
        j = j + 1;
    }
    true
}

/// Naive substring search.
pub fn contains(v: &Vec<u8>, pat: &Vec<u8>) -> (b: bool)
    ensures
        b == contains_bytes(v@, pat@),
{
    if pat.len() > v.len() {
        return false;
    }
    if pat.len() == 0 {
        assert(matches_at(v@, pat@, 0));
        return true;
    }
    let last: usize = v.len() - pat.len();
    let mut i: usize = 0;
    while i <= last
        invariant
            1 <= pat@.len() <= v@.len(),
            v@.len() <= usize::MAX,
            last == v@.len() - pat@.len(),
            0 <= i <= last + 1,
            forall|k: int| 0 <= k < i ==> !matches_at(v@, pat@, k),
        decreases last + 1 - i,
    {
        if match_at(v, pat, i) {
            assert(contains_bytes(v@, pat@)) by {
                assert(matches_at(v@, pat@, i as int));
            }
            return true;
        }
        i = i + 1;
    }
    assert(forall|k: int| matches_at(v@, pat@, k) ==> 0 <= k <= last);
    false
}

/// `v` begins with `pre`.
pub fn has_prefix(v: &Vec<u8>, pre: &Vec<u8>) -> (b: bool)
    ensures
        b == starts_with_bytes(v@, pre@),
{
    if pre.len() > v.len() {
        return false;
    }
    match_at(v, pre, 0)
}

/// `v` ends with `suf`.
pub fn has_suffix(v: &Vec<u8>, suf: &Vec<u8>) -> (b: bool)
    ensures
        b == ends_with_bytes(v@, suf@),
{
    if suf.len() > v.len() {
        return false;
    }
    match_at(v, suf, v.len() - suf.len())
}

/// ASCII lowercasing of one byte: `A`..`Z` map to `a`..`z`.
pub open spec fn lower(b: u8) -> u8 {
    if 65 <= b <= 90 {
        (b + 32) as u8
    } else {
        b
    }
}

/// ASCII lowercasing of a byte sequence.
pub open spec fn lower_bytes(s: Seq<u8>) -> Seq<u8> {
    Seq::new(s.len(), |i: int| lower(s[i]))
}

/// Returns a copy of `v` with ASCII letters lowercased.
pub fn to_lower(v: &Vec<u8>) -> (r: Vec<u8>)
    ensures
        r@ == lower_bytes(v@),
{
    let mut r: Vec<u8> = Vec::new();
    let mut i: usize = 0;
    while i < v.len()
        invariant
            0 <= i <= v@.len(),
            r@.len() == i,
            forall|k: int| 0 <= k < i ==> r@[k] == lower(v@[k]),
        decreases v@.len() - i,
    {
        let b = v[i];
        if 65 <= b && b <= 90 {
            r.push(b + 32);
        } else {
            r.push(b);
        }
        i = i + 1;
    }
    assert(r@ =~= lower_bytes(v@));
    r
}

/// Copies the bytes of `v` between `from` and `to`.
pub fn slice_bytes(v: &Vec<u8>, from: usize, to: usize) -> (r: Vec<u8>)
    requires
        from <= to <= v@.len(),
    ensures
        r@ == v@.subrange(from as int, to as int),
{
    let mut r: Vec<u8> = Vec::new();
    let mut i: usize = from;
    while i < to
        invariant
            from <= i <= to <= v@.len(),
            r@.len() == i - from,
            forall|k: int| 0 <= k < r@.len() ==> r@[k] == v@[from + k],
        decreases to - i,
    {
        r.push(v[i]);
        i = i + 1;
    }
    assert(r@ =~= v@.subrange(from as int, to as int));
    r
}

/// Byte-for-byte equality of two vectors.
pub fn bytes_eq(a: &Vec<u8>, b: &Vec<u8>) -> (r: bool)
    ensures
        r == (a@ == b@),
{
    if a.len() != b.len() {
        assert(a@ != b@);
        return false;
    }
    let mut i: usize = 0;
    while i < a.len()
        invariant
            a@.len() == b@.len(),
            0 <= i <= a@.len(),
            forall|k: int| 0 <= k < i ==> a@[k] == b@[k],
        decreases a@.len() - i,
    {
        if a[i] != b[i] {
            assert(a@[i as int] != b@[i as int]);
            return false;
        }
        i = i + 1;
    }
    assert(a@ =~= b@);
    true
}

} // verus!
