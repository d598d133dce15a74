//! Small verified string utilities: equality, prefix tests, character
//! search and trailing-slash normalization, each specified over the
//! character-sequence view of the string.

use vstd::prelude::*;
use vstd::string::StrSliceExecFns;

verus! {

/// Whether `p` is a prefix of `s`.
pub open spec fn starts_with(s: Seq<char>, p: Seq<char>) -> bool {
    p.len() <= s.len() && s.subrange(0, p.len() as int) == p
}

/// `p` with every trailing `'/'` removed, except that a path of a single
/// character is left alone (so a bare `"/"` stays `"/"`).
pub open spec fn trimmed(p: Seq<char>) -> Seq<char>
    decreases p.len(),
{
    if p.len() > 1 && p.last() == '/' {
        trimmed(p.drop_last())
    } else {
        p
    }
}

/// Character-wise string equality.
pub fn str_eq(a: &str, b: &str) -> (r: bool)
    ensures
        r == (a@ == b@),
{
    let alen = a.unicode_len();
    let blen = b.unicode_len();
    if alen != blen {
        return false;
    }
    let mut i: usize = 0;
    while i < alen
        invariant
            alen == a@.len(),
            alen == b@.len(),
            i <= alen,
            forall|j: int| 0 <= j < i ==> a@[j] == b@[j],
        decreases alen - i,
    {
        if a.get_char(i) != b.get_char(i) {
            return false;
        }
        i = i + 1;
    }
    proof {
        assert(a@ =~= b@);
    }
    true
}

/// Whether `prefix` is a prefix of `s`, character by character.
pub fn str_starts_with(s: &str, prefix: &str) -> (r: bool)
    ensures
        r == starts_with(s@, prefix@),
{
    let slen = s.unicode_len();
    let plen = prefix.unicode_len();
    if plen > slen {
        return false;
    }
    let mut i: usize = 0;
    while i < plen
        invariant
            slen == s@.len(),
            plen == prefix@.len(),
            plen <= slen,
            i <= plen,
            forall|j: int| 0 <= j < i ==> s@[j] == prefix@[j],
        decreases plen - i,
    {
        if s.get_char(i) != prefix.get_char(i) {
            proof {
                assert(s@.subrange(0, prefix@.len() as int)[i as int] == s@[i as int]);
            }
            return false;
        }
        i = i + 1;
    }
    proof {
        assert(s@.subrange(0, prefix@.len() as int) =~= prefix@);
    }
    true
}

/// Whether the character `c` occurs in `s`.
pub fn str_contains_char(s: &str, c: char) -> (r: bool)
    ensures
        r == s@.contains(c),
{
    let len = s.unicode_len();
    let mut i: usize = 0;
    while i < len
        invariant
            len == s@.len(),
            i <= len,
            forall|j: int| 0 <= j < i ==> s@[j] != c,
        decreases len - i,
    {
        if s.get_char(i) == c {
            return true;
        }
        i = i + 1;
    }
    false
}

/// Removes every trailing `'/'` from `p`, keeping a single leading
/// character (so `"/"` is returned unchanged).
pub fn trim_trailing_slashes(p: &str) -> (r: String)
    ensures
        r@ == trimmed(p@),
{
    let full = p.unicode_len();
    let mut len = full;
    proof {
        assert(p@.subrange(0, full as int) =~= p@);
    }
    while len > 1 && p.get_char(len - 1) == '/'
        invariant
            full == p@.len(),
            len <= full,
            trimmed(p@) == trimmed(p@.subrange(0, len as int)),
        decreases len,
    {
        proof {
            let cur = p@.subrange(0, len as int);
            assert(cur.last() == p@[len - 1]);
            assert(cur.drop_last() =~= p@.subrange(0, (len - 1) as int));
        }
        len = len - 1;
    }
    proof {
        let cur = p@.subrange(0, len as int);
        if len > 1 {
            assert(cur.last() == p@[len - 1]);
        }
        assert(trimmed(cur) == cur);
    }
    p.substring_char(0, len).to_owned()
}

} // verus!
