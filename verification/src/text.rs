//! Verified text utilities: equality, prefix test, substring search and
//! literal replacement over `&str` values, specified over their `Seq<char>`
//! views.  The page renderer and the argument checks are built on these.

use vstd::prelude::*;

verus! {

use vstd::string::StrSliceExecFns;
use vstd::string::StringExecFns;

/// The pattern `p` occurs in `s` starting at position `i`.
pub open spec fn occurs_at(s: Seq<char>, p: Seq<char>, i: int) -> bool {
    0 <= i && i + p.len() <= s.len() && s.subrange(i, i + p.len() as int) == p
}

/// The pattern `p` occurs somewhere in `s`.
pub open spec fn contains_seq(s: Seq<char>, p: Seq<char>) -> bool {
    exists|i: int| occurs_at(s, p, i)
}

/// `p` is a prefix of `s`.
pub open spec fn is_prefix(p: Seq<char>, s: Seq<char>) -> bool {
    p.len() <= s.len() && s.subrange(0, p.len() as int) == p
}

/// `s` with every non-overlapping occurrence of `p`, scanned left to right
/// from position `i`, replaced by `rep`.  An empty pattern replaces nothing.
pub open spec fn spec_replace_from(s: Seq<char>, p: Seq<char>, rep: Seq<char>, i: int) -> Seq<
    char,
>
    decreases s.len() - i,
{
    if p.len() == 0 || i < 0 || i + p.len() > s.len() {
        if 0 <= i <= s.len() {
            s.subrange(i, s.len() as int)
        } else {
            s
        }
    } else if occurs_at(s, p, i) {
        rep + spec_replace_from(s, p, rep, i + p.len() as int)
    } else {
        seq![s[i]] + spec_replace_from(s, p, rep, i + 1)
    }
}

/// `s` with every non-overlapping occurrence of `p` replaced by `rep`.
pub open spec fn spec_replace(s: Seq<char>, p: Seq<char>, rep: Seq<char>) -> Seq<char> {
    spec_replace_from(s, p, rep, 0)
}

/// True exactly when the two string slices hold the same characters.
pub fn str_eq(a: &str, b: &str) -> (r: bool)
    ensures
        r == (a@ == b@),
{
    let a_len = a.unicode_len();
    let b_len = b.unicode_len();
    if a_len != b_len {
        proof {
            if a@ == b@ {
                assert(a@.len() == b@.len());
            }
        }
        return false;
    }
    let mut i: usize = 0;
    while i < a_len
        invariant
            a_len == a@.len(),
            b_len == b@.len(),
            a_len == b_len,
            i <= a_len,
            forall|j: int| 0 <= j < i ==> a@[j] == b@[j],
        decreases a_len - i,
    {
        if a.get_char(i) != b.get_char(i) {
            return false;
        }
        i += 1;
    }
    proof {
        assert(a@ =~= b@);
    }
    true
}

/// True exactly when `p` occurs in `s` at position `i`.
fn matches_at(s: &str, p: &str, i: usize, s_len: usize, p_len: usize) -> (r: bool)
    requires
        s_len == s@.len(),
        p_len == p@.len(),
        i + p_len <= s_len,
    ensures
        r == occurs_at(s@, p@, i as int),
{
    let mut j: usize = 0;
    while j < p_len
        invariant
            s_len == s@.len(),
            p_len == p@.len(),
            i + p_len <= s_len,
            j <= p_len,
            forall|k: int| 0 <= k < j ==> s@[i + k] == p@[k],
        decreases p_len - j,
    {
        if s.get_char(i + j) != p.get_char(j) {
            proof {
                assert(s@.subrange(i as int, i + p@.len() as int)[j as int] == s@[i + j]);
            }
            return false;
        }
        j += 1;
    }
    proof {
        assert(s@.subrange(i as int, i + p@.len() as int) =~= p@);
    }
    true
}

/// The position of the first occurrence of `p` in `s`, if any.  An empty
/// pattern is found at position zero.
pub fn find_first(s: &str, p: &str) -> (r: Option<usize>)
    ensures
        match r {
            Some(i) => occurs_at(s@, p@, i as int) && forall|k: int|
                0 <= k < i ==> !occurs_at(s@, p@, k),
            None => !contains_seq(s@, p@),
        },
{
    let s_len = s.unicode_len();
    let p_len = p.unicode_len();
    if p_len > s_len {
        return None;
    }
    if p_len == 0 {
        proof {
            assert(s@.subrange(0, 0) =~= p@);
        }
        return Some(0);
    }
    let mut i: usize = 0;
    while i <= s_len - p_len
        invariant
            s_len == s@.len(),
            p_len == p@.len(),
            0 < p_len <= s_len,
            i <= s_len,
            forall|k: int| 0 <= k < i ==> !occurs_at(s@, p@, k),
        decreases s_len - i,
    {
        if matches_at(s, p, i, s_len, p_len) {
            return Some(i);
        }
        i += 1;
    }
    None
}

/// True exactly when `p` occurs somewhere in `s`.
pub fn contains_pattern(s: &str, p: &str) -> (r: bool)
    ensures
        r == contains_seq(s@, p@),
{
    match find_first(s, p) {
        Some(_) => true,
        None => false,
    }
}

/// True exactly when `p` is a prefix of `s`.
pub fn starts_with(s: &str, p: &str) -> (r: bool)
    ensures
        r == is_prefix(p@, s@),
{
    let s_len = s.unicode_len();
    let p_len = p.unicode_len();
    if p_len > s_len {
        return false;
    }
    matches_at(s, p, 0, s_len, p_len)
}

/// `s` with every non-overlapping occurrence of `p`, scanned left to right,
/// replaced by `rep`.  An empty pattern leaves `s` unchanged.
pub fn replace_all(s: &str, p: &str, rep: &str) -> (r: String)
    ensures
        r@ == spec_replace(s@, p@, rep@),
{
    let s_len = s.unicode_len();
    let p_len = p.unicode_len();
    if p_len == 0 {
        proof {
            assert(spec_replace_from(s@, p@, rep@, 0) == s@.subrange(0, s@.len() as int));
            assert(s@.subrange(0, s@.len() as int) =~= s@);
        }
        return s.to_owned();
    }
    if p_len > s_len {
        proof {
            assert(spec_replace_from(s@, p@, rep@, 0) == s@.subrange(0, s@.len() as int));
            assert(s@.subrange(0, s@.len() as int) =~= s@);
        }
        return s.to_owned();
    }
    let mut out = String::new();
    let mut i: usize = 0;
    while i <= s_len - p_len
        invariant
            s_len == s@.len(),
            p_len == p@.len(),
            p_len > 0,
            p_len <= s_len,
            i <= s_len,
            out@ + spec_replace_from(s@, p@, rep@, i as int) == spec_replace_from(
                s@,
                p@,
                rep@,
                0,
            ),
        decreases s_len - i,
    {
        if matches_at(s, p, i, s_len, p_len) {
            out.append(rep);
            i += p_len;
        } else {
            let piece = s.substring_char(i, i + 1);
            proof {
                assert(piece@ =~= seq![s@[i as int]]);
            }
            out.append(piece);
            i += 1;
        }
    }
    let tail = s.substring_char(i, s_len);
    out.append(tail);
    proof {
        assert(spec_replace_from(s@, p@, rep@, i as int) == s@.subrange(i as int, s@.len() as int));
    }
    out
}

} // verus!
