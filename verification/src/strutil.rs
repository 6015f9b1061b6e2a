//! Verified character-level string predicates: equality, suffix and
//! substring tests over `Seq<char>` views.

use vstd::prelude::*;

verus! {

/// The view of an optional timestamp.
pub open spec fn opt_int(o: Option<i64>) -> Option<int> {
    match o {
        Some(t) => Some(t as int),
        None => None,
    }
}

/// The view of an optional string.
pub open spec fn opt_str(o: Option<String>) -> Option<Seq<char>> {
    match o {
        Some(s) => Some(s@),
        None => None,
    }
}

/// A copy of an optional string, equal in view.
pub fn clone_opt_string(o: &Option<String>) -> (r: Option<String>)
    ensures
        opt_str(r) == opt_str(*o),
{
    match o {
        Some(s) => Some(s.clone()),
        None => None,
    }
}

/// True when `suffix` is a suffix of `s`.
pub open spec fn ends_with_spec(s: Seq<char>, suffix: Seq<char>) -> bool {
    suffix.len() <= s.len() && s.subrange(s.len() - suffix.len(), s.len() as int) == suffix
}

/// True when `needle` occurs in `s` starting at position `k`.
pub open spec fn matches_at(s: Seq<char>, needle: Seq<char>, k: int) -> bool {
    0 <= k && k + needle.len() <= s.len() && s.subrange(k, k + needle.len()) == needle
}

/// True when `needle` occurs somewhere in `s`.
pub open spec fn contains_spec(s: Seq<char>, needle: Seq<char>) -> bool {
    exists|k: int| matches_at(s, needle, k)
}

/// Character-by-character string equality, proved equivalent to equality of
/// the views.
pub fn str_eq(a: &str, b: &str) -> (r: bool)
    ensures
        r == (a@ == b@),
{
    let n: usize = a.unicode_len();
    let m: usize = b.unicode_len();
    if n != m {
        assert(a@ != b@) by {
            assert(a@.len() != b@.len());
        }
        return false;
    }
    let mut i: usize = 0;
    while i < n
        invariant
            n == a@.len(),
            n == b@.len(),
            0 <= i <= n,
            forall|k: int| 0 <= k < i ==> a@[k] == b@[k],
        decreases n - i,
    {
        if a.get_char(i) != b.get_char(i) {
            return false;
        }
        i += 1;
    }
    proof {
        assert(a@ =~= b@);
    }
    true
}

/// True when `suffix` is a suffix of `s`, proved against `ends_with_spec`.
pub fn str_ends_with(s: &str, suffix: &str) -> (r: bool)
    ensures
        r == ends_with_spec(s@, suffix@),
{
    let n: usize = s.unicode_len();
    let m: usize = suffix.unicode_len();
    if m > n {
        return false;
    }
    let mut i: usize = 0;
    while i < m
        invariant
            n == s@.len(),
            m == suffix@.len(),
            m <= n,
            0 <= i <= m,
            forall|k: int| 0 <= k < i ==> s@[n - m + k] == suffix@[k],
        decreases m - i,
    {
        if s.get_char(n - m + i) != suffix.get_char(i) {
            assert(!ends_with_spec(s@, suffix@)) by {
                assert(s@.subrange(n - m, n as int)[i as int] == s@[n - m + i]);
            }
            return false;
        }
        i += 1;
    }
    proof {
        assert(s@.subrange(n - m, n as int) =~= suffix@);
    }
    true
}

/// True when `needle` occurs in `s`, proved against `contains_spec`.
pub fn str_contains(s: &str, needle: &str) -> (r: bool)
    ensures
        r == contains_spec(s@, needle@),
{
    let n: usize = s.unicode_len();
    let m: usize = needle.unicode_len();
    if m > n {
        assert(!contains_spec(s@, needle@)) by {
            assert(forall|k: int| !matches_at(s@, needle@, k));
        }
        return false;
    }
    if m == 0 {
        assert(matches_at(s@, needle@, 0)) by {
            assert(s@.subrange(0, 0) =~= needle@);
        }
        return true;
    }
    let bound: usize = n - m;
    let mut k: usize = 0;
    while k <= bound
        invariant
            n == s@.len(),
            m == needle@.len(),
            1 <= m <= n,
            bound == n - m,
            0 <= k <= bound + 1,
            forall|j: int| 0 <= j < k ==> !matches_at(s@, needle@, j),
        decreases bound + 1 - k,
    {
        let mut i: usize = 0;
        let mut hit: bool = true;
        while i < m
            invariant
                n == s@.len(),
                m == needle@.len(),
                m <= n,
                k <= n - m,
                0 <= i <= m,
                hit ==> forall|j: int| 0 <= j < i ==> s@[k + j] == needle@[j],
                !hit ==> !matches_at(s@, needle@, k as int),
            decreases m - i,
        {
            if s.get_char(k + i) != needle.get_char(i) {
                assert(!matches_at(s@, needle@, k as int)) by {
                    assert(s@.subrange(k as int, k + m)[i as int] == s@[k + i]);
                }
                hit = false;
                i = m;
            } else {
                i += 1;
            }
        }
        if hit {
            assert(matches_at(s@, needle@, k as int)) by {
                assert(s@.subrange(k as int, k + m) =~= needle@);
            }
            return true;
        }
        k += 1;
    }
    assert(!contains_spec(s@, needle@)) by {
        assert(forall|j: int| matches_at(s@, needle@, j) ==> 0 <= j < k);
    }
    false
}

} // verus!
