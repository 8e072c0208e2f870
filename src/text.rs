//! Character-level string helpers and topic-prefix normalisation.
use vstd::prelude::*;

verus! {

/// `p` occurs in `s` starting at character position `start`.
pub open spec fn occurs_at(s: Seq<char>, start: int, p: Seq<char>) -> bool {
    &&& 0 <= start
    &&& start + p.len() <= s.len()
    &&& s.subrange(start, start + p.len()) == p
}

/// `s` begins with `p`.
pub open spec fn has_prefix(s: Seq<char>, p: Seq<char>) -> bool {
    occurs_at(s, 0, p)
}

/// A topic prefix as it is used on the bus: it always ends with `/`.
pub open spec fn normalized_prefix(p: Seq<char>) -> Seq<char> {
    if p.len() > 0 && p.last() == '/' {
        p
    } else {
        p.push('/')
    }
}

/// Whether `p` occurs in `s` at character position `start`.
pub fn matches_at(s: &str, start: usize, p: &str) -> (r: bool)
    ensures
        r == occurs_at(s@, start as int, p@),
{
    let n = s.unicode_len();
    let m = p.unicode_len();
    if start > n || m > n - start {
        return false;
    }
    let mut i: usize = 0;
    while i < m
        invariant
            n == s@.len(),
            m == p@.len(),
            start + m <= n,
            i <= m,
            forall|j: int| 0 <= j < i ==> s@[start + j] == p@[j],
        decreases m - i,
    {
        if s.get_char(start + i) != p.get_char(i) {
            assert(s@.subrange(start as int, start + m)[i as int] != p@[i as int]);
            return false;
        }
        i += 1;
    }
    assert(s@.subrange(start as int, start + m) =~= p@);
    true
}

/// Whether `s` begins with `p`.
pub fn starts_with(s: &str, p: &str) -> (r: bool)
    ensures
        r == has_prefix(s@, p@),
{
    matches_at(s, 0, p)
}

/// Whether the two strings hold the same characters.
pub fn str_eq(a: &str, b: &str) -> (r: bool)
    ensures
        r == (a@ == b@),
{
    if a.unicode_len() != b.unicode_len() {
        return false;
    }
    let r = matches_at(a, 0, b);
    assert(a@.subrange(0, a@.len() as int) =~= a@);
    r
}

/// The prefix with a `/` appended when it does not already end with one.
pub fn normalize_topic_prefix(prefix: &str) -> (r: String)
    ensures
        r@ == normalized_prefix(prefix@),
        r@.len() > 0,
        r@.last() == '/',
{
    let n = prefix.unicode_len();
    let mut r = String::from_str(prefix);
    if n == 0 || prefix.get_char(n - 1) != '/' {
        r.append("/");
        proof {
            reveal_strlit("/");
        }
        assert(r@ =~= prefix@.push('/'));
    }
    r
}

/// The topic `prefix` followed by `name`.
pub fn topic(prefix: &str, name: &str) -> (r: String)
    ensures
        r@ == prefix@ + name@,
{
    let mut r = String::from_str(prefix);
    r.append(name);
    r
}

} // verus!
