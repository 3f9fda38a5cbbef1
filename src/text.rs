//! Character-level helpers on strings, stated over `Seq<char>`.
use vstd::prelude::*;

verus! {

/// `i` is the position of the last `'.'` in `s`.
pub open spec fn is_last_dot(s: Seq<char>, i: int) -> bool {
    &&& 0 <= i < s.len()
    &&& s[i] == '.'
    &&& forall|j: int| i < j < s.len() ==> s[j] != '.'
}

/// The text after the last `'.'` of `s`, or all of `s` when it holds none:
/// the last piece of `s` split on `'.'`.
pub open spec fn last_segment(s: Seq<char>) -> Seq<char> {
    if s.contains('.') {
        let i = choose|i: int| is_last_dot(s, i);
        s.subrange(i + 1, s.len() as int)
    } else {
        s
    }
}

/// Two positions that are both the last dot are the same position.
pub proof fn lemma_last_dot_unique(s: Seq<char>, i: int, k: int)
    requires
        is_last_dot(s, i),
        is_last_dot(s, k),
    ensures
        i == k,
{
}

/// The text after the last dot at `i` is the last segment.
pub proof fn lemma_last_segment_at(s: Seq<char>, i: int)
    requires
        is_last_dot(s, i),
    ensures
        last_segment(s) == s.subrange(i + 1, s.len() as int),
{
    assert(s.contains('.'));
    let k = choose|k: int| is_last_dot(s, k);
    lemma_last_dot_unique(s, i, k);
}

/// Character-wise equality of two strings.
pub fn str_eq(a: &str, b: &str) -> (r: bool)
    ensures
        r == (a@ == b@),
{
    let n = a.unicode_len();
    if n != b.unicode_len() {
        return false;
    }
    let mut i: usize = 0;
    while i < n
        invariant
            n == a@.len(),
            n == b@.len(),
            0 <= i <= n,
            forall|j: int| 0 <= j < i ==> a@[j] == b@[j],
        decreases n - i,
    {
        if a.get_char(i) != b.get_char(i) {
            return false;
        }
        i = i + 1;
    }
    proof {
        assert(a@ =~= b@);
    }
    true
}

/// The position of the last `'.'` in `s`, if there is one.
pub fn last_dot(s: &str) -> (r: Option<usize>)
    ensures
        match r {
            Some(i) => is_last_dot(s@, i as int),
            None => !s@.contains('.'),
        },
{
    let n = s.unicode_len();
    let mut k: usize = n;
    while k > 0
        invariant
            n == s@.len(),
            k <= n,
            forall|j: int| k <= j < n ==> s@[j] != '.',
        decreases k,
    {
        if s.get_char(k - 1) == '.' {
            return Some(k - 1);
        }
        k = k - 1;
    }
    None
}

/// The last piece of `s` split on `'.'`.
pub fn last_segment_of(s: &str) -> (r: &str)
    ensures
        r@ == last_segment(s@),
{
    let n = s.unicode_len();
    match last_dot(s) {
        Some(i) => {
            proof {
                lemma_last_segment_at(s@, i as int);
            }
            s.substring_char(i + 1, n)
        },
        None => s,
    }
}

} // verus!
