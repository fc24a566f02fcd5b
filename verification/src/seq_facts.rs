//! Facts about sequences that grow at their end.

use vstd::prelude::*;

verus! {

/// A sequence extended by `x` holds `x` and what it held before.
pub proof fn lemma_contains_after_push<T>(s: Seq<T>, x: T, y: T)
    ensures
        s.push(x).contains(y) <==> y == x || s.contains(y),
{
    let t = s.push(x);
    assert(t[s.len() as int] == x);
    if s.contains(y) {
        let i = choose|i: int| 0 <= i < s.len() && s[i] == y;
        assert(t[i] == y);
    }
    if t.contains(y) && y != x {
        let i = choose|i: int| 0 <= i < t.len() && t[i] == y;
        assert(s[i] == y);
    }
}

/// Appending an element that a duplicate-free sequence does not hold leaves
/// it duplicate-free.
pub proof fn lemma_push_fresh_keeps_distinct<T>(s: Seq<T>, x: T)
    requires
        s.no_duplicates(),
        !s.contains(x),
    ensures
        s.push(x).no_duplicates(),
{
    let t = s.push(x);
    assert forall|i: int, j: int| 0 <= i < t.len() && 0 <= j < t.len() && i != j implies t[i]
        != t[j] by {
        if i < s.len() && j < s.len() {
            assert(t[i] == s[i] && t[j] == s[j]);
        } else if i < s.len() {
            assert(s[i] == t[i]);
            assert(s.contains(t[i]));
        } else {
            assert(s[j] == t[j]);
            assert(s.contains(t[j]));
        }
    }
}

} // verus!
