//! Finding the first occurrence of a value in a sequence.

use vstd::prelude::*;

verus! {

/// The least index at which `x` stands in `s`, or the length of `s` where
/// it stands nowhere.
pub open spec fn first_index<T>(s: Seq<T>, x: T) -> int
    decreases s.len(),
{
    if s.len() == 0 {
        0
    } else if s[0] == x {
        0
    } else {
        1 + first_index(s.drop_first(), x)
    }
}

/// `first_index` is in range, points at `x` where it is below the length,
/// and nothing before it is `x`.
pub proof fn lemma_first_index<T>(s: Seq<T>, x: T)
    ensures
        0 <= first_index(s, x) <= s.len(),
        first_index(s, x) < s.len() ==> s[first_index(s, x)] == x,
        forall|j: int| 0 <= j < first_index(s, x) ==> s[j] != x,
        first_index(s, x) == s.len() <==> !s.contains(x),
    decreases s.len(),
{
    if s.len() == 0 {
    } else if s[0] == x {
        assert(s.contains(x));
    } else {
        let rest = s.drop_first();
        lemma_first_index(rest, x);
        let r = first_index(rest, x);
        assert forall|j: int| 0 <= j < 1 + r implies s[j] != x by {
            if j > 0 {
                assert(rest[j - 1] == s[j]);
            }
        }
        if r < rest.len() {
            assert(rest[r] == s[r + 1]);
            assert(s.contains(x));
        } else {
            assert(!rest.contains(x));
            if s.contains(x) {
                let k = choose|k: int| 0 <= k < s.len() && s[k] == x;
                assert(rest[k - 1] == x);
                assert(rest.contains(x));
            }
        }
    }
}

/// An index before which nothing is `x`, and which points at `x` or at the
/// end, is the first index.
pub proof fn lemma_first_index_is<T>(s: Seq<T>, x: T, i: int)
    requires
        0 <= i <= s.len(),
        forall|j: int| 0 <= j < i ==> s[j] != x,
        i < s.len() ==> s[i] == x,
    ensures
        first_index(s, x) == i,
{
    lemma_first_index(s, x);
    let f = first_index(s, x);
    if f < i {
        assert(s[f] == x);
    } else if f > i {
        assert(s[i] == x);
    }
}

} // verus!
