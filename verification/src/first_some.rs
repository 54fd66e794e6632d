//! Choosing the first present value among layered, possibly absent ones.

use vstd::prelude::*;

verus! {

/// Whether position `i` of `s` holds a value and no earlier position does.
pub open spec fn is_first_present<T>(s: Seq<Option<T>>, i: int) -> bool {
    &&& 0 <= i < s.len()
    &&& s[i] is Some
    &&& forall|j: int| 0 <= j < i ==> s[j] is None
}

/// The first present position is unique, so the choice among the values of
/// a sequence is determined.
pub proof fn lemma_first_present_unique<T>(s: Seq<Option<T>>, i: int, j: int)
    requires
        is_first_present(s, i),
        is_first_present(s, j),
    ensures
        i == j,
{
}

/// A sequence has a first present position exactly where it is not empty
/// throughout.
pub proof fn lemma_first_present_exists<T>(s: Seq<Option<T>>)
    ensures
        (exists|i: int| is_first_present(s, i)) <==> (exists|i: int|
            0 <= i < s.len() && s[i] is Some),
{
    if exists|i: int| 0 <= i < s.len() && s[i] is Some {
        let k = choose|i: int| 0 <= i < s.len() && s[i] is Some;
        lemma_least_present(s, k);
    }
}

/// Below or at any present position lies a first present one.
proof fn lemma_least_present<T>(s: Seq<Option<T>>, k: int)
    requires
        0 <= k < s.len(),
        s[k] is Some,
    ensures
        exists|i: int| 0 <= i <= k && is_first_present(s, i),
    decreases k,
{
    if exists|j: int| 0 <= j < k && s[j] is Some {
        let j = choose|j: int| 0 <= j < k && s[j] is Some;
        lemma_least_present(s, j);
    } else {
        assert(is_first_present(s, k));
    }
}

/// Returns the first present value of `slice`, in left-to-right order, or
/// nothing where every position is empty.
pub fn find_first_some<T>(slice: &[Option<T>]) -> (found: Option<&T>)
    ensures
        match found {
            Some(x) => exists|i: int| is_first_present(slice@, i) && slice@[i] == Some(*x),
            None => forall|i: int| 0 <= i < slice@.len() ==> slice@[i] is None,
        },
{
    let mut k: usize = 0;
    while k < slice.len()
        invariant
            k <= slice.len(),
            forall|j: int| 0 <= j < k ==> slice@[j] is None,
        decreases slice.len() - k,
    {
        if let Some(x) = &slice[k] {
            assert(is_first_present(slice@, k as int));
            return Some(x);
        }
        k += 1;
    }
    None
}

} // verus!
