//! Sequence facts shared by the searches of this crate.

use vstd::prelude::*;

verus! {

/// The first index at or after `i` whose element satisfies `p`.
pub open spec fn first_where_from<T>(s: Seq<T>, p: spec_fn(T) -> bool, i: int) -> Option<int>
    decreases s.len() - i,
{
    if i < 0 || i >= s.len() {
        None
    } else if p(s[i]) {
        Some(i)
    } else {
        first_where_from(s, p, i + 1)
    }
}

/// The first index whose element satisfies `p`.
pub open spec fn first_where<T>(s: Seq<T>, p: spec_fn(T) -> bool) -> Option<int> {
    first_where_from(s, p, 0)
}

/// What `first_where_from` answers: the first satisfying index, and none before it.
pub proof fn lemma_first_where_from<T>(s: Seq<T>, p: spec_fn(T) -> bool, i: int)
    requires
        0 <= i,
    ensures
        first_where_from(s, p, i) matches Some(k) ==> i <= k < s.len() && p(s[k]) && forall|
            j: int,
        | i <= j < k ==> !p(s[j]),
        first_where_from(s, p, i) is None ==> forall|j: int| i <= j < s.len() ==> !p(s[j]),
    decreases s.len() - i,
{
    if i >= s.len() {
    } else if p(s[i]) {
    } else {
        lemma_first_where_from(s, p, i + 1);
    }
}

/// An index is the first satisfying one exactly when it satisfies and none before it does.
pub proof fn lemma_first_where_char<T>(s: Seq<T>, p: spec_fn(T) -> bool, k: int)
    requires
        0 <= k < s.len(),
        p(s[k]),
        forall|j: int| 0 <= j < k ==> !p(s[j]),
    ensures
        first_where(s, p) == Some(k),
{
    lemma_first_where_from(s, p, 0);
    if first_where(s, p) is None {
    } else {
        let m = first_where(s, p)->0;
        assert(!(m < k));
        assert(!(k < m));
    }
}

/// No element satisfies `p` exactly when there is no first satisfying index.
pub proof fn lemma_first_where_none<T>(s: Seq<T>, p: spec_fn(T) -> bool)
    requires
        forall|j: int| 0 <= j < s.len() ==> !p(s[j]),
    ensures
        first_where(s, p) is None,
{
    lemma_first_where_from(s, p, 0);
    if first_where(s, p) is Some {
        let m = first_where(s, p)->0;
        assert(p(s[m]));
    }
}

} // verus!
