//! Finding the first entry of a sequence that satisfies a predicate.
//!
//! Every lookup of the store is a scan from the front that stops at the first
//! hit, so "first" is what decides between several candidates.

use vstd::prelude::*;

verus! {

/// Whether `i` is the position of the first entry of `s` that satisfies `p`.
pub open spec fn is_first<T>(s: Seq<T>, p: spec_fn(T) -> bool, i: int) -> bool {
    &&& 0 <= i < s.len()
    &&& p(s[i])
    &&& forall|j: int| 0 <= j < i ==> !p(#[trigger] s[j])
}

/// Whether some entry of `s` satisfies `p`.
pub open spec fn has_match<T>(s: Seq<T>, p: spec_fn(T) -> bool) -> bool {
    exists|j: int| 0 <= j < s.len() && p(#[trigger] s[j])
}

/// The position of the first entry of `s` that satisfies `p`, if there is one.
pub open spec fn first_index<T>(s: Seq<T>, p: spec_fn(T) -> bool) -> Option<int> {
    if exists|i: int| is_first(s, p, i) {
        Some(choose|i: int| is_first(s, p, i))
    } else {
        None
    }
}

/// There is at most one first hit.
pub proof fn lemma_is_first_unique<T>(s: Seq<T>, p: spec_fn(T) -> bool, i: int, k: int)
    requires
        is_first(s, p, i),
        is_first(s, p, k),
    ensures
        i == k,
{
    if i < k {
        assert(!p(s[i]));
    } else if k < i {
        assert(!p(s[k]));
    }
}

/// A position that is the first hit is what `first_index` returns.
pub proof fn lemma_first_index_is<T>(s: Seq<T>, p: spec_fn(T) -> bool, i: int)
    requires
        is_first(s, p, i),
    ensures
        first_index(s, p) == Some(i),
{
    let k = choose|k: int| is_first(s, p, k);
    lemma_is_first_unique(s, p, i, k);
}

/// Below any hit there is a first hit.
pub proof fn lemma_first_hit_exists<T>(s: Seq<T>, p: spec_fn(T) -> bool, j: int)
    requires
        0 <= j < s.len(),
        p(s[j]),
    ensures
        exists|i: int| 0 <= i <= j && is_first(s, p, i),
    decreases j,
{
    if exists|k: int| 0 <= k < j && p(#[trigger] s[k]) {
        let k = choose|k: int| 0 <= k < j && p(#[trigger] s[k]);
        lemma_first_hit_exists(s, p, k);
        let i = choose|i: int| 0 <= i <= k && is_first(s, p, i);
        assert(0 <= i <= j && is_first(s, p, i));
    } else {
        assert(is_first(s, p, j));
    }
}

/// What `first_index` returns: the first hit, or nothing exactly when no
/// entry satisfies the predicate.
pub proof fn lemma_first_index<T>(s: Seq<T>, p: spec_fn(T) -> bool)
    ensures
        first_index(s, p) matches Some(i) ==> is_first(s, p, i),
        first_index(s, p) is None <==> !has_match(s, p),
{
    if has_match(s, p) {
        let j = choose|j: int| 0 <= j < s.len() && p(#[trigger] s[j]);
        lemma_first_hit_exists(s, p, j);
    }
    if first_index(s, p) is Some {
        let i = first_index(s, p)->0;
        assert(is_first(s, p, i));
        assert(p(s[i]));
    }
}

/// Appending an entry changes the first hit only where there was none: then
/// the new entry is it, if it satisfies the predicate.
pub proof fn lemma_first_index_push<T>(s: Seq<T>, p: spec_fn(T) -> bool, x: T)
    ensures
        first_index(s.push(x), p) == if first_index(s, p) is Some {
            first_index(s, p)
        } else if p(x) {
            Some(s.len() as int)
        } else {
            None
        },
{
    let longer = s.push(x);
    lemma_first_index(s, p);
    lemma_first_index(longer, p);
    assert forall|j: int| 0 <= j < s.len() implies #[trigger] longer[j] == s[j] by {}
    if first_index(s, p) is Some {
        let i = first_index(s, p)->0;
        assert(is_first(longer, p, i));
        lemma_first_index_is(longer, p, i);
    } else if p(x) {
        assert(longer[s.len() as int] == x);
        assert(is_first(longer, p, s.len() as int));
        lemma_first_index_is(longer, p, s.len() as int);
    } else {
        if first_index(longer, p) is Some {
            let i = first_index(longer, p)->0;
            assert(p(longer[i]));
            if i < s.len() {
                assert(p(s[i]));
            }
        }
    }
}

/// Taking out an entry that does not satisfy the predicate leaves the first
/// hit the entry it was, one place further up if it stood behind.
pub proof fn lemma_first_index_remove<T>(s: Seq<T>, p: spec_fn(T) -> bool, i: int)
    requires
        0 <= i < s.len(),
        !p(s[i]),
    ensures
        first_index(s.remove(i), p) == match first_index(s, p) {
            Some(k) => Some(
                if k < i {
                    k
                } else {
                    k - 1
                },
            ),
            None => None,
        },
        first_index(s, p) matches Some(k) ==> s.remove(i)[first_index(s.remove(i), p)->0] == s[k],
{
    let shorter = s.remove(i);
    lemma_first_index(s, p);
    lemma_first_index(shorter, p);
    assert forall|j: int| 0 <= j < shorter.len() implies #[trigger] shorter[j] == s[if j < i {
        j
    } else {
        j + 1
    }] by {}
    if first_index(s, p) is Some {
        let k = first_index(s, p)->0;
        let moved = if k < i {
            k
        } else {
            k - 1
        };
        assert(shorter[moved] == s[k]);
        assert(is_first(shorter, p, moved));
        lemma_first_index_is(shorter, p, moved);
    } else {
        if first_index(shorter, p) is Some {
            let j = first_index(shorter, p)->0;
            assert(p(shorter[j]));
            assert(p(s[if j < i { j } else { j + 1 }]));
        }
    }
}

/// Replacing an entry by one that satisfies the predicate exactly if the old
/// one did leaves the first hit where it was.
pub proof fn lemma_first_index_update<T>(s: Seq<T>, p: spec_fn(T) -> bool, i: int, x: T)
    requires
        0 <= i < s.len(),
        p(x) == p(s[i]),
    ensures
        first_index(s.update(i, x), p) == first_index(s, p),
{
    let changed = s.update(i, x);
    lemma_first_index(s, p);
    lemma_first_index(changed, p);
    assert forall|j: int| 0 <= j < s.len() implies p(#[trigger] changed[j]) == p(s[j]) by {}
    if first_index(s, p) is Some {
        let k = first_index(s, p)->0;
        assert(is_first(changed, p, k)) by {
            assert(p(changed[k]) == p(s[k]));
            assert forall|j: int| 0 <= j < k implies !p(#[trigger] changed[j]) by {
                assert(p(changed[j]) == p(s[j]));
            }
        }
        lemma_first_index_is(changed, p, k);
    } else {
        if first_index(changed, p) is Some {
            let j = first_index(changed, p)->0;
            assert(p(changed[j]) == p(s[j]));
        }
    }
}

} // verus!
