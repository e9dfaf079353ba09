//! The first element of a sequence that meets a condition.
//!
//! Every table of the server is searched from the front and the first match
//! wins; the contracts of those searches are stated over [`first_index`].

use vstd::prelude::*;

verus! {

/// `i` is the place of the first element of `s` that meets `p`.
pub open spec fn is_first<T>(s: Seq<T>, p: spec_fn(T) -> bool, i: int) -> bool {
    &&& 0 <= i < s.len()
    &&& p(s[i])
    &&& forall|j: int| 0 <= j < i ==> !p(#[trigger] s[j])
}

/// No element of `s` meets `p`.
pub open spec fn none_meets<T>(s: Seq<T>, p: spec_fn(T) -> bool) -> bool {
    forall|j: int| 0 <= j < s.len() ==> !p(#[trigger] s[j])
}

/// The place of the first element of `s` that meets `p`, if any does.
pub open spec fn first_index<T>(s: Seq<T>, p: spec_fn(T) -> bool) -> Option<int> {
    if exists|i: int| is_first(s, p, i) {
        Some(choose|i: int| is_first(s, p, i))
    } else {
        None
    }
}

/// A first place is the only one.
pub proof fn lemma_first_index_is<T>(s: Seq<T>, p: spec_fn(T) -> bool, i: int)
    requires
        is_first(s, p, i),
    ensures
        first_index(s, p) == Some(i),
{
    let k = choose|k: int| is_first(s, p, k);
    assert(is_first(s, p, k));
    if k < i {
        assert(!p(s[k]));
    } else if i < k {
        assert(!p(s[i]));
    }
}

/// Among the first `n` elements, either none meets `p` or one is the first.
proof fn lemma_prefix_has_first<T>(s: Seq<T>, p: spec_fn(T) -> bool, n: int)
    requires
        0 <= n <= s.len(),
    ensures
        (exists|i: int| i < n && is_first(s, p, i)) || (forall|j: int|
            0 <= j < n ==> !p(#[trigger] s[j])),
    decreases n,
{
    if n > 0 {
        lemma_prefix_has_first(s, p, n - 1);
        if !(exists|i: int| i < n - 1 && is_first(s, p, i)) {
            if p(s[n - 1]) {
                assert(is_first(s, p, n - 1));
            }
        }
    }
}

/// What [`first_index`] returns is a first place; it returns nothing only
/// where no element meets the condition.
pub proof fn lemma_first_index<T>(s: Seq<T>, p: spec_fn(T) -> bool)
    ensures
        first_index(s, p) matches Some(i) ==> is_first(s, p, i),
        first_index(s, p) is None <==> none_meets(s, p),
{
    lemma_prefix_has_first(s, p, s.len() as int);
    if exists|i: int| is_first(s, p, i) {
        let i = choose|i: int| is_first(s, p, i);
        assert(p(s[i]));
    }
}

/// Two sequences that meet the condition at the same places are searched
/// alike.
pub proof fn lemma_first_index_same<T>(s: Seq<T>, t: Seq<T>, p: spec_fn(T) -> bool)
    requires
        s.len() == t.len(),
        forall|j: int| #![trigger s[j]] #![trigger t[j]] 0 <= j < s.len() ==> p(s[j]) == p(t[j]),
    ensures
        first_index(s, p) == first_index(t, p),
{
    lemma_first_index(t, p);
    match first_index(t, p) {
        Some(i) => {
            assert(is_first(s, p, i)) by {
                assert(p(s[i]) == p(t[i]));
                assert forall|j: int| 0 <= j < i implies !p(#[trigger] s[j]) by {
                    assert(!p(t[j]));
                }
            }
            lemma_first_index_is(s, p, i);
        },
        None => {
            assert(none_meets(s, p)) by {
                assert forall|j: int| 0 <= j < s.len() implies !p(#[trigger] s[j]) by {
                    assert(!p(t[j]));
                }
            }
            lemma_first_index(s, p);
        },
    }
}

/// One more element at the end is found only where the search found
/// nothing before it.
pub proof fn lemma_first_index_push<T>(s: Seq<T>, x: T, p: spec_fn(T) -> bool)
    ensures
        first_index(s.push(x), p) == match first_index(s, p) {
            Some(i) => Some(i),
            None => if p(x) {
                Some(s.len() as int)
            } else {
                None::<int>
            },
        },
{
    let t = s.push(x);
    let n = s.len() as int;
    lemma_first_index(s, p);
    match first_index(s, p) {
        Some(i) => {
            assert(is_first(t, p, i)) by {
                assert(t[i] == s[i]);
                assert forall|j: int| 0 <= j < i implies !p(#[trigger] t[j]) by {
                    assert(t[j] == s[j]);
                }
            }
            lemma_first_index_is(t, p, i);
        },
        None => {
            assert forall|j: int| 0 <= j < n implies !p(#[trigger] t[j]) by {
                assert(t[j] == s[j]);
                assert(!p(s[j]));
            }
            if p(x) {
                assert(is_first(t, p, n));
                lemma_first_index_is(t, p, n);
            } else {
                assert(none_meets(t, p)) by {
                    assert forall|j: int| 0 <= j < t.len() implies !p(#[trigger] t[j]) by {
                        if j == n {
                            assert(t[j] == x);
                        }
                    }
                }
                lemma_first_index(t, p);
            }
        },
    }
}

} // verus!
