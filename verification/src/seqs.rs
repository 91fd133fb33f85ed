//! The first element of a sequence that satisfies a predicate, which is what
//! every `iter().find(..)` and `iter().position(..)` of the server looks up.

use vstd::prelude::*;

verus! {

/// The index of the first element of `s` that satisfies `p`, if there is one.
pub open spec fn first_match<T>(s: Seq<T>, p: spec_fn(T) -> bool) -> Option<int>
    decreases s.len(),
{
    if s.len() == 0 {
        None
    } else if p(s[0]) {
        Some(0)
    } else {
        match first_match(s.drop_first(), p) {
            Some(i) => Some(i + 1),
            None => None,
        }
    }
}

/// `first_match` is the least index whose element satisfies the predicate.
pub proof fn lemma_first_match<T>(s: Seq<T>, p: spec_fn(T) -> bool)
    ensures
        first_match(s, p) matches Some(i) ==> 0 <= i < s.len() && p(s[i]) && forall|j: int|
            0 <= j < i ==> !p(#[trigger] s[j]),
        first_match(s, p) is None ==> forall|j: int| 0 <= j < s.len() ==> !p(#[trigger] s[j]),
    decreases s.len(),
{
    if s.len() > 0 && !p(s[0]) {
        lemma_first_match(s.drop_first(), p);
        assert forall|j: int| 1 <= j < s.len() implies s[j] == s.drop_first()[j - 1] by {}
    }
}

/// A scan that found no match before `i` and a match at `i` has found the first match;
/// one that found no match anywhere knows there is none.
pub proof fn lemma_first_match_at<T>(s: Seq<T>, p: spec_fn(T) -> bool, i: int)
    requires
        0 <= i <= s.len(),
        forall|j: int| 0 <= j < i ==> !p(#[trigger] s[j]),
    ensures
        i < s.len() && p(s[i]) ==> first_match(s, p) == Some(i),
        i == s.len() ==> first_match(s, p) is None,
{
    lemma_first_match(s, p);
}

/// Appending an element that matches nothing before it leaves the earlier first
/// match in place, and otherwise makes the new element the first match.
pub proof fn lemma_first_match_push<T>(s: Seq<T>, x: T, p: spec_fn(T) -> bool)
    ensures
        first_match(s, p) is Some ==> first_match(s.push(x), p) == first_match(s, p),
        first_match(s, p) is None && p(x) ==> first_match(s.push(x), p) == Some(s.len() as int),
        first_match(s, p) is None && !p(x) ==> first_match(s.push(x), p) is None,
{
    lemma_first_match(s, p);
    let t = s.push(x);
    match first_match(s, p) {
        Some(i) => {
            assert forall|j: int| 0 <= j < i implies !p(#[trigger] t[j]) by {
                assert(t[j] == s[j]);
            }
            assert(t[i] == s[i]);
            lemma_first_match_at(t, p, i);
        },
        None => {
            assert forall|j: int| 0 <= j < s.len() implies !p(#[trigger] t[j]) by {
                assert(t[j] == s[j]);
            }
            lemma_first_match_at(t, p, s.len() as int);
            if !p(x) {
                assert forall|j: int| 0 <= j < t.len() implies !p(#[trigger] t[j]) by {
                    if j < s.len() {
                        assert(t[j] == s[j]);
                    }
                }
                lemma_first_match_at(t, p, t.len() as int);
            }
        },
    }
}

/// Where `x` is the only element that satisfies `p`, the first match is `x`.
pub proof fn lemma_unique_match<T>(s: Seq<T>, p: spec_fn(T) -> bool, x: T)
    requires
        s.contains(x),
        p(x),
        forall|j: int| 0 <= j < s.len() && p(#[trigger] s[j]) ==> s[j] == x,
    ensures
        first_match(s, p) matches Some(i) && s[i] == x,
{
    lemma_first_match(s, p);
    let k = choose|k: int| 0 <= k < s.len() && s[k] == x;
    assert(p(s[k]));
}

/// Two sequences with the same elements contain the same values.
pub proof fn lemma_perm_contains<T>(s: Seq<T>, r: Seq<T>, a: T)
    requires
        r.to_multiset() == s.to_multiset(),
    ensures
        r.contains(a) == s.contains(a),
{
    vstd::seq_lib::to_multiset_contains(s, a);
    vstd::seq_lib::to_multiset_contains(r, a);
}

} // verus!
