//! The stable sort, newest first, that the metadata indexes keep their
//! entries in (what `sort_by(|a, b| b.key.cmp(&a.key))` does).

use vstd::prelude::*;
use crate::seqs::{first_match, lemma_first_match, lemma_first_match_at};

verus! {

broadcast use vstd::seq_lib::to_multiset_insert;

/// Values that are ordered by an integer key.
pub trait Keyed: Sized {
    /// The key, as a mathematical integer.
    spec fn key_of(&self) -> int;

    /// The key, computed.
    fn sort_key(&self) -> (k: i128)
        ensures
            k == self.key_of(),
    ;
}

/// The predicate "has a key smaller than `k`".
pub open spec fn key_below<T: Keyed>(k: int) -> spec_fn(T) -> bool {
    |e: T| e.key_of() < k
}

/// Where a stable descending insertion puts `x` into `s`: before the first
/// element whose key is smaller than `x`'s, or at the end.
pub open spec fn insert_pos<T: Keyed>(s: Seq<T>, x: T) -> int {
    match first_match(s, key_below::<T>(x.key_of())) {
        Some(i) => i,
        None => s.len() as int,
    }
}

/// Inserts `x` after every element whose key is at least `x`'s.
pub open spec fn insert_desc<T: Keyed>(s: Seq<T>, x: T) -> Seq<T> {
    s.insert(insert_pos(s, x), x)
}

/// The stable sort by descending key: each element in turn is inserted after
/// the earlier ones whose key is at least its own.
pub open spec fn sort_desc<T: Keyed>(s: Seq<T>) -> Seq<T>
    decreases s.len(),
{
    if s.len() == 0 {
        s
    } else {
        insert_desc(sort_desc(s.drop_last()), s.last())
    }
}

/// Keys do not increase along the sequence.
pub open spec fn sorted_desc<T: Keyed>(s: Seq<T>) -> bool {
    forall|i: int, j: int| 0 <= i < j < s.len() ==> #[trigger] s[i].key_of() >= #[trigger] s[j].key_of()
}

proof fn lemma_insert_pos<T: Keyed>(s: Seq<T>, x: T)
    ensures
        0 <= insert_pos(s, x) <= s.len(),
        forall|j: int| 0 <= j < insert_pos(s, x) ==> #[trigger] s[j].key_of() >= x.key_of(),
        insert_pos(s, x) < s.len() ==> s[insert_pos(s, x)].key_of() < x.key_of(),
{
    lemma_first_match(s, key_below::<T>(x.key_of()));
}

/// Inserting into a sorted sequence keeps it sorted.
proof fn lemma_insert_desc_sorted<T: Keyed>(s: Seq<T>, x: T)
    requires
        sorted_desc(s),
    ensures
        sorted_desc(insert_desc(s, x)),
{
    lemma_insert_pos(s, x);
    let p = insert_pos(s, x);
    let r = insert_desc(s, x);
    s.insert_ensures(p, x);
    assert forall|i: int, j: int| 0 <= i < j < r.len() implies #[trigger] r[i].key_of() >= #[trigger] r[j].key_of() by {
        if j < p {
        } else if j == p {
            assert(s[i].key_of() >= x.key_of());
        } else if i < p {
            assert(r[j] == s[j - 1]);
        } else if i == p {
            assert(r[j] == s[j - 1]);
            assert(s[p].key_of() < x.key_of());
            if j - 1 > p {
                assert(s[p].key_of() >= s[j - 1].key_of());
            }
        } else {
            assert(r[i] == s[i - 1]);
            assert(r[j] == s[j - 1]);
        }
    }
}

/// The sort puts keys in descending order.
pub proof fn lemma_sort_desc_sorted<T: Keyed>(s: Seq<T>)
    ensures
        sorted_desc(sort_desc(s)),
    decreases s.len(),
{
    if s.len() > 0 {
        lemma_sort_desc_sorted(s.drop_last());
        lemma_insert_desc_sorted(sort_desc(s.drop_last()), s.last());
    }
}

/// The sort keeps every element, as often as it occurs.
pub proof fn lemma_sort_desc_permutes<T: Keyed>(s: Seq<T>)
    ensures
        sort_desc(s).to_multiset() == s.to_multiset(),
        sort_desc(s).len() == s.len(),
    decreases s.len(),
{
    broadcast use vstd::seq_lib::to_multiset_build;
    if s.len() > 0 {
        lemma_sort_desc_permutes(s.drop_last());
        let t = sort_desc(s.drop_last());
        lemma_insert_pos(t, s.last());
        assert(s.drop_last().push(s.last()) == s);
    }
}

/// A sequence already in order is left as it is.
pub proof fn lemma_sort_desc_of_sorted<T: Keyed>(s: Seq<T>)
    requires
        sorted_desc(s),
    ensures
        sort_desc(s) == s,
    decreases s.len(),
{
    if s.len() > 0 {
        let d = s.drop_last();
        assert(sorted_desc(d)) by {
            assert forall|i: int, j: int| 0 <= i < j < d.len() implies #[trigger] d[i].key_of() >= #[trigger] d[j].key_of() by {
                assert(d[i] == s[i]);
                assert(d[j] == s[j]);
            }
        }
        lemma_sort_desc_of_sorted(d);
        let x = s.last();
        assert forall|j: int| 0 <= j < d.len() implies !(#[trigger] key_below::<T>(x.key_of())(d[j])) by {
            assert(d[j] == s[j]);
            assert(s[j].key_of() >= s[s.len() - 1].key_of());
        }
        lemma_first_match_at(d, key_below::<T>(x.key_of()), d.len() as int);
        assert(d.insert(d.len() as int, x) =~= s);
    }
}

/// Inserts `x` into `v` at its stable descending position.
pub fn insert_desc_exec<T: Keyed>(v: &mut Vec<T>, x: T)
    ensures
        final(v)@ == insert_desc(old(v)@, x),
{
    let k = x.sort_key();
    let mut i: usize = 0;
    while i < v.len()
        invariant
            i <= v@.len(),
            v@ == old(v)@,
            k == x.key_of(),
            forall|j: int| 0 <= j < i ==> !(#[trigger] key_below::<T>(x.key_of())(v@[j])),
        decreases v.len() - i,
    {
        if v[i].sort_key() < k {
            proof {
                lemma_first_match_at(v@, key_below::<T>(x.key_of()), i as int);
            }
            v.insert(i, x);
            return;
        }
        i = i + 1;
    }
    proof {
        lemma_first_match_at(v@, key_below::<T>(x.key_of()), i as int);
    }
    v.insert(i, x);
}

/// Sorts by descending key, keeping equal keys in their order.
pub fn sort_desc_exec<T: Keyed>(v: Vec<T>) -> (r: Vec<T>)
    ensures
        r@ == sort_desc(v@),
{
    let ghost orig = v@;
    let n = v.len();
    let mut out: Vec<T> = Vec::new();
    let mut rest = v;
    let mut k: usize = 0;
    while rest.len() > 0
        invariant
            k <= orig.len(),
            orig.len() == k + rest@.len(),
            orig.len() == n,
            rest@ == orig.skip(k as int),
            out@ == sort_desc(orig.take(k as int)),
        decreases rest.len(),
    {
        let x = rest.remove(0);
        proof {
            assert(x == orig[k as int]);
            assert(orig.take(k + 1).drop_last() == orig.take(k as int));
            assert(orig.take(k + 1).last() == x);
        }
        insert_desc_exec(&mut out, x);
        proof {
            assert(rest@ =~= orig.skip(k + 1));
        }
        k = k + 1;
    }
    assert(orig.take(k as int) == orig);
    out
}

} // verus!
