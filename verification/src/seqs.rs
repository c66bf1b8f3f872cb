//! General lemmas and definitions about sequences, used by the filter,
//! grouping and deduplication operations.

use vstd::prelude::*;

verus! {

/// Filtering a sequence extended by one element appends that element
/// exactly when it satisfies the predicate.
pub proof fn lemma_filter_push<A>(s: Seq<A>, x: A, pred: spec_fn(A) -> bool)
    ensures
        s.push(x).filter(pred) == if pred(x) {
            s.filter(pred).push(x)
        } else {
            s.filter(pred)
        },
{
    reveal(Seq::filter);
    assert(s.push(x).drop_last() =~= s);
    assert(s.push(x).last() == x);
}

/// Membership in a sequence extended by one element.
pub proof fn lemma_contains_push<A>(s: Seq<A>, x: A, n: A)
    ensures
        s.push(x).contains(n) == (s.contains(n) || x == n),
{
    if s.contains(n) {
        let w = choose|i: int| 0 <= i < s.len() && s[i] == n;
        assert(s.push(x)[w] == n);
    }
    if x == n {
        assert(s.push(x)[s.len() as int] == n);
    }
    if s.push(x).contains(n) {
        let w = choose|i: int| 0 <= i < s.push(x).len() && s.push(x)[i] == n;
        if w < s.len() {
            assert(s[w] == n);
        }
    }
}

/// A sequence with no element satisfying the predicate filters to the
/// empty sequence.
pub proof fn lemma_filter_none<A>(s: Seq<A>, pred: spec_fn(A) -> bool)
    requires
        forall|i: int| 0 <= i < s.len() ==> !pred(s[i]),
    ensures
        s.filter(pred) == Seq::<A>::empty(),
    decreases s.len(),
{
    reveal(Seq::filter);
    if s.len() > 0 {
        assert(forall|i: int| 0 <= i < s.drop_last().len() ==> s.drop_last()[i] == s[i]);
        lemma_filter_none(s.drop_last(), pred);
    }
}

/// First-occurrence deduplication: keep each element the first time it
/// appears, in order of first appearance.
pub open spec fn dedup_first<A>(s: Seq<A>) -> Seq<A>
    decreases s.len(),
{
    if s.len() == 0 {
        Seq::empty()
    } else {
        let prev = dedup_first(s.drop_last());
        if prev.contains(s.last()) {
            prev
        } else {
            prev.push(s.last())
        }
    }
}

/// Deduplication keeps exactly the elements of the input.
pub proof fn lemma_dedup_first_contains<A>(s: Seq<A>, n: A)
    ensures
        dedup_first(s).contains(n) == s.contains(n),
    decreases s.len(),
{
    if s.len() > 0 {
        lemma_dedup_first_contains(s.drop_last(), n);
        let prev = dedup_first(s.drop_last());
        if !prev.contains(s.last()) {
            lemma_contains_push(prev, s.last(), n);
        }
        assert(s.drop_last().push(s.last()) =~= s);
        lemma_contains_push(s.drop_last(), s.last(), n);
    }
}

/// Deduplication yields pairwise distinct elements.
pub proof fn lemma_dedup_first_distinct<A>(s: Seq<A>)
    ensures
        forall|a: int, b: int|
            0 <= a < b < dedup_first(s).len() ==> dedup_first(s)[a] != dedup_first(s)[b],
    decreases s.len(),
{
    if s.len() > 0 {
        lemma_dedup_first_distinct(s.drop_last());
        let prev = dedup_first(s.drop_last());
        if !prev.contains(s.last()) {
            let d = prev.push(s.last());
            assert forall|a: int, b: int| 0 <= a < b < d.len() implies d[a] != d[b] by {
                if b == prev.len() {
                    if prev[a] == s.last() {
                        assert(prev.contains(s.last()));
                    }
                }
            }
        }
    }
}

/// The first element satisfying the predicate, scanning left to right.
pub open spec fn find_first<A>(s: Seq<A>, pred: spec_fn(A) -> bool) -> Option<A>
    decreases s.len(),
{
    if s.len() == 0 {
        None
    } else if pred(s[0]) {
        Some(s[0])
    } else {
        find_first(s.drop_first(), pred)
    }
}

/// When position `i` holds the first element satisfying the predicate,
/// the scan returns it.
pub proof fn lemma_find_first_hit<A>(s: Seq<A>, pred: spec_fn(A) -> bool, i: int)
    requires
        0 <= i < s.len(),
        pred(s[i]),
        forall|j: int| 0 <= j < i ==> !pred(s[j]),
    ensures
        find_first(s, pred) == Some(s[i]),
    decreases i,
{
    if i > 0 {
        assert(forall|j: int| 0 <= j < s.drop_first().len() ==> s.drop_first()[j] == s[j + 1]);
        lemma_find_first_hit(s.drop_first(), pred, i - 1);
    }
}

/// When no element satisfies the predicate, the scan returns nothing.
pub proof fn lemma_find_first_none<A>(s: Seq<A>, pred: spec_fn(A) -> bool)
    requires
        forall|j: int| 0 <= j < s.len() ==> !pred(s[j]),
    ensures
        find_first(s, pred) is None,
    decreases s.len(),
{
    if s.len() > 0 {
        assert(forall|j: int| 0 <= j < s.drop_first().len() ==> s.drop_first()[j] == s[j + 1]);
        lemma_find_first_none(s.drop_first(), pred);
    }
}

} // verus!
