//! Sequences that hold the same elements in another order, and what filtering
//! and mapping make of them.

use vstd::prelude::*;
use vstd::seq_lib::{to_multiset_build, to_multiset_len, to_multiset_remove};

verus! {

/// Whether `s` and `t` hold the same elements, each as often as the other.
pub open spec fn same_elements<A>(s: Seq<A>, t: Seq<A>) -> bool {
    s.to_multiset() == t.to_multiset()
}

/// Sequences with the same elements have the same length.
pub proof fn lemma_same_elements_same_length<A>(s: Seq<A>, t: Seq<A>)
    requires
        same_elements(s, t),
    ensures
        s.len() == t.len(),
{
    to_multiset_len(s);
    to_multiset_len(t);
}

/// In what a filter keeps, an element that passes occurs as often as before,
/// and one that does not pass occurs not at all.
pub proof fn lemma_filter_count<A>(s: Seq<A>, keep: spec_fn(A) -> bool, x: A)
    ensures
        s.filter(keep).to_multiset().count(x) == if keep(x) {
            s.to_multiset().count(x)
        } else {
            0
        },
    decreases s.len(),
{
    broadcast use vstd::multiset::group_multiset_axioms;

    if s.len() == 0 {
        reveal(Seq::filter);
        s.to_multiset_ensures();
        to_multiset_len(s);
        assert(s.to_multiset().count(x) <= s.to_multiset().len()) by {
            if s.to_multiset().count(x) > 0 {
                assert(s.to_multiset().contains(x));
                assert(s.contains(x));
            }
        }
    } else {
        let rest = s.drop_last();
        let last = s.last();
        assert(s =~= rest.push(last));
        lemma_filter_count(rest, keep, x);
        rest.lemma_filter_push(last, keep);
        to_multiset_build(rest, last);
        to_multiset_build(rest.filter(keep), last);
    }
}

/// Filtering two sequences with the same elements leaves the same elements.
pub proof fn lemma_filter_same_elements<A>(s: Seq<A>, t: Seq<A>, keep: spec_fn(A) -> bool)
    requires
        same_elements(s, t),
    ensures
        same_elements(s.filter(keep), t.filter(keep)),
{
    assert forall|x: A|
        s.filter(keep).to_multiset().count(x) == t.filter(keep).to_multiset().count(x) by {
        lemma_filter_count(s, keep, x);
        lemma_filter_count(t, keep, x);
    }
    assert(s.filter(keep).to_multiset() =~= t.filter(keep).to_multiset());
}

/// Mapping two sequences with the same elements gives the same elements.
pub proof fn lemma_map_same_elements<A, B>(s: Seq<A>, t: Seq<A>, f: spec_fn(A) -> B)
    requires
        same_elements(s, t),
    ensures
        same_elements(s.map_values(f), t.map_values(f)),
    decreases s.len(),
{
    broadcast use vstd::multiset::group_multiset_axioms;

    lemma_same_elements_same_length(s, t);
    if s.len() == 0 {
        assert(s.map_values(f) =~= t.map_values(f));
    } else {
        let last = s.last();
        let rest = s.drop_last();
        assert(s =~= rest.push(last));
        to_multiset_build(rest, last);
        s.to_multiset_ensures();
        t.to_multiset_ensures();
        assert(s.to_multiset().count(last) > 0);
        assert(t.contains(last));
        let j = choose|j: int| 0 <= j < t.len() && t[j] == last;
        let others = t.remove(j);
        to_multiset_remove(t, j);
        assert(rest.to_multiset() =~= others.to_multiset());
        lemma_map_same_elements(rest, others, f);
        assert(s.map_values(f) =~= rest.map_values(f).push(f(last)));
        to_multiset_build(rest.map_values(f), f(last));
        assert(others.map_values(f) =~= t.map_values(f).remove(j));
        to_multiset_remove(t.map_values(f), j);
        t.map_values(f).to_multiset_ensures();
        assert(t.map_values(f)[j] == f(last));
        assert(t.map_values(f).to_multiset().count(f(last)) > 0);
        assert(s.map_values(f).to_multiset() =~= t.map_values(f).to_multiset());
    }
}

} // verus!
