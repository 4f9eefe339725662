//! The median of a list of ordinal scores, held exactly.
//!
//! The median of an even number of integers may fall halfway between two of
//! them, so a [`Median`] stores twice its value.

use vstd::prelude::*;
use vstd::relations::{sorted_by, total_ordering};
use vstd::seq_lib::{lemma_sorted_unique, to_multiset_len};

verus! {

/// The order in which scores are sorted: ascending.
pub open spec fn ascending() -> spec_fn(i32, i32) -> bool {
    |a: i32, b: i32| a <= b
}

/// `s` rearranged into ascending order.
pub open spec fn sorted(s: Seq<i32>) -> Seq<i32> {
    s.sort_by(ascending())
}

/// Twice the statistical median of `s`: twice the middle element of the
/// sorted sequence when the length is odd, the sum of the two middle elements
/// when it is even.
pub open spec fn median_doubled(s: Seq<i32>) -> int
    recommends
        s.len() > 0,
{
    let t = sorted(s);
    let n = t.len() as int;
    if n % 2 == 1 {
        2 * t[n / 2]
    } else {
        t[n / 2 - 1] + t[n / 2]
    }
}

/// An exact median: an integer or an integer and a half.
#[derive(Clone, Copy, Debug)]
pub struct Median {
    doubled: i64,
}

impl Median {
    #[verifier::type_invariant]
    spec fn in_range(self) -> bool {
        2 * i32::MIN <= self.doubled <= 2 * i32::MAX
    }

    /// Twice the value of this median.
    pub closed spec fn doubled(self) -> int {
        self.doubled as int
    }

    /// Whether twice the value fits what two scores can add up to. Every
    /// `Median` that executable code holds is valid.
    pub open spec fn valid(self) -> bool {
        2 * i32::MIN <= self.doubled() <= 2 * i32::MAX
    }

    /// The median of the single value `value`.
    pub fn of_value(value: i32) -> (m: Median)
        ensures
            m.doubled() == 2 * value,
            m.valid(),
    {
        Median { doubled: 2 * (value as i64) }
    }

    /// The median of the two values `low` and `high`: their mean.
    pub fn of_pair(low: i32, high: i32) -> (m: Median)
        ensures
            m.doubled() == low + high,
            m.valid(),
    {
        Median { doubled: low as i64 + high as i64 }
    }

    /// Twice the value of this median.
    pub fn twice(&self) -> (d: i64)
        ensures
            d == self.doubled(),
            self.valid(),
    {
        proof {
            use_type_invariant(self);
        }
        self.doubled
    }
}

/// The relation `<=` on scores is a total order.
pub proof fn lemma_ascending_is_total()
    ensures
        total_ordering(ascending()),
{
}

/// Sorts `values` with `slice::sort`. Afterwards the vector holds the same
/// values, each as often as before, in ascending order.
#[verifier::external_body]
fn sort_ascending(values: &mut Vec<i32>)
    ensures
        final(values)@.to_multiset() == old(values)@.to_multiset(),
        sorted_by(final(values)@, ascending()),
{
    values.sort();
}

/// A sequence that is in ascending order and holds the values of `s`, each as
/// often as `s` does, is `sorted(s)`.
pub proof fn lemma_sorted_is_unique(s: Seq<i32>, t: Seq<i32>)
    requires
        t.to_multiset() == s.to_multiset(),
        sorted_by(t, ascending()),
    ensures
        t == sorted(s),
{
    lemma_ascending_is_total();
    s.lemma_sort_by_ensures(ascending());
    lemma_sorted_unique(t, sorted(s), ascending());
}

/// The median does not depend on the order of the values: two sequences that
/// hold the same values, each as often as the other, have the same median.
pub proof fn lemma_median_ignores_order(s: Seq<i32>, t: Seq<i32>)
    requires
        s.to_multiset() == t.to_multiset(),
    ensures
        sorted(s) == sorted(t),
        median_doubled(s) == median_doubled(t),
{
    lemma_ascending_is_total();
    t.lemma_sort_by_ensures(ascending());
    lemma_sorted_is_unique(s, sorted(t));
}

/// What `sorted` gives: the values of `s`, each as often as in `s`, in
/// ascending order.
pub proof fn lemma_sorted_holds_same_values(s: Seq<i32>)
    ensures
        sorted(s).to_multiset() == s.to_multiset(),
        sorted_by(sorted(s), ascending()),
        sorted(s).len() == s.len(),
        forall|i: int| 0 <= i < s.len() ==> s.contains(#[trigger] sorted(s)[i]),
        forall|i: int, j: int| 0 <= i <= j < s.len() ==> sorted(s)[i] <= sorted(s)[j],
{
    lemma_ascending_is_total();
    s.lemma_sort_by_ensures(ascending());
    to_multiset_len(s);
    to_multiset_len(sorted(s));
    assert forall|i: int| 0 <= i < s.len() implies s.contains(#[trigger] sorted(s)[i]) by {
        assert(sorted(s).contains(sorted(s)[i]));
    }
    assert forall|i: int, j: int| 0 <= i <= j < s.len() implies sorted(s)[i] <= sorted(s)[j] by {
        if i < j {
            assert(ascending()(sorted(s)[i], sorted(s)[j]));
        }
    }
}

/// The median lies between the least and the greatest value: if every value
/// of the non-empty `s` is within `low..=high`, so is its median.
pub proof fn lemma_median_within_bounds(s: Seq<i32>, low: int, high: int)
    requires
        s.len() > 0,
        forall|i: int| 0 <= i < s.len() ==> low <= #[trigger] s[i] <= high,
    ensures
        2 * low <= median_doubled(s) <= 2 * high,
{
    lemma_sorted_holds_same_values(s);
    let t = sorted(s);
    let n = t.len() as int;
    assert forall|i: int| 0 <= i < n implies low <= #[trigger] t[i] <= high by {
        assert(s.contains(t[i]));
    }
    if n % 2 == 1 {
        assert(low <= t[n / 2] <= high);
    } else {
        assert(low <= t[n / 2 - 1] <= high);
        assert(low <= t[n / 2] <= high);
    }
}

/// The median splits the values in halves: in the sorted sequence, whatever
/// stands before the middle is at most the median and whatever stands after
/// it is at least the median.
pub proof fn lemma_median_splits_in_halves(s: Seq<i32>, i: int)
    requires
        0 <= i < s.len(),
    ensures
        2 * i < s.len() ==> 2 * sorted(s)[i] <= median_doubled(s),
        2 * i + 1 >= s.len() ==> 2 * sorted(s)[i] >= median_doubled(s),
{
    lemma_sorted_holds_same_values(s);
    let t = sorted(s);
    let n = t.len() as int;
    if n % 2 == 1 {
        if 2 * i < n {
            assert(t[i] <= t[n / 2]);
        }
        if 2 * i + 1 >= n {
            assert(t[n / 2] <= t[i]);
        }
    } else {
        if 2 * i < n {
            assert(t[i] <= t[n / 2 - 1]);
            assert(t[i] <= t[n / 2]);
        }
        if 2 * i + 1 >= n {
            assert(t[n / 2 - 1] <= t[i]);
            assert(t[n / 2] <= t[i]);
        }
    }
}

/// Sorts `values` in place and returns their median, or `None` when there are
/// no values.
pub fn median(values: &mut Vec<i32>) -> (result: Option<Median>)
    ensures
        final(values)@ == sorted(old(values)@),
        final(values)@.len() == old(values)@.len(),
        final(values)@.to_multiset() == old(values)@.to_multiset(),
        sorted_by(final(values)@, ascending()),
        old(values)@.len() == 0 <==> result is None,
        result matches Some(m) ==> m.doubled() == median_doubled(old(values)@) && m.valid(),
{
    if values.len() == 0 {
        proof {
            lemma_sorted_is_unique(values@, values@);
        }
        return None;
    }
    sort_ascending(values);
    proof {
        lemma_sorted_is_unique(old(values)@, values@);
        to_multiset_len(values@);
        to_multiset_len(old(values)@);
    }
    let n: usize = values.len();
    if n % 2 == 1 {
        Some(Median::of_value(values[n / 2]))
    } else {
        Some(Median::of_pair(values[n / 2 - 1], values[n / 2]))
    }
}

} // verus!
