//! Stable sorting by an order that a type has under some criterion.
use vstd::prelude::*;

verus! {

/// A type whose values stand in a total preorder under a criterion.
pub trait Ranked<C>: Sized {
    /// Whether `self` stands at or before `other`.
    spec fn leads(self, other: Self, by: C) -> bool;

    proof fn leads_total(a: Self, b: Self, by: C)
        ensures
            a.leads(b, by) || b.leads(a, by),
    ;

    proof fn leads_transitive(a: Self, b: Self, c: Self, by: C)
        requires
            a.leads(b, by),
            b.leads(c, by),
        ensures
            a.leads(c, by),
    ;

    /// Whether `self` stands at or before `other`.
    fn at_or_before(&self, other: &Self, by: &C) -> (r: bool)
        ensures
            r == self.leads(*other, *by),
    ;
}

/// Whether `places` is a rearrangement of the places of a list of `n`.
pub open spec fn rearranges(places: Seq<int>, n: nat) -> bool {
    &&& places.len() == n
    &&& forall|i: int| 0 <= i < n ==> 0 <= #[trigger] places[i] < n
    &&& forall|i: int, j: int|
        #![trigger places[i], places[j]]
        0 <= i < j < n ==> places[i] != places[j]
}

/// Whether the values of a list stand in order.
pub open spec fn in_order<C, T: Ranked<C>>(list: Seq<T>, by: C) -> bool {
    forall|i: int, j: int|
        #![trigger list[i], list[j]]
        0 <= i < j < list.len() ==> list[i].leads(list[j], by)
}

/// Whether `after` is `before` sorted, where `places` says where each value
/// comes from: the values stand in order, and those that tie keep the order
/// they had.
pub open spec fn sorts<C, T: Ranked<C>>(
    before: Seq<T>,
    after: Seq<T>,
    places: Seq<int>,
    by: C,
) -> bool {
    &&& rearranges(places, before.len())
    &&& after.len() == before.len()
    &&& forall|i: int| 0 <= i < after.len() ==> #[trigger] after[i] == before[places[i]]
    &&& in_order(after, by)
    &&& forall|i: int, j: int|
        #![trigger places[i], places[j]]
        0 <= i < j < after.len() && after[j].leads(after[i], by) ==> places[i] < places[j]
}

/// Whether `after` is `before` sorted.
pub open spec fn is_sorted_from<C, T: Ranked<C>>(before: Seq<T>, after: Seq<T>, by: C) -> bool {
    exists|places: Seq<int>| sorts(before, after, places, by)
}

/// Whether the first `n` of `now` are the first `n` of `before` sorted.
spec fn sorted_up_to<C, T: Ranked<C>>(
    before: Seq<T>,
    now: Seq<T>,
    places: Seq<int>,
    n: int,
    by: C,
) -> bool {
    &&& rearranges(places, before.len())
    &&& now.len() == before.len()
    &&& 0 <= n <= now.len()
    &&& forall|i: int| 0 <= i < now.len() ==> #[trigger] now[i] == before[places[i]]
    &&& forall|i: int| n <= i < now.len() ==> #[trigger] places[i] == i
    &&& forall|i: int, j: int|
        #![trigger now[i], now[j]]
        0 <= i < j < n ==> now[i].leads(now[j], by)
    &&& forall|i: int, j: int|
        #![trigger places[i], places[j]]
        0 <= i < j < n && now[j].leads(now[i], by) ==> places[i] < places[j]
}

/// Where the value behind the first `n` belongs among them.
fn place_for<C, T: Ranked<C>>(list: &Vec<T>, n: usize, by: &C) -> (at: usize)
    requires
        n < list@.len(),
        forall|i: int, j: int|
            #![trigger list@[i], list@[j]]
            0 <= i < j < n ==> list@[i].leads(list@[j], *by),
    ensures
        at <= n,
        forall|i: int| 0 <= i < at ==> (#[trigger] list@[i]).leads(list@[n as int], *by),
        forall|i: int| at <= i < n ==> !(#[trigger] list@[i]).leads(list@[n as int], *by),
{
    let mut at: usize = n;
    while at > 0 && !list[at - 1].at_or_before(&list[n], by)
        invariant
            at <= n < list@.len(),
            forall|i: int| at <= i < n ==> !(#[trigger] list@[i]).leads(list@[n as int], *by),
        decreases at,
    {
        at = at - 1;
    }
    proof {
        if at > 0 {
            assert forall|i: int| 0 <= i < at implies (#[trigger] list@[i]).leads(
                list@[n as int],
                *by,
            ) by {
                if i < at - 1 {
                    T::leads_transitive(list@[i], list@[at - 1], list@[n as int], *by);
                }
            }
        }
    }
    at
}

proof fn insertion_sorts<C, T: Ranked<C>>(
    before: Seq<T>,
    now: Seq<T>,
    places: Seq<int>,
    n: int,
    at: int,
    by: C,
) -> (next: Seq<int>)
    requires
        sorted_up_to(before, now, places, n, by),
        0 <= at <= n < now.len(),
        forall|i: int| 0 <= i < at ==> (#[trigger] now[i]).leads(now[n], by),
        forall|i: int| at <= i < n ==> !(#[trigger] now[i]).leads(now[n], by),
    ensures
        sorted_up_to(before, now.remove(n).insert(at, now[n]), next, n + 1, by),
{
    let after = now.remove(n).insert(at, now[n]);
    let next = places.remove(n).insert(at, n);
    assert(places[n] == n);
    assert forall|i: int| 0 <= i < after.len() implies 0 <= #[trigger] next[i] < before.len() by {
        if i < at {
            assert(next[i] == places[i]);
        } else if i > at && i <= n {
            assert(next[i] == places[i - 1]);
        } else if i > n {
            assert(next[i] == places[i]);
        }
    }
    assert forall|i: int, j: int|
        #![trigger next[i], next[j]]
        0 <= i < j < after.len() implies next[i] != next[j] by {
        let pi = if i < at || i > n {
            i
        } else if i == at {
            n
        } else {
            i - 1
        };
        let pj = if j < at || j > n {
            j
        } else if j == at {
            n
        } else {
            j - 1
        };
        assert(next[i] == places[pi]);
        assert(next[j] == places[pj]);
        assert(pi != pj);
        if pi < pj {
            assert(places[pi] != places[pj]);
        } else {
            assert(places[pj] != places[pi]);
        }
    }
    assert forall|i: int| 0 <= i < after.len() implies #[trigger] after[i] == before[next[i]] by {
        if i < at {
            assert(after[i] == now[i]);
        } else if i == at {
            assert(after[i] == now[n]);
            assert(now[n] == before[places[n]]);
        } else if i <= n {
            assert(after[i] == now[i - 1]);
            assert(next[i] == places[i - 1]);
        } else {
            assert(after[i] == now[i]);
        }
    }
    assert forall|i: int| n + 1 <= i < after.len() implies #[trigger] next[i] == i by {
        assert(next[i] == places[i]);
    }
    assert forall|i: int, j: int|
        #![trigger after[i], after[j]]
        0 <= i < j < n + 1 implies after[i].leads(after[j], by) by {
        if j < at {
            assert(after[i] == now[i] && after[j] == now[j]);
        } else if j == at {
            assert(after[i] == now[i] && after[j] == now[n]);
        } else if i < at {
            assert(after[i] == now[i] && after[j] == now[j - 1]);
        } else if i == at {
            assert(after[i] == now[n] && after[j] == now[j - 1]);
            T::leads_total(now[n], now[j - 1], by);
        } else {
            assert(after[i] == now[i - 1] && after[j] == now[j - 1]);
        }
    }
    assert forall|i: int, j: int|
        #![trigger next[i], next[j]]
        0 <= i < j < n + 1 && after[j].leads(after[i], by) implies next[i] < next[j] by {
        if j < at {
            assert(after[i] == now[i] && after[j] == now[j]);
            assert(next[i] == places[i] && next[j] == places[j]);
        } else if j == at {
            assert(next[i] == places[i] && next[j] == n);
            prefix_places(before, now, places, n, i, by);
        } else if i < at {
            assert(after[i] == now[i] && after[j] == now[j - 1]);
            assert(next[i] == places[i] && next[j] == places[j - 1]);
        } else if i == at {
            assert(after[i] == now[n] && after[j] == now[j - 1]);
        } else {
            assert(after[i] == now[i - 1] && after[j] == now[j - 1]);
            assert(next[i] == places[i - 1] && next[j] == places[j - 1]);
        }
    }
    next
}

/// The first `n` come from the first `n` places.
proof fn prefix_places<C, T: Ranked<C>>(
    before: Seq<T>,
    now: Seq<T>,
    places: Seq<int>,
    n: int,
    i: int,
    by: C,
)
    requires
        sorted_up_to(before, now, places, n, by),
        0 <= i < n,
    ensures
        places[i] < n,
{
    if places[i] >= n {
        let k = places[i];
        assert(places[k] == k);
        assert(places[i] != places[k]);
    }
}

/// Sort a list, keeping the order of values that tie.
pub fn stable_sort<C, T: Ranked<C>>(list: &mut Vec<T>, by: &C)
    ensures
        is_sorted_from(old(list)@, final(list)@, *by),
{
    let ghost before = list@;
    let ghost mut places: Seq<int> = Seq::new(before.len(), |i: int| i);
    let mut n: usize = 0;
    while n < list.len()
        invariant
            sorted_up_to(before, list@, places, n as int, *by),
        decreases list@.len() - n,
    {
        let ghost now = list@;
        let at: usize = place_for(list, n, by);
        let value = list.remove(n);
        list.insert(at, value);
        proof {
            places = insertion_sorts(before, now, places, n as int, at as int, *by);
        }
        n = n + 1;
    }
    assert(sorts(before, list@, places, *by));
}

proof fn climbs(places: Seq<int>, i: int)
    requires
        forall|i: int, j: int|
            #![trigger places[i], places[j]]
            0 <= i < j < places.len() ==> places[i] < places[j],
        0 <= i < places.len(),
        0 <= places[0],
    ensures
        places[i] >= i,
    decreases i,
{
    if i > 0 {
        climbs(places, i - 1);
        assert(places[i - 1] < places[i]);
    }
}

proof fn climbs_no_higher(places: Seq<int>, i: int)
    requires
        forall|i: int, j: int|
            #![trigger places[i], places[j]]
            0 <= i < j < places.len() ==> places[i] < places[j],
        0 <= i < places.len(),
        places[places.len() - 1] < places.len(),
    ensures
        places[i] <= i,
    decreases places.len() - i,
{
    if i < places.len() - 1 {
        climbs_no_higher(places, i + 1);
        assert(places[i] < places[i + 1]);
    }
}

/// Sorting a list that stands in order leaves every value where it is.
pub proof fn sorting_again_changes_nothing<C, T: Ranked<C>>(before: Seq<T>, after: Seq<T>, by: C)
    requires
        in_order(before, by),
        is_sorted_from(before, after, by),
    ensures
        after == before,
{
    let places = choose|places: Seq<int>| sorts(before, after, places, by);
    assert forall|i: int, j: int|
        #![trigger places[i], places[j]]
        0 <= i < j < places.len() implies places[i] < places[j] by {
        assert(after[i] == before[places[i]] && after[j] == before[places[j]]);
        if places[j] < places[i] {
            assert(before[places[j]].leads(before[places[i]], by));
        }
    }
    assert forall|i: int| 0 <= i < before.len() implies after[i] == before[i] by {
        assert(0 <= places[0] < before.len());
        assert(0 <= places[places.len() - 1] < before.len());
        climbs(places, i);
        climbs_no_higher(places, i);
        assert(after[i] == before[places[i]]);
    }
    assert(after =~= before);
}

/// Sorting loses no value and makes none up.
pub proof fn sorting_keeps_the_values<C, T: Ranked<C>>(
    before: Seq<T>,
    after: Seq<T>,
    by: C,
    value: T,
)
    requires
        is_sorted_from(before, after, by),
    ensures
        before.contains(value) <==> after.contains(value),
        after.len() == before.len(),
{
    let places = choose|places: Seq<int>| sorts(before, after, places, by);
    if after.contains(value) {
        let i = choose|i: int| 0 <= i < after.len() && after[i] == value;
        assert(after[i] == before[places[i]]);
    }
    if before.contains(value) {
        let k = choose|k: int| 0 <= k < before.len() && before[k] == value;
        let all = vstd::set_lib::set_int_range(0, before.len() as int);
        vstd::set_lib::lemma_int_range(0, before.len() as int);
        assert(places.no_duplicates());
        places.unique_seq_to_set();
        assert(places.to_set().subset_of(all)) by {
            assert forall|x: int| places.to_set().contains(x) implies all.contains(x) by {
                let i = choose|i: int| 0 <= i < places.len() && places[i] == x;
            }
        }
        vstd::set_lib::lemma_subset_equality(places.to_set(), all);
        assert(places.to_set().contains(k));
        let i = choose|i: int| 0 <= i < places.len() && places[i] == k;
        assert(after[i] == before[places[i]]);
    }
}

} // verus!
