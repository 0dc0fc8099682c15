//! Places in an order: where an item of a sequence stands once the items
//! are put in order, given by the number of items that come before it.

use vstd::prelude::*;
use vstd::relations::injective_on;
use vstd::set_lib::{
    lemma_int_range, lemma_len_subset, lemma_map_size, lemma_subset_equality, set_int_range,
};

verus! {

/// How many of the positions below `upto` come before position `i`.
pub open spec fn count_before(before: spec_fn(int, int) -> bool, i: int, upto: int) -> nat
    decreases upto,
{
    if upto <= 0 {
        0
    } else {
        count_before(before, i, upto - 1) + if before(upto - 1, i) {
            1nat
        } else {
            0nat
        }
    }
}

/// `before` puts the positions below `n` that are in `dom` in a strict
/// order, and relates no others.
pub open spec fn orders(before: spec_fn(int, int) -> bool, dom: spec_fn(int) -> bool, n: int) -> bool {
    &&& forall|i: int, j: int| #[trigger] before(i, j) ==> 0 <= i < n && 0 <= j < n && dom(i) && dom(j)
    &&& forall|i: int| !#[trigger] before(i, i)
    &&& forall|i: int, j: int, k: int| #[trigger] before(i, j) && #[trigger] before(j, k) ==> before(i, k)
    &&& forall|i: int, j: int|
        0 <= i < n && 0 <= j < n && dom(i) && dom(j) && i != j ==> #[trigger] before(i, j) || before(j, i)
}

/// The positions below `n` that are in `dom`.
pub open spec fn members(dom: spec_fn(int) -> bool, n: int) -> Set<int> {
    Set::new(|i: int| 0 <= i < n && dom(i))
}

/// The positions below `upto` that come before `i`.
pub open spec fn predecessors(before: spec_fn(int, int) -> bool, i: int, upto: int) -> Set<int> {
    Set::new(|j: int| 0 <= j < upto && before(j, i))
}

/// The members whose place is below `k`.
pub open spec fn first_places(
    before: spec_fn(int, int) -> bool,
    dom: spec_fn(int) -> bool,
    n: int,
    k: int,
) -> Set<int> {
    Set::new(|i: int| 0 <= i < n && dom(i) && count_before(before, i, n) < k)
}

pub proof fn lemma_members_finite(dom: spec_fn(int) -> bool, n: int)
    requires
        0 <= n,
    ensures
        members(dom, n).finite(),
        members(dom, n).len() <= n,
{
    lemma_int_range(0, n);
    assert(members(dom, n).subset_of(set_int_range(0, n)));
    lemma_len_subset(members(dom, n), set_int_range(0, n));
}

/// The count of the positions before `i` is the size of their set.
pub proof fn lemma_count_is_size(before: spec_fn(int, int) -> bool, i: int, upto: int)
    requires
        0 <= upto,
    ensures
        predecessors(before, i, upto).finite(),
        predecessors(before, i, upto).len() == count_before(before, i, upto),
    decreases upto,
{
    if upto == 0 {
        assert(predecessors(before, i, upto) =~= Set::<int>::empty());
    } else {
        lemma_count_is_size(before, i, upto - 1);
        let less = predecessors(before, i, upto - 1);
        if before(upto - 1, i) {
            assert(predecessors(before, i, upto) =~= less.insert(upto - 1));
        } else {
            assert(predecessors(before, i, upto) =~= less);
        }
    }
}

/// What comes before more comes later: places respect the order.
pub proof fn lemma_place_rises(
    before: spec_fn(int, int) -> bool,
    dom: spec_fn(int) -> bool,
    n: int,
    i: int,
    j: int,
    upto: int,
)
    requires
        orders(before, dom, n),
        before(i, j),
        0 <= upto <= n,
    ensures
        count_before(before, i, upto) <= count_before(before, j, upto),
        i < upto ==> count_before(before, i, upto) < count_before(before, j, upto),
    decreases upto,
{
    if upto > 0 {
        lemma_place_rises(before, dom, n, i, j, upto - 1);
        if before(upto - 1, i) {
            assert(before(upto - 1, j));
        }
        if upto - 1 == i {
            assert(!before(i, i));
        }
    }
}

/// Two members have different places, and every place is below the
/// number of positions.
pub proof fn lemma_places_differ(
    before: spec_fn(int, int) -> bool,
    dom: spec_fn(int) -> bool,
    n: int,
    i: int,
    j: int,
)
    requires
        orders(before, dom, n),
        0 <= i < n,
        0 <= j < n,
        dom(i),
        dom(j),
        i != j,
    ensures
        count_before(before, i, n) != count_before(before, j, n),
{
    if before(i, j) {
        lemma_place_rises(before, dom, n, i, j, n);
    } else {
        assert(before(j, i));
        lemma_place_rises(before, dom, n, j, i, n);
    }
}

/// The place of a member is below the number of members.
pub proof fn lemma_place_bound(
    before: spec_fn(int, int) -> bool,
    dom: spec_fn(int) -> bool,
    n: int,
    i: int,
)
    requires
        orders(before, dom, n),
        0 <= i < n,
        dom(i),
    ensures
        count_before(before, i, n) < members(dom, n).len(),
        count_before(before, i, n) < n,
{
    lemma_members_finite(dom, n);
    lemma_count_is_size(before, i, n);
    let p = predecessors(before, i, n);
    let rest = members(dom, n).remove(i);
    assert(members(dom, n).contains(i));
    assert(p.subset_of(rest)) by {
        assert forall|j: int| p.contains(j) implies rest.contains(j) by {
            assert(before(j, i));
            assert(!before(i, i));
        }
    }
    lemma_len_subset(p, rest);
}

/// The places of the members are the numbers below the number of
/// members, each taken once: exactly `k` members have a place below `k`,
/// for every `k` up to the number of members.
pub proof fn lemma_places_cover(
    before: spec_fn(int, int) -> bool,
    dom: spec_fn(int) -> bool,
    n: int,
    k: int,
)
    requires
        orders(before, dom, n),
        0 <= n,
        0 <= k,
    ensures
        first_places(before, dom, n, k).finite(),
        first_places(before, dom, n, k).len() == if k <= members(dom, n).len() {
            k
        } else {
            members(dom, n).len() as int
        },
{
    let all = members(dom, n);
    lemma_members_finite(dom, n);
    let m = all.len() as int;
    let place = |i: int| count_before(before, i, n) as int;
    assert(injective_on(place, all)) by {
        assert forall|x1: int, x2: int|
            all.contains(x1) && all.contains(x2) && #[trigger] place(x1) == #[trigger] place(
                x2,
            ) implies x1 == x2 by {
            if x1 != x2 {
                lemma_places_differ(before, dom, n, x1, x2);
            }
        }
    }
    let image = all.map(place);
    lemma_map_size(all, image, place);
    lemma_int_range(0, m);
    assert(image.subset_of(set_int_range(0, m))) by {
        assert forall|r: int| image.contains(r) implies set_int_range(0, m).contains(r) by {
            let i = choose|i: int| all.contains(i) && r == place(i);
            lemma_place_bound(before, dom, n, i);
        }
    }
    lemma_subset_equality(image, set_int_range(0, m));
    let first = first_places(before, dom, n, k);
    assert(first.subset_of(all));
    lemma_len_subset(first, all);
    if k >= m {
        assert(first =~= all) by {
            assert forall|i: int| all.contains(i) implies first.contains(i) by {
                lemma_place_bound(before, dom, n, i);
            }
        }
    } else {
        assert(injective_on(place, first));
        let low = first.map(place);
        lemma_map_size(first, low, place);
        lemma_int_range(0, k);
        assert(low =~= set_int_range(0, k)) by {
            assert forall|r: int| set_int_range(0, k).contains(r) implies low.contains(r) by {
                assert(set_int_range(0, m).contains(r));
                assert(image.contains(r));
                let i = choose|i: int| all.contains(i) && r == place(i);
                assert(first.contains(i));
            }
        }
    }
}

} // verus!
