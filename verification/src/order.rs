//! Stable ordering of lists of names, and removal of repeated neighbours.
use crate::text::{
    comes_before, lemma_precedes_asymmetric, lemma_precedes_irreflexive, lemma_precedes_splits,
    lemma_precedes_total, lower, precedes,
};
use vstd::prelude::*;
use vstd::seq_lib::{group_to_multiset_ensures, lemma_sorted_unique, to_multiset_build};

verus! {

/// What a list of names is ordered by.
#[derive(Clone, Copy, Debug, PartialEq, Eq, Structural)]
pub enum SortKey {
    /// The name itself.
    Plain,
    /// The name in ASCII lower case.
    Folded,
}

impl SortKey {
    /// The text that stands for `name` when it is compared.
    pub open spec fn key(self, name: Seq<char>) -> Seq<char> {
        match self {
            SortKey::Plain => name,
            SortKey::Folded => lower(name),
        }
    }

    /// The text that stands for `name` when it is compared.
    pub fn of(self, name: &str) -> (res: String)
        ensures
            res@ == self.key(name@),
    {
        match self {
            SortKey::Plain => name.to_string(),
            SortKey::Folded => name.to_ascii_lowercase(),
        }
    }
}

/// `sorted` with `name` put behind every element whose key is not greater.
pub open spec fn insert_stable(by: SortKey, sorted: Seq<Seq<char>>, name: Seq<char>) -> Seq<
    Seq<char>,
>
    decreases sorted.len(),
{
    if sorted.len() == 0 || !precedes(by.key(name), by.key(sorted.last())) {
        sorted.push(name)
    } else {
        insert_stable(by, sorted.drop_last(), name).push(sorted.last())
    }
}

/// The names in order of their keys; names with the same key stay in the order they came in.
pub open spec fn stable_sort(by: SortKey, names: Seq<Seq<char>>) -> Seq<Seq<char>>
    decreases names.len(),
{
    if names.len() == 0 {
        names
    } else {
        insert_stable(by, stable_sort(by, names.drop_last()), names.last())
    }
}

/// Of each run of equal neighbours, one.
pub open spec fn dedup(names: Seq<Seq<char>>) -> Seq<Seq<char>>
    decreases names.len(),
{
    if names.len() <= 1 {
        names
    } else if names.last() == names[names.len() - 2] {
        dedup(names.drop_last())
    } else {
        dedup(names.drop_last()).push(names.last())
    }
}

/// Whether no name has a greater key than a later one.
pub open spec fn in_order(by: SortKey, names: Seq<Seq<char>>) -> bool {
    forall|i: int, j: int|
        #![trigger names[i], names[j]]
        0 <= i < j < names.len() ==> !precedes(by.key(names[j]), by.key(names[i]))
}

/// The names whose key is `key`, in the order they stand in.
pub open spec fn with_key(by: SortKey, names: Seq<Seq<char>>, key: Seq<char>) -> Seq<Seq<char>>
    decreases names.len(),
{
    if names.len() == 0 {
        names
    } else if by.key(names.last()) == key {
        with_key(by, names.drop_last(), key).push(names.last())
    } else {
        with_key(by, names.drop_last(), key)
    }
}

/// Sorts `names` by their keys without reordering names that have the same key.
pub fn sort_names(by: SortKey, names: Vec<String>) -> (res: Vec<String>)
    ensures
        res.deep_view() == stable_sort(by, names.deep_view()),
{
    let ghost all = names.deep_view();
    let mut sorted: Vec<String> = Vec::new();
    let mut keys: Vec<String> = Vec::new();
    assert(sorted.deep_view() == all.take(0));
    for name in it: names
        invariant
            it.seq() == names@,
            all == names.deep_view(),
            keys.len() == sorted.len(),
            forall|i: int| 0 <= i < keys.len() ==> (#[trigger] keys[i])@ == by.key(sorted[i]@),
            sorted.deep_view() == stable_sort(by, all.take(it.index() as int)),
    {
        let ghost before = sorted.deep_view();
        let key = by.of(&name);
        let mut p: usize = sorted.len();
        assert(before.take(p as int) == before);
        assert(before.skip(p as int) == Seq::<Seq<char>>::empty());
        while p > 0 && comes_before(&key, &keys[p - 1])
            invariant
                p <= sorted.len(),
                before == sorted.deep_view(),
                keys.len() == sorted.len(),
                key@ == by.key(name@),
                forall|i: int|
                    0 <= i < keys.len() ==> (#[trigger] keys[i])@ == by.key(sorted[i]@),
                insert_stable(by, before, name@) == insert_stable(
                    by,
                    before.take(p as int),
                    name@,
                ) + before.skip(p as int),
            decreases p,
        {
            let ghost front = before.take(p as int);
            assert(front.drop_last() == before.take(p - 1));
            assert(front.last() == before[p - 1]);
            assert(insert_stable(by, front.drop_last(), name@).push(front.last()) + before.skip(
                p as int,
            ) == insert_stable(by, front.drop_last(), name@) + before.skip(p - 1));
            p -= 1;
        }
        assert(insert_stable(by, before.take(p as int), name@) == before.take(p as int).push(
            name@,
        ));
        let ghost n = name@;
        sorted.insert(p, name);
        keys.insert(p, key);
        assert(sorted.deep_view() == before.take(p as int).push(n) + before.skip(p as int));
        proof {
            let k = it.index() as int;
            assert(all.take(k + 1).drop_last() == all.take(k));
            assert(all.take(k + 1).last() == n);
        }
    }
    assert(all.take(all.len() as int) == all);
    sorted
}

/// Drops every name that equals its predecessor.
pub fn dedup_names(names: Vec<String>) -> (res: Vec<String>)
    ensures
        res.deep_view() == dedup(names.deep_view()),
{
    let ghost all = names.deep_view();
    let mut kept: Vec<String> = Vec::new();
    assert(kept.deep_view() == all.take(0));
    for name in it: names
        invariant
            it.seq() == names@,
            all == names.deep_view(),
            kept.deep_view() == dedup(all.take(it.index() as int)),
            it.index() > 0 ==> kept.len() > 0 && kept[kept.len() - 1]@ == all[it.index() - 1],
    {
        let ghost before = kept.deep_view();
        let ghost n = name@;
        proof {
            let k = it.index() as int;
            assert(all.take(k + 1).drop_last() == all.take(k));
            assert(all.take(k + 1).last() == n);
            if k > 0 {
                assert(all.take(k + 1)[k - 1] == all[k - 1]);
            }
        }
        if kept.len() == 0 || kept[kept.len() - 1] != name {
            kept.push(name);
            assert(kept.deep_view() == before.push(n));
        }
    }
    assert(all.take(all.len() as int) == all);
    kept
}

/// Whether no two neighbours are equal.
pub open spec fn no_equal_neighbours(names: Seq<Seq<char>>) -> bool {
    forall|i: int| 0 < i < names.len() ==> names[i - 1] != #[trigger] names[i]
}

proof fn lemma_insert_members(by: SortKey, sorted: Seq<Seq<char>>, name: Seq<char>)
    ensures
        forall|x: Seq<char>|
            #[trigger]
            insert_stable(by, sorted, name).contains(x) <==> sorted.contains(x) || x == name,
    decreases sorted.len(),
{
    let res = insert_stable(by, sorted, name);
    if sorted.len() == 0 || !precedes(by.key(name), by.key(sorted.last())) {
        assert(res[sorted.len() as int] == name);
        assert forall|x: Seq<char>| sorted.contains(x) implies #[trigger] res.contains(x) by {
            let i = choose|i: int| 0 <= i < sorted.len() && sorted[i] == x;
            assert(res[i] == x);
        }
    } else {
        let front = sorted.drop_last();
        let inner = insert_stable(by, front, name);
        lemma_insert_members(by, front, name);
        assert(res[inner.len() as int] == sorted.last());
        assert forall|x: Seq<char>| #[trigger]
            res.contains(x) <==> sorted.contains(x) || x == name by {
            if res.contains(x) {
                let i = choose|i: int| 0 <= i < res.len() && res[i] == x;
                if i < inner.len() {
                    assert(inner.contains(x));
                    if x != name {
                        let j = choose|j: int| 0 <= j < front.len() && front[j] == x;
                        assert(sorted[j] == x);
                    }
                } else {
                    assert(sorted[sorted.len() - 1] == x);
                }
            }
            if sorted.contains(x) && x != sorted.last() {
                let j = choose|j: int| 0 <= j < sorted.len() && sorted[j] == x;
                assert(front[j] == x);
            }
            if inner.contains(x) {
                let i = choose|i: int| 0 <= i < inner.len() && inner[i] == x;
                assert(res[i] == x);
            }
        }
    }
}

proof fn lemma_insert_in_order(by: SortKey, sorted: Seq<Seq<char>>, name: Seq<char>)
    requires
        in_order(by, sorted),
    ensures
        in_order(by, insert_stable(by, sorted, name)),
    decreases sorted.len(),
{
    let res = insert_stable(by, sorted, name);
    if sorted.len() == 0 || !precedes(by.key(name), by.key(sorted.last())) {
        assert forall|i: int, j: int|
            #![trigger res[i], res[j]]
            0 <= i < j < res.len() implies !precedes(by.key(res[j]), by.key(res[i])) by {
            if j == sorted.len() && precedes(by.key(name), by.key(sorted[i])) {
                lemma_precedes_splits(by.key(name), by.key(sorted.last()), by.key(sorted[i]));
                assert(sorted[i] == sorted.last() || !precedes(
                    by.key(sorted[sorted.len() - 1]),
                    by.key(sorted[i]),
                ));
                lemma_precedes_irreflexive(by.key(sorted[i]));
            }
        }
    } else {
        let front = sorted.drop_last();
        let inner = insert_stable(by, front, name);
        lemma_insert_in_order(by, front, name);
        lemma_insert_members(by, front, name);
        assert forall|i: int, j: int|
            #![trigger res[i], res[j]]
            0 <= i < j < res.len() implies !precedes(by.key(res[j]), by.key(res[i])) by {
            if j == inner.len() {
                assert(inner.contains(inner[i]));
                if inner[i] == name {
                    lemma_precedes_asymmetric(by.key(name), by.key(sorted.last()));
                } else {
                    let k = choose|k: int| 0 <= k < front.len() && front[k] == inner[i];
                    assert(sorted[k] == inner[i]);
                    assert(!precedes(by.key(sorted[sorted.len() - 1]), by.key(sorted[k])));
                }
            } else {
                assert(inner[i] == res[i] && inner[j] == res[j]);
            }
        }
    }
}

proof fn lemma_insert_with_key(
    by: SortKey,
    sorted: Seq<Seq<char>>,
    name: Seq<char>,
    key: Seq<char>,
)
    ensures
        with_key(by, insert_stable(by, sorted, name), key) == with_key(
            by,
            sorted.push(name),
            key,
        ),
    decreases sorted.len(),
{
    assert(sorted.push(name).drop_last() == sorted);
    if sorted.len() > 0 && precedes(by.key(name), by.key(sorted.last())) {
        let front = sorted.drop_last();
        let inner = insert_stable(by, front, name);
        lemma_insert_with_key(by, front, name, key);
        lemma_precedes_irreflexive(by.key(name));
        assert(inner.push(sorted.last()).drop_last() == inner);
        assert(front.push(name).drop_last() == front);
        reveal_with_fuel(with_key, 3);
    }
}

/// Sorting leaves no name before one with a smaller key.
pub proof fn law_sort_orders(by: SortKey, names: Seq<Seq<char>>)
    ensures
        in_order(by, stable_sort(by, names)),
    decreases names.len(),
{
    if names.len() > 0 {
        law_sort_orders(by, names.drop_last());
        lemma_insert_in_order(by, stable_sort(by, names.drop_last()), names.last());
    }
}

/// Sorting is stable: the names with any one key are the same before and after, in the same
/// order.
pub proof fn law_sort_is_stable(by: SortKey, names: Seq<Seq<char>>, key: Seq<char>)
    ensures
        with_key(by, stable_sort(by, names), key) == with_key(by, names, key),
    decreases names.len(),
{
    if names.len() > 0 {
        let front = names.drop_last();
        let sorted = stable_sort(by, front);
        law_sort_is_stable(by, front, key);
        lemma_insert_with_key(by, sorted, names.last(), key);
        assert(sorted.push(names.last()).drop_last() == sorted);
    }
}

proof fn lemma_insert_multiset(by: SortKey, sorted: Seq<Seq<char>>, name: Seq<char>)
    ensures
        insert_stable(by, sorted, name).to_multiset() == sorted.to_multiset().insert(name),
    decreases sorted.len(),
{
    broadcast use group_to_multiset_ensures;
    broadcast use vstd::multiset::group_multiset_axioms;

    if sorted.len() > 0 && precedes(by.key(name), by.key(sorted.last())) {
        let front = sorted.drop_last();
        lemma_insert_multiset(by, front, name);
        assert(sorted == front.push(sorted.last()));
        assert(front.to_multiset().insert(name).insert(sorted.last())
            =~= front.to_multiset().insert(sorted.last()).insert(name));
    }
}

/// Sorting neither adds nor loses a name.
pub proof fn law_sort_keeps_names(by: SortKey, names: Seq<Seq<char>>)
    ensures
        stable_sort(by, names).len() == names.len(),
        stable_sort(by, names).to_multiset() == names.to_multiset(),
        forall|x: Seq<char>| #[trigger] stable_sort(by, names).contains(x) <==> names.contains(x),
    decreases names.len(),
{
    if names.len() > 0 {
        let front = names.drop_last();
        law_sort_keeps_names(by, front);
        lemma_insert_multiset(by, stable_sort(by, front), names.last());
        assert(names == front.push(names.last()));
        to_multiset_build(front, names.last());
        lemma_insert_members(by, stable_sort(by, front), names.last());
        lemma_insert_len(by, stable_sort(by, front), names.last());
        assert forall|x: Seq<char>| #[trigger]
            stable_sort(by, names).contains(x) <==> names.contains(x) by {
            if names.contains(x) && x != names.last() {
                let i = choose|i: int| 0 <= i < names.len() && names[i] == x;
                assert(front[i] == x);
            }
            if front.contains(x) {
                let i = choose|i: int| 0 <= i < front.len() && front[i] == x;
                assert(names[i] == x);
            }
            assert(names[names.len() - 1] == names.last());
        }
    }
}

/// Sorting by the names themselves does not depend on the order they come in.
pub proof fn law_sort_ignores_order(names: Seq<Seq<char>>, other: Seq<Seq<char>>)
    requires
        names.to_multiset() == other.to_multiset(),
    ensures
        stable_sort(SortKey::Plain, names) == stable_sort(SortKey::Plain, other),
{
    let by = SortKey::Plain;
    let leq = |a: Seq<char>, b: Seq<char>| !precedes(b, a);
    law_sort_keeps_names(by, names);
    law_sort_keeps_names(by, other);
    law_sort_orders(by, names);
    law_sort_orders(by, other);
    assert forall|a: Seq<char>| #[trigger] leq(a, a) by {
        lemma_precedes_irreflexive(a);
    }
    assert forall|a: Seq<char>, b: Seq<char>| #[trigger] leq(a, b) && #[trigger] leq(b, a) implies a
        == b by {
        lemma_precedes_total(a, b);
    }
    assert forall|a: Seq<char>, b: Seq<char>, c: Seq<char>| #[trigger]
        leq(a, b) && #[trigger] leq(b, c) implies leq(a, c) by {
        if precedes(c, a) {
            lemma_precedes_splits(c, b, a);
        }
    }
    assert forall|a: Seq<char>, b: Seq<char>| #[trigger] leq(a, b) || #[trigger] leq(b, a) by {
        lemma_precedes_asymmetric(a, b);
    }
    lemma_sorted_unique(stable_sort(by, names), stable_sort(by, other), leq);
}

proof fn lemma_insert_len(by: SortKey, sorted: Seq<Seq<char>>, name: Seq<char>)
    ensures
        insert_stable(by, sorted, name).len() == sorted.len() + 1,
    decreases sorted.len(),
{
    if sorted.len() > 0 {
        lemma_insert_len(by, sorted.drop_last(), name);
    }
}

/// Removing repeated neighbours keeps every name, keeps the order, and leaves no two neighbours
/// equal.
pub proof fn law_dedup(by: SortKey, names: Seq<Seq<char>>)
    ensures
        forall|x: Seq<char>| #[trigger] dedup(names).contains(x) <==> names.contains(x),
        no_equal_neighbours(dedup(names)),
        in_order(by, names) ==> in_order(by, dedup(names)),
        names.len() > 0 ==> dedup(names).len() > 0 && dedup(names).last() == names.last(),
    decreases names.len(),
{
    if names.len() > 1 {
        let front = names.drop_last();
        let kept = dedup(front);
        let res = dedup(names);
        law_dedup(by, front);
        assert(front.last() == names[names.len() - 2]);
        assert forall|x: Seq<char>| #[trigger] res.contains(x) <==> names.contains(x) by {
            if names.contains(x) && x != names.last() {
                let i = choose|i: int| 0 <= i < names.len() && names[i] == x;
                assert(front[i] == x);
            }
            if front.contains(x) {
                let i = choose|i: int| 0 <= i < front.len() && front[i] == x;
                assert(names[i] == x);
            }
            if kept.contains(x) {
                let i = choose|i: int| 0 <= i < kept.len() && kept[i] == x;
                assert(res[i] == x);
            }
            if res.contains(x) {
                let i = choose|i: int| 0 <= i < res.len() && res[i] == x;
                if i < kept.len() {
                    assert(kept[i] == x);
                }
            }
            assert(names[names.len() - 1] == names.last());
            assert(res[res.len() - 1] == names.last());
        }
        if in_order(by, names) {
            assert forall|i: int, j: int|
                #![trigger front[i], front[j]]
                0 <= i < j < front.len() implies !precedes(by.key(front[j]), by.key(front[i])) by {
                assert(names[i] == front[i] && names[j] == front[j]);
            }
            assert forall|i: int, j: int|
                #![trigger res[i], res[j]]
                0 <= i < j < res.len() implies !precedes(by.key(res[j]), by.key(res[i])) by {
                if j < kept.len() {
                    assert(kept[i] == res[i] && kept[j] == res[j]);
                } else {
                    assert(kept.contains(kept[i]));
                    let k = choose|k: int| 0 <= k < front.len() && front[k] == kept[i];
                    assert(names[k] == res[i]);
                    assert(!precedes(by.key(names[names.len() - 1]), by.key(names[k])));
                }
            }
        }
    }
}

/// A list that is in order is left as it is by sorting.
pub proof fn law_sort_of_sorted(by: SortKey, names: Seq<Seq<char>>)
    requires
        in_order(by, names),
    ensures
        stable_sort(by, names) == names,
    decreases names.len(),
{
    if names.len() > 0 {
        let front = names.drop_last();
        assert forall|i: int, j: int|
            #![trigger front[i], front[j]]
            0 <= i < j < front.len() implies !precedes(by.key(front[j]), by.key(front[i])) by {
            assert(names[i] == front[i] && names[j] == front[j]);
        }
        law_sort_of_sorted(by, front);
        if front.len() > 0 {
            assert(front.last() == names[front.len() - 1]);
            assert(!precedes(by.key(names[front.len() as int]), by.key(names[front.len() - 1])));
        }
        assert(front.push(names.last()) == names);
    }
}

/// A list without equal neighbours is left as it is by their removal.
pub proof fn law_dedup_of_distinct(names: Seq<Seq<char>>)
    requires
        no_equal_neighbours(names),
    ensures
        dedup(names) == names,
    decreases names.len(),
{
    if names.len() > 1 {
        let front = names.drop_last();
        assert forall|i: int| 0 < i < front.len() implies front[i - 1] != #[trigger] front[i] by {
            assert(names[i - 1] != names[i]);
        }
        law_dedup_of_distinct(front);
        assert(names[names.len() - 1] != names[names.len() - 2]);
        assert(front.push(names.last()) == names);
    }
}

} // verus!
