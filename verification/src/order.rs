use vstd::prelude::*;
use vstd::std_specs::cmp::OrdSpec;
use vstd::std_specs::btree::increasing_seq;
use vstd::laws_cmp::obeys_cmp;
use vstd::laws_cmp::{obeys_cmp_ord, obeys_partial_cmp_spec_properties};
use vstd::std_specs::cmp::PartialOrdSpec;

verus! {

/// `keys` lists the keys of `m`, each once, in increasing order.
pub open spec fn lists_keys_in_order<K: Ord, V>(keys: Seq<K>, m: Map<K, V>) -> bool {
    &&& forall|i: int, j: int|
        #![trigger keys[i], keys[j]]
        0 <= i < j < keys.len() ==> keys[i].cmp_spec(&keys[j]) is Less
    &&& forall|k: K| m.contains_key(k) <==> #[trigger] keys.contains(k)
}

/// `rows` holds, for each key of `m` in increasing order, the rows that
/// `rows_for` gives for that key.
pub open spec fn rows_in_key_order<K: Ord, V, R>(
    m: Map<K, V>,
    rows_for: spec_fn(K) -> Seq<R>,
    rows: Seq<R>,
) -> bool {
    exists|keys: Seq<K>| lists_keys_in_order(keys, m) && rows == keys.map_values(rows_for).flatten()
}

/// The keys of a sequence of map entries.
pub open spec fn entry_keys<'a, K, V>(entries: Seq<(&'a K, &'a V)>) -> Seq<K> {
    entries.map_values(|kv: (&'a K, &'a V)| *kv.0)
}

/// The entries that iterating over a map yields list its keys in order.
pub proof fn lemma_entries_list_keys_in_order<'a, K: Ord, V>(m: Map<K, V>, es: Seq<(&'a K, &'a V)>)
    requires
        obeys_cmp::<K>(),
        increasing_seq(es.map_values(|kv: (&'a K, &'a V)| *kv.0)),
        forall|i: int| 0 <= i < es.len() ==> #[trigger] m.contains_key(*es[i].0),
        forall|k: K| m.contains_key(k) ==> es.contains((&k, &m[k])),
    ensures
        lists_keys_in_order(entry_keys(es), m),
{
    let keys = entry_keys(es);
    assert forall|k: K| m.contains_key(k) implies #[trigger] keys.contains(k) by {
        let i = choose|i: int| 0 <= i < es.len() && es[i] == (&k, &m[k]);
        assert(keys[i] == k);
    };
    assert forall|k: K| #[trigger] keys.contains(k) implies m.contains_key(k) by {
        let i = choose|i: int| 0 <= i < keys.len() && keys[i] == k;
        assert(m.contains_key(*es[i].0));
    };
}

/// One more key's rows, appended after the rows of the keys before it.
pub proof fn lemma_rows_step<K, R>(keys: Seq<K>, rows_for: spec_fn(K) -> Seq<R>, i: int)
    requires
        0 <= i < keys.len(),
    ensures
        keys.take(i + 1).map_values(rows_for).flatten_alt() == keys.take(i).map_values(
            rows_for,
        ).flatten_alt() + rows_for(keys[i]),
{
    let next = keys.take(i + 1).map_values(rows_for);
    assert(next.drop_last() =~= keys.take(i).map_values(rows_for));
}

/// Rows gathered for all the keys, in the order in which they were listed.
pub proof fn lemma_rows_done<K: Ord, V, R>(
    keys: Seq<K>,
    m: Map<K, V>,
    rows_for: spec_fn(K) -> Seq<R>,
    rows: Seq<R>,
)
    requires
        lists_keys_in_order(keys, m),
        rows == keys.take(keys.len() as int).map_values(rows_for).flatten_alt(),
    ensures
        rows_in_key_order(m, rows_for, rows),
{
    assert(keys.take(keys.len() as int) =~= keys);
    keys.map_values(rows_for).lemma_flatten_and_flatten_alt_are_equivalent();
}

/// Under a lawful order, a key is never below itself, and of two keys at
/// most one is below the other.
pub proof fn lemma_below_is_strict<K: Ord>(a: K, b: K)
    requires
        obeys_cmp::<K>(),
    ensures
        !(a.cmp_spec(&a) is Less),
        a.cmp_spec(&b) is Less ==> !(b.cmp_spec(&a) is Less),
{
    reveal(obeys_cmp_ord);
    reveal(obeys_partial_cmp_spec_properties);
    assert(a.partial_cmp_spec(&b) == Some(a.cmp_spec(&b)));
    assert(b.partial_cmp_spec(&a) == Some(b.cmp_spec(&a)));
    assert(a.partial_cmp_spec(&a) == Some(a.cmp_spec(&a)));
}

/// A map's keys can be listed in increasing order in only one way, so
/// [`rows_in_key_order`] fixes the rows.
pub proof fn lemma_key_listing_unique<K: Ord, V>(keys1: Seq<K>, keys2: Seq<K>, m: Map<K, V>)
    requires
        obeys_cmp::<K>(),
        lists_keys_in_order(keys1, m),
        lists_keys_in_order(keys2, m),
    ensures
        keys1 == keys2,
    decreases keys1.len(),
{
    if keys1.len() == 0 {
        if keys2.len() > 0 {
            assert(keys2.contains(keys2[0]));
            assert(keys1.contains(keys2[0]));
        }
        assert(keys1 =~= keys2);
    } else {
        assert(keys1.contains(keys1[0]));
        assert(keys2.contains(keys1[0]));
        let j = choose|j: int| 0 <= j < keys2.len() && keys2[j] == keys1[0];
        assert(keys2.contains(keys2[0]));
        assert(keys1.contains(keys2[0]));
        let i = choose|i: int| 0 <= i < keys1.len() && keys1[i] == keys2[0];
        lemma_below_is_strict(keys1[0], keys2[0]);
        lemma_below_is_strict(keys2[0], keys1[0]);
        if j > 0 {
            assert(keys2[0].cmp_spec(&keys2[j]) is Less);
            if i > 0 {
                assert(keys1[0].cmp_spec(&keys1[i]) is Less);
            }
        }
        assert(keys1[0] == keys2[0]);
        let rest1 = keys1.drop_first();
        let rest2 = keys2.drop_first();
        let first = keys1[0];
        let sub = m.remove(first);
        assert forall|k: K| sub.contains_key(k) <==> #[trigger] rest1.contains(k) by {
            if rest1.contains(k) {
                let a = choose|a: int| 0 <= a < rest1.len() && rest1[a] == k;
                assert(keys1[a + 1] == k);
                assert(keys1.contains(k));
                assert(keys1[0].cmp_spec(&keys1[a + 1]) is Less);
                lemma_below_is_strict(first, first);
            }
            if sub.contains_key(k) {
                assert(keys1.contains(k));
                let a = choose|a: int| 0 <= a < keys1.len() && keys1[a] == k;
                assert(a != 0);
                assert(rest1[a - 1] == k);
            }
        };
        assert forall|k: K| sub.contains_key(k) <==> #[trigger] rest2.contains(k) by {
            if rest2.contains(k) {
                let a = choose|a: int| 0 <= a < rest2.len() && rest2[a] == k;
                assert(keys2[a + 1] == k);
                assert(keys2.contains(k));
                assert(keys2[0].cmp_spec(&keys2[a + 1]) is Less);
                lemma_below_is_strict(first, first);
            }
            if sub.contains_key(k) {
                assert(keys2.contains(k));
                let a = choose|a: int| 0 <= a < keys2.len() && keys2[a] == k;
                assert(a != 0);
                assert(rest2[a - 1] == k);
            }
        };
        assert forall|x: int, y: int|
            #![trigger rest1[x], rest1[y]]
            0 <= x < y < rest1.len() implies rest1[x].cmp_spec(&rest1[y]) is Less by {
            assert(rest1[x] == keys1[x + 1] && rest1[y] == keys1[y + 1]);
        };
        assert forall|x: int, y: int|
            #![trigger rest2[x], rest2[y]]
            0 <= x < y < rest2.len() implies rest2[x].cmp_spec(&rest2[y]) is Less by {
            assert(rest2[x] == keys2[x + 1] && rest2[y] == keys2[y + 1]);
        };
        lemma_key_listing_unique(rest1, rest2, sub);
        assert(keys1 =~= keys2) by {
            assert forall|x: int| 0 <= x < keys1.len() implies keys1[x] == keys2[x] by {
                if x > 0 {
                    assert(keys1[x] == rest1[x - 1]);
                    assert(keys2[x] == rest2[x - 1]);
                }
            };
        };
    }
}

/// A flattened sequence of row groups has a row exactly when one of its
/// groups does.
pub proof fn lemma_flatten_nonempty<R>(groups: Seq<Seq<R>>)
    ensures
        groups.flatten().len() > 0 <==> exists|i: int| 0 <= i < groups.len() && #[trigger] groups[i].len() > 0,
    decreases groups.len(),
{
    if groups.len() > 0 {
        lemma_flatten_nonempty(groups.drop_first());
        if groups.drop_first().flatten().len() > 0 {
            let i = choose|i: int| 0 <= i < groups.drop_first().len() && #[trigger] groups.drop_first()[i].len() > 0;
            assert(groups[i + 1].len() > 0);
        }
        if exists|i: int| 0 <= i < groups.len() && #[trigger] groups[i].len() > 0 {
            let i = choose|i: int| 0 <= i < groups.len() && #[trigger] groups[i].len() > 0;
            if i > 0 {
                assert(groups.drop_first()[i - 1].len() > 0);
            }
        }
    }
}

/// Rows gathered key by key exist exactly when some key of the map has rows.
pub proof fn lemma_rows_nonempty<K: Ord, V, R>(m: Map<K, V>, rows_for: spec_fn(K) -> Seq<R>, rows: Seq<R>)
    requires
        rows_in_key_order(m, rows_for, rows),
    ensures
        rows.len() > 0 <==> exists|k: K| m.contains_key(k) && #[trigger] rows_for(k).len() > 0,
{
    let keys = choose|keys: Seq<K>| lists_keys_in_order(keys, m) && rows == keys.map_values(rows_for).flatten();
    let groups = keys.map_values(rows_for);
    lemma_flatten_nonempty(groups);
    if rows.len() > 0 {
        let i = choose|i: int| 0 <= i < groups.len() && #[trigger] groups[i].len() > 0;
        assert(keys.contains(keys[i]));
        assert(rows_for(keys[i]).len() > 0);
    }
    if exists|k: K| m.contains_key(k) && #[trigger] rows_for(k).len() > 0 {
        let k = choose|k: K| m.contains_key(k) && #[trigger] rows_for(k).len() > 0;
        assert(keys.contains(k));
        let i = choose|i: int| 0 <= i < keys.len() && keys[i] == k;
        assert(groups[i].len() > 0);
    }
}

/// A row is among flattened row groups exactly when one group holds it.
pub proof fn lemma_flatten_contains<R>(groups: Seq<Seq<R>>, r: R)
    ensures
        groups.flatten().contains(r) <==> exists|i: int| 0 <= i < groups.len() && #[trigger] groups[i].contains(r),
    decreases groups.len(),
{
    if groups.len() > 0 {
        let first = groups[0];
        let rest = groups.drop_first();
        let flat = groups.flatten();
        lemma_flatten_contains(rest, r);
        assert(flat == first + rest.flatten());
        if flat.contains(r) {
            let j = choose|j: int| 0 <= j < flat.len() && flat[j] == r;
            if j < first.len() {
                assert(first[j] == r);
                assert(groups[0].contains(r));
            } else {
                assert(rest.flatten()[j - first.len()] == r);
                assert(rest.flatten().contains(r));
                let i = choose|i: int| 0 <= i < rest.len() && #[trigger] rest[i].contains(r);
                assert(groups[i + 1].contains(r));
            }
        }
        if exists|i: int| 0 <= i < groups.len() && #[trigger] groups[i].contains(r) {
            let i = choose|i: int| 0 <= i < groups.len() && #[trigger] groups[i].contains(r);
            if i == 0 {
                let j = choose|j: int| 0 <= j < first.len() && first[j] == r;
                assert(flat[j] == r);
            } else {
                assert(rest[i - 1].contains(r));
                let j = choose|j: int| 0 <= j < rest.flatten().len() && rest.flatten()[j] == r;
                assert(flat[j + first.len()] == r);
            }
        }
    }
}

/// A row is in a table gathered key by key exactly when some key of the map
/// has it among its rows.
pub proof fn lemma_rows_member<K: Ord, V, R>(m: Map<K, V>, rows_for: spec_fn(K) -> Seq<R>, rows: Seq<R>, r: R)
    requires
        rows_in_key_order(m, rows_for, rows),
    ensures
        rows.contains(r) <==> exists|k: K| m.contains_key(k) && #[trigger] rows_for(k).contains(r),
{
    let keys = choose|keys: Seq<K>| lists_keys_in_order(keys, m) && rows == keys.map_values(rows_for).flatten();
    let groups = keys.map_values(rows_for);
    lemma_flatten_contains(groups, r);
    if rows.contains(r) {
        let i = choose|i: int| 0 <= i < groups.len() && #[trigger] groups[i].contains(r);
        assert(keys.contains(keys[i]));
        assert(rows_for(keys[i]).contains(r));
    }
    if exists|k: K| m.contains_key(k) && #[trigger] rows_for(k).contains(r) {
        let k = choose|k: K| m.contains_key(k) && #[trigger] rows_for(k).contains(r);
        assert(keys.contains(k));
        let i = choose|i: int| 0 <= i < keys.len() && keys[i] == k;
        assert(groups[i].contains(r));
    }
}

/// The sum of `count` over a sequence of keys.
pub open spec fn count_sum<K>(keys: Seq<K>, count: spec_fn(K) -> nat) -> nat
    decreases keys.len(),
{
    if keys.len() == 0 {
        0
    } else {
        count_sum(keys.drop_last(), count) + count(keys.last())
    }
}

/// Rows gathered key by key number the sum of the rows of each key.
pub proof fn lemma_flatten_len<K, R>(keys: Seq<K>, rows_for: spec_fn(K) -> Seq<R>, count: spec_fn(K) -> nat)
    requires
        forall|k: K| #[trigger] count(k) == rows_for(k).len(),
    ensures
        keys.map_values(rows_for).flatten().len() == count_sum(keys, count),
    decreases keys.len(),
{
    keys.map_values(rows_for).lemma_flatten_and_flatten_alt_are_equivalent();
    if keys.len() > 0 {
        let rest = keys.drop_last();
        lemma_flatten_len(rest, rows_for, count);
        rest.map_values(rows_for).lemma_flatten_and_flatten_alt_are_equivalent();
        assert(keys.map_values(rows_for).drop_last() =~= rest.map_values(rows_for));
    }
}

/// Taking one key out of a sequence takes its count out of the sum.
pub proof fn lemma_count_remove<K>(keys: Seq<K>, count: spec_fn(K) -> nat, i: int)
    requires
        0 <= i < keys.len(),
    ensures
        count_sum(keys, count) == count_sum(keys.remove(i), count) + count(keys[i]),
    decreases keys.len(),
{
    if i < keys.len() - 1 {
        lemma_count_remove(keys.drop_last(), count, i);
        assert(keys.remove(i).drop_last() =~= keys.drop_last().remove(i));
        assert(keys.remove(i).last() == keys.last());
    } else {
        assert(keys.remove(i) =~= keys.drop_last());
    }
}

/// Summing over a sequence whose keys all occur in a second one (each sequence
/// naming each key once) gives no more than summing over the second.
pub proof fn lemma_count_subset<K>(small: Seq<K>, large: Seq<K>, count: spec_fn(K) -> nat)
    requires
        small.no_duplicates(),
        large.no_duplicates(),
        forall|i: int| 0 <= i < small.len() ==> large.contains(#[trigger] small[i]),
    ensures
        count_sum(small, count) <= count_sum(large, count),
    decreases large.len(),
{
    if large.len() == 0 {
        if small.len() > 0 {
            assert(large.contains(small[0]));
        }
    } else {
        let x = large.last();
        let rest = large.drop_last();
        assert forall|a: int, b: int| 0 <= a < b < rest.len() implies rest[a] != rest[b] by {
            assert(rest[a] == large[a] && rest[b] == large[b]);
        };
        if small.contains(x) {
            let i = choose|i: int| 0 <= i < small.len() && small[i] == x;
            let smaller = small.remove(i);
            lemma_count_remove(small, count, i);
            assert forall|j: int| 0 <= j < smaller.len() implies rest.contains(#[trigger] smaller[j]) by {
                let y = smaller[j];
                if j < i {
                    assert(y == small[j]);
                } else {
                    assert(y == small[j + 1]);
                }
                assert(large.contains(y));
                let a = choose|a: int| 0 <= a < large.len() && large[a] == y;
                assert(y != x);
                assert(a != large.len() - 1);
                assert(rest[a] == y);
            };
            assert forall|a: int, b: int| 0 <= a < b < smaller.len() implies smaller[a] != smaller[b] by {
                if a < i {
                    assert(smaller[a] == small[a]);
                } else {
                    assert(smaller[a] == small[a + 1]);
                }
                if b < i {
                    assert(smaller[b] == small[b]);
                } else {
                    assert(smaller[b] == small[b + 1]);
                }
            };
            lemma_count_subset(smaller, rest, count);
        } else {
            assert forall|j: int| 0 <= j < small.len() implies rest.contains(#[trigger] small[j]) by {
                let y = small[j];
                assert(large.contains(y));
                let a = choose|a: int| 0 <= a < large.len() && large[a] == y;
                assert(a != large.len() - 1);
                assert(rest[a] == y);
            };
            lemma_count_subset(small, rest, count);
        }
    }
}

/// A sum over the same keys grows with the count of each key.
pub proof fn lemma_count_pointwise<K>(keys: Seq<K>, low: spec_fn(K) -> nat, high: spec_fn(K) -> nat)
    requires
        forall|i: int| 0 <= i < keys.len() ==> low(#[trigger] keys[i]) <= high(keys[i]),
    ensures
        count_sum(keys, low) <= count_sum(keys, high),
    decreases keys.len(),
{
    if keys.len() > 0 {
        lemma_count_pointwise(keys.drop_last(), low, high);
        assert(low(keys[keys.len() - 1]) <= high(keys[keys.len() - 1]));
    }
}

/// Keys listed in increasing order are listed once each.
pub proof fn lemma_listing_no_duplicates<K: Ord, V>(keys: Seq<K>, m: Map<K, V>)
    requires
        obeys_cmp::<K>(),
        lists_keys_in_order(keys, m),
    ensures
        keys.no_duplicates(),
{
    assert forall|a: int, b: int| 0 <= a < b < keys.len() implies keys[a] != keys[b] by {
        lemma_below_is_strict(keys[a], keys[b]);
        assert(keys[a].cmp_spec(&keys[b]) is Less);
    };
}

/// A table gathered key by key has, for each key, as many rows as that key's
/// group, and holds exactly the rows that some key of the map has.
pub proof fn lemma_rows_exact<K: Ord, V, R>(
    m: Map<K, V>,
    rows_for: spec_fn(K) -> Seq<R>,
    rows: Seq<R>,
    count: spec_fn(K) -> nat,
    member: spec_fn(K, R) -> bool,
)
    requires
        rows_in_key_order(m, rows_for, rows),
        forall|k: K| #[trigger] count(k) == rows_for(k).len(),
        forall|k: K, r: R| #[trigger] rows_for(k).contains(r) <==> member(k, r),
    ensures
        exists|keys: Seq<K>| lists_keys_in_order(keys, m) && rows.len() == count_sum(keys, count),
        forall|r: R| rows.contains(r) <==> exists|k: K| m.contains_key(k) && #[trigger] member(k, r),
{
    let keys = choose|keys: Seq<K>| lists_keys_in_order(keys, m) && rows == keys.map_values(rows_for).flatten();
    lemma_flatten_len(keys, rows_for, count);
    assert forall|r: R| rows.contains(r) <==> exists|k: K| m.contains_key(k) && #[trigger] member(k, r) by {
        lemma_rows_member(m, rows_for, rows, r);
        if rows.contains(r) {
            let k = choose|k: K| m.contains_key(k) && #[trigger] rows_for(k).contains(r);
            assert(member(k, r));
        }
        if exists|k: K| m.contains_key(k) && #[trigger] member(k, r) {
            let k = choose|k: K| m.contains_key(k) && #[trigger] member(k, r);
            assert(rows_for(k).contains(r));
        }
    };
}

/// A row is among the rows made from a list exactly when it is made from one
/// of the list's items.
pub proof fn lemma_map_contains<T, R>(items: Seq<T>, make: spec_fn(T) -> R, r: R)
    ensures
        items.map_values(make).contains(r) <==> exists|j: int| 0 <= j < items.len() && r == make(#[trigger] items[j]),
{
    let made = items.map_values(make);
    if made.contains(r) {
        let j = choose|j: int| 0 <= j < made.len() && made[j] == r;
        assert(r == make(items[j]));
    }
    if exists|j: int| 0 <= j < items.len() && r == make(#[trigger] items[j]) {
        let j = choose|j: int| 0 <= j < items.len() && r == make(#[trigger] items[j]);
        assert(made[j] == r);
    }
}

} // verus!
