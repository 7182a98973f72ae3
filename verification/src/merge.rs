use vstd::prelude::*;
use vstd::laws_cmp::obeys_cmp;
use std::collections::BTreeMap;

verus! {

/// The map after inserting `entries` into `m` one after the other (a later
/// entry with the same key replaces an earlier one).
pub open spec fn inserted<K, V>(m: Map<K, V>, entries: Seq<(K, V)>) -> Map<K, V>
    decreases entries.len(),
{
    if entries.len() == 0 {
        m
    } else {
        inserted(m, entries.drop_last()).insert(entries.last().0, entries.last().1)
    }
}

/// Inserting two runs of entries is inserting the first run, then the second.
pub proof fn lemma_inserted_concat<K, V>(m: Map<K, V>, a: Seq<(K, V)>, b: Seq<(K, V)>)
    ensures
        inserted(m, a + b) == inserted(inserted(m, a), b),
    decreases b.len(),
{
    if b.len() == 0 {
        assert(a + b =~= a);
    } else {
        assert((a + b).drop_last() =~= a + b.drop_last());
        lemma_inserted_concat(m, a, b.drop_last());
    }
}

/// A key that several entries name ends up with the value of the last of
/// them: a later database's definition of an id replaces an earlier one.
pub proof fn lemma_inserted_last_wins<K, V>(m: Map<K, V>, entries: Seq<(K, V)>, i: int)
    requires
        0 <= i < entries.len(),
        forall|j: int| i < j < entries.len() ==> (#[trigger] entries[j]).0 != entries[i].0,
    ensures
        inserted(m, entries).contains_key(entries[i].0),
        inserted(m, entries)[entries[i].0] == entries[i].1,
    decreases entries.len(),
{
    if i < entries.len() - 1 {
        let rest = entries.drop_last();
        assert forall|j: int| i < j < rest.len() implies (#[trigger] rest[j]).0 != rest[i].0 by {
            assert(rest[j] == entries[j]);
        };
        lemma_inserted_last_wins(m, rest, i);
        assert(entries[entries.len() - 1].0 != entries[i].0);
    }
}

/// A key that no entry names keeps what it had: present with the same value,
/// or absent.
pub proof fn lemma_inserted_untouched<K, V>(m: Map<K, V>, entries: Seq<(K, V)>, k: K)
    requires
        forall|j: int| 0 <= j < entries.len() ==> (#[trigger] entries[j]).0 != k,
    ensures
        inserted(m, entries).contains_key(k) == m.contains_key(k),
        m.contains_key(k) ==> inserted(m, entries)[k] == m[k],
    decreases entries.len(),
{
    if entries.len() > 0 {
        let rest = entries.drop_last();
        assert forall|j: int| 0 <= j < rest.len() implies (#[trigger] rest[j]).0 != k by {
            assert(rest[j] == entries[j]);
        };
        lemma_inserted_untouched(m, rest, k);
        assert(entries[entries.len() - 1].0 != k);
    }
}

/// Merging never loses an id: after inserting `entries`, the keys are those
/// of `m` together with those of the entries.
pub proof fn lemma_inserted_keys<K, V>(m: Map<K, V>, entries: Seq<(K, V)>, k: K)
    ensures
        inserted(m, entries).contains_key(k) <==> (m.contains_key(k) || exists|i: int|
            0 <= i < entries.len() && (#[trigger] entries[i]).0 == k),
    decreases entries.len(),
{
    if entries.len() > 0 {
        let rest = entries.drop_last();
        lemma_inserted_keys(m, rest, k);
        if exists|i: int| 0 <= i < rest.len() && (#[trigger] rest[i]).0 == k {
            let i = choose|i: int| 0 <= i < rest.len() && (#[trigger] rest[i]).0 == k;
            assert(entries[i] == rest[i]);
        }
        if exists|i: int| 0 <= i < entries.len() && (#[trigger] entries[i]).0 == k {
            let i = choose|i: int| 0 <= i < entries.len() && (#[trigger] entries[i]).0 == k;
            if i < entries.len() - 1 {
                assert(rest[i] == entries[i]);
            }
        }
    }
}

/// Taking all of a sequence gives the sequence.
pub proof fn lemma_take_whole<T>(s: Seq<T>)
    ensures
        s.take(s.len() as int) == s,
{
    assert(s.take(s.len() as int) =~= s);
}

/// Inserts each of `entries` into `target`, in order.
pub fn insert_entries<K: Ord, V>(target: &mut BTreeMap<K, V>, entries: Vec<(K, V)>)
    requires
        obeys_cmp::<K>(),
    ensures
        final(target)@ == inserted(old(target)@, entries@),
{
    let ghost start = target@;
    let ghost all = entries@;
    for entry in it: entries
        invariant
            obeys_cmp::<K>(),
            it.seq() == all,
            target@ == inserted(start, all.take(it.index())),
    {
        let ghost i = it.index();
        assert(all.take(i + 1).drop_last() =~= all.take(i));
        let (k, v) = entry;
        target.insert(k, v);
    }
    proof {
        lemma_take_whole(all);
    }
}

} // verus!
