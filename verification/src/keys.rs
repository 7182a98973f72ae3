use vstd::prelude::*;
use vstd::laws_cmp::obeys_cmp;
use std::collections::BTreeMap;
use vstd::std_specs::iter::IteratorSpec;

verus! {

/// Some key is in both maps.
pub open spec fn shares_key<K, V, W>(a: Map<K, V>, b: Map<K, W>) -> bool {
    exists|k: K| a.contains_key(k) && b.contains_key(k)
}

/// Whether some key of `a` is also a key of `b`.
pub fn any_shared_key<K: Ord, V, W>(a: &BTreeMap<K, V>, b: &BTreeMap<K, W>) -> (r: bool)
    requires
        obeys_cmp::<K>(),
    ensures
        r == shares_key(a@, b@),
{
    let ghost entries = a.iter().remaining();
    for (k, _v) in it: a.iter()
        invariant
            obeys_cmp::<K>(),
            it.seq() == entries,
            forall|i: int| 0 <= i < it.index() ==> !b@.contains_key(*it.seq()[i].0),
    {
        if b.contains_key(k) {
            return true;
        }
    }
    assert forall|k: K| a@.contains_key(k) implies !b@.contains_key(k) by {
        assert(entries.contains((&k, &a@[k])));
    };
    false
}

} // verus!
