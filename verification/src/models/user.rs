use vstd::prelude::*;
use vstd::std_specs::cmp::PartialEqSpec;
use vstd::std_specs::cmp::PartialOrdSpec;
use vstd::laws_eq::obeys_eq_spec_properties;
use vstd::laws_cmp::obeys_partial_cmp_spec_properties;
use core::cmp::Ordering;

verus! {

/// A user of the archive. Two users are the same user exactly when their ids
/// agree; the other fields are presentation only.
///
/// `User` also derives `Ord`, which compares all fields in order (id first),
/// while `==`, `<` and `partial_cmp` look at the ids only.
#[derive(Clone, Debug, Eq, Ord)]
pub struct User {
    pub id: i64,
    pub name: String,
    pub avatar: String,
    pub display_name: String,
}

/// Three-way comparison of two ids.
pub open spec fn compare_ids(a: i64, b: i64) -> Ordering {
    if a < b {
        Ordering::Less
    } else if a == b {
        Ordering::Equal
    } else {
        Ordering::Greater
    }
}

impl PartialEq for User {
    fn eq(&self, other: &Self) -> (r: bool) {
        self.id == other.id
    }
}

impl vstd::std_specs::cmp::PartialEqSpecImpl for User {
    open spec fn obeys_eq_spec() -> bool {
        true
    }

    open spec fn eq_spec(&self, other: &User) -> bool {
        self.id == other.id
    }
}

impl PartialOrd for User {
    fn partial_cmp(&self, other: &Self) -> (r: Option<Ordering>) {
        self.id.partial_cmp(&other.id)
    }
}

impl vstd::std_specs::cmp::PartialOrdSpecImpl for User {
    open spec fn obeys_partial_cmp_spec() -> bool {
        true
    }

    open spec fn partial_cmp_spec(&self, other: &User) -> Option<Ordering> {
        Some(compare_ids(self.id, other.id))
    }
}

/// Equality of users is an equivalence relation (reflexive, symmetric and
/// transitive), and it holds exactly when the ids agree, whatever the names.
pub proof fn lemma_user_eq_is_equivalence(a: User, b: User, c: User)
    ensures
        a.eq_spec(&a),
        a.eq_spec(&b) <==> b.eq_spec(&a),
        a.eq_spec(&b) && b.eq_spec(&c) ==> a.eq_spec(&c),
        a.eq_spec(&b) <==> a.id == b.id,
        obeys_eq_spec_properties::<User>(),
{
    reveal(obeys_eq_spec_properties);
}

/// Users are totally ordered by id: the comparison always gives an answer,
/// says `Equal` exactly when the users are equal, is antisymmetric and
/// transitive.
pub proof fn lemma_user_order_is_total_by_id(a: User, b: User, c: User)
    ensures
        a.partial_cmp_spec(&b) is Some,
        a.partial_cmp_spec(&b) == Some(Ordering::Equal) <==> a.eq_spec(&b),
        a.partial_cmp_spec(&b) == Some(Ordering::Less) <==> a.id < b.id,
        a.partial_cmp_spec(&b) == Some(Ordering::Less) <==> b.partial_cmp_spec(&a) == Some(
            Ordering::Greater,
        ),
        a.partial_cmp_spec(&b) == Some(Ordering::Less) && b.partial_cmp_spec(&c) == Some(
            Ordering::Less,
        ) ==> a.partial_cmp_spec(&c) == Some(Ordering::Less),
        obeys_partial_cmp_spec_properties::<User>(),
{
    reveal(obeys_eq_spec_properties);
    reveal(obeys_partial_cmp_spec_properties);
}

} // verus!
