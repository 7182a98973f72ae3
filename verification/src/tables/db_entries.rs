use vstd::prelude::*;
use std::collections::BTreeMap;
use vstd::std_specs::iter::IteratorSpec;
use crate::models::{AllDbEntries, MeilisearchDbEntry, Post};
use crate::order::{
    count_sum, entry_keys, lemma_count_pointwise, lemma_count_subset, lemma_entries_list_keys_in_order,
    lemma_flatten_len, lemma_key_listing_unique, lemma_listing_no_duplicates, lemma_map_contains,
    lemma_rows_done, lemma_rows_exact, lemma_rows_member, lemma_rows_step, lists_keys_in_order,
    rows_in_key_order,
};
use super::{conflict_models, ConflictRow, ConflictRowModel, ConflictSource, SourceModel};

verus! {

/// Where a database entry of the archive comes from: the post it names, if
/// the archive holds that post, and the base game otherwise.
pub open spec fn db_entry_source(post_id: i32, posts: Map<i32, Post>) -> SourceModel {
    if posts.contains_key(post_id) {
        SourceModel::Post { id: posts[post_id].id, name: posts[post_id].name@ }
    } else {
        SourceModel::BaseGame
    }
}

/// Where a database entry of the archive comes from, as [`db_entry_source`] says.
pub fn db_entry_source_of(post_id: i32, posts: &BTreeMap<i32, Post>) -> (s: ConflictSource)
    ensures
        s@ == db_entry_source(post_id, posts@),
        posts@.contains_key(post_id) ==> s@ == (SourceModel::Post {
            id: posts@[post_id].id,
            name: posts@[post_id].name@,
        }),
        !posts@.contains_key(post_id) ==> s@ == SourceModel::BaseGame,
{
    match posts.get(&post_id) {
        Some(found) => ConflictSource::Post { id: found.id, name: found.name.clone() },
        None => ConflictSource::BaseGame,
    }
}

/// The row for a database id of the mod, named `name` there, that an entry of
/// the archive also uses.
pub open spec fn db_entry_row(id: u32, name: String, entry: MeilisearchDbEntry, dma: AllDbEntries) -> ConflictRowModel {
    ConflictRowModel {
        id: id as int,
        name: name@,
        conflict_name: entry.name@,
        source: db_entry_source(entry.post_id, dma.posts@),
    }
}

/// The rows for one database id of the mod: one for each entry of the
/// archive under that id.
pub open spec fn db_entry_rows_for(names: Map<u32, String>, dma: AllDbEntries, id: u32) -> Seq<
    ConflictRowModel,
> {
    if dma.entries@.contains_key(id) {
        dma.entries@[id]@.map_values(|e: MeilisearchDbEntry| db_entry_row(id, names[id], e, dma))
    } else {
        Seq::empty()
    }
}

/// The table of the mod's database ids (of one kind) that entries of the
/// archive also use: for each id of the mod in increasing order, a row for
/// each such entry.
pub fn db_entry_rows(names: &BTreeMap<u32, String>, dma: &AllDbEntries) -> (rows: Vec<ConflictRow>)
    ensures
        rows_in_key_order(
            names@,
            |id: u32| db_entry_rows_for(names@, *dma, id),
            conflict_models(rows@),
        ),
{
    let ghost f = |id: u32| db_entry_rows_for(names@, *dma, id);
    let mut rows: Vec<ConflictRow> = Vec::new();
    let iter = names.iter();
    let ghost es = iter.remaining();
    let ghost keys = entry_keys(es);
    proof {
        lemma_entries_list_keys_in_order(names@, es);
    }
    for (id, name) in it: iter
        invariant
            it.seq() == es,
            es == names.iter().remaining(),
            keys == entry_keys(es),
            f == (|id: u32| db_entry_rows_for(names@, *dma, id)),
            conflict_models(rows@) == keys.take(it.index()).map_values(f).flatten_alt(),
    {
        let ghost i = it.index();
        let ghost before = conflict_models(rows@);
        proof {
            lemma_rows_step(keys, f, i);
        }
        assert(it.seq()[i] == (id, name));
        assert(keys[i] == *id);
        assert(names@.contains_key(*id) && names@[*id] == *name);
        match dma.entries.get(id) {
            Some(entries) => {
                let ghost g = |e: MeilisearchDbEntry| db_entry_row(*id, *name, e, *dma);
                let mut j: usize = 0;
                while j < entries.len()
                    invariant
                        j <= entries.len(),
                        g == (|e: MeilisearchDbEntry| db_entry_row(*id, *name, e, *dma)),
                        conflict_models(rows@) == before + entries@.take(j as int).map_values(g),
                    decreases entries.len() - j,
                {
                    let entry = &entries[j];
                    let ghost done = conflict_models(rows@);
                    let row = ConflictRow {
                        id: *id as i64,
                        name: name.clone(),
                        conflict_name: entry.name.clone(),
                        source: db_entry_source_of(entry.post_id, &dma.posts),
                    };
                    rows.push(row);
                    assert(conflict_models(rows@) =~= done.push(g(*entry)));
                    assert(entries@.take(j + 1).map_values(g) =~= entries@.take(j as int).map_values(
                        g,
                    ).push(g(*entry)));
                    j += 1;
                }
                assert(entries@.take(entries@.len() as int).map_values(g) =~= f(keys[i]));
            },
            None => {},
        }
        assert(conflict_models(rows@) =~= before + f(keys[i]));
    }
    proof {
        lemma_rows_done(keys, names@, f, conflict_models(rows@));
    }
    rows
}

/// How many entries of the archive use database id `id`.
pub open spec fn db_entry_count(dma: AllDbEntries, id: u32) -> nat {
    if dma.entries@.contains_key(id) {
        dma.entries@[id]@.len()
    } else {
        0
    }
}

/// A database table has one row per entry of the archive under each id of the
/// mod: its length is the sum, over the mod's ids in increasing order, of the
/// number of the archive's entries under that id (ids the archive does not
/// use count for nothing).
pub proof fn lemma_db_table_row_count(names: Map<u32, String>, dma: AllDbEntries, rows: Seq<ConflictRowModel>)
    requires
        rows_in_key_order(names, |id: u32| db_entry_rows_for(names, dma, id), rows),
    ensures
        exists|keys: Seq<u32>|
            lists_keys_in_order(keys, names) && rows.len() == count_sum(
                keys,
                |id: u32| db_entry_count(dma, id),
            ),
{
    let f = |id: u32| db_entry_rows_for(names, dma, id);
    let c = |id: u32| db_entry_count(dma, id);
    let keys = choose|keys: Seq<u32>| lists_keys_in_order(keys, names) && rows == keys.map_values(f).flatten();
    lemma_flatten_len(keys, f, c);
}

/// Giving the mod more database ids (with the same names for the ids it had)
/// keeps every row of the table and never makes it shorter.
pub proof fn lemma_db_table_grows_with_ids(
    names: Map<u32, String>,
    more_names: Map<u32, String>,
    dma: AllDbEntries,
    rows: Seq<ConflictRowModel>,
    more_rows: Seq<ConflictRowModel>,
)
    requires
        forall|id: u32| #[trigger] names.contains_key(id) ==> more_names.contains_key(id) && more_names[id] == names[id],
        rows_in_key_order(names, |id: u32| db_entry_rows_for(names, dma, id), rows),
        rows_in_key_order(more_names, |id: u32| db_entry_rows_for(more_names, dma, id), more_rows),
    ensures
        rows.len() <= more_rows.len(),
        forall|r: ConflictRowModel| rows.contains(r) ==> more_rows.contains(r),
{
    let f = |id: u32| db_entry_rows_for(names, dma, id);
    let g = |id: u32| db_entry_rows_for(more_names, dma, id);
    let c = |id: u32| db_entry_count(dma, id);
    let keys = choose|keys: Seq<u32>| lists_keys_in_order(keys, names) && rows == keys.map_values(f).flatten();
    let more_keys = choose|keys: Seq<u32>|
        lists_keys_in_order(keys, more_names) && more_rows == keys.map_values(g).flatten();
    lemma_flatten_len(keys, f, c);
    lemma_flatten_len(more_keys, g, c);
    lemma_listing_no_duplicates(keys, names);
    lemma_listing_no_duplicates(more_keys, more_names);
    assert forall|i: int| 0 <= i < keys.len() implies more_keys.contains(#[trigger] keys[i]) by {
        assert(keys.contains(keys[i]));
        assert(names.contains_key(keys[i]));
    };
    lemma_count_subset(keys, more_keys, c);
    assert forall|r: ConflictRowModel| rows.contains(r) implies more_rows.contains(r) by {
        lemma_rows_member(names, f, rows, r);
        lemma_rows_member(more_names, g, more_rows, r);
        let k = choose|k: u32| names.contains_key(k) && #[trigger] f(k).contains(r);
        assert(f(k) =~= g(k));
    };
}

/// Giving the archive more entries under database ids (each id keeping the
/// entries it had, and the posts staying the same) keeps every row of the
/// table and never makes it shorter; the posts alone never change how many
/// rows there are.
pub proof fn lemma_db_table_grows_with_entries(
    names: Map<u32, String>,
    dma: AllDbEntries,
    more: AllDbEntries,
    rows: Seq<ConflictRowModel>,
    more_rows: Seq<ConflictRowModel>,
)
    requires
        forall|id: u32| #[trigger] dma.entries@.contains_key(id) ==> more.entries@.contains_key(id)
            && dma.entries@[id]@.len() <= more.entries@[id]@.len(),
        rows_in_key_order(names, |id: u32| db_entry_rows_for(names, dma, id), rows),
        rows_in_key_order(names, |id: u32| db_entry_rows_for(names, more, id), more_rows),
    ensures
        rows.len() <= more_rows.len(),
        (forall|id: u32| #[trigger] dma.entries@.contains_key(id) ==> dma.entries@[id]@.is_prefix_of(
            more.entries@[id]@,
        )) && dma.posts@ == more.posts@ ==> forall|r: ConflictRowModel|
            rows.contains(r) ==> more_rows.contains(r),
{
    let f = |id: u32| db_entry_rows_for(names, dma, id);
    let g = |id: u32| db_entry_rows_for(names, more, id);
    let c = |id: u32| db_entry_count(dma, id);
    let d = |id: u32| db_entry_count(more, id);
    let keys = choose|keys: Seq<u32>| lists_keys_in_order(keys, names) && rows == keys.map_values(f).flatten();
    let more_keys = choose|keys: Seq<u32>| lists_keys_in_order(keys, names) && more_rows == keys.map_values(g).flatten();
    lemma_key_listing_unique(keys, more_keys, names);
    lemma_flatten_len(keys, f, c);
    lemma_flatten_len(keys, g, d);
    assert forall|i: int| 0 <= i < keys.len() implies c(#[trigger] keys[i]) <= d(keys[i]) by {
        if dma.entries@.contains_key(keys[i]) {
            assert(more.entries@.contains_key(keys[i]));
        }
    };
    lemma_count_pointwise(keys, c, d);
    if (forall|id: u32| #[trigger] dma.entries@.contains_key(id) ==> dma.entries@[id]@.is_prefix_of(
        more.entries@[id]@,
    )) && dma.posts@ == more.posts@ {
        assert forall|r: ConflictRowModel| rows.contains(r) implies more_rows.contains(r) by {
            lemma_rows_member(names, f, rows, r);
            lemma_rows_member(names, g, more_rows, r);
            let k = choose|k: u32| names.contains_key(k) && #[trigger] f(k).contains(r);
            let fk = f(k);
            let j = choose|j: int| 0 <= j < fk.len() && fk[j] == r;
            assert(dma.entries@.contains_key(k));
            assert(more.entries@[k]@[j] == dma.entries@[k]@[j]);
            assert(g(k)[j] == r);
            assert(g(k).contains(r));
        };
    }
}

/// A row is in a database table exactly when it names a database id of the
/// mod, the mod's name for it, the name of an entry of the archive under that
/// id and where that entry comes from: the post it names when the archive
/// holds that post, the base game otherwise.
pub proof fn lemma_db_table_members(names: Map<u32, String>, dma: AllDbEntries, rows: Seq<ConflictRowModel>)
    requires
        rows_in_key_order(names, |id: u32| db_entry_rows_for(names, dma, id), rows),
    ensures
        forall|r: ConflictRowModel|
            rows.contains(r) <==> exists|id: u32, j: int|
                #![trigger dma.entries@[id]@[j]]
                names.contains_key(id) && dma.entries@.contains_key(id) && 0 <= j
                    < dma.entries@[id]@.len() && r == (ConflictRowModel {
                    id: id as int,
                    name: names[id]@,
                    conflict_name: dma.entries@[id]@[j].name@,
                    source: if dma.posts@.contains_key(dma.entries@[id]@[j].post_id) {
                        SourceModel::Post {
                            id: dma.posts@[dma.entries@[id]@[j].post_id].id,
                            name: dma.posts@[dma.entries@[id]@[j].post_id].name@,
                        }
                    } else {
                        SourceModel::BaseGame
                    },
                }),
{
    let es = dma.entries@;
    let f = |id: u32| db_entry_rows_for(names, dma, id);
    let count = |id: u32| db_entry_count(dma, id);
    let member = |id: u32, r: ConflictRowModel|
        es.contains_key(id) && exists|j: int|
            0 <= j < es[id]@.len() && r == db_entry_row(id, names[id], #[trigger] es[id]@[j], dma);
    assert forall|k: u32, r: ConflictRowModel| #[trigger] f(k).contains(r) <==> member(k, r) by {
        if es.contains_key(k) {
            lemma_map_contains(es[k]@, |e: MeilisearchDbEntry| db_entry_row(k, names[k], e, dma), r);
        }
    };
    lemma_rows_exact(names, f, rows, count, member);
    assert forall|r: ConflictRowModel|
        rows.contains(r) <==> exists|id: u32, j: int|
            #![trigger es[id]@[j]]
            names.contains_key(id) && es.contains_key(id) && 0 <= j < es[id]@.len() && r == (
            ConflictRowModel {
                id: id as int,
                name: names[id]@,
                conflict_name: es[id]@[j].name@,
                source: if dma.posts@.contains_key(es[id]@[j].post_id) {
                    SourceModel::Post {
                        id: dma.posts@[es[id]@[j].post_id].id,
                        name: dma.posts@[es[id]@[j].post_id].name@,
                    }
                } else {
                    SourceModel::BaseGame
                },
            }) by {
        if rows.contains(r) {
            let k = choose|k: u32| names.contains_key(k) && #[trigger] member(k, r);
            let j = choose|j: int|
                0 <= j < es[k]@.len() && r == db_entry_row(k, names[k], #[trigger] es[k]@[j], dma);
            assert(es[k]@[j] == es[k]@[j]);
        }
        if exists|id: u32, j: int|
            #![trigger es[id]@[j]]
            names.contains_key(id) && es.contains_key(id) && 0 <= j < es[id]@.len() && r == (
            ConflictRowModel {
                id: id as int,
                name: names[id]@,
                conflict_name: es[id]@[j].name@,
                source: if dma.posts@.contains_key(es[id]@[j].post_id) {
                    SourceModel::Post {
                        id: dma.posts@[es[id]@[j].post_id].id,
                        name: dma.posts@[es[id]@[j].post_id].name@,
                    }
                } else {
                    SourceModel::BaseGame
                },
            }) {
            let (k, j) = choose|id: u32, j: int|
                #![trigger es[id]@[j]]
                names.contains_key(id) && es.contains_key(id) && 0 <= j < es[id]@.len() && r == (
                ConflictRowModel {
                    id: id as int,
                    name: names[id]@,
                    conflict_name: es[id]@[j].name@,
                    source: if dma.posts@.contains_key(es[id]@[j].post_id) {
                        SourceModel::Post {
                            id: dma.posts@[es[id]@[j].post_id].id,
                            name: dma.posts@[es[id]@[j].post_id].name@,
                        }
                    } else {
                        SourceModel::BaseGame
                    },
                });
            assert(member(k, r));
        }
    };
}

} // verus!
