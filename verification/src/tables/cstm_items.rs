use vstd::prelude::*;
use std::collections::BTreeMap;
use vstd::std_specs::iter::IteratorSpec;
use crate::models::{AllCstmItems, CstmItem, CstmItemInfo};
use crate::order::{
    count_sum, entry_keys, lemma_entries_list_keys_in_order, lemma_map_contains, lemma_rows_done,
    lemma_rows_exact, lemma_rows_step, lists_keys_in_order, rows_in_key_order,
};
use super::{
    conflict_models, cstm_item_name, optional_text, post_source, reservation_models,
    reservation_row, reservation_row_of, source_of, upload_row, ConflictRow, ConflictRowModel,
    ReservationRow, ReservationRowModel,
};

verus! {

/// The row for a customize item of the mod that an upload of the archive
/// also uses.
pub open spec fn cstm_item_row(id: i32, item: CstmItemInfo, upload: CstmItem, dma: AllCstmItems) -> ConflictRowModel {
    upload_row(id as int, cstm_item_name(item), cstm_item_name(upload.cstm_item), upload.post, dma.posts@)
}

/// The rows for one customize item id of the mod: one for each upload of the
/// archive under that id.
pub open spec fn cstm_item_rows_for(items: Map<i32, CstmItemInfo>, dma: AllCstmItems, id: i32) -> Seq<
    ConflictRowModel,
> {
    if dma.uploaded_cstm_items@.contains_key(id) {
        dma.uploaded_cstm_items@[id]@.map_values(|c: CstmItem| cstm_item_row(id, items[id], c, dma))
    } else {
        Seq::empty()
    }
}

/// The rows for one customize item id of the mod: one if the archive has
/// that id reserved, none otherwise.
pub open spec fn cstm_item_reservation_rows_for(
    items: Map<i32, CstmItemInfo>,
    dma: AllCstmItems,
    id: i32,
) -> Seq<ReservationRowModel> {
    if dma.reserved_cstm_items@.contains_key(id) {
        seq![
            reservation_row(
                id as int,
                cstm_item_name(items[id]),
                dma.reserved_cstm_items@[id],
                dma.users@,
            ),
        ]
    } else {
        Seq::empty()
    }
}

/// The table of the mod's customize items whose ids uploads of the archive also use:
/// for each customize item id of the mod in increasing order, a row for each such
/// upload.
pub fn cstm_item_conflict_rows(items: &BTreeMap<i32, CstmItemInfo>, dma: &AllCstmItems) -> (rows: Vec<
    ConflictRow,
>)
    ensures
        rows_in_key_order(
            items@,
            |id: i32| cstm_item_rows_for(items@, *dma, id),
            conflict_models(rows@),
        ),
{
    let ghost f = |id: i32| cstm_item_rows_for(items@, *dma, id);
    let mut rows: Vec<ConflictRow> = Vec::new();
    let iter = items.iter();
    let ghost es = iter.remaining();
    let ghost keys = entry_keys(es);
    proof {
        lemma_entries_list_keys_in_order(items@, es);
    }
    for (id, item) in it: iter
        invariant
            it.seq() == es,
            es == items.iter().remaining(),
            keys == entry_keys(es),
            f == (|id: i32| cstm_item_rows_for(items@, *dma, id)),
            conflict_models(rows@) == keys.take(it.index()).map_values(f).flatten_alt(),
    {
        let ghost i = it.index();
        let ghost before = conflict_models(rows@);
        proof {
            lemma_rows_step(keys, f, i);
        }
        assert(it.seq()[i] == (id, item));
        assert(keys[i] == *id);
        assert(items@.contains_key(*id) && items@[*id] == *item);
        match dma.uploaded_cstm_items.get(id) {
            Some(uploads) => {
                let ghost g = |c: CstmItem| cstm_item_row(*id, *item, c, *dma);
                let name = item.display_name();
                let mut j: usize = 0;
                while j < uploads.len()
                    invariant
                        j <= uploads.len(),
                        g == (|c: CstmItem| cstm_item_row(*id, *item, c, *dma)),
                        name@ == cstm_item_name(*item),
                        conflict_models(rows@) == before + uploads@.take(j as int).map_values(g),
                    decreases uploads.len() - j,
                {
                    let upload = &uploads[j];
                    let ghost done = conflict_models(rows@);
                    let row = ConflictRow {
                        id: *id as i64,
                        name: name.clone(),
                        conflict_name: upload.cstm_item.display_name(),
                        source: source_of(upload.post, &dma.posts),
                    };
                    rows.push(row);
                    assert(conflict_models(rows@) =~= done.push(g(*upload)));
                    assert(uploads@.take(j + 1).map_values(g) =~= uploads@.take(j as int).map_values(
                        g,
                    ).push(g(*upload)));
                    j += 1;
                }
                assert(uploads@.take(uploads@.len() as int).map_values(g) =~= f(keys[i]));
            },
            None => {},
        }
        assert(conflict_models(rows@) =~= before + f(keys[i]));
    }
    proof {
        lemma_rows_done(keys, items@, f, conflict_models(rows@));
    }
    rows
}

/// The table of the mod's customize items whose ids the archive has reserved: for
/// each customize item id of the mod in increasing order, a row if that id is
/// reserved.
pub fn cstm_item_reservation_rows(items: &BTreeMap<i32, CstmItemInfo>, dma: &AllCstmItems) -> (rows: Vec<
    ReservationRow,
>)
    ensures
        rows_in_key_order(
            items@,
            |id: i32| cstm_item_reservation_rows_for(items@, *dma, id),
            reservation_models(rows@),
        ),
{
    let ghost f = |id: i32| cstm_item_reservation_rows_for(items@, *dma, id);
    let mut rows: Vec<ReservationRow> = Vec::new();
    let iter = items.iter();
    let ghost es = iter.remaining();
    let ghost keys = entry_keys(es);
    proof {
        lemma_entries_list_keys_in_order(items@, es);
    }
    for (id, item) in it: iter
        invariant
            it.seq() == es,
            es == items.iter().remaining(),
            keys == entry_keys(es),
            f == (|id: i32| cstm_item_reservation_rows_for(items@, *dma, id)),
            reservation_models(rows@) == keys.take(it.index()).map_values(f).flatten_alt(),
    {
        let ghost i = it.index();
        let ghost before = reservation_models(rows@);
        proof {
            lemma_rows_step(keys, f, i);
        }
        assert(it.seq()[i] == (id, item));
        assert(keys[i] == *id);
        assert(items@.contains_key(*id) && items@[*id] == *item);
        match dma.reserved_cstm_items.get(id) {
            Some(reservation) => {
                let row = reservation_row_of(
                    *id as i64,
                    item.display_name(),
                    reservation,
                    &dma.users,
                );
                rows.push(row);
            },
            None => {},
        }
        assert(reservation_models(rows@) =~= before + f(keys[i]));
    }
    proof {
        lemma_rows_done(keys, items@, f, reservation_models(rows@));
    }
    rows
}

/// The customize item table lists each upload of the archive under a
/// customize item id of the mod exactly once: it has as many rows as the
/// archive has uploads under the mod's item ids, and a row is in it exactly
/// when it names such an id, the mod's name for it, the upload's name and the
/// upload's source.
pub proof fn lemma_cstm_item_table_rows(
    items: Map<i32, CstmItemInfo>,
    dma: AllCstmItems,
    rows: Seq<ConflictRowModel>,
)
    requires
        rows_in_key_order(items, |id: i32| cstm_item_rows_for(items, dma, id), rows),
    ensures
        exists|keys: Seq<i32>|
            lists_keys_in_order(keys, items) && rows.len() == count_sum(
                keys,
                |id: i32|
                    if dma.uploaded_cstm_items@.contains_key(id) {
                        dma.uploaded_cstm_items@[id]@.len()
                    } else {
                        0nat
                    },
            ),
        forall|r: ConflictRowModel|
            rows.contains(r) <==> exists|id: i32, j: int|
                #![trigger dma.uploaded_cstm_items@[id]@[j]]
                items.contains_key(id) && dma.uploaded_cstm_items@.contains_key(id) && 0 <= j
                    < dma.uploaded_cstm_items@[id]@.len() && r == (ConflictRowModel {
                    id: id as int,
                    name: cstm_item_name(items[id]),
                    conflict_name: cstm_item_name(dma.uploaded_cstm_items@[id]@[j].cstm_item),
                    source: post_source(dma.uploaded_cstm_items@[id]@[j].post, dma.posts@),
                }),
{
    let ups = dma.uploaded_cstm_items@;
    let f = |id: i32| cstm_item_rows_for(items, dma, id);
    let count = |id: i32|
        if ups.contains_key(id) {
            ups[id]@.len()
        } else {
            0nat
        };
    let member = |id: i32, r: ConflictRowModel|
        ups.contains_key(id) && exists|j: int|
            0 <= j < ups[id]@.len() && r == cstm_item_row(id, items[id], #[trigger] ups[id]@[j], dma);
    assert forall|k: i32, r: ConflictRowModel| #[trigger] f(k).contains(r) <==> member(k, r) by {
        if ups.contains_key(k) {
            lemma_map_contains(ups[k]@, |c: CstmItem| cstm_item_row(k, items[k], c, dma), r);
        }
    };
    lemma_rows_exact(items, f, rows, count, member);
    assert forall|r: ConflictRowModel|
        rows.contains(r) <==> exists|id: i32, j: int|
            #![trigger ups[id]@[j]]
            items.contains_key(id) && ups.contains_key(id) && 0 <= j < ups[id]@.len() && r == (
            ConflictRowModel {
                id: id as int,
                name: cstm_item_name(items[id]),
                conflict_name: cstm_item_name(ups[id]@[j].cstm_item),
                source: post_source(ups[id]@[j].post, dma.posts@),
            }) by {
        if rows.contains(r) {
            let k = choose|k: i32| items.contains_key(k) && #[trigger] member(k, r);
            let j = choose|j: int|
                0 <= j < ups[k]@.len() && r == cstm_item_row(k, items[k], #[trigger] ups[k]@[j], dma);
            assert(ups[k]@[j] == ups[k]@[j]);
        }
        if exists|id: i32, j: int|
            #![trigger ups[id]@[j]]
            items.contains_key(id) && ups.contains_key(id) && 0 <= j < ups[id]@.len() && r == (
            ConflictRowModel {
                id: id as int,
                name: cstm_item_name(items[id]),
                conflict_name: cstm_item_name(ups[id]@[j].cstm_item),
                source: post_source(ups[id]@[j].post, dma.posts@),
            }) {
            let (k, j) = choose|id: i32, j: int|
                #![trigger ups[id]@[j]]
                items.contains_key(id) && ups.contains_key(id) && 0 <= j < ups[id]@.len() && r == (
                ConflictRowModel {
                    id: id as int,
                    name: cstm_item_name(items[id]),
                    conflict_name: cstm_item_name(ups[id]@[j].cstm_item),
                    source: post_source(ups[id]@[j].post, dma.posts@),
                });
            assert(member(k, r));
        }
    };
}

/// The customize item reservation table has one row for each customize item
/// id of the mod that the archive has reserved, and a row is in it exactly
/// when it names such an id, the mod's name for it, the reservation's label
/// and, as holder, the display name of the reservation's user (looked up by
/// the reservation's user id) when the archive lists that user (none
/// otherwise).
pub proof fn lemma_cstm_item_reservation_table_rows(
    items: Map<i32, CstmItemInfo>,
    dma: AllCstmItems,
    rows: Seq<ReservationRowModel>,
)
    requires
        rows_in_key_order(items, |id: i32| cstm_item_reservation_rows_for(items, dma, id), rows),
    ensures
        exists|keys: Seq<i32>|
            lists_keys_in_order(keys, items) && rows.len() == count_sum(
                keys,
                |id: i32|
                    if dma.reserved_cstm_items@.contains_key(id) {
                        1nat
                    } else {
                        0nat
                    },
            ),
        forall|r: ReservationRowModel|
            rows.contains(r) <==> exists|id: i32|
                items.contains_key(id) && dma.reserved_cstm_items@.contains_key(id) && r == (
                ReservationRowModel {
                    id: id as int,
                    name: cstm_item_name(items[id]),
                    label: optional_text(#[trigger] dma.reserved_cstm_items@[id].label),
                    holder: if dma.users@.contains_key(dma.reserved_cstm_items@[id].user) {
                        Some(dma.users@[dma.reserved_cstm_items@[id].user].display_name@)
                    } else {
                        None
                    },
                }),
{
    let res = dma.reserved_cstm_items@;
    let f = |id: i32| cstm_item_reservation_rows_for(items, dma, id);
    let count = |id: i32|
        if res.contains_key(id) {
            1nat
        } else {
            0nat
        };
    let member = |id: i32, r: ReservationRowModel|
        res.contains_key(id) && r == reservation_row(id as int, cstm_item_name(items[id]), res[id], dma.users@);
    assert forall|k: i32, r: ReservationRowModel| #[trigger] f(k).contains(r) <==> member(k, r) by {
        if res.contains_key(k) {
            assert(f(k)[0] == reservation_row(k as int, cstm_item_name(items[k]), res[k], dma.users@));
        }
    };
    lemma_rows_exact(items, f, rows, count, member);
    assert forall|r: ReservationRowModel|
        rows.contains(r) <==> exists|id: i32|
            items.contains_key(id) && res.contains_key(id) && r == (ReservationRowModel {
                id: id as int,
                name: cstm_item_name(items[id]),
                label: optional_text(#[trigger] res[id].label),
                holder: if dma.users@.contains_key(res[id].user) {
                    Some(dma.users@[res[id].user].display_name@)
                } else {
                    None
                },
            }) by {
        if rows.contains(r) {
            let k = choose|k: i32| items.contains_key(k) && #[trigger] member(k, r);
            assert(res[k].label == res[k].label);
        } else {
            assert forall|k: i32| items.contains_key(k) && res.contains_key(k) implies r != (
            ReservationRowModel {
                id: k as int,
                name: cstm_item_name(items[k]),
                label: optional_text(#[trigger] res[k].label),
                holder: if dma.users@.contains_key(res[k].user) {
                    Some(dma.users@[res[k].user].display_name@)
                } else {
                    None
                },
            }) by {
                assert(!member(k, r));
            };
        }
    };
}

} // verus!
