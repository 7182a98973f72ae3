use vstd::prelude::*;
use std::collections::BTreeMap;
use vstd::std_specs::iter::IteratorSpec;
use crate::conflicts::pv_key;
use crate::mod_data::PvEntry;
use crate::models::{AllPvs, Pv};
use crate::order::{
    count_sum, entry_keys, lemma_entries_list_keys_in_order, lemma_map_contains, lemma_rows_done,
    lemma_rows_exact, lemma_rows_step, lists_keys_in_order, rows_in_key_order,
};
use super::{
    conflict_models, optional_text, post_source, reservation_models, reservation_row,
    reservation_row_of, source_of, upload_row, ConflictRow, ConflictRowModel, ReservationRow,
    ReservationRowModel,
};

verus! {

/// The row for a song of the mod that an upload of the archive also uses.
pub open spec fn pv_row(id: u32, pv: PvEntry, upload: Pv, dma: AllPvs) -> ConflictRowModel {
    upload_row(id as int, pv.song_name_en@, upload.name_en@, upload.post, dma.posts@)
}

/// The rows for one song id of the mod: one for each upload of the archive
/// under that id (looked up as a signed id).
pub open spec fn pv_rows_for(pvs: Map<u32, PvEntry>, dma: AllPvs, id: u32) -> Seq<ConflictRowModel> {
    if dma.uploaded_pvs@.contains_key(pv_key(id)) {
        dma.uploaded_pvs@[pv_key(id)]@.map_values(|p: Pv| pv_row(id, pvs[id], p, dma))
    } else {
        Seq::empty()
    }
}

/// The rows for one song id of the mod: one if the archive has that id
/// (looked up as a signed id) reserved, none otherwise.
pub open spec fn pv_reservation_rows_for(pvs: Map<u32, PvEntry>, dma: AllPvs, id: u32) -> Seq<
    ReservationRowModel,
> {
    if dma.reserved_pvs@.contains_key(pv_key(id)) {
        seq![
            reservation_row(
                id as int,
                pvs[id].song_name_en@,
                dma.reserved_pvs@[pv_key(id)],
                dma.users@,
            ),
        ]
    } else {
        Seq::empty()
    }
}

/// The table of the mod's songs whose ids uploads of the archive also use:
/// for each song id of the mod in increasing order, a row for each such upload.
pub fn pv_conflict_rows(pvs: &BTreeMap<u32, PvEntry>, dma: &AllPvs) -> (rows: Vec<ConflictRow>)
    ensures
        rows_in_key_order(pvs@, |id: u32| pv_rows_for(pvs@, *dma, id), conflict_models(rows@)),
{
    let ghost f = |id: u32| pv_rows_for(pvs@, *dma, id);
    let mut rows: Vec<ConflictRow> = Vec::new();
    let iter = pvs.iter();
    let ghost es = iter.remaining();
    let ghost keys = entry_keys(es);
    proof {
        lemma_entries_list_keys_in_order(pvs@, es);
    }
    for (id, pv) in it: iter
        invariant
            it.seq() == es,
            es == pvs.iter().remaining(),
            keys == entry_keys(es),
            f == (|id: u32| pv_rows_for(pvs@, *dma, id)),
            conflict_models(rows@) == keys.take(it.index()).map_values(f).flatten_alt(),
    {
        let ghost i = it.index();
        let ghost before = conflict_models(rows@);
        proof {
            lemma_rows_step(keys, f, i);
        }
        assert(it.seq()[i] == (id, pv));
        assert(keys[i] == *id);
        assert(pvs@.contains_key(*id) && pvs@[*id] == *pv);
        let key: i32 = #[verifier::truncate] (*id as i32);
        assert(key == pv_key(*id));
        match dma.uploaded_pvs.get(&key) {
            Some(uploads) => {
                let ghost g = |p: Pv| pv_row(*id, *pv, p, *dma);
                let mut j: usize = 0;
                while j < uploads.len()
                    invariant
                        j <= uploads.len(),
                        g == (|p: Pv| pv_row(*id, *pv, p, *dma)),
                        conflict_models(rows@) == before + uploads@.take(j as int).map_values(g),
                    decreases uploads.len() - j,
                {
                    let upload = &uploads[j];
                    let ghost done = conflict_models(rows@);
                    let row = ConflictRow {
                        id: *id as i64,
                        name: pv.song_name_en.clone(),
                        conflict_name: upload.name_en.clone(),
                        source: source_of(upload.post, &dma.posts),
                    };
                    rows.push(row);
                    assert(conflict_models(rows@) =~= done.push(g(*upload)));
                    assert(uploads@.take(j + 1).map_values(g) =~= uploads@.take(j as int).map_values(
                        g,
                    ).push(g(*upload)));
                    j += 1;
                }
                assert(uploads@.take(uploads@.len() as int).map_values(g) =~= f(keys[i]));
            },
            None => {},
        }
        assert(conflict_models(rows@) =~= before + f(keys[i]));
    }
    proof {
        lemma_rows_done(keys, pvs@, f, conflict_models(rows@));
    }
    rows
}

/// The table of the mod's songs whose ids the archive has reserved: for each
/// song id of the mod in increasing order, a row if that id is reserved.
pub fn pv_reservation_rows(pvs: &BTreeMap<u32, PvEntry>, dma: &AllPvs) -> (rows: Vec<
    ReservationRow,
>)
    ensures
        rows_in_key_order(
            pvs@,
            |id: u32| pv_reservation_rows_for(pvs@, *dma, id),
            reservation_models(rows@),
        ),
{
    let ghost f = |id: u32| pv_reservation_rows_for(pvs@, *dma, id);
    let mut rows: Vec<ReservationRow> = Vec::new();
    let iter = pvs.iter();
    let ghost es = iter.remaining();
    let ghost keys = entry_keys(es);
    proof {
        lemma_entries_list_keys_in_order(pvs@, es);
    }
    for (id, pv) in it: iter
        invariant
            it.seq() == es,
            es == pvs.iter().remaining(),
            keys == entry_keys(es),
            f == (|id: u32| pv_reservation_rows_for(pvs@, *dma, id)),
            reservation_models(rows@) == keys.take(it.index()).map_values(f).flatten_alt(),
    {
        let ghost i = it.index();
        let ghost before = reservation_models(rows@);
        proof {
            lemma_rows_step(keys, f, i);
        }
        assert(it.seq()[i] == (id, pv));
        assert(keys[i] == *id);
        assert(pvs@.contains_key(*id) && pvs@[*id] == *pv);
        let key: i32 = #[verifier::truncate] (*id as i32);
        assert(key == pv_key(*id));
        match dma.reserved_pvs.get(&key) {
            Some(reservation) => {
                let row = reservation_row_of(
                    *id as i64,
                    pv.song_name_en.clone(),
                    reservation,
                    &dma.users,
                );
                rows.push(row);
            },
            None => {},
        }
        assert(reservation_models(rows@) =~= before + f(keys[i]));
    }
    proof {
        lemma_rows_done(keys, pvs@, f, reservation_models(rows@));
    }
    rows
}

/// The song table lists each upload of the archive under a song id of the
/// mod (looked up as a signed id) exactly once: it has as many rows as the
/// archive has uploads under the mod's song ids, and a row is in it exactly
/// when it names such an id, the mod's English song name, the upload's
/// English name and the upload's source.
pub proof fn lemma_pv_table_rows(pvs: Map<u32, PvEntry>, dma: AllPvs, rows: Seq<ConflictRowModel>)
    requires
        rows_in_key_order(pvs, |id: u32| pv_rows_for(pvs, dma, id), rows),
    ensures
        exists|keys: Seq<u32>|
            lists_keys_in_order(keys, pvs) && rows.len() == count_sum(
                keys,
                |id: u32|
                    if dma.uploaded_pvs@.contains_key(pv_key(id)) {
                        dma.uploaded_pvs@[pv_key(id)]@.len()
                    } else {
                        0nat
                    },
            ),
        forall|r: ConflictRowModel|
            rows.contains(r) <==> exists|id: u32, j: int|
                #![trigger dma.uploaded_pvs@[pv_key(id)]@[j]]
                pvs.contains_key(id) && dma.uploaded_pvs@.contains_key(pv_key(id)) && 0 <= j
                    < dma.uploaded_pvs@[pv_key(id)]@.len() && r == (ConflictRowModel {
                    id: id as int,
                    name: pvs[id].song_name_en@,
                    conflict_name: dma.uploaded_pvs@[pv_key(id)]@[j].name_en@,
                    source: post_source(dma.uploaded_pvs@[pv_key(id)]@[j].post, dma.posts@),
                }),
{
    let ups = dma.uploaded_pvs@;
    let f = |id: u32| pv_rows_for(pvs, dma, id);
    let count = |id: u32|
        if ups.contains_key(pv_key(id)) {
            ups[pv_key(id)]@.len()
        } else {
            0nat
        };
    let member = |id: u32, r: ConflictRowModel|
        ups.contains_key(pv_key(id)) && exists|j: int|
            0 <= j < ups[pv_key(id)]@.len() && r == pv_row(id, pvs[id], #[trigger] ups[pv_key(id)]@[j], dma);
    assert forall|k: u32, r: ConflictRowModel| #[trigger] f(k).contains(r) <==> member(k, r) by {
        if ups.contains_key(pv_key(k)) {
            lemma_map_contains(ups[pv_key(k)]@, |p: Pv| pv_row(k, pvs[k], p, dma), r);
        }
    };
    lemma_rows_exact(pvs, f, rows, count, member);
    assert forall|r: ConflictRowModel|
        rows.contains(r) <==> exists|id: u32, j: int|
            #![trigger ups[pv_key(id)]@[j]]
            pvs.contains_key(id) && ups.contains_key(pv_key(id)) && 0 <= j < ups[pv_key(id)]@.len() && r == (
            ConflictRowModel {
                id: id as int,
                name: pvs[id].song_name_en@,
                conflict_name: ups[pv_key(id)]@[j].name_en@,
                source: post_source(ups[pv_key(id)]@[j].post, dma.posts@),
            }) by {
        if rows.contains(r) {
            let k = choose|k: u32| pvs.contains_key(k) && #[trigger] member(k, r);
            let j = choose|j: int|
                0 <= j < ups[pv_key(k)]@.len() && r == pv_row(k, pvs[k], #[trigger] ups[pv_key(k)]@[j], dma);
            assert(ups[pv_key(k)]@[j] == ups[pv_key(k)]@[j]);
        }
        if exists|id: u32, j: int|
            #![trigger ups[pv_key(id)]@[j]]
            pvs.contains_key(id) && ups.contains_key(pv_key(id)) && 0 <= j < ups[pv_key(id)]@.len() && r == (
            ConflictRowModel {
                id: id as int,
                name: pvs[id].song_name_en@,
                conflict_name: ups[pv_key(id)]@[j].name_en@,
                source: post_source(ups[pv_key(id)]@[j].post, dma.posts@),
            }) {
            let (k, j) = choose|id: u32, j: int|
                #![trigger ups[pv_key(id)]@[j]]
                pvs.contains_key(id) && ups.contains_key(pv_key(id)) && 0 <= j < ups[pv_key(id)]@.len() && r == (
                ConflictRowModel {
                    id: id as int,
                    name: pvs[id].song_name_en@,
                    conflict_name: ups[pv_key(id)]@[j].name_en@,
                    source: post_source(ups[pv_key(id)]@[j].post, dma.posts@),
                });
            assert(member(k, r));
        }
    };
}

/// The song reservation table has one row for each song id of the mod that
/// the archive has reserved (looked up as a signed id), and a row is in it
/// exactly when it names such an id, the mod's English song name, the
/// reservation's label and, as holder, the display name of the reservation's
/// user when the archive lists that user (none otherwise).
pub proof fn lemma_pv_reservation_table_rows(pvs: Map<u32, PvEntry>, dma: AllPvs, rows: Seq<ReservationRowModel>)
    requires
        rows_in_key_order(pvs, |id: u32| pv_reservation_rows_for(pvs, dma, id), rows),
    ensures
        exists|keys: Seq<u32>|
            lists_keys_in_order(keys, pvs) && rows.len() == count_sum(
                keys,
                |id: u32|
                    if dma.reserved_pvs@.contains_key(pv_key(id)) {
                        1nat
                    } else {
                        0nat
                    },
            ),
        forall|r: ReservationRowModel|
            rows.contains(r) <==> exists|id: u32|
                pvs.contains_key(id) && dma.reserved_pvs@.contains_key(pv_key(id)) && r == (
                ReservationRowModel {
                    id: id as int,
                    name: pvs[id].song_name_en@,
                    label: optional_text(#[trigger] dma.reserved_pvs@[pv_key(id)].label),
                    holder: if dma.users@.contains_key(dma.reserved_pvs@[pv_key(id)].user) {
                        Some(dma.users@[dma.reserved_pvs@[pv_key(id)].user].display_name@)
                    } else {
                        None
                    },
                }),
{
    let res = dma.reserved_pvs@;
    let f = |id: u32| pv_reservation_rows_for(pvs, dma, id);
    let count = |id: u32|
        if res.contains_key(pv_key(id)) {
            1nat
        } else {
            0nat
        };
    let member = |id: u32, r: ReservationRowModel|
        res.contains_key(pv_key(id)) && r == reservation_row(
            id as int,
            pvs[id].song_name_en@,
            res[pv_key(id)],
            dma.users@,
        );
    assert forall|k: u32, r: ReservationRowModel| #[trigger] f(k).contains(r) <==> member(k, r) by {
        if res.contains_key(pv_key(k)) {
            assert(f(k)[0] == reservation_row(k as int, pvs[k].song_name_en@, res[pv_key(k)], dma.users@));
        }
    };
    lemma_rows_exact(pvs, f, rows, count, member);
    assert forall|r: ReservationRowModel|
        rows.contains(r) <==> exists|id: u32|
            pvs.contains_key(id) && res.contains_key(pv_key(id)) && r == (ReservationRowModel {
                id: id as int,
                name: pvs[id].song_name_en@,
                label: optional_text(#[trigger] res[pv_key(id)].label),
                holder: if dma.users@.contains_key(res[pv_key(id)].user) {
                    Some(dma.users@[res[pv_key(id)].user].display_name@)
                } else {
                    None
                },
            }) by {
        if rows.contains(r) {
            let k = choose|k: u32| pvs.contains_key(k) && #[trigger] member(k, r);
            assert(res[pv_key(k)].label == res[pv_key(k)].label);
        } else {
            assert forall|k: u32| pvs.contains_key(k) && res.contains_key(pv_key(k)) implies r != (
            ReservationRowModel {
                id: k as int,
                name: pvs[k].song_name_en@,
                label: optional_text(#[trigger] res[pv_key(k)].label),
                holder: if dma.users@.contains_key(res[pv_key(k)].user) {
                    Some(dma.users@[res[pv_key(k)].user].display_name@)
                } else {
                    None
                },
            }) by {
                assert(!member(k, r));
            };
        }
    };
}

} // verus!
