//! How the tables of conflicts relate to the flags of the conflict check.

use vstd::prelude::*;
use std::collections::BTreeMap;
use crate::app_state::AppData;
use crate::conflicts::{conflict_flags, pv_key};
use crate::keys::shares_key;
use crate::mod_data::IdData;
use crate::models::{AllDbEntries, DmaData};
use crate::order::{lemma_rows_nonempty, rows_in_key_order};
use crate::tables::{ConflictRowModel, ReservationRowModel};
use crate::tables::pvs::{pv_reservation_rows_for, pv_rows_for};
use crate::tables::modules::{costume_reservation_rows_for, module_reservation_rows_for, module_rows_for};
use crate::tables::cstm_items::{cstm_item_reservation_rows_for, cstm_item_rows_for};
use crate::tables::db_entries::db_entry_rows_for;

verus! {

/// The table of the mod's songs that the archive has reserved has a row
/// exactly when the check flags a song reservation conflict.
pub proof fn lemma_pv_reservation_table_matches_flag(
    user: IdData,
    dma: DmaData,
    rows: Seq<ReservationRowModel>,
)
    requires
        rows_in_key_order(user.pvs@, |id: u32| pv_reservation_rows_for(user.pvs@, dma.pvs, id), rows),
    ensures
        rows.len() > 0 <==> conflict_flags(user, dma).pv_reservation_conflicts,
{
    let f = |id: u32| pv_reservation_rows_for(user.pvs@, dma.pvs, id);
    lemma_rows_nonempty(user.pvs@, f, rows);
    if conflict_flags(user, dma).pv_reservation_conflicts {
        let id = choose|id: u32| user.pvs@.contains_key(id) && dma.pvs.reserved_pvs@.contains_key(pv_key(id));
        assert(f(id).len() > 0);
    }
}

/// The table of the mod's modules that the archive has reserved has a row
/// exactly when the check flags a module reservation conflict.
pub proof fn lemma_module_reservation_table_matches_flag(
    user: IdData,
    dma: DmaData,
    rows: Seq<ReservationRowModel>,
)
    requires
        rows_in_key_order(
            user.modules@,
            |id: i32| module_reservation_rows_for(user.modules@, dma.modules, id),
            rows,
        ),
    ensures
        rows.len() > 0 <==> conflict_flags(user, dma).module_reservation_conflicts,
{
    let f = |id: i32| module_reservation_rows_for(user.modules@, dma.modules, id);
    lemma_rows_nonempty(user.modules@, f, rows);
    if conflict_flags(user, dma).module_reservation_conflicts {
        let id = choose|id: i32| user.modules@.contains_key(id) && dma.modules.reserved_modules@.contains_key(id);
        assert(f(id).len() > 0);
    }
}

/// The table of the mod's modules whose costumes the archive has reserved has
/// a row exactly when the check flags a costume reservation conflict.
pub proof fn lemma_costume_reservation_table_matches_flag(
    user: IdData,
    dma: DmaData,
    rows: Seq<ReservationRowModel>,
)
    requires
        rows_in_key_order(
            user.modules@,
            |id: i32| costume_reservation_rows_for(user.modules@, dma.modules, id),
            rows,
        ),
    ensures
        rows.len() > 0 <==> conflict_flags(user, dma).module_cos_reservation_conflicts,
{
    let f = |id: i32| costume_reservation_rows_for(user.modules@, dma.modules, id);
    lemma_rows_nonempty(user.modules@, f, rows);
    if conflict_flags(user, dma).module_cos_reservation_conflicts {
        let id = choose|id: i32|
            {
                &&& user.modules@.contains_key(id)
                &&& dma.modules.reserved_costumes@.contains_key(user.modules@[id].chara)
                &&& dma.modules.reserved_costumes@[user.modules@[id].chara]@.contains_key(
                    user.modules@[id].cos_id,
                )
            };
        assert(f(id).len() > 0);
    }
}

/// The table of the mod's customize items that the archive has reserved has a
/// row exactly when the check flags a customize item reservation conflict.
pub proof fn lemma_cstm_item_reservation_table_matches_flag(
    user: IdData,
    dma: DmaData,
    rows: Seq<ReservationRowModel>,
)
    requires
        rows_in_key_order(
            user.cstm_items@,
            |id: i32| cstm_item_reservation_rows_for(user.cstm_items@, dma.cstm_items, id),
            rows,
        ),
    ensures
        rows.len() > 0 <==> conflict_flags(user, dma).cstm_item_reservation_conflicts,
{
    let f = |id: i32| cstm_item_reservation_rows_for(user.cstm_items@, dma.cstm_items, id);
    lemma_rows_nonempty(user.cstm_items@, f, rows);
    if conflict_flags(user, dma).cstm_item_reservation_conflicts {
        let id = choose|id: i32|
            user.cstm_items@.contains_key(id) && dma.cstm_items.reserved_cstm_items@.contains_key(id);
        assert(f(id).len() > 0);
    }
}

/// A row in the table of the mod's songs that uploads of the archive also use
/// comes with a song conflict flagged.
pub proof fn lemma_pv_table_implies_flag(user: IdData, dma: DmaData, rows: Seq<ConflictRowModel>)
    requires
        rows_in_key_order(user.pvs@, |id: u32| pv_rows_for(user.pvs@, dma.pvs, id), rows),
        rows.len() > 0,
    ensures
        conflict_flags(user, dma).pv_conflicts,
{
    let f = |id: u32| pv_rows_for(user.pvs@, dma.pvs, id);
    lemma_rows_nonempty(user.pvs@, f, rows);
    let id = choose|id: u32| user.pvs@.contains_key(id) && #[trigger] f(id).len() > 0;
    assert(dma.pvs.uploaded_pvs@.contains_key(pv_key(id)));
}

/// A row in the table of the mod's modules that uploads of the archive also
/// use comes with a module conflict flagged.
pub proof fn lemma_module_table_implies_flag(user: IdData, dma: DmaData, rows: Seq<ConflictRowModel>)
    requires
        rows_in_key_order(user.modules@, |id: i32| module_rows_for(user.modules@, dma.modules, id), rows),
        rows.len() > 0,
    ensures
        conflict_flags(user, dma).module_conflicts,
{
    let f = |id: i32| module_rows_for(user.modules@, dma.modules, id);
    lemma_rows_nonempty(user.modules@, f, rows);
    let id = choose|id: i32| user.modules@.contains_key(id) && #[trigger] f(id).len() > 0;
    assert(dma.modules.uploaded_modules@.contains_key(id));
}

/// A row in the table of the mod's customize items that uploads of the
/// archive also use comes with a customize item conflict flagged.
pub proof fn lemma_cstm_item_table_implies_flag(user: IdData, dma: DmaData, rows: Seq<ConflictRowModel>)
    requires
        rows_in_key_order(
            user.cstm_items@,
            |id: i32| cstm_item_rows_for(user.cstm_items@, dma.cstm_items, id),
            rows,
        ),
        rows.len() > 0,
    ensures
        conflict_flags(user, dma).cstm_item_conflicts,
{
    let f = |id: i32| cstm_item_rows_for(user.cstm_items@, dma.cstm_items, id);
    lemma_rows_nonempty(user.cstm_items@, f, rows);
    let id = choose|id: i32| user.cstm_items@.contains_key(id) && #[trigger] f(id).len() > 0;
    assert(dma.cstm_items.uploaded_cstm_items@.contains_key(id));
}

/// A row in the table of the mod's sprite sets, aet sets, aet scenes, object
/// sets or textures that entries of the archive also use comes with the
/// matching conflict flagged.
pub proof fn lemma_db_tables_imply_flags(
    user: IdData,
    dma: DmaData,
    spr_set_rows: Seq<ConflictRowModel>,
    aet_set_rows: Seq<ConflictRowModel>,
    aet_scene_rows: Seq<ConflictRowModel>,
    objset_rows: Seq<ConflictRowModel>,
    texture_rows: Seq<ConflictRowModel>,
)
    requires
        rows_in_key_order(user.spr_sets@, |id: u32| db_entry_rows_for(user.spr_sets@, dma.spr_sets, id), spr_set_rows),
        rows_in_key_order(user.aet_sets@, |id: u32| db_entry_rows_for(user.aet_sets@, dma.aet_sets, id), aet_set_rows),
        rows_in_key_order(
            user.aet_scenes@,
            |id: u32| db_entry_rows_for(user.aet_scenes@, dma.aet_scenes, id),
            aet_scene_rows,
        ),
        rows_in_key_order(user.objsets@, |id: u32| db_entry_rows_for(user.objsets@, dma.objsets, id), objset_rows),
        rows_in_key_order(
            user.textures@,
            |id: u32| db_entry_rows_for(user.textures@, dma.textures, id),
            texture_rows,
        ),
    ensures
        spr_set_rows.len() > 0 ==> conflict_flags(user, dma).spr_set_conflicts,
        aet_set_rows.len() > 0 ==> conflict_flags(user, dma).aet_set_conflicts,
        aet_scene_rows.len() > 0 ==> conflict_flags(user, dma).aet_scene_conflicts,
        objset_rows.len() > 0 ==> conflict_flags(user, dma).objset_conflicts,
        texture_rows.len() > 0 ==> conflict_flags(user, dma).texture_conflicts,
{
    let f1 = |id: u32| db_entry_rows_for(user.spr_sets@, dma.spr_sets, id);
    let f2 = |id: u32| db_entry_rows_for(user.aet_sets@, dma.aet_sets, id);
    let f3 = |id: u32| db_entry_rows_for(user.aet_scenes@, dma.aet_scenes, id);
    let f4 = |id: u32| db_entry_rows_for(user.objsets@, dma.objsets, id);
    let f5 = |id: u32| db_entry_rows_for(user.textures@, dma.textures, id);
    lemma_rows_nonempty(user.spr_sets@, f1, spr_set_rows);
    lemma_rows_nonempty(user.aet_sets@, f2, aet_set_rows);
    lemma_rows_nonempty(user.aet_scenes@, f3, aet_scene_rows);
    lemma_rows_nonempty(user.objsets@, f4, objset_rows);
    lemma_rows_nonempty(user.textures@, f5, texture_rows);
    if spr_set_rows.len() > 0 {
        let id = choose|id: u32| user.spr_sets@.contains_key(id) && #[trigger] f1(id).len() > 0;
        assert(dma.spr_sets.entries@.contains_key(id));
    }
    if aet_set_rows.len() > 0 {
        let id = choose|id: u32| user.aet_sets@.contains_key(id) && #[trigger] f2(id).len() > 0;
        assert(dma.aet_sets.entries@.contains_key(id));
    }
    if aet_scene_rows.len() > 0 {
        let id = choose|id: u32| user.aet_scenes@.contains_key(id) && #[trigger] f3(id).len() > 0;
        assert(dma.aet_scenes.entries@.contains_key(id));
    }
    if objset_rows.len() > 0 {
        let id = choose|id: u32| user.objsets@.contains_key(id) && #[trigger] f4(id).len() > 0;
        assert(dma.objsets.entries@.contains_key(id));
    }
    if texture_rows.len() > 0 {
        let id = choose|id: u32| user.textures@.contains_key(id) && #[trigger] f5(id).len() > 0;
        assert(dma.textures.entries@.contains_key(id));
    }
}

/// When the check finds no conflict, every table that is shown for a flag is
/// empty (the sprite table, which lists the mod's sprites while its flag
/// looks at the mod's sprite sets, aside).
pub proof fn lemma_no_conflicts_means_empty_tables(
    user: IdData,
    dma: DmaData,
    pv_rows: Seq<ConflictRowModel>,
    pv_reservation_rows: Seq<ReservationRowModel>,
    module_rows: Seq<ConflictRowModel>,
    module_reservation_rows: Seq<ReservationRowModel>,
    costume_rows: Seq<ReservationRowModel>,
    cstm_item_rows: Seq<ConflictRowModel>,
    cstm_item_reservation_rows: Seq<ReservationRowModel>,
    spr_set_rows: Seq<ConflictRowModel>,
    aet_set_rows: Seq<ConflictRowModel>,
    aet_scene_rows: Seq<ConflictRowModel>,
    objset_rows: Seq<ConflictRowModel>,
    texture_rows: Seq<ConflictRowModel>,
)
    requires
        conflict_flags(user, dma).spec_none_found(),
        rows_in_key_order(user.pvs@, |id: u32| pv_rows_for(user.pvs@, dma.pvs, id), pv_rows),
        rows_in_key_order(
            user.pvs@,
            |id: u32| pv_reservation_rows_for(user.pvs@, dma.pvs, id),
            pv_reservation_rows,
        ),
        rows_in_key_order(
            user.modules@,
            |id: i32| module_rows_for(user.modules@, dma.modules, id),
            module_rows,
        ),
        rows_in_key_order(
            user.modules@,
            |id: i32| module_reservation_rows_for(user.modules@, dma.modules, id),
            module_reservation_rows,
        ),
        rows_in_key_order(
            user.modules@,
            |id: i32| costume_reservation_rows_for(user.modules@, dma.modules, id),
            costume_rows,
        ),
        rows_in_key_order(
            user.cstm_items@,
            |id: i32| cstm_item_rows_for(user.cstm_items@, dma.cstm_items, id),
            cstm_item_rows,
        ),
        rows_in_key_order(
            user.cstm_items@,
            |id: i32| cstm_item_reservation_rows_for(user.cstm_items@, dma.cstm_items, id),
            cstm_item_reservation_rows,
        ),
        rows_in_key_order(user.spr_sets@, |id: u32| db_entry_rows_for(user.spr_sets@, dma.spr_sets, id), spr_set_rows),
        rows_in_key_order(user.aet_sets@, |id: u32| db_entry_rows_for(user.aet_sets@, dma.aet_sets, id), aet_set_rows),
        rows_in_key_order(
            user.aet_scenes@,
            |id: u32| db_entry_rows_for(user.aet_scenes@, dma.aet_scenes, id),
            aet_scene_rows,
        ),
        rows_in_key_order(user.objsets@, |id: u32| db_entry_rows_for(user.objsets@, dma.objsets, id), objset_rows),
        rows_in_key_order(
            user.textures@,
            |id: u32| db_entry_rows_for(user.textures@, dma.textures, id),
            texture_rows,
        ),
    ensures
        pv_rows.len() == 0,
        pv_reservation_rows.len() == 0,
        module_rows.len() == 0,
        module_reservation_rows.len() == 0,
        costume_rows.len() == 0,
        cstm_item_rows.len() == 0,
        cstm_item_reservation_rows.len() == 0,
        spr_set_rows.len() == 0,
        aet_set_rows.len() == 0,
        aet_scene_rows.len() == 0,
        objset_rows.len() == 0,
        texture_rows.len() == 0,
{
    if pv_rows.len() > 0 {
        lemma_pv_table_implies_flag(user, dma, pv_rows);
    }
    lemma_pv_reservation_table_matches_flag(user, dma, pv_reservation_rows);
    if module_rows.len() > 0 {
        lemma_module_table_implies_flag(user, dma, module_rows);
    }
    lemma_module_reservation_table_matches_flag(user, dma, module_reservation_rows);
    lemma_costume_reservation_table_matches_flag(user, dma, costume_rows);
    if cstm_item_rows.len() > 0 {
        lemma_cstm_item_table_implies_flag(user, dma, cstm_item_rows);
    }
    lemma_cstm_item_reservation_table_matches_flag(user, dma, cstm_item_reservation_rows);
    lemma_db_tables_imply_flags(user, dma, spr_set_rows, aet_set_rows, aet_scene_rows, objset_rows, texture_rows);
}

/// Every list of uploads or entries that the archive keeps under an id holds
/// at least one item.
pub open spec fn lists_nonempty<K, T>(m: Map<K, Vec<T>>) -> bool {
    forall|k: K| #[trigger] m.contains_key(k) ==> m[k]@.len() > 0
}

/// None of the archive's upload or entry lists is empty.
pub open spec fn no_empty_lists(dma: DmaData) -> bool {
    &&& lists_nonempty(dma.pvs.uploaded_pvs@)
    &&& lists_nonempty(dma.modules.uploaded_modules@)
    &&& lists_nonempty(dma.cstm_items.uploaded_cstm_items@)
    &&& lists_nonempty(dma.spr_sets.entries@)
    &&& lists_nonempty(dma.sprites.entries@)
    &&& lists_nonempty(dma.aet_sets.entries@)
    &&& lists_nonempty(dma.aet_scenes.entries@)
    &&& lists_nonempty(dma.objsets.entries@)
    &&& lists_nonempty(dma.textures.entries@)
}

/// When the archive keeps no empty upload list, the table of the mod's songs
/// that uploads also use has a row exactly when the song conflict is flagged.
pub proof fn lemma_pv_table_matches_flag(user: IdData, dma: DmaData, rows: Seq<ConflictRowModel>)
    requires
        lists_nonempty(dma.pvs.uploaded_pvs@),
        rows_in_key_order(user.pvs@, |id: u32| pv_rows_for(user.pvs@, dma.pvs, id), rows),
    ensures
        rows.len() > 0 <==> conflict_flags(user, dma).pv_conflicts,
{
    let f = |id: u32| pv_rows_for(user.pvs@, dma.pvs, id);
    lemma_rows_nonempty(user.pvs@, f, rows);
    if conflict_flags(user, dma).pv_conflicts {
        let id = choose|id: u32| user.pvs@.contains_key(id) && dma.pvs.uploaded_pvs@.contains_key(pv_key(id));
        assert(f(id).len() > 0);
    }
    if rows.len() > 0 {
        lemma_pv_table_implies_flag(user, dma, rows);
    }
}

/// When the archive keeps no empty upload list, the table of the mod's
/// modules that uploads also use has a row exactly when the module conflict
/// is flagged.
pub proof fn lemma_module_table_matches_flag(user: IdData, dma: DmaData, rows: Seq<ConflictRowModel>)
    requires
        lists_nonempty(dma.modules.uploaded_modules@),
        rows_in_key_order(user.modules@, |id: i32| module_rows_for(user.modules@, dma.modules, id), rows),
    ensures
        rows.len() > 0 <==> conflict_flags(user, dma).module_conflicts,
{
    let f = |id: i32| module_rows_for(user.modules@, dma.modules, id);
    lemma_rows_nonempty(user.modules@, f, rows);
    if conflict_flags(user, dma).module_conflicts {
        let id = choose|id: i32| user.modules@.contains_key(id) && dma.modules.uploaded_modules@.contains_key(id);
        assert(f(id).len() > 0);
    }
    if rows.len() > 0 {
        lemma_module_table_implies_flag(user, dma, rows);
    }
}

/// When the archive keeps no empty upload list, the table of the mod's
/// customize items that uploads also use has a row exactly when the customize
/// item conflict is flagged.
pub proof fn lemma_cstm_item_table_matches_flag(user: IdData, dma: DmaData, rows: Seq<ConflictRowModel>)
    requires
        lists_nonempty(dma.cstm_items.uploaded_cstm_items@),
        rows_in_key_order(
            user.cstm_items@,
            |id: i32| cstm_item_rows_for(user.cstm_items@, dma.cstm_items, id),
            rows,
        ),
    ensures
        rows.len() > 0 <==> conflict_flags(user, dma).cstm_item_conflicts,
{
    let f = |id: i32| cstm_item_rows_for(user.cstm_items@, dma.cstm_items, id);
    lemma_rows_nonempty(user.cstm_items@, f, rows);
    if conflict_flags(user, dma).cstm_item_conflicts {
        let id = choose|id: i32|
            user.cstm_items@.contains_key(id) && dma.cstm_items.uploaded_cstm_items@.contains_key(id);
        assert(f(id).len() > 0);
    }
    if rows.len() > 0 {
        lemma_cstm_item_table_implies_flag(user, dma, rows);
    }
}

/// When the archive keeps no empty entry list, a table of the mod's database
/// ids of one kind has a row exactly when some of those ids are the archive's.
pub proof fn lemma_db_table_matches_shared_ids(
    names: BTreeMap<u32, String>,
    entries: AllDbEntries,
    rows: Seq<ConflictRowModel>,
)
    requires
        lists_nonempty(entries.entries@),
        rows_in_key_order(names@, |id: u32| db_entry_rows_for(names@, entries, id), rows),
    ensures
        rows.len() > 0 <==> shares_key(names@, entries.entries@),
{
    let f = |id: u32| db_entry_rows_for(names@, entries, id);
    lemma_rows_nonempty(names@, f, rows);
    if shares_key(names@, entries.entries@) {
        let id = choose|id: u32| names@.contains_key(id) && entries.entries@.contains_key(id);
        assert(f(id).len() > 0);
    }
    if rows.len() > 0 {
        let id = choose|id: u32| names@.contains_key(id) && #[trigger] f(id).len() > 0;
        assert(entries.entries@.contains_key(id));
    }
}

/// When the archive keeps no empty list, each flag of the check is set exactly
/// when its table has a row, for every table but the sprite table (whose flag
/// looks at the mod's sprite sets while the table lists the mod's sprites).
pub proof fn lemma_flags_match_tables(
    user: IdData,
    dma: DmaData,
    pv_rows: Seq<ConflictRowModel>,
    pv_reservation_rows: Seq<ReservationRowModel>,
    module_rows: Seq<ConflictRowModel>,
    module_reservation_rows: Seq<ReservationRowModel>,
    costume_rows: Seq<ReservationRowModel>,
    cstm_item_rows: Seq<ConflictRowModel>,
    cstm_item_reservation_rows: Seq<ReservationRowModel>,
    spr_set_rows: Seq<ConflictRowModel>,
    aet_set_rows: Seq<ConflictRowModel>,
    aet_scene_rows: Seq<ConflictRowModel>,
    objset_rows: Seq<ConflictRowModel>,
    texture_rows: Seq<ConflictRowModel>,
)
    requires
        no_empty_lists(dma),
        rows_in_key_order(user.pvs@, |id: u32| pv_rows_for(user.pvs@, dma.pvs, id), pv_rows),
        rows_in_key_order(
            user.pvs@,
            |id: u32| pv_reservation_rows_for(user.pvs@, dma.pvs, id),
            pv_reservation_rows,
        ),
        rows_in_key_order(
            user.modules@,
            |id: i32| module_rows_for(user.modules@, dma.modules, id),
            module_rows,
        ),
        rows_in_key_order(
            user.modules@,
            |id: i32| module_reservation_rows_for(user.modules@, dma.modules, id),
            module_reservation_rows,
        ),
        rows_in_key_order(
            user.modules@,
            |id: i32| costume_reservation_rows_for(user.modules@, dma.modules, id),
            costume_rows,
        ),
        rows_in_key_order(
            user.cstm_items@,
            |id: i32| cstm_item_rows_for(user.cstm_items@, dma.cstm_items, id),
            cstm_item_rows,
        ),
        rows_in_key_order(
            user.cstm_items@,
            |id: i32| cstm_item_reservation_rows_for(user.cstm_items@, dma.cstm_items, id),
            cstm_item_reservation_rows,
        ),
        rows_in_key_order(user.spr_sets@, |id: u32| db_entry_rows_for(user.spr_sets@, dma.spr_sets, id), spr_set_rows),
        rows_in_key_order(user.aet_sets@, |id: u32| db_entry_rows_for(user.aet_sets@, dma.aet_sets, id), aet_set_rows),
        rows_in_key_order(
            user.aet_scenes@,
            |id: u32| db_entry_rows_for(user.aet_scenes@, dma.aet_scenes, id),
            aet_scene_rows,
        ),
        rows_in_key_order(user.objsets@, |id: u32| db_entry_rows_for(user.objsets@, dma.objsets, id), objset_rows),
        rows_in_key_order(
            user.textures@,
            |id: u32| db_entry_rows_for(user.textures@, dma.textures, id),
            texture_rows,
        ),
    ensures
        conflict_flags(user, dma).pv_conflicts <==> pv_rows.len() > 0,
        conflict_flags(user, dma).pv_reservation_conflicts <==> pv_reservation_rows.len() > 0,
        conflict_flags(user, dma).module_conflicts <==> module_rows.len() > 0,
        conflict_flags(user, dma).module_reservation_conflicts <==> module_reservation_rows.len() > 0,
        conflict_flags(user, dma).module_cos_reservation_conflicts <==> costume_rows.len() > 0,
        conflict_flags(user, dma).cstm_item_conflicts <==> cstm_item_rows.len() > 0,
        conflict_flags(user, dma).cstm_item_reservation_conflicts <==> cstm_item_reservation_rows.len() > 0,
        conflict_flags(user, dma).spr_set_conflicts <==> spr_set_rows.len() > 0,
        conflict_flags(user, dma).aet_set_conflicts <==> aet_set_rows.len() > 0,
        conflict_flags(user, dma).aet_scene_conflicts <==> aet_scene_rows.len() > 0,
        conflict_flags(user, dma).objset_conflicts <==> objset_rows.len() > 0,
        conflict_flags(user, dma).texture_conflicts <==> texture_rows.len() > 0,
{
    lemma_pv_table_matches_flag(user, dma, pv_rows);
    lemma_pv_reservation_table_matches_flag(user, dma, pv_reservation_rows);
    lemma_module_table_matches_flag(user, dma, module_rows);
    lemma_module_reservation_table_matches_flag(user, dma, module_reservation_rows);
    lemma_costume_reservation_table_matches_flag(user, dma, costume_rows);
    lemma_cstm_item_table_matches_flag(user, dma, cstm_item_rows);
    lemma_cstm_item_reservation_table_matches_flag(user, dma, cstm_item_reservation_rows);
    lemma_db_table_matches_shared_ids(user.spr_sets, dma.spr_sets, spr_set_rows);
    lemma_db_table_matches_shared_ids(user.aet_sets, dma.aet_sets, aet_set_rows);
    lemma_db_table_matches_shared_ids(user.aet_scenes, dma.aet_scenes, aet_scene_rows);
    lemma_db_table_matches_shared_ids(user.objsets, dma.objsets, objset_rows);
    lemma_db_table_matches_shared_ids(user.textures, dma.textures, texture_rows);
}

/// After a mod folder has been read, and when the archive keeps no empty
/// list, "No conflicts found" is shown exactly when every table but the
/// sprite table is empty and the sprite conflict is not flagged.
pub proof fn lemma_no_conflicts_shown_iff_tables_empty(
    app: AppData,
    user: IdData,
    pv_rows: Seq<ConflictRowModel>,
    pv_reservation_rows: Seq<ReservationRowModel>,
    module_rows: Seq<ConflictRowModel>,
    module_reservation_rows: Seq<ReservationRowModel>,
    costume_rows: Seq<ReservationRowModel>,
    cstm_item_rows: Seq<ConflictRowModel>,
    cstm_item_reservation_rows: Seq<ReservationRowModel>,
    spr_set_rows: Seq<ConflictRowModel>,
    aet_set_rows: Seq<ConflictRowModel>,
    aet_scene_rows: Seq<ConflictRowModel>,
    objset_rows: Seq<ConflictRowModel>,
    texture_rows: Seq<ConflictRowModel>,
)
    requires
        app.user_data == Some(user),
        app.flags == conflict_flags(user, app.dma_data),
        no_empty_lists(app.dma_data),
        rows_in_key_order(user.pvs@, |id: u32| pv_rows_for(user.pvs@, app.dma_data.pvs, id), pv_rows),
        rows_in_key_order(
            user.pvs@,
            |id: u32| pv_reservation_rows_for(user.pvs@, app.dma_data.pvs, id),
            pv_reservation_rows,
        ),
        rows_in_key_order(
            user.modules@,
            |id: i32| module_rows_for(user.modules@, app.dma_data.modules, id),
            module_rows,
        ),
        rows_in_key_order(
            user.modules@,
            |id: i32| module_reservation_rows_for(user.modules@, app.dma_data.modules, id),
            module_reservation_rows,
        ),
        rows_in_key_order(
            user.modules@,
            |id: i32| costume_reservation_rows_for(user.modules@, app.dma_data.modules, id),
            costume_rows,
        ),
        rows_in_key_order(
            user.cstm_items@,
            |id: i32| cstm_item_rows_for(user.cstm_items@, app.dma_data.cstm_items, id),
            cstm_item_rows,
        ),
        rows_in_key_order(
            user.cstm_items@,
            |id: i32| cstm_item_reservation_rows_for(user.cstm_items@, app.dma_data.cstm_items, id),
            cstm_item_reservation_rows,
        ),
        rows_in_key_order(
            user.spr_sets@,
            |id: u32| db_entry_rows_for(user.spr_sets@, app.dma_data.spr_sets, id),
            spr_set_rows,
        ),
        rows_in_key_order(
            user.aet_sets@,
            |id: u32| db_entry_rows_for(user.aet_sets@, app.dma_data.aet_sets, id),
            aet_set_rows,
        ),
        rows_in_key_order(
            user.aet_scenes@,
            |id: u32| db_entry_rows_for(user.aet_scenes@, app.dma_data.aet_scenes, id),
            aet_scene_rows,
        ),
        rows_in_key_order(
            user.objsets@,
            |id: u32| db_entry_rows_for(user.objsets@, app.dma_data.objsets, id),
            objset_rows,
        ),
        rows_in_key_order(
            user.textures@,
            |id: u32| db_entry_rows_for(user.textures@, app.dma_data.textures, id),
            texture_rows,
        ),
    ensures
        (app.user_data is Some && app.flags.spec_none_found()) <==> {
            &&& pv_rows.len() == 0
            &&& pv_reservation_rows.len() == 0
            &&& module_rows.len() == 0
            &&& module_reservation_rows.len() == 0
            &&& costume_rows.len() == 0
            &&& cstm_item_rows.len() == 0
            &&& cstm_item_reservation_rows.len() == 0
            &&& spr_set_rows.len() == 0
            &&& aet_set_rows.len() == 0
            &&& aet_scene_rows.len() == 0
            &&& objset_rows.len() == 0
            &&& texture_rows.len() == 0
            &&& !app.flags.sprite_conflicts
        },
{
    lemma_flags_match_tables(
        user,
        app.dma_data,
        pv_rows,
        pv_reservation_rows,
        module_rows,
        module_reservation_rows,
        costume_rows,
        cstm_item_rows,
        cstm_item_reservation_rows,
        spr_set_rows,
        aet_set_rows,
        aet_scene_rows,
        objset_rows,
        texture_rows,
    );
}

} // verus!
