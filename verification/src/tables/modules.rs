use vstd::prelude::*;
use std::collections::BTreeMap;
use vstd::std_specs::iter::IteratorSpec;
use crate::models::{AllModules, Module, ModuleInfo};
use crate::order::{
    count_sum, entry_keys, lemma_entries_list_keys_in_order, lemma_map_contains, lemma_rows_done,
    lemma_rows_exact, lemma_rows_step, lists_keys_in_order, rows_in_key_order,
};
use super::{
    conflict_models, module_name, optional_text, post_source, reservation_models, reservation_row,
    reservation_row_of, source_of, upload_row, ConflictRow, ConflictRowModel, ReservationRow,
    ReservationRowModel,
};

verus! {

/// The row for a module of the mod that an upload of the archive also uses.
pub open spec fn module_row(id: i32, module: ModuleInfo, upload: Module, dma: AllModules) -> ConflictRowModel {
    upload_row(id as int, module_name(module), module_name(upload.module), upload.post, dma.posts@)
}

/// The rows for one module id of the mod: one for each upload of the archive
/// under that id.
pub open spec fn module_rows_for(modules: Map<i32, ModuleInfo>, dma: AllModules, id: i32) -> Seq<
    ConflictRowModel,
> {
    if dma.uploaded_modules@.contains_key(id) {
        dma.uploaded_modules@[id]@.map_values(|m: Module| module_row(id, modules[id], m, dma))
    } else {
        Seq::empty()
    }
}

/// The rows for one module id of the mod: one if the archive has that id
/// reserved, none otherwise.
pub open spec fn module_reservation_rows_for(
    modules: Map<i32, ModuleInfo>,
    dma: AllModules,
    id: i32,
) -> Seq<ReservationRowModel> {
    if dma.reserved_modules@.contains_key(id) {
        seq![
            reservation_row(
                id as int,
                module_name(modules[id]),
                dma.reserved_modules@[id],
                dma.users@,
            ),
        ]
    } else {
        Seq::empty()
    }
}

/// The rows for one module id of the mod: one if the archive has the
/// module's costume (the costume id of the module's character) reserved,
/// none otherwise.
pub open spec fn costume_reservation_rows_for(
    modules: Map<i32, ModuleInfo>,
    dma: AllModules,
    id: i32,
) -> Seq<ReservationRowModel> {
    let m = modules[id];
    let costumes = dma.reserved_costumes@;
    if costumes.contains_key(m.chara) && costumes[m.chara]@.contains_key(m.cos_id) {
        seq![
            reservation_row(
                id as int,
                module_name(m),
                costumes[m.chara]@[m.cos_id],
                dma.users@,
            ),
        ]
    } else {
        Seq::empty()
    }
}

/// The table of the mod's modules whose ids uploads of the archive also use:
/// for each module id of the mod in increasing order, a row for each such
/// upload.
pub fn module_conflict_rows(modules: &BTreeMap<i32, ModuleInfo>, dma: &AllModules) -> (rows: Vec<
    ConflictRow,
>)
    ensures
        rows_in_key_order(
            modules@,
            |id: i32| module_rows_for(modules@, *dma, id),
            conflict_models(rows@),
        ),
{
    let ghost f = |id: i32| module_rows_for(modules@, *dma, id);
    let mut rows: Vec<ConflictRow> = Vec::new();
    let iter = modules.iter();
    let ghost es = iter.remaining();
    let ghost keys = entry_keys(es);
    proof {
        lemma_entries_list_keys_in_order(modules@, es);
    }
    for (id, module) in it: iter
        invariant
            it.seq() == es,
            es == modules.iter().remaining(),
            keys == entry_keys(es),
            f == (|id: i32| module_rows_for(modules@, *dma, id)),
            conflict_models(rows@) == keys.take(it.index()).map_values(f).flatten_alt(),
    {
        let ghost i = it.index();
        let ghost before = conflict_models(rows@);
        proof {
            lemma_rows_step(keys, f, i);
        }
        assert(it.seq()[i] == (id, module));
        assert(keys[i] == *id);
        assert(modules@.contains_key(*id) && modules@[*id] == *module);
        match dma.uploaded_modules.get(id) {
            Some(uploads) => {
                let ghost g = |m: Module| module_row(*id, *module, m, *dma);
                let name = module.display_name();
                let mut j: usize = 0;
                while j < uploads.len()
                    invariant
                        j <= uploads.len(),
                        g == (|m: Module| module_row(*id, *module, m, *dma)),
                        name@ == module_name(*module),
                        conflict_models(rows@) == before + uploads@.take(j as int).map_values(g),
                    decreases uploads.len() - j,
                {
                    let upload = &uploads[j];
                    let ghost done = conflict_models(rows@);
                    let row = ConflictRow {
                        id: *id as i64,
                        name: name.clone(),
                        conflict_name: upload.module.display_name(),
                        source: source_of(upload.post, &dma.posts),
                    };
                    rows.push(row);
                    assert(conflict_models(rows@) =~= done.push(g(*upload)));
                    assert(uploads@.take(j + 1).map_values(g) =~= uploads@.take(j as int).map_values(
                        g,
                    ).push(g(*upload)));
                    j += 1;
                }
                assert(uploads@.take(uploads@.len() as int).map_values(g) =~= f(keys[i]));
            },
            None => {},
        }
        assert(conflict_models(rows@) =~= before + f(keys[i]));
    }
    proof {
        lemma_rows_done(keys, modules@, f, conflict_models(rows@));
    }
    rows
}

/// The table of the mod's modules whose ids the archive has reserved: for
/// each module id of the mod in increasing order, a row if that id is
/// reserved.
pub fn module_reservation_rows(modules: &BTreeMap<i32, ModuleInfo>, dma: &AllModules) -> (rows: Vec<
    ReservationRow,
>)
    ensures
        rows_in_key_order(
            modules@,
            |id: i32| module_reservation_rows_for(modules@, *dma, id),
            reservation_models(rows@),
        ),
{
    let ghost f = |id: i32| module_reservation_rows_for(modules@, *dma, id);
    let mut rows: Vec<ReservationRow> = Vec::new();
    let iter = modules.iter();
    let ghost es = iter.remaining();
    let ghost keys = entry_keys(es);
    proof {
        lemma_entries_list_keys_in_order(modules@, es);
    }
    for (id, module) in it: iter
        invariant
            it.seq() == es,
            es == modules.iter().remaining(),
            keys == entry_keys(es),
            f == (|id: i32| module_reservation_rows_for(modules@, *dma, id)),
            reservation_models(rows@) == keys.take(it.index()).map_values(f).flatten_alt(),
    {
        let ghost i = it.index();
        let ghost before = reservation_models(rows@);
        proof {
            lemma_rows_step(keys, f, i);
        }
        assert(it.seq()[i] == (id, module));
        assert(keys[i] == *id);
        assert(modules@.contains_key(*id) && modules@[*id] == *module);
        match dma.reserved_modules.get(id) {
            Some(reservation) => {
                let row = reservation_row_of(
                    *id as i64,
                    module.display_name(),
                    reservation,
                    &dma.users,
                );
                rows.push(row);
            },
            None => {},
        }
        assert(reservation_models(rows@) =~= before + f(keys[i]));
    }
    proof {
        lemma_rows_done(keys, modules@, f, reservation_models(rows@));
    }
    rows
}

/// The table of the mod's modules whose costumes the archive has reserved:
/// for each module id of the mod in increasing order, a row if the costume
/// id of the module's character is reserved.
pub fn costume_reservation_rows(modules: &BTreeMap<i32, ModuleInfo>, dma: &AllModules) -> (rows:
    Vec<ReservationRow>)
    ensures
        rows_in_key_order(
            modules@,
            |id: i32| costume_reservation_rows_for(modules@, *dma, id),
            reservation_models(rows@),
        ),
{
    let ghost f = |id: i32| costume_reservation_rows_for(modules@, *dma, id);
    let mut rows: Vec<ReservationRow> = Vec::new();
    let iter = modules.iter();
    let ghost es = iter.remaining();
    let ghost keys = entry_keys(es);
    proof {
        lemma_entries_list_keys_in_order(modules@, es);
    }
    for (id, module) in it: iter
        invariant
            it.seq() == es,
            es == modules.iter().remaining(),
            keys == entry_keys(es),
            f == (|id: i32| costume_reservation_rows_for(modules@, *dma, id)),
            reservation_models(rows@) == keys.take(it.index()).map_values(f).flatten_alt(),
    {
        let ghost i = it.index();
        let ghost before = reservation_models(rows@);
        proof {
            lemma_rows_step(keys, f, i);
        }
        assert(it.seq()[i] == (id, module));
        assert(keys[i] == *id);
        assert(modules@.contains_key(*id) && modules@[*id] == *module);
        match dma.reserved_costumes.get(&module.chara) {
            Some(reserved) => match reserved.get(&module.cos_id) {
                Some(reservation) => {
                    let row = reservation_row_of(
                        *id as i64,
                        module.display_name(),
                        reservation,
                        &dma.users,
                    );
                    rows.push(row);
                },
                None => {},
            },
            None => {},
        }
        assert(reservation_models(rows@) =~= before + f(keys[i]));
    }
    proof {
        lemma_rows_done(keys, modules@, f, reservation_models(rows@));
    }
    rows
}

/// The module table lists each upload of the archive under a module id of
/// the mod exactly once: it has as many rows as the archive has uploads under
/// the mod's module ids, and a row is in it exactly when it names such an id,
/// the mod's name for it, the upload's name and the upload's source.
pub proof fn lemma_module_table_rows(
    modules: Map<i32, ModuleInfo>,
    dma: AllModules,
    rows: Seq<ConflictRowModel>,
)
    requires
        rows_in_key_order(modules, |id: i32| module_rows_for(modules, dma, id), rows),
    ensures
        exists|keys: Seq<i32>|
            lists_keys_in_order(keys, modules) && rows.len() == count_sum(
                keys,
                |id: i32|
                    if dma.uploaded_modules@.contains_key(id) {
                        dma.uploaded_modules@[id]@.len()
                    } else {
                        0nat
                    },
            ),
        forall|r: ConflictRowModel|
            rows.contains(r) <==> exists|id: i32, j: int|
                #![trigger dma.uploaded_modules@[id]@[j]]
                modules.contains_key(id) && dma.uploaded_modules@.contains_key(id) && 0 <= j
                    < dma.uploaded_modules@[id]@.len() && r == (ConflictRowModel {
                    id: id as int,
                    name: module_name(modules[id]),
                    conflict_name: module_name(dma.uploaded_modules@[id]@[j].module),
                    source: post_source(dma.uploaded_modules@[id]@[j].post, dma.posts@),
                }),
{
    let ups = dma.uploaded_modules@;
    let f = |id: i32| module_rows_for(modules, dma, id);
    let count = |id: i32|
        if ups.contains_key(id) {
            ups[id]@.len()
        } else {
            0nat
        };
    let member = |id: i32, r: ConflictRowModel|
        ups.contains_key(id) && exists|j: int|
            0 <= j < ups[id]@.len() && r == module_row(id, modules[id], #[trigger] ups[id]@[j], dma);
    assert forall|k: i32, r: ConflictRowModel| #[trigger] f(k).contains(r) <==> member(k, r) by {
        if ups.contains_key(k) {
            lemma_map_contains(ups[k]@, |m: Module| module_row(k, modules[k], m, dma), r);
        }
    };
    lemma_rows_exact(modules, f, rows, count, member);
    assert forall|r: ConflictRowModel|
        rows.contains(r) <==> exists|id: i32, j: int|
            #![trigger ups[id]@[j]]
            modules.contains_key(id) && ups.contains_key(id) && 0 <= j < ups[id]@.len() && r == (
            ConflictRowModel {
                id: id as int,
                name: module_name(modules[id]),
                conflict_name: module_name(ups[id]@[j].module),
                source: post_source(ups[id]@[j].post, dma.posts@),
            }) by {
        if rows.contains(r) {
            let k = choose|k: i32| modules.contains_key(k) && #[trigger] member(k, r);
            let j = choose|j: int|
                0 <= j < ups[k]@.len() && r == module_row(k, modules[k], #[trigger] ups[k]@[j], dma);
            assert(ups[k]@[j] == ups[k]@[j]);
        }
        if exists|id: i32, j: int|
            #![trigger ups[id]@[j]]
            modules.contains_key(id) && ups.contains_key(id) && 0 <= j < ups[id]@.len() && r == (
            ConflictRowModel {
                id: id as int,
                name: module_name(modules[id]),
                conflict_name: module_name(ups[id]@[j].module),
                source: post_source(ups[id]@[j].post, dma.posts@),
            }) {
            let (k, j) = choose|id: i32, j: int|
                #![trigger ups[id]@[j]]
                modules.contains_key(id) && ups.contains_key(id) && 0 <= j < ups[id]@.len() && r == (
                ConflictRowModel {
                    id: id as int,
                    name: module_name(modules[id]),
                    conflict_name: module_name(ups[id]@[j].module),
                    source: post_source(ups[id]@[j].post, dma.posts@),
                });
            assert(member(k, r));
        }
    };
}

/// The module reservation table has one row for each module id of the mod
/// that the archive has reserved, and a row is in it exactly when it names
/// such an id, the mod's name for it, the reservation's label and, as holder,
/// the display name of the reservation's user when the archive lists that
/// user (none otherwise).
pub proof fn lemma_module_reservation_table_rows(
    modules: Map<i32, ModuleInfo>,
    dma: AllModules,
    rows: Seq<ReservationRowModel>,
)
    requires
        rows_in_key_order(modules, |id: i32| module_reservation_rows_for(modules, dma, id), rows),
    ensures
        exists|keys: Seq<i32>|
            lists_keys_in_order(keys, modules) && rows.len() == count_sum(
                keys,
                |id: i32|
                    if dma.reserved_modules@.contains_key(id) {
                        1nat
                    } else {
                        0nat
                    },
            ),
        forall|r: ReservationRowModel|
            rows.contains(r) <==> exists|id: i32|
                modules.contains_key(id) && dma.reserved_modules@.contains_key(id) && r == (
                ReservationRowModel {
                    id: id as int,
                    name: module_name(modules[id]),
                    label: optional_text(#[trigger] dma.reserved_modules@[id].label),
                    holder: if dma.users@.contains_key(dma.reserved_modules@[id].user) {
                        Some(dma.users@[dma.reserved_modules@[id].user].display_name@)
                    } else {
                        None
                    },
                }),
{
    let res = dma.reserved_modules@;
    let f = |id: i32| module_reservation_rows_for(modules, dma, id);
    let count = |id: i32|
        if res.contains_key(id) {
            1nat
        } else {
            0nat
        };
    let member = |id: i32, r: ReservationRowModel|
        res.contains_key(id) && r == reservation_row(id as int, module_name(modules[id]), res[id], dma.users@);
    assert forall|k: i32, r: ReservationRowModel| #[trigger] f(k).contains(r) <==> member(k, r) by {
        if res.contains_key(k) {
            assert(f(k)[0] == reservation_row(k as int, module_name(modules[k]), res[k], dma.users@));
        }
    };
    lemma_rows_exact(modules, f, rows, count, member);
    assert forall|r: ReservationRowModel|
        rows.contains(r) <==> exists|id: i32|
            modules.contains_key(id) && res.contains_key(id) && r == (ReservationRowModel {
                id: id as int,
                name: module_name(modules[id]),
                label: optional_text(#[trigger] res[id].label),
                holder: if dma.users@.contains_key(res[id].user) {
                    Some(dma.users@[res[id].user].display_name@)
                } else {
                    None
                },
            }) by {
        if rows.contains(r) {
            let k = choose|k: i32| modules.contains_key(k) && #[trigger] member(k, r);
            assert(res[k].label == res[k].label);
        } else {
            assert forall|k: i32| modules.contains_key(k) && res.contains_key(k) implies r != (
            ReservationRowModel {
                id: k as int,
                name: module_name(modules[k]),
                label: optional_text(#[trigger] res[k].label),
                holder: if dma.users@.contains_key(res[k].user) {
                    Some(dma.users@[res[k].user].display_name@)
                } else {
                    None
                },
            }) by {
                assert(!member(k, r));
            };
        }
    };
}

/// The costume reservation table has one row for each module of the mod
/// whose costume (its character's costume id) the archive has reserved, and
/// a row is in it exactly when it names such a module's id, the mod's name
/// for it, the reservation's label and, as holder, the display name of the
/// reservation's user when the archive lists that user (none otherwise).
pub proof fn lemma_costume_reservation_table_rows(
    modules: Map<i32, ModuleInfo>,
    dma: AllModules,
    rows: Seq<ReservationRowModel>,
)
    requires
        rows_in_key_order(modules, |id: i32| costume_reservation_rows_for(modules, dma, id), rows),
    ensures
        exists|keys: Seq<i32>|
            lists_keys_in_order(keys, modules) && rows.len() == count_sum(
                keys,
                |id: i32|
                    if dma.reserved_costumes@.contains_key(modules[id].chara)
                        && dma.reserved_costumes@[modules[id].chara]@.contains_key(modules[id].cos_id) {
                        1nat
                    } else {
                        0nat
                    },
            ),
        forall|r: ReservationRowModel|
            rows.contains(r) <==> exists|id: i32|
                #![trigger modules[id]]
                modules.contains_key(id) && dma.reserved_costumes@.contains_key(modules[id].chara)
                    && dma.reserved_costumes@[modules[id].chara]@.contains_key(modules[id].cos_id)
                    && r == (ReservationRowModel {
                    id: id as int,
                    name: module_name(modules[id]),
                    label: optional_text(
                        dma.reserved_costumes@[modules[id].chara]@[modules[id].cos_id].label,
                    ),
                    holder: if dma.users@.contains_key(
                        dma.reserved_costumes@[modules[id].chara]@[modules[id].cos_id].user,
                    ) {
                        Some(
                            dma.users@[dma.reserved_costumes@[modules[id].chara]@[modules[id].cos_id].user].display_name@,
                        )
                    } else {
                        None
                    },
                }),
{
    let cos = dma.reserved_costumes@;
    let f = |id: i32| costume_reservation_rows_for(modules, dma, id);
    let count = |id: i32|
        if cos.contains_key(modules[id].chara) && cos[modules[id].chara]@.contains_key(modules[id].cos_id) {
            1nat
        } else {
            0nat
        };
    let member = |id: i32, r: ReservationRowModel|
        cos.contains_key(modules[id].chara) && cos[modules[id].chara]@.contains_key(modules[id].cos_id)
            && r == reservation_row(
            id as int,
            module_name(modules[id]),
            cos[modules[id].chara]@[modules[id].cos_id],
            dma.users@,
        );
    assert forall|k: i32, r: ReservationRowModel| #[trigger] f(k).contains(r) <==> member(k, r) by {
        let m = modules[k];
        if cos.contains_key(m.chara) && cos[m.chara]@.contains_key(m.cos_id) {
            assert(f(k)[0] == reservation_row(k as int, module_name(m), cos[m.chara]@[m.cos_id], dma.users@));
        }
    };
    lemma_rows_exact(modules, f, rows, count, member);
    assert forall|r: ReservationRowModel|
        rows.contains(r) <==> exists|id: i32|
            #![trigger modules[id]]
            modules.contains_key(id) && cos.contains_key(modules[id].chara)
                && cos[modules[id].chara]@.contains_key(modules[id].cos_id) && r == (
            ReservationRowModel {
                id: id as int,
                name: module_name(modules[id]),
                label: optional_text(cos[modules[id].chara]@[modules[id].cos_id].label),
                holder: if dma.users@.contains_key(cos[modules[id].chara]@[modules[id].cos_id].user) {
                    Some(dma.users@[cos[modules[id].chara]@[modules[id].cos_id].user].display_name@)
                } else {
                    None
                },
            }) by {
        if rows.contains(r) {
            let k = choose|k: i32| modules.contains_key(k) && #[trigger] member(k, r);
            assert(modules[k] == modules[k]);
        } else {
            assert forall|k: i32|
                modules.contains_key(k) && cos.contains_key(#[trigger] modules[k].chara)
                    && cos[modules[k].chara]@.contains_key(modules[k].cos_id) implies r != (
            ReservationRowModel {
                id: k as int,
                name: module_name(modules[k]),
                label: optional_text(cos[modules[k].chara]@[modules[k].cos_id].label),
                holder: if dma.users@.contains_key(cos[modules[k].chara]@[modules[k].cos_id].user) {
                    Some(dma.users@[cos[modules[k].chara]@[modules[k].cos_id].user].display_name@)
                } else {
                    None
                },
            }) by {
                assert(!member(k, r));
            };
        }
    };
}

} // verus!
