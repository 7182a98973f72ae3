use dma_conflicts::app_state::AppData;
use dma_conflicts::conflicts::ConflictFlags;
use dma_conflicts::mod_data::{IdData, PvEntry};
use dma_conflicts::models::{
    AllCstmItems, AllDbEntries, AllModules, AllPvs, CstmItemInfo, DmaData, MeilisearchDbEntry,
    ModuleInfo, Reservation, ReservationType,
};
use dma_conflicts::tables::db_entries::db_entry_rows;
use dma_conflicts::tables::modules::{costume_reservation_rows, module_conflict_rows, module_reservation_rows};
use dma_conflicts::tables::pvs::{pv_conflict_rows, pv_reservation_rows};
use std::collections::BTreeMap;

fn reservation(id: i32, user: i64, kind: ReservationType) -> Reservation {
    Reservation {
        id,
        user,
        reservation_type: kind,
        time: time::OffsetDateTime::UNIX_EPOCH,
        label: None,
    }
}

fn db(ids: &[u32]) -> AllDbEntries {
    let mut entries = BTreeMap::new();
    for id in ids {
        entries.insert(
            *id,
            vec![MeilisearchDbEntry { uid: 1, post_id: 1, id: *id, name: "x".to_string() }],
        );
    }
    AllDbEntries { entries, posts: BTreeMap::new() }
}

fn empty_dma() -> DmaData {
    DmaData {
        pvs: AllPvs {
            reserved_pvs: BTreeMap::new(),
            uploaded_pvs: BTreeMap::new(),
            users: BTreeMap::new(),
            posts: BTreeMap::new(),
        },
        modules: AllModules {
            reserved_modules: BTreeMap::new(),
            reserved_costumes: BTreeMap::new(),
            uploaded_modules: BTreeMap::new(),
            users: BTreeMap::new(),
            posts: BTreeMap::new(),
        },
        cstm_items: AllCstmItems {
            reserved_cstm_items: BTreeMap::new(),
            uploaded_cstm_items: BTreeMap::new(),
            users: BTreeMap::new(),
            posts: BTreeMap::new(),
        },
        spr_sets: db(&[]),
        sprites: db(&[]),
        aet_sets: db(&[]),
        aet_scenes: db(&[]),
        objsets: db(&[]),
        textures: db(&[]),
    }
}

fn module(chara: u32, cos_id: i32) -> ModuleInfo {
    ModuleInfo { name: None, name_en: Some("m".to_string()), name_jp: None, chara, cos_id }
}

fn pv(name: &str) -> PvEntry {
    PvEntry { song_name_en: name.to_string() }
}

#[test]
fn an_empty_mod_has_no_conflicts() {
    let flags = ConflictFlags::check(&IdData::new(), &empty_dma());
    assert!(flags.none_found());
}

#[test]
fn a_reserved_song_id_is_flagged() {
    let mut dma = empty_dma();
    dma.pvs.reserved_pvs.insert(900, reservation(900, 1, ReservationType::Song));
    let mut user = IdData::new();
    user.add_pv_db(vec![(900, pv("song"))]);
    let flags = ConflictFlags::check(&user, &dma);
    assert!(flags.pv_reservation_conflicts);
    assert!(!flags.pv_conflicts);
    assert!(!flags.none_found());
}

#[test]
fn song_ids_are_looked_up_as_signed_ids() {
    let mut dma = empty_dma();
    dma.pvs.uploaded_pvs.insert(-2147483648, vec![]);
    let mut user = IdData::new();
    user.add_pv_db(vec![(2147483648, pv("wrapped"))]);
    let flags = ConflictFlags::check(&user, &dma);
    assert!(flags.pv_conflicts);
}

#[test]
fn an_unused_id_is_not_flagged() {
    let mut dma = empty_dma();
    dma.modules.uploaded_modules.insert(5, vec![]);
    let mut user = IdData::new();
    user.add_module_db(vec![(6, module(0, 1))], vec![]);
    let flags = ConflictFlags::check(&user, &dma);
    assert!(!flags.module_conflicts);
    assert!(flags.none_found());
}

#[test]
fn module_and_item_conflicts_are_flagged() {
    let mut dma = empty_dma();
    dma.modules.uploaded_modules.insert(5, vec![]);
    dma.modules.reserved_modules.insert(6, reservation(6, 1, ReservationType::Module));
    dma.cstm_items.uploaded_cstm_items.insert(7, vec![]);
    dma.cstm_items.reserved_cstm_items.insert(8, reservation(8, 1, ReservationType::CstmItem));
    let mut user = IdData::new();
    let item = CstmItemInfo { name: None, name_en: None, name_jp: None };
    user.add_module_db(
        vec![(5, module(0, 1)), (6, module(0, 2))],
        vec![(7, item.clone()), (8, item)],
    );
    let flags = ConflictFlags::check(&user, &dma);
    assert!(flags.module_conflicts);
    assert!(flags.module_reservation_conflicts);
    assert!(flags.cstm_item_conflicts);
    assert!(flags.cstm_item_reservation_conflicts);
    assert!(!flags.module_cos_reservation_conflicts);
}

#[test]
fn a_reserved_costume_is_flagged_by_character_and_costume_id() {
    let mut dma = empty_dma();
    let mut costumes = BTreeMap::new();
    costumes.insert(3, reservation(3, 1, ReservationType::CosLuka));
    dma.modules.reserved_costumes.insert(3, costumes);
    let mut user = IdData::new();
    user.add_module_db(vec![(100, module(3, 4))], vec![]);
    assert!(!ConflictFlags::check(&user, &dma).module_cos_reservation_conflicts);
    user.add_module_db(vec![(101, module(3, 3))], vec![]);
    assert!(ConflictFlags::check(&user, &dma).module_cos_reservation_conflicts);
    let mut other = IdData::new();
    other.add_module_db(vec![(101, module(2, 3))], vec![]);
    assert!(!ConflictFlags::check(&other, &dma).module_cos_reservation_conflicts);
}

#[test]
fn sprite_conflicts_are_checked_with_the_sprite_set_ids() {
    let mut dma = empty_dma();
    dma.sprites = db(&[42]);
    let mut user = IdData::new();
    user.add_obj_db(vec![(42, "objset".to_string())]);
    user.add_tex_db(vec![(42, "texture".to_string())]);
    let flags = ConflictFlags::check(&user, &dma);
    assert!(!flags.sprite_conflicts);
    user.add_spr_db(vec![dma_conflicts::mod_data::SprSetNames {
        id: 42,
        name: "set".to_string(),
        sprites: vec![],
        textures: vec![],
    }]);
    let flags = ConflictFlags::check(&user, &dma);
    assert!(flags.sprite_conflicts);
    assert!(!flags.spr_set_conflicts);
}

#[test]
fn database_conflicts_are_flagged_per_kind() {
    let mut dma = empty_dma();
    dma.spr_sets = db(&[1]);
    dma.aet_sets = db(&[2]);
    dma.aet_scenes = db(&[3]);
    dma.objsets = db(&[4]);
    dma.textures = db(&[5]);
    let mut user = IdData::new();
    user.add_spr_db(vec![dma_conflicts::mod_data::SprSetNames {
        id: 1,
        name: "s".to_string(),
        sprites: vec![],
        textures: vec![],
    }]);
    user.add_aet_db(vec![dma_conflicts::mod_data::AetSetNames {
        id: 2,
        name: "a".to_string(),
        scenes: vec![(3, "scene".to_string())],
    }]);
    user.add_obj_db(vec![(4, "o".to_string())]);
    user.add_tex_db(vec![(5, "t".to_string())]);
    let flags = ConflictFlags::check(&user, &dma);
    assert!(flags.spr_set_conflicts);
    assert!(flags.aet_set_conflicts);
    assert!(flags.aet_scene_conflicts);
    assert!(flags.objset_conflicts);
    assert!(flags.texture_conflicts);
    assert!(!flags.none_found());
}

#[test]
fn a_folder_that_could_not_be_read_keeps_the_earlier_flags() {
    let mut dma = empty_dma();
    dma.objsets = db(&[4]);
    let mut app = AppData::new(dma);
    assert!(!app.shows_no_conflicts());
    let mut user = IdData::new();
    user.add_obj_db(vec![(4, "o".to_string())]);
    app.folder_read(Some(user));
    assert!(app.flags.objset_conflicts);
    assert!(!app.shows_no_conflicts());
    app.folder_read(None);
    assert!(app.user_data.is_none());
    assert!(app.flags.objset_conflicts);
    assert!(!app.shows_no_conflicts());
    app.folder_read(Some(IdData::new()));
    assert!(!app.flags.objset_conflicts);
    assert!(app.shows_no_conflicts());
}

#[test]
fn reservation_tables_have_rows_exactly_when_flagged() {
    let mut dma = empty_dma();
    dma.pvs.reserved_pvs.insert(900, reservation(900, 1, ReservationType::Song));
    dma.modules.reserved_modules.insert(6, reservation(6, 1, ReservationType::Module));
    let mut user = IdData::new();
    user.add_pv_db(vec![(901, pv("song"))]);
    user.add_module_db(vec![(6, module(0, 2))], vec![]);
    let flags = ConflictFlags::check(&user, &dma);
    assert_eq!(pv_reservation_rows(&user.pvs, &dma.pvs).is_empty(), !flags.pv_reservation_conflicts);
    assert_eq!(
        module_reservation_rows(&user.modules, &dma.modules).is_empty(),
        !flags.module_reservation_conflicts
    );
    assert_eq!(
        costume_reservation_rows(&user.modules, &dma.modules).is_empty(),
        !flags.module_cos_reservation_conflicts
    );
    assert!(flags.module_reservation_conflicts);
    assert!(!flags.pv_reservation_conflicts);
}

#[test]
fn no_conflicts_means_every_table_is_empty() {
    let mut dma = empty_dma();
    dma.objsets = db(&[4]);
    dma.modules.uploaded_modules.insert(5, vec![]);
    let mut user = IdData::new();
    user.add_obj_db(vec![(3, "o".to_string())]);
    user.add_module_db(vec![(6, module(0, 1))], vec![]);
    user.add_pv_db(vec![(5, pv("p"))]);
    let flags = ConflictFlags::check(&user, &dma);
    assert!(flags.none_found());
    assert!(db_entry_rows(&user.objsets, &dma.objsets).is_empty());
    assert!(module_conflict_rows(&user.modules, &dma.modules).is_empty());
    assert!(pv_conflict_rows(&user.pvs, &dma.pvs).is_empty());
}

#[test]
fn an_upload_list_that_is_empty_is_flagged_but_gives_no_rows() {
    let mut dma = empty_dma();
    dma.modules.uploaded_modules.insert(5, vec![]);
    let mut user = IdData::new();
    user.add_module_db(vec![(5, module(0, 1))], vec![]);
    assert!(ConflictFlags::check(&user, &dma).module_conflicts);
    assert!(module_conflict_rows(&user.modules, &dma.modules).is_empty());
}

#[test]
fn with_no_empty_upload_list_the_upload_tables_match_their_flags() {
    let mut dma = empty_dma();
    dma.modules.uploaded_modules.insert(
        5,
        vec![dma_conflicts::models::Module {
            uid: String::new(),
            post: None,
            id: 5,
            module: module(0, 1),
        }],
    );
    dma.objsets = db(&[4]);
    let mut user = IdData::new();
    user.add_module_db(vec![(5, module(0, 1))], vec![]);
    user.add_obj_db(vec![(4, "o".to_string())]);
    let flags = ConflictFlags::check(&user, &dma);
    assert!(flags.module_conflicts && !module_conflict_rows(&user.modules, &dma.modules).is_empty());
    assert!(flags.objset_conflicts && !db_entry_rows(&user.objsets, &dma.objsets).is_empty());
    assert!(!flags.pv_conflicts && pv_conflict_rows(&user.pvs, &dma.pvs).is_empty());
}
