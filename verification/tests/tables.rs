use dma_conflicts::models::{
    AllCstmItems, AllDbEntries, AllModules, AllPvs, CstmItem, CstmItemInfo, MeilisearchDbEntry,
    Module, ModuleInfo, Post, PostType, Pv, Reservation, ReservationType, User,
};
use dma_conflicts::mod_data::PvEntry;
use dma_conflicts::tables::cstm_items::{cstm_item_conflict_rows, cstm_item_reservation_rows};
use dma_conflicts::tables::db_entries::db_entry_rows;
use dma_conflicts::tables::modules::{
    costume_reservation_rows, module_conflict_rows, module_reservation_rows,
};
use dma_conflicts::tables::pvs::{pv_conflict_rows, pv_reservation_rows};
use dma_conflicts::tables::{ConflictSource, ReservationRow};
use std::collections::BTreeMap;

fn post(id: i32, name: &str) -> Post {
    Post {
        id,
        name: name.to_string(),
        text: String::new(),
        images: vec![],
        files: vec![],
        time: time::OffsetDateTime::UNIX_EPOCH,
        post_type: PostType::Song,
        download_count: 0,
        like_count: 0,
        authors: vec![],
        dependencies: None,
        dependency_descriptions: None,
        local_files: vec![],
        private: false,
        explicit: false,
        explicit_reason: None,
    }
}

fn user(id: i64, display_name: &str) -> User {
    User {
        id,
        name: String::new(),
        avatar: String::new(),
        display_name: display_name.to_string(),
    }
}

fn reservation(id: i32, holder: i64, label: Option<&str>) -> Reservation {
    Reservation {
        id,
        user: holder,
        reservation_type: ReservationType::Song,
        time: time::OffsetDateTime::UNIX_EPOCH,
        label: label.map(|l| l.to_string()),
    }
}

fn upload(id: i32, name_en: &str, post: Option<i32>) -> Pv {
    Pv { uid: String::new(), post, id, name: String::new(), name_en: name_en.to_string() }
}

fn source_text(s: &ConflictSource) -> String {
    match s {
        ConflictSource::Post { id, name } => format!("{name} ({id})"),
        ConflictSource::Unknown => "Unknown".to_string(),
        ConflictSource::BaseGame => "MM+".to_string(),
    }
}

fn names(en: Option<&str>, name: Option<&str>, jp: Option<&str>) -> (Option<String>, Option<String>, Option<String>) {
    (en.map(|s| s.to_string()), name.map(|s| s.to_string()), jp.map(|s| s.to_string()))
}

fn module_info(en: Option<&str>, name: Option<&str>, jp: Option<&str>, chara: u32, cos_id: i32) -> ModuleInfo {
    let (name_en, name, name_jp) = names(en, name, jp);
    ModuleInfo { name, name_en, name_jp, chara, cos_id }
}

fn item_info(en: Option<&str>, name: Option<&str>, jp: Option<&str>) -> CstmItemInfo {
    let (name_en, name, name_jp) = names(en, name, jp);
    CstmItemInfo { name, name_en, name_jp }
}

fn song_data() -> AllPvs {
    let mut uploaded = BTreeMap::new();
    uploaded.insert(10, vec![upload(10, "Ten A", Some(1)), upload(10, "Ten B", Some(2))]);
    uploaded.insert(20, vec![upload(20, "Twenty", None)]);
    uploaded.insert(30, vec![]);
    let mut posts = BTreeMap::new();
    posts.insert(1, post(1, "First post"));
    let mut reserved = BTreeMap::new();
    reserved.insert(20, reservation(20, 5, Some("for later")));
    reserved.insert(10, reservation(10, 6, None));
    let mut users = BTreeMap::new();
    users.insert(5, user(5, "Holder"));
    AllPvs { reserved_pvs: reserved, uploaded_pvs: uploaded, users, posts }
}

fn mod_songs() -> BTreeMap<u32, PvEntry> {
    let mut pvs = BTreeMap::new();
    pvs.insert(20, PvEntry { song_name_en: "My twenty".to_string() });
    pvs.insert(10, PvEntry { song_name_en: "My ten".to_string() });
    pvs.insert(30, PvEntry { song_name_en: "My thirty".to_string() });
    pvs.insert(40, PvEntry { song_name_en: "My forty".to_string() });
    pvs
}

#[test]
fn song_rows_come_in_id_order_with_one_row_per_upload() {
    let rows = pv_conflict_rows(&mod_songs(), &song_data());
    let shown: Vec<(i64, String, String, String)> = rows
        .iter()
        .map(|r| (r.id, r.name.clone(), r.conflict_name.clone(), source_text(&r.source)))
        .collect();
    assert_eq!(
        shown,
        vec![
            (10, "My ten".to_string(), "Ten A".to_string(), "First post (1)".to_string()),
            (10, "My ten".to_string(), "Ten B".to_string(), "Unknown".to_string()),
            (20, "My twenty".to_string(), "Twenty".to_string(), "MM+".to_string()),
        ]
    );
}

fn reservation_text(r: &ReservationRow) -> (i64, String, Option<String>, Option<String>) {
    (r.id, r.name.clone(), r.label.clone(), r.holder.clone())
}

#[test]
fn song_reservation_rows_name_the_holder_or_leave_it_unknown() {
    let rows = pv_reservation_rows(&mod_songs(), &song_data());
    let shown: Vec<_> = rows.iter().map(reservation_text).collect();
    assert_eq!(
        shown,
        vec![
            (10, "My ten".to_string(), None, None),
            (20, "My twenty".to_string(), Some("for later".to_string()), Some("Holder".to_string())),
        ]
    );
}

#[test]
fn song_ids_from_two_to_the_31_are_looked_up_wrapped() {
    let mut pvs = BTreeMap::new();
    pvs.insert(4294967295u32, PvEntry { song_name_en: "Big".to_string() });
    let mut data = song_data();
    data.reserved_pvs.insert(-1, reservation(-1, 5, None));
    let rows = pv_reservation_rows(&pvs, &data);
    assert_eq!(rows.len(), 1);
    assert_eq!(rows[0].id, 4294967295);
}

fn module_data() -> AllModules {
    let mut uploaded = BTreeMap::new();
    uploaded.insert(
        3,
        vec![Module {
            uid: String::new(),
            post: Some(9),
            id: 3,
            module: module_info(None, Some("Their module"), Some("jp"), 0, 0),
        }],
    );
    let mut reserved = BTreeMap::new();
    reserved.insert(4, reservation(4, 7, Some("reserved module")));
    let mut costumes_of_chara = BTreeMap::new();
    costumes_of_chara.insert(55, reservation(55, 7, None));
    let mut costumes = BTreeMap::new();
    costumes.insert(2, costumes_of_chara);
    let mut users = BTreeMap::new();
    users.insert(7, user(7, "Seven"));
    let mut posts = BTreeMap::new();
    posts.insert(9, post(9, "Module post"));
    AllModules { reserved_modules: reserved, reserved_costumes: costumes, uploaded_modules: uploaded, users, posts }
}

fn mod_modules() -> BTreeMap<i32, ModuleInfo> {
    let mut modules = BTreeMap::new();
    modules.insert(4, module_info(None, None, Some("Only jp"), 1, 55));
    modules.insert(3, module_info(Some("English"), Some("Name"), None, 2, 55));
    modules.insert(-8, module_info(None, None, None, 2, 1));
    modules
}

#[test]
fn module_rows_use_the_first_name_given() {
    let rows = module_conflict_rows(&mod_modules(), &module_data());
    assert_eq!(rows.len(), 1);
    assert_eq!(rows[0].id, 3);
    assert_eq!(rows[0].name, "English");
    assert_eq!(rows[0].conflict_name, "Their module");
    assert_eq!(source_text(&rows[0].source), "Module post (9)");
}

#[test]
fn module_reservation_rows_name_the_holder() {
    let rows = module_reservation_rows(&mod_modules(), &module_data());
    let shown: Vec<_> = rows.iter().map(reservation_text).collect();
    assert_eq!(
        shown,
        vec![(4, "Only jp".to_string(), Some("reserved module".to_string()), Some("Seven".to_string()))]
    );
}

#[test]
fn costume_rows_match_character_and_costume() {
    let rows = costume_reservation_rows(&mod_modules(), &module_data());
    let shown: Vec<_> = rows.iter().map(reservation_text).collect();
    assert_eq!(shown, vec![(3, "English".to_string(), None, Some("Seven".to_string()))]);
}

#[test]
fn a_module_without_any_name_is_shown_with_an_empty_name() {
    let mut modules = BTreeMap::new();
    modules.insert(4, module_info(None, None, None, 0, 0));
    let rows = module_reservation_rows(&modules, &module_data());
    assert_eq!(rows.len(), 1);
    assert_eq!(rows[0].name, "");
}

#[test]
fn customize_item_rows() {
    let mut uploaded = BTreeMap::new();
    uploaded.insert(
        12,
        vec![
            CstmItem { uid: String::new(), post: None, id: 12, cstm_item: item_info(None, None, Some("Base item")) },
            CstmItem { uid: String::new(), post: Some(77), id: 12, cstm_item: item_info(Some("Other"), None, None) },
        ],
    );
    let mut reserved = BTreeMap::new();
    reserved.insert(13, reservation(13, 1, Some("item")));
    let data = AllCstmItems {
        reserved_cstm_items: reserved,
        uploaded_cstm_items: uploaded,
        users: BTreeMap::new(),
        posts: BTreeMap::new(),
    };
    let mut items = BTreeMap::new();
    items.insert(13, item_info(None, Some("Mine 13"), None));
    items.insert(12, item_info(Some("Mine 12"), None, None));
    let rows = cstm_item_conflict_rows(&items, &data);
    let shown: Vec<_> = rows
        .iter()
        .map(|r| (r.id, r.name.clone(), r.conflict_name.clone(), source_text(&r.source)))
        .collect();
    assert_eq!(
        shown,
        vec![
            (12, "Mine 12".to_string(), "Base item".to_string(), "MM+".to_string()),
            (12, "Mine 12".to_string(), "Other".to_string(), "Unknown".to_string()),
        ]
    );
    let reserved_rows = cstm_item_reservation_rows(&items, &data);
    let shown: Vec<_> = reserved_rows.iter().map(reservation_text).collect();
    assert_eq!(shown, vec![(13, "Mine 13".to_string(), Some("item".to_string()), None)]);
}

#[test]
fn database_rows_fall_back_to_the_base_game() {
    let mut entries = BTreeMap::new();
    entries.insert(
        500,
        vec![
            MeilisearchDbEntry { uid: 1, post_id: 3, id: 500, name: "In post".to_string() },
            MeilisearchDbEntry { uid: 2, post_id: 4, id: 500, name: "Not held".to_string() },
        ],
    );
    entries.insert(1, vec![MeilisearchDbEntry { uid: 3, post_id: 3, id: 1, name: "One".to_string() }]);
    let mut posts = BTreeMap::new();
    posts.insert(3, post(33, "Post three"));
    let data = AllDbEntries { entries, posts };
    let mut names = BTreeMap::new();
    names.insert(500, "mine".to_string());
    names.insert(2, "no clash".to_string());
    names.insert(1, "first".to_string());
    let rows = db_entry_rows(&names, &data);
    let shown: Vec<_> = rows
        .iter()
        .map(|r| (r.id, r.name.clone(), r.conflict_name.clone(), source_text(&r.source)))
        .collect();
    assert_eq!(
        shown,
        vec![
            (1, "first".to_string(), "One".to_string(), "Post three (33)".to_string()),
            (500, "mine".to_string(), "In post".to_string(), "Post three (33)".to_string()),
            (500, "mine".to_string(), "Not held".to_string(), "MM+".to_string()),
        ]
    );
}

#[test]
fn display_names_fall_back_in_order() {
    assert_eq!(module_info(Some("en"), Some("n"), Some("jp"), 0, 0).display_name(), "en");
    assert_eq!(module_info(None, Some("n"), Some("jp"), 0, 0).display_name(), "n");
    assert_eq!(module_info(None, None, Some("jp"), 0, 0).display_name(), "jp");
    assert_eq!(item_info(None, None, None).display_name(), "");
    assert_eq!(item_info(None, Some("n"), None).display_name(), "n");
}

#[test]
fn a_database_table_has_one_row_per_archive_entry_and_only_grows() {
    let mut entries = BTreeMap::new();
    entries.insert(1, vec![
        MeilisearchDbEntry { uid: 1, post_id: 0, id: 1, name: "a".to_string() },
        MeilisearchDbEntry { uid: 2, post_id: 0, id: 1, name: "b".to_string() },
    ]);
    entries.insert(2, vec![MeilisearchDbEntry { uid: 3, post_id: 0, id: 2, name: "c".to_string() }]);
    entries.insert(9, vec![MeilisearchDbEntry { uid: 4, post_id: 0, id: 9, name: "d".to_string() }]);
    let data = AllDbEntries { entries, posts: BTreeMap::new() };
    let mut names = BTreeMap::new();
    names.insert(1, "one".to_string());
    names.insert(5, "five".to_string());
    assert_eq!(db_entry_rows(&names, &data).len(), 2);
    names.insert(2, "two".to_string());
    assert_eq!(db_entry_rows(&names, &data).len(), 3);
    let mut with_post = data;
    with_post.posts.insert(0, post(0, "zero"));
    let rows = db_entry_rows(&names, &with_post);
    assert_eq!(rows.len(), 3);
    assert_eq!(source_text(&rows[0].source), "zero (0)");
}
