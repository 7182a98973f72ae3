use vstd::prelude::*;
use std::collections::BTreeMap;
use std::collections::HashMap;
use super::kinds::{PostType, ReservationType};
use super::user::User;

verus! {

/// Moments in time are carried through as the `time` crate's values; nothing
/// here looks inside them.
#[verifier::external_type_specification]
#[verifier::external_body]
pub struct ExOffsetDateTime(time::OffsetDateTime);

/// `time::OffsetDateTime` is a `Copy` type, and its `clone` (derived in the
/// `time` crate) hands back the same value.
pub assume_specification[ <time::OffsetDateTime as Clone>::clone ](t: &time::OffsetDateTime) -> (r:
    time::OffsetDateTime)
    ensures
        r == *t,
;

/// One version of a post.
#[derive(Clone, Debug)]
pub struct PostUpdate {
    pub major: i32,
    pub minor: i32,
    pub changelog: String,
    pub time: time::OffsetDateTime,
}

/// A post on the archive.
#[derive(Debug)]
pub struct Post {
    pub id: i32,
    pub name: String,
    pub text: String,
    pub images: Vec<String>,
    pub files: Vec<String>,
    pub time: time::OffsetDateTime,
    pub post_type: PostType,
    pub download_count: i64,
    pub like_count: i64,
    pub authors: Vec<User>,
    pub dependencies: Option<Vec<Post>>,
    pub dependency_descriptions: Option<HashMap<i32, String>>,
    /// Named `file_names` in the archive's JSON.
    pub local_files: Vec<String>,
    pub private: bool,
    pub explicit: bool,
    pub explicit_reason: Option<String>,
}

/// A reservation of an id, held by a user.
#[derive(Debug)]
pub struct Reservation {
    pub id: i32,
    pub user: i64,
    pub reservation_type: ReservationType,
    pub time: time::OffsetDateTime,
    pub label: Option<String>,
}

/// A song (PV) that a post has uploaded, or that the base game has
/// (`post` is `None`).
#[derive(Clone, Debug)]
pub struct Pv {
    pub uid: String,
    pub post: Option<i32>,
    pub id: i32,
    pub name: String,
    pub name_en: String,
}

/// Everything the archive has on record about song ids.
#[derive(Debug)]
pub struct AllPvs {
    pub reserved_pvs: BTreeMap<i32, Reservation>,
    pub uploaded_pvs: BTreeMap<i32, Vec<Pv>>,
    pub users: BTreeMap<i64, User>,
    pub posts: BTreeMap<i32, Post>,
}

/// What the conflict check reads of a module's table entry: its three
/// optional names, the character it belongs to (by the character's number)
/// and the id of its costume.
#[derive(Clone, Debug)]
pub struct ModuleInfo {
    pub name: Option<String>,
    pub name_en: Option<String>,
    pub name_jp: Option<String>,
    pub chara: u32,
    pub cos_id: i32,
}

/// What the conflict check reads of a customize item's table entry: its three
/// optional names.
#[derive(Clone, Debug)]
pub struct CstmItemInfo {
    pub name: Option<String>,
    pub name_en: Option<String>,
    pub name_jp: Option<String>,
}

/// A module that a post has uploaded, or that the base game has.
#[derive(Clone, Debug)]
pub struct Module {
    pub uid: String,
    pub post: Option<i32>,
    pub id: i32,
    pub module: ModuleInfo,
}

/// Everything the archive has on record about module ids.
#[derive(Debug)]
pub struct AllModules {
    pub reserved_modules: BTreeMap<i32, Reservation>,
    /// Costume reservations, by character number, then by costume id.
    pub reserved_costumes: BTreeMap<u32, BTreeMap<i32, Reservation>>,
    pub uploaded_modules: BTreeMap<i32, Vec<Module>>,
    pub users: BTreeMap<i64, User>,
    pub posts: BTreeMap<i32, Post>,
}

/// A customize item that a post has uploaded, or that the base game has.
#[derive(Clone, Debug)]
pub struct CstmItem {
    pub uid: String,
    pub post: Option<i32>,
    pub id: i32,
    pub cstm_item: CstmItemInfo,
}

/// Everything the archive has on record about customize item ids.
#[derive(Debug)]
pub struct AllCstmItems {
    pub reserved_cstm_items: BTreeMap<i32, Reservation>,
    pub uploaded_cstm_items: BTreeMap<i32, Vec<CstmItem>>,
    pub users: BTreeMap<i64, User>,
    pub posts: BTreeMap<i32, Post>,
}

/// One database entry (sprite, sprite set, aet set, aet scene, object set or
/// texture) that a post uses.
#[derive(Debug)]
pub struct MeilisearchDbEntry {
    pub uid: u64,
    pub post_id: i32,
    pub id: u32,
    pub name: String,
}

/// Everything the archive has on record about the ids of one kind of
/// database entry.
#[derive(Debug)]
pub struct AllDbEntries {
    pub entries: BTreeMap<u32, Vec<MeilisearchDbEntry>>,
    pub posts: BTreeMap<i32, Post>,
}

/// Everything the archive has on record, one part for each kind of id.
#[derive(Debug)]
pub struct DmaData {
    pub pvs: AllPvs,
    pub modules: AllModules,
    pub cstm_items: AllCstmItems,
    pub spr_sets: AllDbEntries,
    pub sprites: AllDbEntries,
    pub aet_sets: AllDbEntries,
    pub aet_scenes: AllDbEntries,
    pub objsets: AllDbEntries,
    pub textures: AllDbEntries,
}

} // verus!
