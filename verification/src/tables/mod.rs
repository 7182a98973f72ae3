use vstd::prelude::*;
use std::collections::BTreeMap;
use crate::models::{CstmItemInfo, ModuleInfo, Post, Reservation, User};

pub mod cstm_items;
pub mod db_entries;
pub mod modules;
pub mod pvs;

verus! {

/// Where an id that is already in use on the archive comes from.
#[derive(Debug)]
pub enum ConflictSource {
    /// A post of the archive (shown as a link to it).
    Post { id: i32, name: String },
    /// A post that the archive's records name but do not hold.
    Unknown,
    /// The base game (Mega Mix+).
    BaseGame,
}

/// A line of a table of ids that the mod and the archive both use.
#[derive(Debug)]
pub struct ConflictRow {
    /// The id in question.
    pub id: i64,
    /// The name that the mod gives it.
    pub name: String,
    /// The name that the archive gives it.
    pub conflict_name: String,
    /// Where the archive's use comes from.
    pub source: ConflictSource,
}

/// The abstract value of a [`ConflictSource`].
pub enum SourceModel {
    Post { id: i32, name: Seq<char> },
    Unknown,
    BaseGame,
}

/// The abstract value of a [`ConflictRow`].
pub struct ConflictRowModel {
    pub id: int,
    pub name: Seq<char>,
    pub conflict_name: Seq<char>,
    pub source: SourceModel,
}

impl View for ConflictSource {
    type V = SourceModel;

    open spec fn view(&self) -> SourceModel {
        match self {
            ConflictSource::Post { id, name } => SourceModel::Post { id: *id, name: name@ },
            ConflictSource::Unknown => SourceModel::Unknown,
            ConflictSource::BaseGame => SourceModel::BaseGame,
        }
    }
}

impl View for ConflictRow {
    type V = ConflictRowModel;

    open spec fn view(&self) -> ConflictRowModel {
        ConflictRowModel {
            id: self.id as int,
            name: self.name@,
            conflict_name: self.conflict_name@,
            source: self.source@,
        }
    }
}

/// The abstract values of a sequence of conflict rows.
pub open spec fn conflict_models(rows: Seq<ConflictRow>) -> Seq<ConflictRowModel> {
    rows.map_values(|r: ConflictRow| r@)
}

/// Where an upload comes from: the post it names, if the archive holds that
/// post; a post it does not hold; or, when it names no post, the base game.
pub open spec fn post_source(post: Option<i32>, posts: Map<i32, Post>) -> SourceModel {
    match post {
        Some(p) => if posts.contains_key(p) {
            SourceModel::Post { id: posts[post.unwrap()].id, name: posts[post.unwrap()].name@ }
        } else {
            SourceModel::Unknown
        },
        None => SourceModel::BaseGame,
    }
}

/// Where an upload comes from, as [`post_source`] says.
pub fn source_of(post: Option<i32>, posts: &BTreeMap<i32, Post>) -> (s: ConflictSource)
    ensures
        s@ == post_source(post, posts@),
        post is None ==> s@ == SourceModel::BaseGame,
        post is Some && posts@.contains_key(post.unwrap()) ==> s@ == (SourceModel::Post {
            id: posts@[post.unwrap()].id,
            name: posts@[post.unwrap()].name@,
        }),
        post is Some && !posts@.contains_key(post.unwrap()) ==> s@ == SourceModel::Unknown,
{
    match post {
        Some(p) => match posts.get(&p) {
            Some(found) => ConflictSource::Post { id: found.id, name: found.name.clone() },
            None => ConflictSource::Unknown,
        },
        None => ConflictSource::BaseGame,
    }
}

/// A line of a table of the mod's ids that the archive has reserved.
#[derive(Debug)]
pub struct ReservationRow {
    /// The id in question.
    pub id: i64,
    /// The name that the mod gives it.
    pub name: String,
    /// The reservation's label, if it has one.
    pub label: Option<String>,
    /// The display name of the user who holds the reservation, if the
    /// archive's records list that user (shown as "Unknown" otherwise).
    pub holder: Option<String>,
}

/// The abstract value of a [`ReservationRow`].
pub struct ReservationRowModel {
    pub id: int,
    pub name: Seq<char>,
    pub label: Option<Seq<char>>,
    pub holder: Option<Seq<char>>,
}

/// The abstract value of an optional string.
pub open spec fn optional_text(s: Option<String>) -> Option<Seq<char>> {
    match s {
        Some(t) => Some(t@),
        None => None,
    }
}

impl View for ReservationRow {
    type V = ReservationRowModel;

    open spec fn view(&self) -> ReservationRowModel {
        ReservationRowModel {
            id: self.id as int,
            name: self.name@,
            label: optional_text(self.label),
            holder: optional_text(self.holder),
        }
    }
}

/// The abstract values of a sequence of reservation rows.
pub open spec fn reservation_models(rows: Seq<ReservationRow>) -> Seq<ReservationRowModel> {
    rows.map_values(|r: ReservationRow| r@)
}

/// The row for an id of the mod, named `name` there, that `r` reserves.
pub open spec fn reservation_row(id: int, name: Seq<char>, r: Reservation, users: Map<i64, User>) -> ReservationRowModel {
    ReservationRowModel {
        id,
        name,
        label: optional_text(r.label),
        holder: if users.contains_key(r.user) {
            Some(users[r.user].display_name@)
        } else {
            None
        },
    }
}

/// The row for an id of the mod, named `name` there, that `r` reserves.
pub fn reservation_row_of(id: i64, name: String, r: &Reservation, users: &BTreeMap<i64, User>) -> (row:
    ReservationRow)
    ensures
        row@ == reservation_row(id as int, name@, *r, users@),
        row.id == id,
        row@.name == name@,
        row@.label == optional_text(r.label),
        users@.contains_key(r.user) ==> row@.holder == Some(users@[r.user].display_name@),
        !users@.contains_key(r.user) ==> row@.holder is None,
{
    let label = match &r.label {
        Some(l) => Some(l.clone()),
        None => None,
    };
    let holder = match users.get(&r.user) {
        Some(u) => Some(u.display_name.clone()),
        None => None,
    };
    ReservationRow { id, name, label, holder }
}

/// The row for an id of the mod, named `name` there, that an upload of the
/// archive named `conflict_name` also uses.
pub open spec fn upload_row(
    id: int,
    name: Seq<char>,
    conflict_name: Seq<char>,
    post: Option<i32>,
    posts: Map<i32, Post>,
) -> ConflictRowModel {
    ConflictRowModel { id, name, conflict_name, source: post_source(post, posts) }
}

/// The first name that is given among the English name, the name and the
/// Japanese name, or the empty name when none is.
pub open spec fn first_name(name_en: Option<String>, name: Option<String>, name_jp: Option<String>) -> Seq<
    char,
> {
    match name_en {
        Some(s) => s@,
        None => match name {
            Some(s) => s@,
            None => match name_jp {
                Some(s) => s@,
                None => Seq::empty(),
            },
        },
    }
}

/// The first name that is given among the English name, the name and the
/// Japanese name, or the empty name when none is.
pub fn first_name_of(name_en: &Option<String>, name: &Option<String>, name_jp: &Option<String>) -> (r:
    String)
    ensures
        r@ == first_name(*name_en, *name, *name_jp),
        (*name_en) is Some ==> r@ == (*name_en).unwrap()@,
        (*name_en) is None && (*name) is Some ==> r@ == (*name).unwrap()@,
        (*name_en) is None && (*name) is None && (*name_jp) is Some ==> r@ == (*name_jp).unwrap()@,
        (*name_en) is None && (*name) is None && (*name_jp) is None ==> r@.len() == 0,
{
    match name_en {
        Some(s) => s.clone(),
        None => match name {
            Some(s) => s.clone(),
            None => match name_jp {
                Some(s) => s.clone(),
                None => String::new(),
            },
        },
    }
}

/// The name under which a module is shown.
pub open spec fn module_name(m: ModuleInfo) -> Seq<char> {
    first_name(m.name_en, m.name, m.name_jp)
}

/// The name under which a customize item is shown.
pub open spec fn cstm_item_name(c: CstmItemInfo) -> Seq<char> {
    first_name(c.name_en, c.name, c.name_jp)
}

impl ModuleInfo {
    /// The name under which the module is shown: its English name, else its
    /// name, else its Japanese name, else the empty name.
    pub fn display_name(&self) -> (r: String)
        ensures
            r@ == module_name(*self),
            self.name_en is Some ==> r@ == self.name_en.unwrap()@,
            self.name_en is None && self.name is Some ==> r@ == self.name.unwrap()@,
            self.name_en is None && self.name is None && self.name_jp is Some ==> r@ == self.name_jp.unwrap()@,
            self.name_en is None && self.name is None && self.name_jp is None ==> r@.len() == 0,
    {
        first_name_of(&self.name_en, &self.name, &self.name_jp)
    }
}

impl CstmItemInfo {
    /// The name under which the item is shown: its English name, else its
    /// name, else its Japanese name, else the empty name.
    pub fn display_name(&self) -> (r: String)
        ensures
            r@ == cstm_item_name(*self),
            self.name_en is Some ==> r@ == self.name_en.unwrap()@,
            self.name_en is None && self.name is Some ==> r@ == self.name.unwrap()@,
            self.name_en is None && self.name is None && self.name_jp is Some ==> r@ == self.name_jp.unwrap()@,
            self.name_en is None && self.name is None && self.name_jp is None ==> r@.len() == 0,
    {
        first_name_of(&self.name_en, &self.name, &self.name_jp)
    }
}

/// The shown name is the English name when there is one, else the name, else
/// the Japanese name, else empty.
pub proof fn lemma_first_name_prefers_english(
    name_en: Option<String>,
    name: Option<String>,
    name_jp: Option<String>,
)
    ensures
        name_en is Some ==> first_name(name_en, name, name_jp) == name_en.unwrap()@,
        name_en is None && name is Some ==> first_name(name_en, name, name_jp) == name.unwrap()@,
        name_en is None && name is None && name_jp is Some ==> first_name(name_en, name, name_jp) == name_jp.unwrap()@,
        name_en is None && name is None && name_jp is None ==> first_name(name_en, name, name_jp).len()
            == 0,
{
}

/// Modules and customize items are shown under the first name given among
/// their English name, their name and their Japanese name.
pub proof fn lemma_shown_names(m: ModuleInfo, c: CstmItemInfo)
    ensures
        m.name_en is Some ==> module_name(m) == m.name_en.unwrap()@,
        m.name_en is None && m.name is Some ==> module_name(m) == m.name.unwrap()@,
        m.name_en is None && m.name is None && m.name_jp is Some ==> module_name(m) == m.name_jp.unwrap()@,
        m.name_en is None && m.name is None && m.name_jp is None ==> module_name(m).len() == 0,
        c.name_en is Some ==> cstm_item_name(c) == c.name_en.unwrap()@,
        c.name_en is None && c.name is Some ==> cstm_item_name(c) == c.name.unwrap()@,
        c.name_en is None && c.name is None && c.name_jp is Some ==> cstm_item_name(c) == c.name_jp.unwrap()@,
        c.name_en is None && c.name is None && c.name_jp is None ==> cstm_item_name(c).len() == 0,
{
}

/// An upload from a post the archive holds links to that post; one naming a
/// post it does not hold is of unknown source; one naming no post is from
/// the base game.
pub proof fn lemma_post_source_cases(post: Option<i32>, posts: Map<i32, Post>)
    ensures
        post is None ==> post_source(post, posts) == SourceModel::BaseGame,
        post is Some && posts.contains_key(post.unwrap()) ==> post_source(post, posts) == (SourceModel::Post {
            id: posts[post.unwrap()].id,
            name: posts[post.unwrap()].name@,
        }),
        post is Some && !posts.contains_key(post.unwrap()) ==> post_source(post, posts)
            == SourceModel::Unknown,
{
}

} // verus!
