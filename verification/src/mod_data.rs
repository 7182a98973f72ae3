use vstd::prelude::*;
use std::collections::BTreeMap;
use crate::merge::{inserted, insert_entries, lemma_inserted_concat, lemma_take_whole};
use crate::models::{CstmItemInfo, ModuleInfo};

verus! {

/// What the conflict check reads of a song (PV) entry of a mod's pv_db: its
/// English song name.
#[derive(Clone, Debug)]
pub struct PvEntry {
    pub song_name_en: String,
}

/// The ids that a mod folder defines, gathered from all of its databases.
#[derive(Debug)]
pub struct IdData {
    pub pvs: BTreeMap<u32, PvEntry>,
    pub modules: BTreeMap<i32, ModuleInfo>,
    pub cstm_items: BTreeMap<i32, CstmItemInfo>,
    pub spr_sets: BTreeMap<u32, String>,
    pub sprites: BTreeMap<u32, String>,
    pub aet_sets: BTreeMap<u32, String>,
    pub aet_scenes: BTreeMap<u32, String>,
    pub objsets: BTreeMap<u32, String>,
    pub textures: BTreeMap<u32, String>,
}

/// A sprite set of a sprite database: its id and name, and the ids and names
/// of its sprites and of its textures.
#[derive(Debug)]
pub struct SprSetNames {
    pub id: u32,
    pub name: String,
    pub sprites: Vec<(u32, String)>,
    pub textures: Vec<(u32, String)>,
}

/// An aet set of an aet database: its id and name, and the ids and names of
/// its scenes.
#[derive(Debug)]
pub struct AetSetNames {
    pub id: u32,
    pub name: String,
    pub scenes: Vec<(u32, String)>,
}

/// The ids and names of the sets of a sprite database, in the order given.
pub open spec fn spr_set_entries(sets: Seq<SprSetNames>) -> Seq<(u32, String)> {
    sets.map_values(|s: SprSetNames| (s.id, s.name))
}

/// The ids and names of the sprites and then the textures of each set of a
/// sprite database, set after set.
pub open spec fn sprite_entries(sets: Seq<SprSetNames>) -> Seq<(u32, String)> {
    sets.map_values(|s: SprSetNames| s.sprites@ + s.textures@).flatten_alt()
}

/// The ids and names of the sets of an aet database, in the order given.
pub open spec fn aet_set_entries(sets: Seq<AetSetNames>) -> Seq<(u32, String)> {
    sets.map_values(|s: AetSetNames| (s.id, s.name))
}

/// The ids and names of the scenes of each set of an aet database, set after set.
pub open spec fn aet_scene_entries(sets: Seq<AetSetNames>) -> Seq<(u32, String)> {
    sets.map_values(|s: AetSetNames| s.scenes@).flatten_alt()
}

impl IdData {
    /// No ids at all.
    pub open spec fn is_empty(self) -> bool {
        &&& self.pvs@ == Map::<u32, PvEntry>::empty()
        &&& self.modules@ == Map::<i32, ModuleInfo>::empty()
        &&& self.cstm_items@ == Map::<i32, CstmItemInfo>::empty()
        &&& self.spr_sets@ == Map::<u32, String>::empty()
        &&& self.sprites@ == Map::<u32, String>::empty()
        &&& self.aet_sets@ == Map::<u32, String>::empty()
        &&& self.aet_scenes@ == Map::<u32, String>::empty()
        &&& self.objsets@ == Map::<u32, String>::empty()
        &&& self.textures@ == Map::<u32, String>::empty()
    }

    /// The ids of a mod before any of its databases is read: none.
    pub fn new() -> (r: IdData)
        ensures
            r.is_empty(),
    {
        IdData {
            pvs: BTreeMap::new(),
            modules: BTreeMap::new(),
            cstm_items: BTreeMap::new(),
            spr_sets: BTreeMap::new(),
            sprites: BTreeMap::new(),
            aet_sets: BTreeMap::new(),
            aet_scenes: BTreeMap::new(),
            objsets: BTreeMap::new(),
            textures: BTreeMap::new(),
        }
    }

    /// Adds the songs of a pv_db, given as its entries in order; a song id
    /// that is already there takes the new entry.
    pub fn add_pv_db(&mut self, pvs: Vec<(u32, PvEntry)>)
        ensures
            final(self).pvs@ == inserted(old(self).pvs@, pvs@),
            final(self).modules@ == old(self).modules@,
            final(self).cstm_items@ == old(self).cstm_items@,
            final(self).spr_sets@ == old(self).spr_sets@,
            final(self).sprites@ == old(self).sprites@,
            final(self).aet_sets@ == old(self).aet_sets@,
            final(self).aet_scenes@ == old(self).aet_scenes@,
            final(self).objsets@ == old(self).objsets@,
            final(self).textures@ == old(self).textures@,
    {
        insert_entries(&mut self.pvs, pvs);
    }

    /// Adds the modules and customize items of a module database, each given
    /// as its entries in order; an id that is already there takes the new
    /// entry.
    pub fn add_module_db(&mut self, modules: Vec<(i32, ModuleInfo)>, cstm_items: Vec<(i32, CstmItemInfo)>)
        ensures
            final(self).pvs@ == old(self).pvs@,
            final(self).modules@ == inserted(old(self).modules@, modules@),
            final(self).cstm_items@ == inserted(old(self).cstm_items@, cstm_items@),
            final(self).spr_sets@ == old(self).spr_sets@,
            final(self).sprites@ == old(self).sprites@,
            final(self).aet_sets@ == old(self).aet_sets@,
            final(self).aet_scenes@ == old(self).aet_scenes@,
            final(self).objsets@ == old(self).objsets@,
            final(self).textures@ == old(self).textures@,
    {
        insert_entries(&mut self.modules, modules);
        insert_entries(&mut self.cstm_items, cstm_items);
    }

    /// Adds the names of a sprite database: each set's name under the set's
    /// id, and the names of each set's sprites and then of its textures, all
    /// of them under the sprite ids.
    pub fn add_spr_db(&mut self, sets: Vec<SprSetNames>)
        ensures
            final(self).pvs@ == old(self).pvs@,
            final(self).modules@ == old(self).modules@,
            final(self).cstm_items@ == old(self).cstm_items@,
            final(self).spr_sets@ == inserted(old(self).spr_sets@, spr_set_entries(sets@)),
            final(self).sprites@ == inserted(old(self).sprites@, sprite_entries(sets@)),
            final(self).aet_sets@ == old(self).aet_sets@,
            final(self).aet_scenes@ == old(self).aet_scenes@,
            final(self).objsets@ == old(self).objsets@,
            final(self).textures@ == old(self).textures@,
    {
        let ghost start_sets = self.spr_sets@;
        let ghost start_sprites = self.sprites@;
        let ghost all = sets@;
        for set in it: sets
            invariant
                it.seq() == all,
                self.spr_sets@ == inserted(start_sets, spr_set_entries(all.take(it.index()))),
                self.sprites@ == inserted(start_sprites, sprite_entries(all.take(it.index()))),
                self.pvs@ == old(self).pvs@,
                self.modules@ == old(self).modules@,
                self.cstm_items@ == old(self).cstm_items@,
                self.aet_sets@ == old(self).aet_sets@,
                self.aet_scenes@ == old(self).aet_scenes@,
                self.objsets@ == old(self).objsets@,
                self.textures@ == old(self).textures@,
        {
            let ghost i = it.index();
            let ghost done = all.take(i);
            let ghost next = all.take(i + 1);
            assert(next.drop_last() =~= done);
            assert(spr_set_entries(next) =~= spr_set_entries(done).push((set.id, set.name)));
            assert(spr_set_entries(next).drop_last() =~= spr_set_entries(done));
            assert(sprite_entries(next) =~= sprite_entries(done) + (set.sprites@ + set.textures@)) by {
                assert(next.map_values(|s: SprSetNames| s.sprites@ + s.textures@).drop_last()
                    =~= done.map_values(|s: SprSetNames| s.sprites@ + s.textures@));
            };
            proof {
                lemma_inserted_concat(start_sprites, sprite_entries(done), set.sprites@ + set.textures@);
                lemma_inserted_concat(
                    inserted(start_sprites, sprite_entries(done)),
                    set.sprites@,
                    set.textures@,
                );
            }
            let SprSetNames { id, name, sprites, textures } = set;
            self.spr_sets.insert(id, name);
            insert_entries(&mut self.sprites, sprites);
            insert_entries(&mut self.sprites, textures);
        }
        proof {
            lemma_take_whole(all);
        }
    }

    /// Adds the names of an aet database: each set's name under the set's id,
    /// and the names of each set's scenes under the scene ids.
    pub fn add_aet_db(&mut self, sets: Vec<AetSetNames>)
        ensures
            final(self).pvs@ == old(self).pvs@,
            final(self).modules@ == old(self).modules@,
            final(self).cstm_items@ == old(self).cstm_items@,
            final(self).spr_sets@ == old(self).spr_sets@,
            final(self).sprites@ == old(self).sprites@,
            final(self).aet_sets@ == inserted(old(self).aet_sets@, aet_set_entries(sets@)),
            final(self).aet_scenes@ == inserted(old(self).aet_scenes@, aet_scene_entries(sets@)),
            final(self).objsets@ == old(self).objsets@,
            final(self).textures@ == old(self).textures@,
    {
        let ghost start_sets = self.aet_sets@;
        let ghost start_scenes = self.aet_scenes@;
        let ghost all = sets@;
        for set in it: sets
            invariant
                it.seq() == all,
                self.aet_sets@ == inserted(start_sets, aet_set_entries(all.take(it.index()))),
                self.aet_scenes@ == inserted(start_scenes, aet_scene_entries(all.take(it.index()))),
                self.pvs@ == old(self).pvs@,
                self.modules@ == old(self).modules@,
                self.cstm_items@ == old(self).cstm_items@,
                self.spr_sets@ == old(self).spr_sets@,
                self.sprites@ == old(self).sprites@,
                self.objsets@ == old(self).objsets@,
                self.textures@ == old(self).textures@,
        {
            let ghost i = it.index();
            let ghost done = all.take(i);
            let ghost next = all.take(i + 1);
            assert(next.drop_last() =~= done);
            assert(aet_set_entries(next) =~= aet_set_entries(done).push((set.id, set.name)));
            assert(aet_set_entries(next).drop_last() =~= aet_set_entries(done));
            assert(aet_scene_entries(next) =~= aet_scene_entries(done) + set.scenes@) by {
                assert(next.map_values(|s: AetSetNames| s.scenes@).drop_last() =~= done.map_values(
                    |s: AetSetNames| s.scenes@,
                ));
            };
            proof {
                lemma_inserted_concat(start_scenes, aet_scene_entries(done), set.scenes@);
            }
            let AetSetNames { id, name, scenes } = set;
            self.aet_sets.insert(id, name);
            insert_entries(&mut self.aet_scenes, scenes);
        }
        proof {
            lemma_take_whole(all);
        }
    }

    /// Adds the names of the object sets of an object database, given as
    /// their ids and names in order.
    pub fn add_obj_db(&mut self, sets: Vec<(u32, String)>)
        ensures
            final(self).pvs@ == old(self).pvs@,
            final(self).modules@ == old(self).modules@,
            final(self).cstm_items@ == old(self).cstm_items@,
            final(self).spr_sets@ == old(self).spr_sets@,
            final(self).sprites@ == old(self).sprites@,
            final(self).aet_sets@ == old(self).aet_sets@,
            final(self).aet_scenes@ == old(self).aet_scenes@,
            final(self).objsets@ == inserted(old(self).objsets@, sets@),
            final(self).textures@ == old(self).textures@,
    {
        insert_entries(&mut self.objsets, sets);
    }

    /// Adds the names of the textures of a texture database, given as their
    /// ids and names in order.
    pub fn add_tex_db(&mut self, textures: Vec<(u32, String)>)
        ensures
            final(self).pvs@ == old(self).pvs@,
            final(self).modules@ == old(self).modules@,
            final(self).cstm_items@ == old(self).cstm_items@,
            final(self).spr_sets@ == old(self).spr_sets@,
            final(self).sprites@ == old(self).sprites@,
            final(self).aet_sets@ == old(self).aet_sets@,
            final(self).aet_scenes@ == old(self).aet_scenes@,
            final(self).objsets@ == old(self).objsets@,
            final(self).textures@ == inserted(old(self).textures@, textures@),
    {
        insert_entries(&mut self.textures, textures);
    }
}

} // verus!
