use vstd::prelude::*;
use std::collections::BTreeMap;
use vstd::std_specs::iter::IteratorSpec;
use crate::keys::{any_shared_key, shares_key};
use crate::mod_data::{IdData, PvEntry};
use crate::models::{DmaData, ModuleInfo, Reservation};

verus! {

/// A song id of a mod is looked up on the archive as a signed 32-bit id
/// (ids from 2^31 up wrap around).
pub open spec fn pv_key(id: u32) -> i32 {
    id as i32
}

/// Some song id of the mod, looked up as a signed id, is a key of `taken`.
pub open spec fn pv_id_taken<V>(pvs: Map<u32, PvEntry>, taken: Map<i32, V>) -> bool {
    exists|id: u32| pvs.contains_key(id) && taken.contains_key(pv_key(id))
}

/// Some module of the mod has its character's costume with the same costume
/// id reserved.
pub open spec fn costume_reserved(
    modules: Map<i32, ModuleInfo>,
    costumes: Map<u32, BTreeMap<i32, Reservation>>,
) -> bool {
    exists|id: i32|
        {
            &&& modules.contains_key(id)
            &&& costumes.contains_key(modules[id].chara)
            &&& costumes[modules[id].chara]@.contains_key(modules[id].cos_id)
        }
}

/// Whether a song id of the mod, looked up as a signed id, is a key of `taken`.
pub fn any_pv_id_taken<V>(pvs: &BTreeMap<u32, PvEntry>, taken: &BTreeMap<i32, V>) -> (r: bool)
    ensures
        r == pv_id_taken(pvs@, taken@),
{
    let ghost entries = pvs.iter().remaining();
    for (id, _pv) in it: pvs.iter()
        invariant
            it.seq() == entries,
            forall|i: int| 0 <= i < it.index() ==> !taken@.contains_key(pv_key(*it.seq()[i].0)),
    {
        let key: i32 = #[verifier::truncate] (*id as i32);
        if taken.contains_key(&key) {
            assert(pvs@.contains_key(*id) && key == pv_key(*id));
            return true;
        }
    }
    assert forall|id: u32| pvs@.contains_key(id) implies !taken@.contains_key(pv_key(id)) by {
        assert(entries.contains((&id, &pvs@[id])));
    };
    false
}

/// Whether some module of the mod has its character's costume with the same
/// costume id reserved.
pub fn any_costume_reserved(
    modules: &BTreeMap<i32, ModuleInfo>,
    costumes: &BTreeMap<u32, BTreeMap<i32, Reservation>>,
) -> (r: bool)
    ensures
        r == costume_reserved(modules@, costumes@),
{
    let ghost entries = modules.iter().remaining();
    for (id, module) in it: modules.iter()
        invariant
            it.seq() == entries,
            forall|i: int|
                #![trigger it.seq()[i]]
                0 <= i < it.index() ==> !{
                    let m = *it.seq()[i].1;
                    costumes@.contains_key(m.chara) && costumes@[m.chara]@.contains_key(m.cos_id)
                },
    {
        match costumes.get(&module.chara) {
            Some(reserved) => {
                if reserved.contains_key(&module.cos_id) {
                    assert(modules@.contains_key(*id) && modules@[*id] == *module);
                    return true;
                }
            },
            None => {},
        }
    }
    assert forall|id: i32| #[trigger] modules@.contains_key(id) implies !{
        let m = modules@[id];
        costumes@.contains_key(m.chara) && costumes@[m.chara]@.contains_key(m.cos_id)
    } by {
        assert(entries.contains((&id, &modules@[id])));
    };
    false
}

/// For each kind of id, whether the mod uses an id that the archive has on
/// record (uploaded or reserved).
#[derive(Clone, Copy, Debug, PartialEq, Eq, Structural)]
pub struct ConflictFlags {
    pub pv_conflicts: bool,
    pub pv_reservation_conflicts: bool,
    pub module_conflicts: bool,
    pub module_reservation_conflicts: bool,
    pub module_cos_reservation_conflicts: bool,
    pub cstm_item_conflicts: bool,
    pub cstm_item_reservation_conflicts: bool,
    pub spr_set_conflicts: bool,
    pub sprite_conflicts: bool,
    pub aet_set_conflicts: bool,
    pub aet_scene_conflicts: bool,
    pub objset_conflicts: bool,
    pub texture_conflicts: bool,
}

/// The flags that the check gives for a mod's ids against the archive's records.
pub open spec fn conflict_flags(user: IdData, dma: DmaData) -> ConflictFlags {
    ConflictFlags {
        pv_conflicts: pv_id_taken(user.pvs@, dma.pvs.uploaded_pvs@),
        pv_reservation_conflicts: pv_id_taken(user.pvs@, dma.pvs.reserved_pvs@),
        module_conflicts: shares_key(user.modules@, dma.modules.uploaded_modules@),
        module_reservation_conflicts: shares_key(user.modules@, dma.modules.reserved_modules@),
        module_cos_reservation_conflicts: costume_reserved(
            user.modules@,
            dma.modules.reserved_costumes@,
        ),
        cstm_item_conflicts: shares_key(user.cstm_items@, dma.cstm_items.uploaded_cstm_items@),
        cstm_item_reservation_conflicts: shares_key(
            user.cstm_items@,
            dma.cstm_items.reserved_cstm_items@,
        ),
        spr_set_conflicts: shares_key(user.spr_sets@, dma.spr_sets.entries@),
        // The sprite check looks the mod's sprite *set* ids up among the
        // archive's sprite ids.
        sprite_conflicts: shares_key(user.spr_sets@, dma.sprites.entries@),
        aet_set_conflicts: shares_key(user.aet_sets@, dma.aet_sets.entries@),
        aet_scene_conflicts: shares_key(user.aet_scenes@, dma.aet_scenes.entries@),
        objset_conflicts: shares_key(user.objsets@, dma.objsets.entries@),
        texture_conflicts: shares_key(user.textures@, dma.textures.entries@),
    }
}

impl ConflictFlags {
    /// No flag is set.
    pub open spec fn spec_none_found(self) -> bool {
        !self.pv_conflicts && !self.pv_reservation_conflicts && !self.module_conflicts
            && !self.module_reservation_conflicts && !self.module_cos_reservation_conflicts
            && !self.cstm_item_conflicts && !self.cstm_item_reservation_conflicts
            && !self.spr_set_conflicts && !self.sprite_conflicts && !self.aet_set_conflicts
            && !self.aet_scene_conflicts && !self.objset_conflicts && !self.texture_conflicts
    }

    /// Checks each kind of id of the mod against the archive's records.
    pub fn check(user: &IdData, dma: &DmaData) -> (r: ConflictFlags)
        ensures
            r == conflict_flags(*user, *dma),
    {
        ConflictFlags {
            pv_conflicts: any_pv_id_taken(&user.pvs, &dma.pvs.uploaded_pvs),
            pv_reservation_conflicts: any_pv_id_taken(&user.pvs, &dma.pvs.reserved_pvs),
            module_conflicts: any_shared_key(&user.modules, &dma.modules.uploaded_modules),
            module_reservation_conflicts: any_shared_key(
                &user.modules,
                &dma.modules.reserved_modules,
            ),
            module_cos_reservation_conflicts: any_costume_reserved(
                &user.modules,
                &dma.modules.reserved_costumes,
            ),
            cstm_item_conflicts: any_shared_key(
                &user.cstm_items,
                &dma.cstm_items.uploaded_cstm_items,
            ),
            cstm_item_reservation_conflicts: any_shared_key(
                &user.cstm_items,
                &dma.cstm_items.reserved_cstm_items,
            ),
            spr_set_conflicts: any_shared_key(&user.spr_sets, &dma.spr_sets.entries),
            sprite_conflicts: any_shared_key(&user.spr_sets, &dma.sprites.entries),
            aet_set_conflicts: any_shared_key(&user.aet_sets, &dma.aet_sets.entries),
            aet_scene_conflicts: any_shared_key(&user.aet_scenes, &dma.aet_scenes.entries),
            objset_conflicts: any_shared_key(&user.objsets, &dma.objsets.entries),
            texture_conflicts: any_shared_key(&user.textures, &dma.textures.entries),
        }
    }

    /// Whether no conflict of any kind was found (the mod can be uploaded
    /// without clashing with the archive's ids).
    pub fn none_found(&self) -> (r: bool)
        ensures
            r == self.spec_none_found(),
    {
        !self.pv_conflicts && !self.pv_reservation_conflicts && !self.module_conflicts
            && !self.module_reservation_conflicts && !self.module_cos_reservation_conflicts
            && !self.cstm_item_conflicts && !self.cstm_item_reservation_conflicts
            && !self.spr_set_conflicts && !self.sprite_conflicts && !self.aet_set_conflicts
            && !self.aet_scene_conflicts && !self.objset_conflicts && !self.texture_conflicts
    }
}

} // verus!
