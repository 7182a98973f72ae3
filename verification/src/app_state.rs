use vstd::prelude::*;
use crate::conflicts::{conflict_flags, ConflictFlags};
use crate::mod_data::IdData;
use crate::models::DmaData;

verus! {

/// No conflict of any kind.
pub open spec fn no_flags() -> ConflictFlags {
    ConflictFlags {
        pv_conflicts: false,
        pv_reservation_conflicts: false,
        module_conflicts: false,
        module_reservation_conflicts: false,
        module_cos_reservation_conflicts: false,
        cstm_item_conflicts: false,
        cstm_item_reservation_conflicts: false,
        spr_set_conflicts: false,
        sprite_conflicts: false,
        aet_set_conflicts: false,
        aet_scene_conflicts: false,
        objset_conflicts: false,
        texture_conflicts: false,
    }
}

/// The state of the conflict checker: the archive's records, the ids of the
/// last mod folder that was read (if it could be read), and the conflicts
/// found for it.
#[derive(Debug)]
pub struct AppData {
    pub dma_data: DmaData,
    pub user_data: Option<IdData>,
    pub flags: ConflictFlags,
}

impl AppData {
    /// The checker before any mod folder is chosen.
    pub fn new(dma_data: DmaData) -> (r: AppData)
        ensures
            r.dma_data == dma_data,
            r.user_data is None,
            r.flags == no_flags(),
    {
        AppData {
            dma_data,
            user_data: None,
            flags: ConflictFlags {
                pv_conflicts: false,
                pv_reservation_conflicts: false,
                module_conflicts: false,
                module_reservation_conflicts: false,
                module_cos_reservation_conflicts: false,
                cstm_item_conflicts: false,
                cstm_item_reservation_conflicts: false,
                spr_set_conflicts: false,
                sprite_conflicts: false,
                aet_set_conflicts: false,
                aet_scene_conflicts: false,
                objset_conflicts: false,
                texture_conflicts: false,
            },
        }
    }

    /// Takes the result of reading a chosen mod folder: the ids it defines,
    /// or `None` when it could not be read. The flags are computed afresh
    /// for a folder that was read, and left as they were otherwise.
    pub fn folder_read(&mut self, user_data: Option<IdData>)
        ensures
            final(self).dma_data == old(self).dma_data,
            final(self).user_data == user_data,
            final(self).flags == match user_data {
                Some(u) => conflict_flags(u, old(self).dma_data),
                None => old(self).flags,
            },
    {
        match &user_data {
            Some(u) => {
                self.flags = ConflictFlags::check(u, &self.dma_data);
            },
            None => {},
        }
        self.user_data = user_data;
    }

    /// Whether to tell that no conflict was found: a mod folder was read and
    /// none of the flags is set.
    pub fn shows_no_conflicts(&self) -> (r: bool)
        ensures
            r == (self.user_data is Some && self.flags.spec_none_found()),
    {
        self.user_data.is_some() && self.flags.none_found()
    }
}

} // verus!
