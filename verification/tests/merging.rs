use dma_conflicts::mod_data::{AetSetNames, IdData, PvEntry, SprSetNames};
use dma_conflicts::models::ModuleInfo;

fn s(t: &str) -> String {
    t.to_string()
}

#[test]
fn a_later_database_replaces_an_id_and_keeps_the_others() {
    let mut data = IdData::new();
    data.add_pv_db(vec![(1, PvEntry { song_name_en: s("one") }), (2, PvEntry { song_name_en: s("two") })]);
    data.add_pv_db(vec![(2, PvEntry { song_name_en: s("deux") }), (3, PvEntry { song_name_en: s("three") })]);
    let names: Vec<(u32, String)> =
        data.pvs.iter().map(|(k, v)| (*k, v.song_name_en.clone())).collect();
    assert_eq!(names, vec![(1, s("one")), (2, s("deux")), (3, s("three"))]);
}

#[test]
fn the_last_entry_for_an_id_wins_within_one_database() {
    let mut data = IdData::new();
    data.add_obj_db(vec![(7, s("first")), (7, s("second"))]);
    assert_eq!(data.objsets.get(&7), Some(&s("second")));
    assert_eq!(data.objsets.len(), 1);
}

#[test]
fn sprite_textures_are_named_among_the_sprites() {
    let mut data = IdData::new();
    data.add_spr_db(vec![
        SprSetNames {
            id: 1,
            name: s("set one"),
            sprites: vec![(10, s("sprite ten")), (11, s("sprite eleven"))],
            textures: vec![(11, s("texture eleven")), (12, s("texture twelve"))],
        },
        SprSetNames { id: 2, name: s("set two"), sprites: vec![(12, s("sprite twelve"))], textures: vec![] },
    ]);
    let sets: Vec<(u32, String)> = data.spr_sets.iter().map(|(k, v)| (*k, v.clone())).collect();
    assert_eq!(sets, vec![(1, s("set one")), (2, s("set two"))]);
    let sprites: Vec<(u32, String)> = data.sprites.iter().map(|(k, v)| (*k, v.clone())).collect();
    assert_eq!(
        sprites,
        vec![(10, s("sprite ten")), (11, s("texture eleven")), (12, s("sprite twelve"))]
    );
    assert!(data.textures.is_empty());
}

#[test]
fn aet_scenes_are_gathered_from_every_set() {
    let mut data = IdData::new();
    data.add_aet_db(vec![
        AetSetNames { id: 5, name: s("five"), scenes: vec![(50, s("a")), (51, s("b"))] },
        AetSetNames { id: 6, name: s("six"), scenes: vec![(51, s("c"))] },
    ]);
    let scenes: Vec<(u32, String)> = data.aet_scenes.iter().map(|(k, v)| (*k, v.clone())).collect();
    assert_eq!(scenes, vec![(50, s("a")), (51, s("c"))]);
    assert_eq!(data.aet_sets.len(), 2);
    assert!(data.sprites.is_empty());
}

#[test]
fn module_databases_add_modules_and_items() {
    let mut data = IdData::new();
    let m = ModuleInfo { name: Some(s("m")), name_en: None, name_jp: None, chara: 0, cos_id: 1 };
    data.add_module_db(vec![(1, m.clone()), (2, m)], vec![]);
    data.add_tex_db(vec![(9, s("tex"))]);
    assert_eq!(data.modules.len(), 2);
    assert!(data.cstm_items.is_empty());
    assert_eq!(data.textures.get(&9), Some(&s("tex")));
    assert!(data.pvs.is_empty());
}

#[test]
fn merging_never_loses_an_id() {
    let mut data = IdData::new();
    data.add_tex_db(vec![(1, s("a")), (2, s("b"))]);
    data.add_tex_db(vec![(2, s("c")), (3, s("d"))]);
    let ids: Vec<u32> = data.textures.keys().copied().collect();
    assert_eq!(ids, vec![1, 2, 3]);
}
