use dma_conflicts::paths::{db_paths_for, db_prefixes, rom_dirs, rom_folder, rom_folders, DbPaths};

#[test]
fn rom_folder_of_an_included_folder() {
    assert_eq!(rom_folder("/mods/a", "base", "rom_steam"), "/mods/a/base/rom_steam/rom");
    assert_eq!(rom_folder("/mods/a", "base", "."), "/mods/a/base/./rom");
}

#[test]
fn search_lists() {
    let roms = rom_dirs();
    assert_eq!(roms.len(), 31);
    assert_eq!(roms[0], ".");
    assert_eq!(roms[14], "rom_steam_region_cn");
    assert_eq!(roms[15], "rom_steam_region_cn");
    assert_eq!(roms[30], "rom_switch_tw");
    let prefixes = db_prefixes();
    assert_eq!(prefixes.len(), 21);
    assert_eq!(prefixes[0], "mod_");
    assert_eq!(prefixes[1], "");
    assert_eq!(prefixes[20], "dlc2B_");
}

#[test]
fn every_included_folder_is_searched_in_every_rom_folder() {
    let folders = rom_folders("/m", &vec!["x".to_string(), "y".to_string()]);
    assert_eq!(folders.len(), 62);
    assert_eq!(folders[0], "/m/x/./rom");
    assert_eq!(folders[1], "/m/x/rom_ps4/rom");
    assert_eq!(folders[31], "/m/y/./rom");
    assert_eq!(folders[61], "/m/y/rom_switch_tw/rom");
    assert!(rom_folders("/m", &vec![]).is_empty());
}

#[test]
fn database_file_names() {
    let p = DbPaths::new("/m/x/rom_steam/rom", "mod_");
    assert_eq!(p.pv_db, "/m/x/rom_steam/rom/mod_pv_db.txt");
    assert_eq!(p.spr_db, "//m/x/rom_steam/rom/2d/mod_spr_db.bin");
    assert_eq!(p.aet_db, "//m/x/rom_steam/rom/2d/mod_aet_db.bin");
    assert_eq!(p.obj_db, "//m/x/rom_steam/rom/objset/mod_obj_db.bin");
    assert_eq!(p.tex_db, "//m/x/rom_steam/rom/objset/mod_tex_db.bin");
    assert_eq!(p.module_tbl, "/m/x/rom_steam/rom/mod_gm_module_tbl.farc");
    assert_eq!(p.customize_item_tbl, "/m/x/rom_steam/rom/mod_gm_customize_item_tbl.farc");
    assert_eq!(p.chritm_prop, "/m/x/rom_steam/rom/mod_chritm_prop.farc");
    assert_eq!(p.str_array, "/m/x/rom_steam/rom/lang2/mod_str_array.toml");
}

#[test]
fn database_files_for_every_prefix() {
    let all = db_paths_for("r");
    assert_eq!(all.len(), 21);
    assert_eq!(all[0].pv_db, "r/mod_pv_db.txt");
    assert_eq!(all[1].pv_db, "r/pv_db.txt");
    assert_eq!(all[20].tex_db, "/r/objset/dlc2B_tex_db.bin");
}

#[test]
fn module_database_is_read_when_a_table_exists() {
    let p = DbPaths::new("r", "");
    assert!(p.module_db_files(false, false, true, true).is_none());
    let files = p.module_db_files(false, true, false, true).unwrap();
    assert_eq!(files.module_tbl, None);
    assert_eq!(files.customize_item_tbl, Some("r/gm_customize_item_tbl.farc".to_string()));
    assert_eq!(files.chritm_prop, None);
    assert_eq!(files.str_array, Some("r/lang2/mod_str_array.toml".to_string()));
    let files = p.module_db_files(true, false, true, false).unwrap();
    assert_eq!(files.module_tbl, Some("r/gm_module_tbl.farc".to_string()));
    assert_eq!(files.chritm_prop, Some("r/chritm_prop.farc".to_string()));
}
