use vstd::prelude::*;

verus! {

/// The folders, inside each folder that a mod's config names, that may
/// hold a `rom` folder (the base one and those of each platform, region and
/// DLC), in the order in which they are searched.
pub open spec fn rom_dir_names() -> Seq<Seq<char>> {
    seq![
        "."@,
        "rom_ps4"@,
        "rom_ps4_dlc"@,
        "rom_ps4_fix"@,
        "rom_ps4_patch"@,
        "rom_steam"@,
        "rom_steam_cn"@,
        "rom_steam_dlc"@,
        "rom_steam_en"@,
        "rom_steam_fr"@,
        "rom_steam_ge"@,
        "rom_steam_it"@,
        "rom_steam_kr"@,
        "rom_steam_region"@,
        "rom_steam_region_cn"@,
        "rom_steam_region_cn"@,
        "rom_steam_region_dlc"@,
        "rom_steam_region_dlc_kr"@,
        "rom_steam_region_en"@,
        "rom_steam_region_fr"@,
        "rom_steam_region_ge"@,
        "rom_steam_region_kr"@,
        "rom_steam_region_sp"@,
        "rom_steam_region_tw"@,
        "rom_steam_sp"@,
        "rom_steam_tw"@,
        "rom_switch"@,
        "rom_switch_cn"@,
        "rom_switch_en"@,
        "rom_switch_kr"@,
        "rom_switch_tw"@,
    ]
}

/// The prefixes of the database file names in a `rom` folder, in the order in
/// which they are read.
pub open spec fn db_prefix_names() -> Seq<Seq<char>> {
    seq![
        "mod_"@,
        ""@,
        "end_"@,
        "mdata_"@,
        "patch2_"@,
        "patch_"@,
        "dlc13_"@,
        "dlc12_"@,
        "dlc14_"@,
        "dlc9_"@,
        "dlc8_"@,
        "dlc11_"@,
        "dlc10_"@,
        "dlc4_"@,
        "dlc3B_"@,
        "dlc7_"@,
        "privilege_"@,
        "dlc2A_"@,
        "dlc1_"@,
        "dlc3A_"@,
        "dlc2B_"@,
    ]
}

/// Every base, platform, region and DLC folder is searched, in this order
/// (the Chinese region folder twice), and every database prefix is read, in
/// this order.
pub proof fn lemma_search_lists()
    ensures
        rom_dir_names().len() == 31,
        rom_dir_names()[0] == "."@,
        rom_dir_names()[1] == "rom_ps4"@,
        rom_dir_names()[2] == "rom_ps4_dlc"@,
        rom_dir_names()[3] == "rom_ps4_fix"@,
        rom_dir_names()[4] == "rom_ps4_patch"@,
        rom_dir_names()[5] == "rom_steam"@,
        rom_dir_names()[6] == "rom_steam_cn"@,
        rom_dir_names()[7] == "rom_steam_dlc"@,
        rom_dir_names()[8] == "rom_steam_en"@,
        rom_dir_names()[9] == "rom_steam_fr"@,
        rom_dir_names()[10] == "rom_steam_ge"@,
        rom_dir_names()[11] == "rom_steam_it"@,
        rom_dir_names()[12] == "rom_steam_kr"@,
        rom_dir_names()[13] == "rom_steam_region"@,
        rom_dir_names()[14] == "rom_steam_region_cn"@,
        rom_dir_names()[15] == "rom_steam_region_cn"@,
        rom_dir_names()[16] == "rom_steam_region_dlc"@,
        rom_dir_names()[17] == "rom_steam_region_dlc_kr"@,
        rom_dir_names()[18] == "rom_steam_region_en"@,
        rom_dir_names()[19] == "rom_steam_region_fr"@,
        rom_dir_names()[20] == "rom_steam_region_ge"@,
        rom_dir_names()[21] == "rom_steam_region_kr"@,
        rom_dir_names()[22] == "rom_steam_region_sp"@,
        rom_dir_names()[23] == "rom_steam_region_tw"@,
        rom_dir_names()[24] == "rom_steam_sp"@,
        rom_dir_names()[25] == "rom_steam_tw"@,
        rom_dir_names()[26] == "rom_switch"@,
        rom_dir_names()[27] == "rom_switch_cn"@,
        rom_dir_names()[28] == "rom_switch_en"@,
        rom_dir_names()[29] == "rom_switch_kr"@,
        rom_dir_names()[30] == "rom_switch_tw"@,
        db_prefix_names().len() == 21,
        db_prefix_names()[0] == "mod_"@,
        db_prefix_names()[1] == ""@,
        db_prefix_names()[2] == "end_"@,
        db_prefix_names()[3] == "mdata_"@,
        db_prefix_names()[4] == "patch2_"@,
        db_prefix_names()[5] == "patch_"@,
        db_prefix_names()[6] == "dlc13_"@,
        db_prefix_names()[7] == "dlc12_"@,
        db_prefix_names()[8] == "dlc14_"@,
        db_prefix_names()[9] == "dlc9_"@,
        db_prefix_names()[10] == "dlc8_"@,
        db_prefix_names()[11] == "dlc11_"@,
        db_prefix_names()[12] == "dlc10_"@,
        db_prefix_names()[13] == "dlc4_"@,
        db_prefix_names()[14] == "dlc3B_"@,
        db_prefix_names()[15] == "dlc7_"@,
        db_prefix_names()[16] == "privilege_"@,
        db_prefix_names()[17] == "dlc2A_"@,
        db_prefix_names()[18] == "dlc1_"@,
        db_prefix_names()[19] == "dlc3A_"@,
        db_prefix_names()[20] == "dlc2B_"@,
{
}

/// The views of a sequence of strings.
pub open spec fn texts(s: Seq<&str>) -> Seq<Seq<char>> {
    s.map_values(|t: &str| t@)
}

/// The views of a sequence of owned strings.
pub open spec fn owned_texts(s: Seq<String>) -> Seq<Seq<char>> {
    s.map_values(|t: String| t@)
}

/// The folders that may hold a `rom` folder, in search order.
pub fn rom_dirs() -> (r: Vec<&'static str>)
    ensures
        texts(r@) == rom_dir_names(),
        r@.len() == 31,
        r@[0]@ == "."@,
        r@[1]@ == "rom_ps4"@,
        r@[2]@ == "rom_ps4_dlc"@,
        r@[3]@ == "rom_ps4_fix"@,
        r@[4]@ == "rom_ps4_patch"@,
        r@[5]@ == "rom_steam"@,
        r@[6]@ == "rom_steam_cn"@,
        r@[7]@ == "rom_steam_dlc"@,
        r@[8]@ == "rom_steam_en"@,
        r@[9]@ == "rom_steam_fr"@,
        r@[10]@ == "rom_steam_ge"@,
        r@[11]@ == "rom_steam_it"@,
        r@[12]@ == "rom_steam_kr"@,
        r@[13]@ == "rom_steam_region"@,
        r@[14]@ == "rom_steam_region_cn"@,
        r@[15]@ == "rom_steam_region_cn"@,
        r@[16]@ == "rom_steam_region_dlc"@,
        r@[17]@ == "rom_steam_region_dlc_kr"@,
        r@[18]@ == "rom_steam_region_en"@,
        r@[19]@ == "rom_steam_region_fr"@,
        r@[20]@ == "rom_steam_region_ge"@,
        r@[21]@ == "rom_steam_region_kr"@,
        r@[22]@ == "rom_steam_region_sp"@,
        r@[23]@ == "rom_steam_region_tw"@,
        r@[24]@ == "rom_steam_sp"@,
        r@[25]@ == "rom_steam_tw"@,
        r@[26]@ == "rom_switch"@,
        r@[27]@ == "rom_switch_cn"@,
        r@[28]@ == "rom_switch_en"@,
        r@[29]@ == "rom_switch_kr"@,
        r@[30]@ == "rom_switch_tw"@,
{
    let r = vec![
        ".",
        "rom_ps4",
        "rom_ps4_dlc",
        "rom_ps4_fix",
        "rom_ps4_patch",
        "rom_steam",
        "rom_steam_cn",
        "rom_steam_dlc",
        "rom_steam_en",
        "rom_steam_fr",
        "rom_steam_ge",
        "rom_steam_it",
        "rom_steam_kr",
        "rom_steam_region",
        "rom_steam_region_cn",
        "rom_steam_region_cn",
        "rom_steam_region_dlc",
        "rom_steam_region_dlc_kr",
        "rom_steam_region_en",
        "rom_steam_region_fr",
        "rom_steam_region_ge",
        "rom_steam_region_kr",
        "rom_steam_region_sp",
        "rom_steam_region_tw",
        "rom_steam_sp",
        "rom_steam_tw",
        "rom_switch",
        "rom_switch_cn",
        "rom_switch_en",
        "rom_switch_kr",
        "rom_switch_tw",
    ];
    assert(texts(r@) =~= rom_dir_names());
    r
}

/// The prefixes of the database file names, in reading order.
pub fn db_prefixes() -> (r: Vec<&'static str>)
    ensures
        texts(r@) == db_prefix_names(),
        r@.len() == 21,
        r@[0]@ == "mod_"@,
        r@[1]@ == ""@,
        r@[2]@ == "end_"@,
        r@[3]@ == "mdata_"@,
        r@[4]@ == "patch2_"@,
        r@[5]@ == "patch_"@,
        r@[6]@ == "dlc13_"@,
        r@[7]@ == "dlc12_"@,
        r@[8]@ == "dlc14_"@,
        r@[9]@ == "dlc9_"@,
        r@[10]@ == "dlc8_"@,
        r@[11]@ == "dlc11_"@,
        r@[12]@ == "dlc10_"@,
        r@[13]@ == "dlc4_"@,
        r@[14]@ == "dlc3B_"@,
        r@[15]@ == "dlc7_"@,
        r@[16]@ == "privilege_"@,
        r@[17]@ == "dlc2A_"@,
        r@[18]@ == "dlc1_"@,
        r@[19]@ == "dlc3A_"@,
        r@[20]@ == "dlc2B_"@,
{
    let r = vec![
        "mod_",
        "",
        "end_",
        "mdata_",
        "patch2_",
        "patch_",
        "dlc13_",
        "dlc12_",
        "dlc14_",
        "dlc9_",
        "dlc8_",
        "dlc11_",
        "dlc10_",
        "dlc4_",
        "dlc3B_",
        "dlc7_",
        "privilege_",
        "dlc2A_",
        "dlc1_",
        "dlc3A_",
        "dlc2B_",
    ];
    assert(texts(r@) =~= db_prefix_names());
    r
}

/// The `rom` folder under folder `rom` of the included folder `included` of
/// the folder `dir` that holds a mod's config.
pub open spec fn rom_folder_path(dir: Seq<char>, included: Seq<char>, rom: Seq<char>) -> Seq<char> {
    dir + "/"@ + included + "/"@ + rom + "/rom"@
}

/// The `rom` folder under folder `rom` of the included folder `included` of
/// the folder `dir` that holds a mod's config.
pub fn rom_folder(dir: &str, included: &str, rom: &str) -> (r: String)
    ensures
        r@ == rom_folder_path(dir@, included@, rom@),
{
    let mut r = String::from_str(dir);
    r.append("/");
    r.append(included);
    r.append("/");
    r.append(rom);
    r.append("/rom");
    r
}

/// The `rom` folders to search for one included folder, in search order.
pub open spec fn rom_folders_of(dir: Seq<char>, included: Seq<char>) -> Seq<Seq<char>> {
    rom_dir_names().map_values(|rom: Seq<char>| rom_folder_path(dir, included, rom))
}

/// All the `rom` folders to search for a mod whose config, in folder `dir`,
/// lists the folders `included_dirs`: for each included folder in order, its
/// `rom` folders in search order.
pub fn rom_folders(dir: &str, included_dirs: &Vec<String>) -> (r: Vec<String>)
    ensures
        owned_texts(r@) == included_dirs@.map_values(|inc: String| rom_folders_of(dir@, inc@)).flatten_alt(),
{
    let roms = rom_dirs();
    let ghost f = |inc: String| rom_folders_of(dir@, inc@);
    let mut r: Vec<String> = Vec::new();
    let mut i: usize = 0;
    while i < included_dirs.len()
        invariant
            i <= included_dirs.len(),
            texts(roms@) == rom_dir_names(),
            f == (|inc: String| rom_folders_of(dir@, inc@)),
            owned_texts(r@) == included_dirs@.take(i as int).map_values(f).flatten_alt(),
        decreases included_dirs.len() - i,
    {
        let included = included_dirs[i].as_str();
        let ghost before = owned_texts(r@);
        let mut j: usize = 0;
        while j < roms.len()
            invariant
                i < included_dirs.len(),
                j <= roms.len(),
                included@ == included_dirs@[i as int]@,
                texts(roms@) == rom_dir_names(),
                owned_texts(r@) == before + rom_folders_of(dir@, included@).take(j as int),
            decreases roms.len() - j,
        {
            let ghost done = owned_texts(r@);
            assert(roms@[j as int]@ == rom_dir_names()[j as int]);
            let folder = rom_folder(dir, included, roms[j]);
            r.push(folder);
            assert(owned_texts(r@) =~= done.push(folder@));
            assert(rom_folders_of(dir@, included@).take(j + 1) =~= rom_folders_of(dir@, included@).take(
                j as int,
            ).push(folder@));
            j += 1;
        }
        assert(rom_folders_of(dir@, included@).take(roms.len() as int) =~= f(included_dirs@[i as int]));
        let ghost next = included_dirs@.take(i + 1).map_values(f);
        assert(next.drop_last() =~= included_dirs@.take(i as int).map_values(f));
        assert(owned_texts(r@) =~= next.flatten_alt());
        i += 1;
    }
    assert(included_dirs@.take(included_dirs.len() as int) =~= included_dirs@);
    r
}

/// The database files of one prefix in one `rom` folder.
#[derive(Debug)]
pub struct DbPaths {
    pub pv_db: String,
    pub spr_db: String,
    pub aet_db: String,
    pub obj_db: String,
    pub tex_db: String,
    pub module_tbl: String,
    pub customize_item_tbl: String,
    pub chritm_prop: String,
    pub str_array: String,
}

/// The module database files that exist, when the module table or the
/// customize item table does.
#[derive(Debug)]
pub struct ModuleDbFiles {
    pub module_tbl: Option<String>,
    pub customize_item_tbl: Option<String>,
    pub chritm_prop: Option<String>,
    pub str_array: Option<String>,
}

/// A path if its file exists.
pub open spec fn path_if(exists: bool, path: String) -> Option<String> {
    if exists {
        Some(path)
    } else {
        None
    }
}

impl DbPaths {
    /// The database files with prefix `prefix` in the `rom` folder `folder`.
    /// The sprite, aet, object and texture databases are named with a leading
    /// `/` before the folder.
    pub open spec fn spec_paths(self, folder: Seq<char>, prefix: Seq<char>) -> bool {
        &&& self.pv_db@ == folder + "/"@ + prefix + "pv_db.txt"@
        &&& self.spr_db@ == "/"@ + folder + "/2d/"@ + prefix + "spr_db.bin"@
        &&& self.aet_db@ == "/"@ + folder + "/2d/"@ + prefix + "aet_db.bin"@
        &&& self.obj_db@ == "/"@ + folder + "/objset/"@ + prefix + "obj_db.bin"@
        &&& self.tex_db@ == "/"@ + folder + "/objset/"@ + prefix + "tex_db.bin"@
        &&& self.module_tbl@ == folder + "/"@ + prefix + "gm_module_tbl.farc"@
        &&& self.customize_item_tbl@ == folder + "/"@ + prefix + "gm_customize_item_tbl.farc"@
        &&& self.chritm_prop@ == folder + "/"@ + prefix + "chritm_prop.farc"@
        &&& self.str_array@ == folder + "/lang2/mod_str_array.toml"@
    }

    /// The database files with prefix `prefix` in the `rom` folder `folder`.
    pub fn new(folder: &str, prefix: &str) -> (r: DbPaths)
        ensures
            r.spec_paths(folder@, prefix@),
    {
        let mut pv_db = String::from_str(folder);
        pv_db.append("/");
        pv_db.append(prefix);
        pv_db.append("pv_db.txt");
        let mut spr_db = String::from_str("/");
        spr_db.append(folder);
        spr_db.append("/2d/");
        spr_db.append(prefix);
        spr_db.append("spr_db.bin");
        let mut aet_db = String::from_str("/");
        aet_db.append(folder);
        aet_db.append("/2d/");
        aet_db.append(prefix);
        aet_db.append("aet_db.bin");
        let mut obj_db = String::from_str("/");
        obj_db.append(folder);
        obj_db.append("/objset/");
        obj_db.append(prefix);
        obj_db.append("obj_db.bin");
        let mut tex_db = String::from_str("/");
        tex_db.append(folder);
        tex_db.append("/objset/");
        tex_db.append(prefix);
        tex_db.append("tex_db.bin");
        let mut module_tbl = String::from_str(folder);
        module_tbl.append("/");
        module_tbl.append(prefix);
        module_tbl.append("gm_module_tbl.farc");
        let mut customize_item_tbl = String::from_str(folder);
        customize_item_tbl.append("/");
        customize_item_tbl.append(prefix);
        customize_item_tbl.append("gm_customize_item_tbl.farc");
        let mut chritm_prop = String::from_str(folder);
        chritm_prop.append("/");
        chritm_prop.append(prefix);
        chritm_prop.append("chritm_prop.farc");
        let mut str_array = String::from_str(folder);
        str_array.append("/lang2/mod_str_array.toml");
        DbPaths {
            pv_db,
            spr_db,
            aet_db,
            obj_db,
            tex_db,
            module_tbl,
            customize_item_tbl,
            chritm_prop,
            str_array,
        }
    }

    /// Which module database files to read, given which of them exist: none
    /// unless the module table or the customize item table exists, and then
    /// each of the four files that exists.
    pub fn module_db_files(
        &self,
        module_tbl_exists: bool,
        customize_item_tbl_exists: bool,
        chritm_prop_exists: bool,
        str_array_exists: bool,
    ) -> (r: Option<ModuleDbFiles>)
        ensures
            r is Some <==> module_tbl_exists || customize_item_tbl_exists,
            r matches Some(files) ==> {
                &&& files.module_tbl == path_if(module_tbl_exists, self.module_tbl)
                &&& files.customize_item_tbl == path_if(
                    customize_item_tbl_exists,
                    self.customize_item_tbl,
                )
                &&& files.chritm_prop == path_if(chritm_prop_exists, self.chritm_prop)
                &&& files.str_array == path_if(str_array_exists, self.str_array)
            },
    {
        if !module_tbl_exists && !customize_item_tbl_exists {
            return None;
        }
        let module_tbl = if module_tbl_exists {
            Some(self.module_tbl.clone())
        } else {
            None
        };
        let customize_item_tbl = if customize_item_tbl_exists {
            Some(self.customize_item_tbl.clone())
        } else {
            None
        };
        let chritm_prop = if chritm_prop_exists {
            Some(self.chritm_prop.clone())
        } else {
            None
        };
        let str_array = if str_array_exists {
            Some(self.str_array.clone())
        } else {
            None
        };
        Some(ModuleDbFiles { module_tbl, customize_item_tbl, chritm_prop, str_array })
    }
}

/// The database files of each prefix in the `rom` folder `folder`, in
/// reading order.
pub fn db_paths_for(folder: &str) -> (r: Vec<DbPaths>)
    ensures
        r@.len() == db_prefix_names().len(),
        forall|i: int| 0 <= i < r@.len() ==> (#[trigger] r@[i]).spec_paths(folder@, db_prefix_names()[i]),
{
    let prefixes = db_prefixes();
    let mut r: Vec<DbPaths> = Vec::new();
    let mut i: usize = 0;
    while i < prefixes.len()
        invariant
            i <= prefixes.len(),
            texts(prefixes@) == db_prefix_names(),
            r@.len() == i,
            forall|j: int| 0 <= j < i ==> (#[trigger] r@[j]).spec_paths(folder@, db_prefix_names()[j]),
        decreases prefixes.len() - i,
    {
        assert(prefixes@[i as int]@ == db_prefix_names()[i as int]);
        let paths = DbPaths::new(folder, prefixes[i]);
        r.push(paths);
        i += 1;
    }
    r
}

} // verus!
