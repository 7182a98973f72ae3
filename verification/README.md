# dma_conflicts

Checks a Project DIVA Mega Mix+ mod folder against the ids that DIVA Mod
Archive has on record, and lists every id (song, module, costume, customize
item, sprite set, sprite, aet set, aet scene, object set, texture) that the mod
uses and that an upload or a reservation on the archive already uses.

- `src/` is the verified library:
  - `models/` — the archive's records (users, posts, reservations, uploads);
  - `mod_data.rs` — the ids a mod folder defines and how its databases are
    gathered into them (`merge.rs`: a later definition of an id wins);
  - `paths.rs` — which folders and database files of a mod are read;
  - `scan.rs` — what a missing or failed read leads to (skip, use or give up);
  - `conflicts.rs` — the conflict check, one flag per kind of id;
  - `tables/` — the rows of the conflict tables, in increasing id order;
  - `agreement.rs` — how the tables relate to the flags;
  - `app_state.rs` — the checker's state between folder choices.
- `app/` is the program around it: fetching the archive's records, reading the
  mod's files, and the window.
- `tests/` runs the library on concrete data.
