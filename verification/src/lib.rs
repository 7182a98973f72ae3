//! Detection of ID conflicts between a local Project DIVA mod folder and the
//! IDs that DIVA Mod Archive has on record (uploaded or reserved).

pub mod agreement;
pub mod app_state;
pub mod conflicts;
pub mod keys;
pub mod merge;
pub mod mod_data;
pub mod models;
pub mod order;
pub mod paths;
pub mod scan;
pub mod tables;
