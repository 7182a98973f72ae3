pub mod archive;
pub mod kinds;
pub mod user;

pub use archive::{
    AllCstmItems, AllDbEntries, DmaData, AllModules, AllPvs, CstmItem, CstmItemInfo, MeilisearchDbEntry,
    Module, ModuleInfo, Post, PostUpdate, Pv, Reservation,
};
pub use kinds::{PostType, ReservationType};
pub use user::User;
