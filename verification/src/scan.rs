use vstd::prelude::*;

verus! {

/// What a scan of a mod folder reads.
#[derive(Clone, Copy, Debug, PartialEq, Eq, Structural)]
pub enum ScanItem {
    /// A `config.toml` of the mod (and the name of the folder holding it).
    Config,
    /// A `rom` folder under a folder that a config names.
    RomFolder,
    /// A pv_db text file.
    PvDb,
    /// A sprite database.
    SprDb,
    /// An aet database.
    AetDb,
    /// An object database.
    ObjDb,
    /// A texture database.
    TexDb,
    /// The module database (module table, customize item table and their
    /// companion files).
    ModuleDb,
}

/// How reading one item went.
#[derive(Clone, Copy, Debug, PartialEq, Eq, Structural)]
pub enum ReadOutcome {
    /// It is not there.
    Missing,
    /// It is there but could not be read.
    ReadFailed,
    /// It was read but could not be parsed.
    ParseFailed,
    /// It was read and parsed.
    Parsed,
}

/// What the scan does next.
#[derive(Clone, Copy, Debug, PartialEq, Eq, Structural)]
pub enum ReadStep {
    /// Go on without it.
    Skip,
    /// Add what was read.
    Use,
    /// Give up on the whole folder: the scan gives no ids at all.
    Abort,
}

/// The scan's failure policy: an item that is missing is skipped; a pv_db
/// that cannot be read is skipped too, but one that cannot be parsed fails the
/// scan; a config, a folder name or a database that cannot be read or parsed
/// fails the scan.
pub open spec fn read_policy(item: ScanItem, outcome: ReadOutcome) -> ReadStep {
    match outcome {
        ReadOutcome::Missing => ReadStep::Skip,
        ReadOutcome::Parsed => ReadStep::Use,
        ReadOutcome::ReadFailed => if item == ScanItem::PvDb {
            ReadStep::Skip
        } else {
            ReadStep::Abort
        },
        ReadOutcome::ParseFailed => ReadStep::Abort,
    }
}

/// What to do after reading `item` went as `outcome`.
pub fn read_step(item: ScanItem, outcome: ReadOutcome) -> (r: ReadStep)
    ensures
        r == read_policy(item, outcome),
{
    match outcome {
        ReadOutcome::Missing => ReadStep::Skip,
        ReadOutcome::Parsed => ReadStep::Use,
        ReadOutcome::ReadFailed => match item {
            ScanItem::PvDb => ReadStep::Skip,
            _ => ReadStep::Abort,
        },
        ReadOutcome::ParseFailed => ReadStep::Abort,
    }
}

} // verus!
