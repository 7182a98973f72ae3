use dma_conflicts::scan::{read_step, ReadOutcome, ReadStep, ScanItem};

const ITEMS: [ScanItem; 8] = [
    ScanItem::Config,
    ScanItem::RomFolder,
    ScanItem::PvDb,
    ScanItem::SprDb,
    ScanItem::AetDb,
    ScanItem::ObjDb,
    ScanItem::TexDb,
    ScanItem::ModuleDb,
];

#[test]
fn missing_items_are_skipped_and_parsed_ones_used() {
    for item in ITEMS {
        assert_eq!(read_step(item, ReadOutcome::Missing), ReadStep::Skip);
        assert_eq!(read_step(item, ReadOutcome::Parsed), ReadStep::Use);
        assert_eq!(read_step(item, ReadOutcome::ParseFailed), ReadStep::Abort);
    }
}

#[test]
fn only_an_unreadable_pv_db_is_skipped() {
    for item in ITEMS {
        let expected = if item == ScanItem::PvDb { ReadStep::Skip } else { ReadStep::Abort };
        assert_eq!(read_step(item, ReadOutcome::ReadFailed), expected);
    }
}
