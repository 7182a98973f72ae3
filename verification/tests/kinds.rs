use dma_conflicts::models::{PostType, ReservationType};

#[test]
fn post_type_codes() {
    assert_eq!(PostType::Plugin.code(), 0);
    assert_eq!(PostType::Module.code(), 1);
    assert_eq!(PostType::Song.code(), 2);
    assert_eq!(PostType::Cover.code(), 3);
    assert_eq!(PostType::Ui.code(), 4);
    assert_eq!(PostType::Other.code(), 5);
}

#[test]
fn reservation_type_codes() {
    assert_eq!(ReservationType::Song.code(), 0);
    assert_eq!(ReservationType::Module.code(), 1);
    assert_eq!(ReservationType::CstmItem.code(), 2);
    assert_eq!(ReservationType::CosMiku.code(), 10);
    assert_eq!(ReservationType::CosRin.code(), 11);
    assert_eq!(ReservationType::CosLen.code(), 12);
    assert_eq!(ReservationType::CosLuka.code(), 13);
    assert_eq!(ReservationType::CosNeru.code(), 14);
    assert_eq!(ReservationType::CosHaku.code(), 15);
    assert_eq!(ReservationType::CosKaito.code(), 16);
    assert_eq!(ReservationType::CosMeiko.code(), 17);
    assert_eq!(ReservationType::CosSakine.code(), 18);
    assert_eq!(ReservationType::CosTeto.code(), 19);
}

#[test]
fn reservation_types_are_ordered_by_code() {
    assert!(ReservationType::CstmItem < ReservationType::CosMiku);
    assert!(ReservationType::CosSakine < ReservationType::CosTeto);
    assert!(ReservationType::Song < ReservationType::Module);
}
