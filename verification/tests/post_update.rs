use dma_conflicts::models::PostUpdate;

#[test]
fn cloning_an_update_keeps_its_time() {
    let t = time::OffsetDateTime::from_unix_timestamp(1_700_000_000).unwrap();
    let update = PostUpdate { major: 1, minor: 2, changelog: "fixes".to_string(), time: t };
    let copy = update.clone();
    assert_eq!(copy.time, t);
    assert_eq!(copy.time.unix_timestamp(), 1_700_000_000);
    assert_eq!((copy.major, copy.minor), (1, 2));
    assert_eq!(copy.changelog, "fixes");
}
