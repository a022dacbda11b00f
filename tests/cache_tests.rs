use datalint_core::cache::{CacheAction, CacheStage};

#[test]
fn missing_root_stops_before_the_store() {
    let s = CacheStage::Start;
    assert_eq!(s.next_action(), CacheAction::ScanDataset);
    let s = s.after(false, 0);
    assert_eq!(s, CacheStage::Failed);
    assert_eq!(s.next_action(), CacheAction::Stop);
}

#[test]
fn empty_dataset_writes_metadata_only() {
    let mut s = CacheStage::Start;
    let mut actions = vec![s.next_action()];
    s = s.after(true, 0);
    actions.push(s.next_action());
    s = s.after(true, 0);
    actions.push(s.next_action());
    s = s.after(true, 0);
    actions.push(s.next_action());
    assert_eq!(
        actions,
        vec![
            CacheAction::ScanDataset,
            CacheAction::OpenStore,
            CacheAction::WriteMetadata,
            CacheAction::Done(0),
        ]
    );
}

#[test]
fn found_images_are_written_and_counted() {
    let mut s = CacheStage::Start.after(true, 3);
    assert_eq!(s, CacheStage::Scanned(3));
    s = s.after(true, 0).after(true, 0);
    assert_eq!(s.next_action(), CacheAction::WriteImages(3));
    s = s.after(true, 0);
    assert_eq!(s.next_action(), CacheAction::Done(3));
}

#[test]
fn failed_metadata_write_stops() {
    let s = CacheStage::Start.after(true, 3).after(true, 0).after(false, 0);
    assert_eq!(s.next_action(), CacheAction::Stop);
}
