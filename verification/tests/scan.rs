use entropy_network_status_page::{
    RawStorageEntry, ScanAction, ScanError, ScanEvent, StorageKey, StorageMap, StorageScan,
};

fn key_of(identity: u8) -> Vec<u8> {
    let mut key = vec![0xeeu8; 16];
    key.extend_from_slice(&[identity; 32]);
    key
}

fn entry_event(identity: u8, value: &[u8]) -> ScanEvent {
    ScanEvent::Entry {
        key: key_of(identity),
        value: value.to_vec(),
    }
}

fn reading(map: StorageMap, block_hash: [u8; 32]) -> StorageScan {
    let scan = StorageScan::start(map);
    let (scan, action) = scan.step(ScanEvent::BlockHash(Some(block_hash)));
    assert_eq!(action, ScanAction::ReadEntry { map, block_hash });
    scan
}

#[test]
fn storage_map_names() {
    assert_eq!(StorageMap::Programs.pallet_name(), "Programs");
    assert_eq!(StorageMap::Programs.item_name(), "Programs");
    assert_eq!(StorageMap::Registered.pallet_name(), "Relayer");
    assert_eq!(StorageMap::Registered.item_name(), "Registered");
    assert_eq!(StorageMap::ThresholdServers.pallet_name(), "StakingExtension");
    assert_eq!(StorageMap::ThresholdServers.item_name(), "ThresholdServers");
}

#[test]
fn scan_begins_by_asking_for_the_block() {
    let scan = StorageScan::start(StorageMap::Programs);
    assert_eq!(scan.action(), ScanAction::ResolveBlockHash);
}

#[test]
fn scan_of_an_empty_map_gives_an_empty_list() {
    let scan = reading(StorageMap::Registered, [7u8; 32]);
    let (scan, action) = scan.step(ScanEvent::Exhausted);
    assert_eq!(action, ScanAction::Finish);
    assert_eq!(scan.finish(), Ok(vec![]));
}

#[test]
fn scan_keeps_the_entries_in_the_order_of_the_node() {
    let map = StorageMap::Programs;
    let block_hash = [3u8; 32];
    let mut scan = reading(map, block_hash);
    for identity in [5u8, 1, 9, 1] {
        let (next, action) = scan.step(entry_event(identity, &[identity, identity]));
        assert_eq!(action, ScanAction::ReadEntry { map, block_hash });
        scan = next;
    }
    let (scan, action) = scan.step(ScanEvent::Exhausted);
    assert_eq!(action, ScanAction::Finish);
    let entries = scan.finish().unwrap();
    let expected: Vec<RawStorageEntry> = [5u8, 1, 9, 1]
        .iter()
        .map(|identity| RawStorageEntry {
            key: StorageKey::new(key_of(*identity)).unwrap(),
            value: vec![*identity, *identity],
        })
        .collect();
    assert_eq!(entries, expected);
}

#[test]
fn scan_reads_every_entry_at_one_block() {
    let map = StorageMap::ThresholdServers;
    let block_hash = [0xabu8; 32];
    let mut scan = reading(map, block_hash);
    for identity in 0..20u8 {
        let (next, action) = scan.step(entry_event(identity, &[]));
        assert_eq!(action, ScanAction::ReadEntry { map, block_hash });
        assert_eq!(next.action(), action);
        scan = next;
    }
}

#[test]
fn scan_without_a_block_fails() {
    let scan = StorageScan::start(StorageMap::Programs);
    let (scan, action) = scan.step(ScanEvent::BlockHash(None));
    assert_eq!(action, ScanAction::Abort(ScanError::NoBlockHash));
    assert_eq!(scan.finish(), Err(ScanError::NoBlockHash));
}

#[test]
fn scan_fails_when_the_first_request_fails() {
    let scan = StorageScan::start(StorageMap::Programs);
    let (scan, action) = scan.step(ScanEvent::Failed);
    assert_eq!(action, ScanAction::Abort(ScanError::Transport));
    assert_eq!(scan.finish(), Err(ScanError::Transport));
}

#[test]
fn scan_failure_drops_what_was_read() {
    let mut scan = reading(StorageMap::Programs, [1u8; 32]);
    for identity in [1u8, 2, 3] {
        scan = scan.step(entry_event(identity, &[0])).0;
    }
    let (scan, action) = scan.step(ScanEvent::Failed);
    assert_eq!(action, ScanAction::Abort(ScanError::Transport));
    assert_eq!(scan.finish(), Err(ScanError::Transport));
}

#[test]
fn scan_fails_on_a_key_without_identity() {
    for len in [0usize, 1, 31, 32] {
        let scan = reading(StorageMap::Programs, [1u8; 32]);
        let scan = scan.step(entry_event(1, &[0])).0;
        let (scan, action) = scan.step(ScanEvent::Entry {
            key: vec![0u8; len],
            value: vec![1],
        });
        assert_eq!(action, ScanAction::Abort(ScanError::MalformedKey));
        assert_eq!(scan.finish(), Err(ScanError::MalformedKey));
    }
}

#[test]
fn scan_fails_on_an_answer_it_did_not_ask_for() {
    let scan = StorageScan::start(StorageMap::Programs);
    let (scan, action) = scan.step(entry_event(1, &[]));
    assert_eq!(action, ScanAction::Abort(ScanError::UnexpectedAnswer));
    assert_eq!(scan.finish(), Err(ScanError::UnexpectedAnswer));

    let scan = StorageScan::start(StorageMap::Programs);
    let (_, action) = scan.step(ScanEvent::Exhausted);
    assert_eq!(action, ScanAction::Abort(ScanError::UnexpectedAnswer));

    let scan = reading(StorageMap::Programs, [1u8; 32]);
    let (scan, action) = scan.step(ScanEvent::BlockHash(Some([2u8; 32])));
    assert_eq!(action, ScanAction::Abort(ScanError::UnexpectedAnswer));
    assert_eq!(scan.finish(), Err(ScanError::UnexpectedAnswer));
}

#[test]
fn scan_that_has_failed_stays_failed() {
    let scan = StorageScan::start(StorageMap::Programs);
    let (scan, _) = scan.step(ScanEvent::BlockHash(None));
    let (scan, action) = scan.step(ScanEvent::BlockHash(Some([1u8; 32])));
    assert_eq!(action, ScanAction::Abort(ScanError::NoBlockHash));
    let (scan, action) = scan.step(entry_event(1, &[]));
    assert_eq!(action, ScanAction::Abort(ScanError::NoBlockHash));
    let (scan, action) = scan.step(ScanEvent::Exhausted);
    assert_eq!(action, ScanAction::Abort(ScanError::NoBlockHash));
    assert_eq!(scan.finish(), Err(ScanError::NoBlockHash));
}

#[test]
fn scan_that_is_finished_stays_finished() {
    let scan = reading(StorageMap::Programs, [1u8; 32]);
    let scan = scan.step(entry_event(4, &[4])).0;
    let scan = scan.step(ScanEvent::Exhausted).0;
    let (scan, action) = scan.step(entry_event(5, &[5]));
    assert_eq!(action, ScanAction::Finish);
    let (scan, action) = scan.step(ScanEvent::Failed);
    assert_eq!(action, ScanAction::Finish);
    let entries = scan.finish().unwrap();
    assert_eq!(entries.len(), 1);
    assert_eq!(entries[0].key.identity(), [4u8; 32]);
}

#[test]
fn scan_ended_early_gives_no_entries() {
    let scan = StorageScan::start(StorageMap::Programs);
    assert_eq!(scan.finish(), Err(ScanError::Unfinished));
    let scan = reading(StorageMap::Programs, [1u8; 32]);
    let scan = scan.step(entry_event(4, &[4])).0;
    assert_eq!(scan.finish(), Err(ScanError::Unfinished));
}
