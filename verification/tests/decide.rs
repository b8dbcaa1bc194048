use save_syncer::save::{decide_action, Md5Hash, SaveMeta, SyncDecision, SyncError, SyncTarget, Timestamp};

fn ts(secs: i64, nanos: u32) -> Timestamp {
    Timestamp { secs, nanos }
}

fn meta(hash: u128, size: u64, created: Timestamp, updated: Timestamp) -> SaveMeta {
    SaveMeta {
        rom: "game.gba".to_string(),
        name: "game.sav".to_string(),
        emulator: Some("mgba".to_string()),
        created,
        updated,
        hash: Md5Hash(hash),
        size,
    }
}

fn mirror(r: Result<SyncDecision, SyncError>) -> Result<SyncDecision, SyncError> {
    match r {
        Ok(SyncDecision::PushToRemote) => Ok(SyncDecision::PullToDevice),
        Ok(SyncDecision::PullToDevice) => Ok(SyncDecision::PushToRemote),
        Ok(SyncDecision::Noop) => Ok(SyncDecision::Noop),
        Err(SyncError::Conflict) => Err(SyncError::Conflict),
        Err(SyncError::DeviceNotOlder) => Err(SyncError::DeviceNotNewer),
        Err(SyncError::DeviceNotNewer) => Err(SyncError::DeviceNotOlder),
    }
}

#[test]
fn empty_device_pulls() {
    let device = meta(1, 0, ts(0, 0), ts(0, 0));
    let remote = meta(2, 100, ts(5, 0), ts(6, 0));
    let db = meta(3, 100, ts(1, 0), ts(1, 0));
    assert_eq!(decide_action(&device, &remote, &db), Ok(SyncDecision::PullToDevice));
}

#[test]
fn empty_remote_pushes() {
    let device = meta(2, 100, ts(5, 0), ts(6, 0));
    let remote = meta(1, 0, ts(0, 0), ts(0, 0));
    let db = meta(2, 100, ts(1, 0), ts(1, 0));
    assert_eq!(decide_action(&device, &remote, &db), Ok(SyncDecision::PushToRemote));
}

#[test]
fn same_hash_is_noop() {
    let device = meta(7, 10, ts(1, 0), ts(2, 0));
    let remote = meta(7, 10, ts(100, 0), ts(200, 0));
    let db = meta(9, 10, ts(1, 0), ts(1, 0));
    assert_eq!(decide_action(&device, &remote, &db), Ok(SyncDecision::Noop));
}

#[test]
fn both_changed_conflict() {
    let device = meta(1, 10, ts(1, 0), ts(2, 0));
    let remote = meta(2, 10, ts(1, 0), ts(3, 0));
    let db = meta(3, 10, ts(1, 0), ts(1, 0));
    let r = decide_action(&device, &remote, &db);
    assert_eq!(r, Err(SyncError::Conflict));
    assert_eq!(r.unwrap_err().message(), "CONFLICT");
}

#[test]
fn remote_changed_and_newer_pulls() {
    let device = meta(1, 10, ts(10, 0), ts(20, 0));
    let remote = meta(2, 10, ts(10, 0), ts(20, 1));
    let db = meta(1, 10, ts(10, 0), ts(20, 0));
    assert_eq!(decide_action(&device, &remote, &db), Ok(SyncDecision::PullToDevice));
}

#[test]
fn remote_changed_but_older_errors() {
    let device = meta(1, 10, ts(10, 0), ts(20, 0));
    let remote = meta(2, 10, ts(10, 0), ts(20, 0));
    let db = meta(1, 10, ts(10, 0), ts(20, 0));
    let r = decide_action(&device, &remote, &db);
    assert_eq!(r, Err(SyncError::DeviceNotOlder));
    assert_eq!(r.unwrap_err().message(), "TIMESTAMP: device >= remote, but not expected.");
}

#[test]
fn device_changed_and_newer_pushes() {
    let device = meta(2, 10, ts(30, 0), ts(10, 0));
    let remote = meta(1, 10, ts(10, 0), ts(20, 0));
    let db = meta(1, 10, ts(10, 0), ts(20, 0));
    // the device's timestamp is its creation time, the later of the two
    assert_eq!(device.timestamp(), ts(30, 0));
    assert_eq!(decide_action(&device, &remote, &db), Ok(SyncDecision::PushToRemote));
}

#[test]
fn device_changed_but_older_errors() {
    let device = meta(2, 10, ts(10, 0), ts(15, 0));
    let remote = meta(1, 10, ts(10, 0), ts(20, 0));
    let db = meta(1, 10, ts(10, 0), ts(20, 0));
    let r = decide_action(&device, &remote, &db);
    assert_eq!(r, Err(SyncError::DeviceNotNewer));
    assert_eq!(r.unwrap_err().message(), "TIMESTAMP: device <= remote, but not expected.");
}

#[test]
fn both_empty_with_different_hashes_follow_the_database() {
    let device = meta(1, 0, ts(10, 0), ts(10, 0));
    let remote = meta(2, 0, ts(10, 0), ts(11, 0));
    let db = meta(1, 0, ts(10, 0), ts(10, 0));
    assert_eq!(decide_action(&device, &remote, &db), Ok(SyncDecision::PullToDevice));
}

#[test]
fn exchanging_sides_mirrors_the_decision() {
    let saves = [
        meta(1, 0, ts(0, 0), ts(0, 0)),
        meta(1, 10, ts(5, 0), ts(6, 0)),
        meta(2, 10, ts(5, 0), ts(7, 0)),
        meta(3, 10, ts(9, 0), ts(1, 0)),
        meta(2, 0, ts(1, 0), ts(1, 0)),
    ];
    for d in &saves {
        for r in &saves {
            for db in &saves {
                assert_eq!(decide_action(r, d, db), mirror(decide_action(d, r, db)));
            }
        }
    }
}

#[test]
fn a_save_against_itself_is_noop() {
    let s = meta(5, 42, ts(1, 2), ts(3, 4));
    let db = meta(6, 42, ts(0, 0), ts(0, 0));
    assert_eq!(decide_action(&s, &s.clone(), &db), Ok(SyncDecision::Noop));
}

#[test]
fn timestamp_is_the_later_time() {
    let s = meta(1, 1, ts(5, 10), ts(5, 9));
    assert_eq!(s.timestamp(), ts(5, 10));
    let s = meta(1, 1, ts(-3, 0), ts(-2, 0));
    assert_eq!(s.timestamp(), ts(-2, 0));
}

#[test]
fn new_empty_is_empty_at_the_epoch() {
    let s = SaveMeta::new_empty("rom".to_string(), "save".to_string(), None);
    assert!(s.is_empty());
    assert_eq!(s.size, 0);
    assert_eq!(s.rom, "rom");
    assert_eq!(s.name, "save");
    assert_eq!(s.emulator, None);
    assert_eq!(s.created, ts(0, 0));
    assert_eq!(s.updated, ts(0, 0));
    assert_eq!(s.hash, Md5Hash(0xd41d8cd98f00b204e9800998ecf8427e));
}

#[test]
fn non_empty_save_is_not_empty() {
    let s = meta(1, 1, ts(0, 0), ts(0, 0));
    assert!(!s.is_empty());
}

#[test]
fn default_decision_is_noop() {
    assert_eq!(SyncDecision::default(), SyncDecision::Noop);
    assert_ne!(SyncTarget::Device, SyncTarget::Remote);
}

#[test]
fn from_contents_hashes_and_measures() {
    let s = SaveMeta::from_contents(
        "r".to_string(),
        "n".to_string(),
        Some("e".to_string()),
        b"abc",
        ts(1, 2),
        ts(3, 4),
    );
    assert_eq!(s.size, 3);
    assert_eq!(s.hash, Md5Hash(0x900150983cd24fb0d6963f7d28e17f72));
    assert_eq!((s.created, s.updated), (ts(1, 2), ts(3, 4)));
    assert_eq!(s.emulator, Some("e".to_string()));
    let e = SaveMeta::from_contents("r".to_string(), "n".to_string(), None, b"", ts(0, 0), ts(0, 0));
    assert_eq!(e.hash, SaveMeta::new_empty("r".to_string(), "n".to_string(), None).hash);
    assert!(e.is_empty());
}
