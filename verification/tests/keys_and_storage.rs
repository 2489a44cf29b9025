use btmesh::driver::hash::hash_of;
use btmesh::driver::secrets::NetworkKeys;
use btmesh::driver::storage::{boot_sequence, newer_load, should_writeback, LatestLoad, StorageError};
use btmesh::keys::NetworkKey;

#[test]
fn network_key_iteration_empty() {
    let keys = NetworkKeys::new();
    let found = keys.by_nid(42).len();
    assert_eq!(0, found)
}

#[test]
fn network_key_derivation() {
    // Mesh Profile sample data 8.2.2: encryption and privacy keys (master)
    let network_key = NetworkKey::new([
        0x7d, 0xd7, 0x36, 0x4c, 0xd8, 0x42, 0xad, 0x18, 0xc1, 0x7c, 0x2b, 0x82, 0x0c, 0x84, 0xc3,
        0xd6,
    ]);

    let encryption_key = [
        0x09, 0x53, 0xfa, 0x93, 0xe7, 0xca, 0xac, 0x96, 0x38, 0xf5, 0x88, 0x20, 0x22, 0x0a, 0x39,
        0x8e,
    ];

    let privacy_key = [
        0x8b, 0x84, 0xee, 0xde, 0xc1, 0x00, 0x06, 0x7d, 0x67, 0x09, 0x71, 0xdd, 0x2a, 0xa7, 0x00,
        0xcf,
    ];

    assert_eq!(0x68, network_key.nid());
    assert_eq!(privacy_key, network_key.privacy_key());
    assert_eq!(encryption_key, network_key.encryption_key());
}

#[test]
fn network_keys_found_by_nid() {
    let keys = NetworkKeys::from_network_key([
        0x7d, 0xd7, 0x36, 0x4c, 0xd8, 0x42, 0xad, 0x18, 0xc1, 0x7c, 0x2b, 0x82, 0x0c, 0x84, 0xc3,
        0xd6,
    ]);
    let found = keys.by_nid(0x68);
    assert_eq!(1, found.len());
    assert_eq!(0, found[0].index);
    assert_eq!(0, keys.by_nid(0x69).len());
}

fn unprovisioned_configuration(uuid: [u8; 16]) -> Vec<u8> {
    let mut bytes = vec![0u8];
    bytes.extend_from_slice(&uuid);
    bytes
}

#[test]
fn hashing() {
    let config_a = unprovisioned_configuration([1, 2, 3, 4, 5, 6, 7, 8, 9, 10, 11, 12, 13, 14, 15, 16]);
    let config_b = unprovisioned_configuration([1, 2, 3, 4, 5, 6, 7, 8, 9, 10, 11, 12, 13, 14, 15, 16]);
    assert_eq!(hash_of(&config_a), hash_of(&config_b));
}

#[test]
fn hashing_distinguishes_configurations() {
    let config_a = unprovisioned_configuration([1; 16]);
    let config_b = unprovisioned_configuration([2; 16]);
    assert_ne!(hash_of(&config_a), hash_of(&config_b));
}

fn provisioned_configuration() -> Vec<u8> {
    // everything of the configuration that its hash covers: device key,
    // IV index and unicast address
    let mut bytes = vec![
        0x11, 0x22, 0x33, 0x44, 0x55, 0x66, 0x77, 0x88, 0x99, 0xAA, 0xBB, 0xCC, 0xDD, 0xEE, 0xFF,
        0x00,
    ];
    bytes.extend_from_slice(&100u32.to_be_bytes());
    bytes.extend_from_slice(&0x00a1u16.to_be_bytes());
    bytes
}

#[test]
fn should_writeback_from_empty() {
    let hash = hash_of(&provisioned_configuration());
    assert!(should_writeback(LatestLoad::Empty, hash, 0, 100))
}

#[test]
fn should_writeback_provisioned_sequence_unchanged() {
    let hash = hash_of(&provisioned_configuration());
    assert!(!should_writeback(
        LatestLoad::Provisioned { hash, sequence: 100 },
        hash,
        100,
        100
    ))
}

#[test]
fn should_writeback_provisioned_sequence_changed_threshold_not_met() {
    let hash = hash_of(&provisioned_configuration());
    assert!(!should_writeback(
        LatestLoad::Provisioned { hash, sequence: 100 },
        hash,
        199,
        100
    ))
}

#[test]
fn should_writeback_provisioned_sequence_changed_threshold_is_met() {
    let hash = hash_of(&provisioned_configuration());
    assert!(should_writeback(
        LatestLoad::Provisioned { hash, sequence: 100 },
        hash,
        200,
        100
    ))
}

#[test]
fn should_writeback_provisioned_sequence_changed_threshold_is_met_skippingly() {
    let hash = hash_of(&provisioned_configuration());
    assert!(should_writeback(
        LatestLoad::Provisioned { hash, sequence: 100 },
        hash,
        205,
        100
    ))
}

#[test]
fn should_writeback_when_content_changes() {
    let hash = hash_of(&provisioned_configuration());
    assert!(should_writeback(
        LatestLoad::Provisioned { hash, sequence: 100 },
        hash ^ 1,
        100,
        100
    ))
}

#[test]
fn boot_sequence_rounds_up_to_the_next_hundred() {
    assert_eq!(100, boot_sequence(0));
    assert_eq!(200, boot_sequence(100));
    assert_eq!(300, boot_sequence(205));
}

#[test]
fn the_newer_stored_copy_is_kept() {
    assert_eq!(Ok((7, "a")), newer_load(Ok((7, "a")), Ok((5, "b"))));
    assert_eq!(Ok((9, "b")), newer_load(Ok((7, "a")), Ok((9, "b"))));
    assert_eq!(Ok((7, "b")), newer_load(Ok((7, "a")), Ok((7, "b"))));
    assert_eq!(Ok((7, "a")), newer_load(Ok((7, "a")), Err(StorageError::Load)));
    assert_eq!(Ok((5, "b")), newer_load(Err(StorageError::Serialization), Ok((5, "b"))));
    assert_eq!(
        Err::<(u32, &str), _>(StorageError::Load),
        newer_load::<&str>(Err(StorageError::Load), Err(StorageError::Serialization))
    );
}
