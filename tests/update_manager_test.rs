use gitbrowser::update::{hex_encode, UpdateManager};

#[test]
fn test_newer_version_comparisons() {
    assert!(UpdateManager::is_newer_version("1.0.0", "1.0.1"));
    assert!(UpdateManager::is_newer_version("v1.2.0", "1.10.0"));
    assert!(UpdateManager::is_newer_version("1.0", "1.0.0"));
    assert!(UpdateManager::is_newer_version("0.9.9", "v1"));
    assert!(!UpdateManager::is_newer_version("2.0.0", "1.9.9"));
    assert!(!UpdateManager::is_newer_version("1.2.3", "1.2.3"));
    assert!(!UpdateManager::is_newer_version("1.0.0", "1.0.x"));
    assert!(UpdateManager::is_newer_version("1.0.0", "1.0.+1"));
    assert!(!UpdateManager::is_newer_version("1.0.0", "1.0.99999999999"));
}

#[test]
fn test_update_manager_defaults() {
    let mut mgr = UpdateManager::new();
    assert_eq!(mgr.get_current_version(), "0.1.0");
    assert!(mgr.is_auto_check_enabled());
    mgr.set_auto_check_enabled(false);
    assert!(!mgr.is_auto_check_enabled());
    assert!(mgr.check_for_updates().unwrap().is_none());
}

#[test]
fn test_verify_checksum() {
    let mgr = UpdateManager::new();
    let digest = "ba7816bf8f01cfea414140de5dae2223b00361a396177a9cb410ff61f20015ad";
    assert!(mgr.verify_checksum(b"abc", digest).unwrap());
    assert!(mgr.verify_checksum(b"abc", &digest.to_uppercase()).unwrap());
    assert!(!mgr.verify_checksum(b"abd", digest).unwrap());
}

#[test]
fn test_hex_encode() {
    assert_eq!(hex_encode(&[0x00, 0x0f, 0xa0, 0xff]), "000fa0ff");
    assert_eq!(hex_encode(&[]), "");
}
