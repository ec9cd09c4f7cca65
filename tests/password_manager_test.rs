use gitbrowser::credential::PasswordGenOptions;
use gitbrowser::errors::CryptoError;
use gitbrowser::vault::{PasswordManager, VaultRecords};

fn setup() -> PasswordManager {
    PasswordManager::new(VaultRecords::new())
}

// ─── Unlock / Lock ───

#[test]
fn test_initially_locked() {
    let mgr = setup();
    assert!(!mgr.is_unlocked());
}

#[test]
fn test_unlock_first_time_sets_master() {
    let mut mgr = setup();
    let ok = mgr.unlock("my_master_password").unwrap();
    assert!(ok);
    assert!(mgr.is_unlocked());
}

#[test]
fn test_unlock_with_correct_password() {
    let mut mgr = setup();
    mgr.unlock("correct_pass").unwrap();
    mgr.lock();
    let ok = mgr.unlock("correct_pass").unwrap();
    assert!(ok);
}

#[test]
fn test_unlock_with_wrong_password_fails() {
    let mut mgr = setup();
    mgr.unlock("correct_pass").unwrap();
    mgr.lock();
    let ok = mgr.unlock("wrong_pass").unwrap();
    assert!(!ok);
    assert!(!mgr.is_unlocked());
}

#[test]
fn test_lock() {
    let mut mgr = setup();
    mgr.unlock("pass").unwrap();
    assert!(mgr.is_unlocked());
    mgr.lock();
    assert!(!mgr.is_unlocked());
}

#[test]
fn test_derived_key_available_when_unlocked() {
    let mut mgr = setup();
    assert!(mgr.get_derived_key().is_none());
    mgr.unlock("pass").unwrap();
    assert!(mgr.get_derived_key().is_some());
    mgr.lock();
    assert!(mgr.get_derived_key().is_none());
}

// ─── Save / Get / Decrypt Credentials ───

#[test]
fn test_save_and_decrypt_credential() {
    let mut mgr = setup();
    mgr.unlock("master").unwrap();
    let id = mgr.save_credential("https://example.com", "user1", "secret123").unwrap();
    assert!(!id.is_empty());

    let creds = mgr.get_credentials("https://example.com").unwrap();
    assert_eq!(creds.len(), 1);
    assert_eq!(creds[0].username, "user1");

    let password = mgr.decrypt_password(&creds[0]).unwrap();
    assert_eq!(password, "secret123");
}

#[test]
fn test_list_all_credentials() {
    let mut mgr = setup();
    mgr.unlock("master").unwrap();
    mgr.save_credential("https://a.com", "u1", "p1").unwrap();
    mgr.save_credential("https://b.com", "u2", "p2").unwrap();
    let all = mgr.list_all_credentials().unwrap();
    assert_eq!(all.len(), 2);
}

#[test]
fn test_get_credentials_filters_by_url() {
    let mut mgr = setup();
    mgr.unlock("master").unwrap();
    mgr.save_credential("https://a.com", "u1", "p1").unwrap();
    mgr.save_credential("https://b.com", "u2", "p2").unwrap();
    let a_creds = mgr.get_credentials("https://a.com").unwrap();
    assert_eq!(a_creds.len(), 1);
    assert_eq!(a_creds[0].username, "u1");
}

#[test]
fn test_save_credential_requires_unlock() {
    let mut mgr = setup();
    let result = mgr.save_credential("https://x.com", "u", "p");
    assert!(result.is_err());
}

#[test]
fn test_decrypt_requires_unlock() {
    let mut mgr = setup();
    mgr.unlock("master").unwrap();
    let id = mgr.save_credential("https://x.com", "u", "p").unwrap();
    let creds = mgr.list_all_credentials().unwrap();
    let entry = creds.iter().find(|c| c.id == id).unwrap().clone();
    mgr.lock();
    let result = mgr.decrypt_password(&entry);
    assert!(result.is_err());
}

// ─── Update / Delete ───

#[test]
fn test_update_credential_username() {
    let mut mgr = setup();
    mgr.unlock("master").unwrap();
    let id = mgr.save_credential("https://x.com", "old_user", "pass").unwrap();
    mgr.update_credential(&id, Some("new_user"), None).unwrap();
    let creds = mgr.list_all_credentials().unwrap();
    assert_eq!(creds[0].username, "new_user");
}

#[test]
fn test_update_credential_password() {
    let mut mgr = setup();
    mgr.unlock("master").unwrap();
    let id = mgr.save_credential("https://x.com", "user", "old_pass").unwrap();
    mgr.update_credential(&id, None, Some("new_pass")).unwrap();
    let creds = mgr.list_all_credentials().unwrap();
    let pw = mgr.decrypt_password(&creds[0]).unwrap();
    assert_eq!(pw, "new_pass");
}

#[test]
fn test_delete_credential() {
    let mut mgr = setup();
    mgr.unlock("master").unwrap();
    let id = mgr.save_credential("https://x.com", "u", "p").unwrap();
    assert_eq!(mgr.list_all_credentials().unwrap().len(), 1);
    mgr.delete_credential(&id).unwrap();
    assert_eq!(mgr.list_all_credentials().unwrap().len(), 0);
}

// ─── Password Generation ───

#[test]
fn test_generate_password_default_options() {
    let mgr = setup();
    let opts = PasswordGenOptions { length: 16, uppercase: true, lowercase: true, numbers: true, symbols: true };
    let pw = mgr.generate_password(&opts).unwrap();
    assert_eq!(pw.len(), 16);
}

#[test]
fn test_generate_password_custom_length() {
    let mgr = setup();
    let opts = PasswordGenOptions { length: 32, uppercase: true, lowercase: true, numbers: true, symbols: false };
    let pw = mgr.generate_password(&opts).unwrap();
    assert_eq!(pw.len(), 32);
}

#[test]
fn test_generate_password_only_lowercase() {
    let mgr = setup();
    let opts = PasswordGenOptions { length: 20, uppercase: false, lowercase: true, numbers: false, symbols: false };
    let pw = mgr.generate_password(&opts).unwrap();
    assert_eq!(pw.len(), 20);
    assert!(pw.chars().all(|c| c.is_ascii_lowercase()));
}

#[test]
fn test_generate_password_only_numbers() {
    let mgr = setup();
    let opts = PasswordGenOptions { length: 10, uppercase: false, lowercase: false, numbers: true, symbols: false };
    let pw = mgr.generate_password(&opts).unwrap();
    assert_eq!(pw.len(), 10);
    assert!(pw.chars().all(|c| c.is_ascii_digit()));
}

#[test]
fn test_generate_password_all_disabled_falls_back() {
    let mgr = setup();
    let opts = PasswordGenOptions { length: 12, uppercase: false, lowercase: false, numbers: false, symbols: false };
    let pw = mgr.generate_password(&opts).unwrap();
    // Should fall back to lowercase
    assert_eq!(pw.len(), 12);
    assert!(pw.chars().all(|c| c.is_ascii_lowercase()));
}

#[test]
fn test_generate_password_uniqueness() {
    let mgr = setup();
    let opts = PasswordGenOptions { length: 20, uppercase: true, lowercase: true, numbers: true, symbols: true };
    let pw1 = mgr.generate_password(&opts).unwrap();
    let pw2 = mgr.generate_password(&opts).unwrap();
    assert_ne!(pw1, pw2);
}

// ─── Vault state machine ───

#[test]
fn test_end_to_end_scenario() {
    let mut mgr = setup();
    assert_eq!(mgr.unlock("pw1").unwrap(), true);
    let id = mgr.save_credential("https://example.com", "alice", "s3cret").unwrap();
    let entry = mgr.list_all_credentials().unwrap().into_iter().find(|c| c.id == id).unwrap();
    assert_eq!(mgr.decrypt_password(&entry).unwrap(), "s3cret");
    mgr.lock();
    assert!(matches!(mgr.decrypt_password(&entry), Err(CryptoError::VaultLocked)));
    assert_eq!(mgr.unlock("pw1").unwrap(), true);
    assert_eq!(mgr.decrypt_password(&entry).unwrap(), "s3cret");
}

#[test]
fn test_wrong_password_leaves_records_unchanged() {
    let mut mgr = setup();
    assert!(mgr.unlock("pw").unwrap());
    mgr.lock();
    let salt = mgr.records().master_salt.clone();
    let token = mgr.records().verification_token.clone().unwrap();
    assert!(!mgr.unlock("other").unwrap());
    assert_eq!(mgr.records().master_salt, salt);
    let after = mgr.records().verification_token.clone().unwrap();
    assert_eq!(after.ciphertext, token.ciphertext);
    assert_eq!(after.iv, token.iv);
    assert!(mgr.unlock("pw").unwrap());
    assert!(mgr.unlock("pw").unwrap());
}

#[test]
fn test_unlock_survives_reload_of_records() {
    let mut mgr = setup();
    assert!(mgr.unlock("pw").unwrap());
    let id = mgr.save_credential("https://a.com", "u", "p").unwrap();
    let records = VaultRecords {
        master_salt: mgr.records().master_salt.clone(),
        verification_token: mgr.records().verification_token.clone(),
        credentials: mgr.records().credentials.clone(),
    };
    let mut reloaded = PasswordManager::new(records);
    assert!(!reloaded.unlock("nope").unwrap());
    assert!(reloaded.unlock("pw").unwrap());
    let entry = reloaded.list_all_credentials().unwrap().into_iter().find(|c| c.id == id).unwrap();
    assert_eq!(reloaded.decrypt_password(&entry).unwrap(), "p");
}

#[test]
fn test_locked_state_rejects_every_credential_operation() {
    let mut mgr = setup();
    assert!(mgr.unlock("pw").unwrap());
    let id = mgr.save_credential("https://a.com", "u", "p").unwrap();
    let entry = mgr.list_all_credentials().unwrap().remove(0);
    mgr.lock();
    assert!(matches!(mgr.save_credential("https://a.com", "u", "p"), Err(CryptoError::VaultLocked)));
    assert!(matches!(mgr.get_credentials("https://a.com"), Err(CryptoError::VaultLocked)));
    assert!(matches!(mgr.list_all_credentials(), Err(CryptoError::VaultLocked)));
    assert!(matches!(mgr.decrypt_password(&entry), Err(CryptoError::VaultLocked)));
    assert!(matches!(mgr.update_credential(&id, Some("x"), None), Err(CryptoError::VaultLocked)));
    assert!(matches!(mgr.delete_credential(&id), Err(CryptoError::VaultLocked)));
    assert!(mgr.unlock("pw").unwrap());
    assert!(mgr.get_credentials("https://a.com").is_ok());
    assert!(mgr.update_credential(&id, Some("x"), None).is_ok());
    assert!(mgr.delete_credential(&id).is_ok());
}

#[test]
fn test_update_unknown_id_is_not_found() {
    let mut mgr = setup();
    assert!(mgr.unlock("pw").unwrap());
    assert!(matches!(mgr.update_credential("missing", Some("u"), None), Err(CryptoError::NotFound(_))));
    assert!(mgr.delete_credential("missing").is_ok());
}

#[test]
fn test_export_import_roundtrip() {
    let mut mgr = setup();
    assert!(mgr.unlock("pw").unwrap());
    let archive = mgr.seal_export("export-pw", b"[1,2,3]").unwrap();
    assert_eq!(archive.salt.len(), 16);
    assert_eq!(mgr.open_export("export-pw", &archive).unwrap(), b"[1,2,3]".to_vec());
    assert!(mgr.open_export("other", &archive).is_err());

    let id = mgr.save_credential("https://a.com", "u", "p").unwrap();
    let mut entries = mgr.list_all_credentials().unwrap();
    entries[0].username = "renamed".to_string();
    let mut other = entries[0].clone();
    other.id = "imported-1".to_string();
    entries.push(other);
    assert_eq!(mgr.import_credentials(entries).unwrap(), 2);
    let all = mgr.list_all_credentials().unwrap();
    assert_eq!(all.len(), 2);
    assert_eq!(all.iter().find(|c| c.id == id).unwrap().username, "renamed");
    mgr.lock();
    assert!(matches!(mgr.seal_export("export-pw", b"x"), Err(CryptoError::VaultLocked)));
    assert!(matches!(mgr.import_credentials(Vec::new()), Err(CryptoError::VaultLocked)));
}

#[test]
fn test_list_all_newest_first() {
    let mut mgr = setup();
    assert!(mgr.unlock("pw").unwrap());
    mgr.save_credential("https://a.com", "u", "p").unwrap();
    let template = mgr.list_all_credentials().unwrap().remove(0);
    let mut entries = Vec::new();
    for (id, t) in [("old", 100i64), ("new", 300), ("mid", 200), ("mid2", 200)] {
        let mut e = template.clone();
        e.id = id.to_string();
        e.updated_at = t;
        entries.push(e);
    }
    mgr.delete_credential(&template.id).unwrap();
    assert_eq!(mgr.import_credentials(entries).unwrap(), 4);
    let ids: Vec<String> = mgr.list_all_credentials().unwrap().into_iter().map(|c| c.id).collect();
    assert_eq!(ids, vec!["new", "mid", "mid2", "old"]);
}

#[test]
fn test_save_credential_ids_and_duplicates() {
    let mut mgr = setup();
    assert!(matches!(mgr.save_credential_as("fixed", "https://a.com", "u", "p"), Err(CryptoError::VaultLocked)));
    assert!(mgr.unlock("pw").unwrap());
    let id = mgr.save_credential("https://a.com", "u", "p").unwrap();
    assert_eq!(id.len(), 36);
    assert_eq!(id.matches('-').count(), 4);
    mgr.save_credential_as("fixed", "https://b.com", "v", "q").unwrap();
    match mgr.save_credential_as("fixed", "https://c.com", "w", "r") {
        Err(CryptoError::AlreadyExists(x)) => assert_eq!(x, "fixed"),
        other => panic!("expected AlreadyExists, got {:?}", other.map(|_| ())),
    }
    assert_eq!(mgr.list_all_credentials().unwrap().len(), 2);
    assert_eq!(CryptoError::AlreadyExists("fixed".to_string()).message(), "Already exists: fixed");
}
