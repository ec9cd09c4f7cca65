use gitbrowser::context::SecretContext;
use gitbrowser::dependent::{DependentSecretStore, KeyOrigin};
use gitbrowser::errors::CryptoError;
use gitbrowser::facade::SecretStoreFacade;
use gitbrowser::providers::{AIAssistant, AIProviderName, ApiKeyRows, GitHubIntegration};
use gitbrowser::vault::{PasswordManager, VaultRecords};

fn fresh_context() -> SecretContext {
    SecretContext::new(
        PasswordManager::new(VaultRecords::new()),
        GitHubIntegration::new(None).unwrap(),
        AIAssistant::new(ApiKeyRows { open_router: None, open_ai: None, anthropic: None, deep_seek: None }).unwrap(),
        SecretStoreFacade::new(),
    )
}

#[test]
fn test_facade_master_secret_needs_unlock() {
    let mut ctx = fresh_context();
    assert!(ctx.unlock("pw").unwrap());
    ctx.secret_store("token", "abc").unwrap();
    assert!(ctx.secrets.rows()[0].uses_master);
    ctx.lock();
    assert!(matches!(ctx.secret_get("token"), Err(CryptoError::MasterRequired)));
    assert!(ctx.unlock("pw").unwrap());
    assert_eq!(ctx.secret_get("token").unwrap(), Some("abc".to_string()));
}

#[test]
fn test_facade_fallback_secret_readable_while_locked() {
    let mut ctx = fresh_context();
    ctx.secret_store("k", "v").unwrap();
    assert!(!ctx.secrets.rows()[0].uses_master);
    assert_eq!(ctx.secret_get("k").unwrap(), Some("v".to_string()));
    assert_eq!(ctx.secret_get("absent").unwrap(), None);
    ctx.secret_store("k", "w").unwrap();
    assert_eq!(ctx.secrets.rows().len(), 1);
    assert_eq!(ctx.secret_get("k").unwrap(), Some("w".to_string()));
    ctx.secret_delete("k").unwrap();
    ctx.secret_delete("k").unwrap();
    assert_eq!(ctx.secret_get("k").unwrap(), None);
}

#[test]
fn test_first_unlock_rekeys_dependent_stores() {
    let mut ctx = fresh_context();
    ctx.github.store_token("ghp_token", "octo", None).unwrap();
    ctx.ai.set_api_key(&AIProviderName::OpenAI, "sk-1").unwrap();
    assert_eq!(ctx.github.token_store().key_origin(), KeyOrigin::Fallback);
    assert!(ctx.unlock("pw").unwrap());
    assert!(ctx.rekeyed);
    assert_eq!(ctx.github.token_store().key_origin(), KeyOrigin::Master);
    assert_eq!(ctx.ai.key_store(&AIProviderName::OpenAI).key_origin(), KeyOrigin::Master);
    assert_eq!(ctx.github.get_token().unwrap(), Some("ghp_token".to_string()));
    assert_eq!(ctx.ai.get_api_key(&AIProviderName::OpenAI).unwrap(), Some("sk-1".to_string()));
    let report = ctx.last_rekey.as_ref().unwrap();
    assert!(report.github.is_ok() && report.ai.is_ok());
    // Locking does not move the stores back to the fallback key.
    ctx.lock();
    assert_eq!(ctx.github.token_store().key_origin(), KeyOrigin::Master);
}

#[test]
fn test_wrong_password_does_not_rekey() {
    let mut ctx = fresh_context();
    assert!(ctx.unlock("pw").unwrap());
    let mut ctx2 = SecretContext::new(
        PasswordManager::new(VaultRecords {
            master_salt: ctx.vault.records().master_salt.clone(),
            verification_token: ctx.vault.records().verification_token.clone(),
            credentials: Vec::new(),
        }),
        GitHubIntegration::new(None).unwrap(),
        AIAssistant::new(ApiKeyRows { open_router: None, open_ai: None, anthropic: None, deep_seek: None }).unwrap(),
        SecretStoreFacade::new(),
    );
    assert!(!ctx2.unlock("wrong").unwrap());
    assert!(!ctx2.rekeyed);
    assert_eq!(ctx2.github.token_store().key_origin(), KeyOrigin::Fallback);
    ctx.lock();
}

#[test]
fn test_dependent_store_rekey_preserves_value() {
    let mut store = DependentSecretStore::new("passphrase", b"salt-bytes", None).unwrap();
    assert!(!store.is_authenticated());
    store.store(b"the secret").unwrap();
    assert_eq!(store.get().unwrap(), Some(b"the secret".to_vec()));
    store.rekey(&[9u8; 32]).unwrap();
    assert_eq!(store.key_origin(), KeyOrigin::Master);
    assert_eq!(store.get().unwrap(), Some(b"the secret".to_vec()));
    store.clear();
    assert_eq!(store.get().unwrap(), None);
}
