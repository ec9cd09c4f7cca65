use vstd::prelude::*;
use vstd::utf8::{encode_utf8, valid_utf8};

use crate::credential::EncryptedData;
use crate::crypto::{derived_key, seals, CryptoService, CryptoServiceTrait, KEY_LENGTH};
use crate::dependent::{rekey_outcome, store_outcome, DependentSecretStore, StoreView};
use crate::errors::{CryptoError, GitHubError};
use crate::vault::{unix_now, utf8_text};

verus! {

broadcast use vstd::utf8::encode_utf8_decode_utf8, vstd::utf8::decode_utf8_encode_utf8;

/// Built-in passphrase of the GitHub token store's fallback key.
pub const GITHUB_KEY_PASSPHRASE: &'static str = "gitbrowser-github-key-v1";

/// Built-in salt of the GitHub token store's fallback key.
pub const GITHUB_KEY_SALT: &'static str = "gitbrowser-ghky";

/// Built-in passphrase of the AI key store's fallback key.
pub const AI_KEY_PASSPHRASE: &'static str = "gitbrowser-ai-key-v1";

/// Built-in salt of the AI key store's fallback key.
pub const AI_KEY_SALT: &'static str = "gitbrowser-aiky";

/// What reading a stored text secret returns (`None` standing for an error): nothing
/// without a row, else the text whose UTF-8 bytes the row seals under the active key, and
/// an error only when no valid UTF-8 plaintext is sealed there.
pub open spec fn text_secret_read(s: StoreView, r: Option<Option<Seq<char>>>) -> bool {
    match s.row {
        None => r == Some(None::<Seq<char>>),
        Some(b) => match r {
            Some(Some(t)) => seals(b, s.key, encode_utf8(t))
                && forall|q: Seq<u8>| #[trigger] seals(b, s.key, q) ==> q == encode_utf8(t),
            Some(None) => false,
            None => forall|q: Seq<u8>| #[trigger] seals(b, s.key, q) ==> !valid_utf8(q),
        },
    }
}

/// Reads the secret of `store` as text.
fn read_text(store: &DependentSecretStore) -> (r: Result<Option<String>, CryptoError>)
    requires
        store.wf(),
    ensures
        text_secret_read(store@, match r {
            Ok(Some(t)) => Some(Some(t@)),
            Ok(None) => Some(None),
            Err(_) => None,
        }),
{
    match store.get() {
        Ok(None) => Ok(None),
        Ok(Some(p)) => match utf8_text(p) {
            Some(t) => Ok(Some(t)),
            None => Err(CryptoError::Decryption("secret is not valid UTF-8".to_owned())),
        },
        Err(e) => Err(e),
    }
}

/// A rekey of store `s0` to `master_key` ended in `s1`, and succeeded exactly if `ok`.
pub open spec fn rekeyed(s0: StoreView, master_key: Seq<u8>, s1: StoreView, ok: bool) -> bool {
    exists|inner: Result<(), CryptoError>| #[trigger] rekey_outcome(s0, master_key, s1, inner) && (inner is Ok <==> ok)
}

/// A rekey of store `s0` to `master_key` ended in `s1`, and succeeded if `all_ok`.
pub open spec fn slot_rekeyed(s0: StoreView, master_key: Seq<u8>, s1: StoreView, all_ok: bool) -> bool {
    exists|inner: Result<(), CryptoError>| #[trigger] rekey_outcome(s0, master_key, s1, inner) && (all_ok ==> inner is Ok)
}

/// The persisted GitHub sign-in: the encrypted token and the profile it belongs to.
pub struct GitHubAuthRow {
    pub token: EncryptedData,
    pub login: String,
    pub avatar_url: Option<String>,
    pub updated_at: i64,
}

/// The state of a [`GitHubIntegration`].
pub struct GitHubView {
    pub token: StoreView,
    pub login: Option<Seq<char>>,
    pub avatar_url: Option<Seq<char>>,
}

/// GitHub sign-in state, with the OAuth token kept in a dependent secret store.
pub struct GitHubIntegration {
    store: DependentSecretStore,
    login: Option<String>,
    avatar_url: Option<String>,
    updated_at: i64,
}

pub open spec fn opt_text(o: Option<String>) -> Option<Seq<char>> {
    match o {
        Some(s) => Some(s@),
        None => None,
    }
}

impl View for GitHubIntegration {
    type V = GitHubView;

    closed spec fn view(&self) -> GitHubView {
        GitHubView { token: self.store@, login: opt_text(self.login), avatar_url: opt_text(self.avatar_url) }
    }
}

impl GitHubIntegration {
    pub closed spec fn wf(&self) -> bool {
        self.store.wf()
    }

    /// The integration over its persisted sign-in, if any, keyed by its fallback key.
    pub fn new(saved: Option<GitHubAuthRow>) -> (r: Result<Self, CryptoError>)
        ensures
            r matches Ok(g) && g.wf() && g@.token.key == derived_key(GITHUB_KEY_PASSPHRASE@, encode_utf8(GITHUB_KEY_SALT@))
                && g@.token.origin == crate::dependent::KeyOrigin::Fallback
                && g@.token.authenticated == saved is Some,
    {
        let (row, login, avatar_url, updated_at) = match saved {
            Some(s) => (Some(s.token), Some(s.login), s.avatar_url, s.updated_at),
            None => (None, None, None, 0i64),
        };
        let store = match DependentSecretStore::new(GITHUB_KEY_PASSPHRASE, GITHUB_KEY_SALT.as_bytes(), row) {
            Ok(s) => s,
            Err(e) => return Err(e),
        };
        Ok(GitHubIntegration { store, login, avatar_url, updated_at })
    }

    /// The token store.
    pub fn token_store(&self) -> (r: &DependentSecretStore)
        ensures
            r@ == self@.token,
            self.wf() ==> r.wf(),
    {
        &self.store
    }

    /// The persisted sign-in, for writing back to storage.
    pub fn saved_row(&self) -> (r: Option<GitHubAuthRow>)
        ensures
            r matches Some(row) ==> self@.token.row == Some(row.token@),
            r is None ==> self@.token.row is None || self@.login is None,
    {
        match (self.store.row(), &self.login) {
            (Some(b), Some(l)) => Some(GitHubAuthRow {
                token: b.clone(),
                login: l.clone(),
                avatar_url: self.avatar_url.clone(),
                updated_at: self.updated_at,
            }),
            _ => None,
        }
    }

    /// Encrypts and stores the OAuth token with the profile it belongs to.
    pub fn store_token(&mut self, token: &str, login: &str, avatar_url: Option<&str>) -> (r: Result<(), GitHubError>)
        requires
            old(self).wf(),
        ensures
            final(self).wf(),
            exists|inner: Result<(), CryptoError>| #[trigger] store_outcome(old(self)@.token, encode_utf8(token@), final(self)@.token, inner)
                && (inner is Ok <==> r is Ok),
            r is Ok ==> final(self)@.login == Some(login@)
                && final(self)@.avatar_url == crate::vault::text_of(avatar_url),
            r matches Err(e) ==> e is AuthFailed && final(self)@ == old(self)@,
    {
        match self.store.store(token.as_bytes()) {
            Ok(()) => {},
            Err(e) => return Err(GitHubError::AuthFailed(e.message())),
        }
        self.login = Some(login.to_owned());
        self.avatar_url = match avatar_url {
            Some(a) => Some(a.to_owned()),
            None => None,
        };
        self.updated_at = unix_now();
        Ok(())
    }

    /// The stored OAuth token, if any.
    pub fn get_token(&self) -> (r: Result<Option<String>, GitHubError>)
        requires
            self.wf(),
        ensures
            text_secret_read(self@.token, match r {
                Ok(Some(t)) => Some(Some(t@)),
                Ok(None) => Some(None),
                Err(_) => None,
            }),
            r matches Err(e) ==> e is AuthFailed,
    {
        match read_text(&self.store) {
            Ok(t) => Ok(t),
            Err(e) => Err(GitHubError::AuthFailed(e.message())),
        }
    }

    /// Forgets the token and profile.
    pub fn logout(&mut self) -> (r: Result<(), GitHubError>)
        ensures
            r is Ok,
            final(self)@.token == (StoreView { row: None, authenticated: false, ..old(self)@.token }),
            final(self)@.login is None,
            final(self).wf() == old(self).wf(),
    {
        self.store.clear();
        self.login = None;
        self.avatar_url = None;
        Ok(())
    }

    /// Whether a sign-in was persisted when the integration was built.
    pub fn is_authenticated(&self) -> (r: bool)
        ensures
            r == self@.token.authenticated,
    {
        self.store.is_authenticated()
    }

    /// Encrypts sync data under the store's active key.
    pub fn encrypt_for_sync(&self, data: &[u8]) -> (r: Result<EncryptedData, GitHubError>)
        requires
            self.wf(),
        ensures
            match r {
                Ok(b) => seals(b@, self@.token.key, data@),
                Err(e) => e is ApiError,
            },
    {
        match self.store.encrypt_with_active_key(data) {
            Ok(b) => Ok(b),
            Err(e) => Err(GitHubError::ApiError(e.message())),
        }
    }

    /// Decrypts sync data under the store's active key.
    pub fn decrypt_from_sync(&self, encrypted: &EncryptedData) -> (r: Result<Vec<u8>, GitHubError>)
        requires
            self.wf(),
        ensures
            match r {
                Ok(p) => seals(encrypted@, self@.token.key, p@),
                Err(e) => e is ApiError && forall|q: Seq<u8>| !#[trigger] seals(encrypted@, self@.token.key, q),
            },
    {
        match self.store.decrypt_with_active_key(encrypted) {
            Ok(p) => Ok(p),
            Err(e) => Err(GitHubError::ApiError(e.message())),
        }
    }

    /// Re-encrypts the stored token under the master key and makes it the active key.
    pub fn rekey_with_master(&mut self, master_key: &[u8]) -> (r: Result<(), GitHubError>)
        requires
            old(self).wf(),
        ensures
            final(self).wf(),
            rekeyed(old(self)@.token, master_key@, final(self)@.token, r is Ok),
            final(self)@.login == old(self)@.login,
            r matches Err(e) ==> e is AuthFailed && final(self)@ == old(self)@,
    {
        match self.store.rekey(master_key) {
            Ok(()) => Ok(()),
            Err(e) => Err(GitHubError::AuthFailed(e.message())),
        }
    }
}

/// Supported AI provider names.
#[derive(Debug, Clone, Copy, PartialEq, Eq, Structural)]
pub enum AIProviderName {
    OpenRouter,
    OpenAI,
    Anthropic,
    DeepSeek,
}

/// The persisted API keys, one optional encrypted row per provider.
pub struct ApiKeyRows {
    pub open_router: Option<EncryptedData>,
    pub open_ai: Option<EncryptedData>,
    pub anthropic: Option<EncryptedData>,
    pub deep_seek: Option<EncryptedData>,
}

/// The key stores of an [`AIAssistant`], one per provider.
pub struct AIKeysView {
    pub open_router: StoreView,
    pub open_ai: StoreView,
    pub anthropic: StoreView,
    pub deep_seek: StoreView,
}

impl AIKeysView {
    pub open spec fn slot(&self, p: AIProviderName) -> StoreView {
        match p {
            AIProviderName::OpenRouter => self.open_router,
            AIProviderName::OpenAI => self.open_ai,
            AIProviderName::Anthropic => self.anthropic,
            AIProviderName::DeepSeek => self.deep_seek,
        }
    }
}

/// API keys of the AI providers, each kept in its own dependent secret store.
pub struct AIAssistant {
    open_router: DependentSecretStore,
    open_ai: DependentSecretStore,
    anthropic: DependentSecretStore,
    deep_seek: DependentSecretStore,
}

impl View for AIAssistant {
    type V = AIKeysView;

    closed spec fn view(&self) -> AIKeysView {
        AIKeysView {
            open_router: self.open_router@,
            open_ai: self.open_ai@,
            anthropic: self.anthropic@,
            deep_seek: self.deep_seek@,
        }
    }
}

impl AIAssistant {
    pub closed spec fn wf(&self) -> bool {
        &&& self.open_router.wf()
        &&& self.open_ai.wf()
        &&& self.anthropic.wf()
        &&& self.deep_seek.wf()
    }

    /// The assistant over its persisted API keys, all under the fallback key.
    pub fn new(saved: ApiKeyRows) -> (r: Result<Self, CryptoError>)
        ensures
            r matches Ok(a) && a.wf() && forall|p: AIProviderName| #[trigger] a@.slot(p).key == derived_key(AI_KEY_PASSPHRASE@, encode_utf8(AI_KEY_SALT@))
                && a@.slot(p).origin == crate::dependent::KeyOrigin::Fallback,
    {
        let crypto = CryptoService::new();
        let key = match crypto.derive_key(AI_KEY_PASSPHRASE, AI_KEY_SALT.as_bytes()) {
            Ok(k) => k,
            Err(e) => return Err(e),
        };
        Ok(AIAssistant {
            open_router: DependentSecretStore::with_fallback_key(key.clone(), saved.open_router),
            open_ai: DependentSecretStore::with_fallback_key(key.clone(), saved.open_ai),
            anthropic: DependentSecretStore::with_fallback_key(key.clone(), saved.anthropic),
            deep_seek: DependentSecretStore::with_fallback_key(key, saved.deep_seek),
        })
    }

    /// The key store of `provider`.
    pub fn key_store(&self, provider: &AIProviderName) -> (r: &DependentSecretStore)
        ensures
            r@ == self@.slot(*provider),
            self.wf() ==> r.wf(),
    {
        match provider {
            AIProviderName::OpenRouter => &self.open_router,
            AIProviderName::OpenAI => &self.open_ai,
            AIProviderName::Anthropic => &self.anthropic,
            AIProviderName::DeepSeek => &self.deep_seek,
        }
    }

    /// Encrypts and stores the API key of `provider`.
    pub fn set_api_key(&mut self, provider_name: &AIProviderName, api_key: &str) -> (r: Result<(), CryptoError>)
        requires
            old(self).wf(),
        ensures
            final(self).wf(),
            store_outcome(old(self)@.slot(*provider_name), encode_utf8(api_key@), final(self)@.slot(*provider_name), r),
            forall|p: AIProviderName| p != *provider_name ==> #[trigger] final(self)@.slot(p) == old(self)@.slot(p),
    {
        let bytes = api_key.as_bytes();
        match provider_name {
            AIProviderName::OpenRouter => self.open_router.store(bytes),
            AIProviderName::OpenAI => self.open_ai.store(bytes),
            AIProviderName::Anthropic => self.anthropic.store(bytes),
            AIProviderName::DeepSeek => self.deep_seek.store(bytes),
        }
    }

    /// The stored API key of `provider`, if any.
    pub fn get_api_key(&self, provider_name: &AIProviderName) -> (r: Result<Option<String>, CryptoError>)
        requires
            self.wf(),
        ensures
            text_secret_read(self@.slot(*provider_name), match r {
                Ok(Some(t)) => Some(Some(t@)),
                Ok(None) => Some(None),
                Err(_) => None,
            }),
    {
        read_text(self.key_store(provider_name))
    }

    /// Rekeys every provider's store to the master key. A store that fails keeps its row
    /// and key and does not stop the others; the first failure is reported.
    pub fn rekey_with_master(&mut self, master_key: &[u8]) -> (r: Result<(), CryptoError>)
        requires
            old(self).wf(),
        ensures
            final(self).wf(),
            forall|p: AIProviderName| #[trigger] slot_rekeyed(old(self)@.slot(p), master_key@, final(self)@.slot(p), r is Ok),
            master_key@.len() == KEY_LENGTH && (forall|p: AIProviderName| (#[trigger] old(self)@.slot(p)).row is None) ==> r is Ok,
    {
        let r1 = self.open_router.rekey(master_key);
        let r2 = self.open_ai.rekey(master_key);
        let r3 = self.anthropic.rekey(master_key);
        let r4 = self.deep_seek.rekey(master_key);
        let ghost v = self@;
        let ghost all_ok = r1 is Ok && r2 is Ok && r3 is Ok && r4 is Ok;
        proof {
            if master_key@.len() == KEY_LENGTH && (forall|p: AIProviderName| (#[trigger] old(self)@.slot(p)).row is None) {
                assert(old(self)@.slot(AIProviderName::OpenRouter).row is None);
                assert(old(self)@.slot(AIProviderName::OpenAI).row is None);
                assert(old(self)@.slot(AIProviderName::Anthropic).row is None);
                assert(old(self)@.slot(AIProviderName::DeepSeek).row is None);
                assert(all_ok);
            }
        }
        assert forall|p: AIProviderName| #[trigger] slot_rekeyed(old(self)@.slot(p), master_key@, v.slot(p), all_ok) by {
            match p {
                AIProviderName::OpenRouter => assert(rekey_outcome(old(self)@.slot(p), master_key@, v.slot(p), r1)),
                AIProviderName::OpenAI => assert(rekey_outcome(old(self)@.slot(p), master_key@, v.slot(p), r2)),
                AIProviderName::Anthropic => assert(rekey_outcome(old(self)@.slot(p), master_key@, v.slot(p), r3)),
                AIProviderName::DeepSeek => assert(rekey_outcome(old(self)@.slot(p), master_key@, v.slot(p), r4)),
            }
        }
        if r1.is_err() {
            r1
        } else if r2.is_err() {
            r2
        } else if r3.is_err() {
            r3
        } else {
            r4
        }
    }
}

} // verus!
